//! What an operator configures: the feeds to watch, where their news goes and
//! how long a delivered item is remembered.

use vstd::prelude::*;
use vstd::string::StringExecFns;

verus! {

/// Where a message is delivered: a chat by its number, or a channel by its
/// public name.
#[derive(Clone, Debug, PartialEq, Eq)]
pub enum Destination {
    Id(i64),
    ChannelUsername(String),
}

/// A destination, as mathematical values.
pub enum Address {
    Id(int),
    ChannelUsername(Seq<char>),
}

impl View for Destination {
    type V = Address;

    open spec fn view(&self) -> Address {
        match self {
            Destination::Id(id) => Address::Id(*id as int),
            Destination::ChannelUsername(name) => Address::ChannelUsername(name@),
        }
    }
}

impl Destination {
    /// A copy of this destination.
    pub fn duplicate(&self) -> (copy: Destination)
        ensures
            copy@ == self@,
    {
        match self {
            Destination::Id(id) => Destination::Id(*id),
            Destination::ChannelUsername(name) => Destination::ChannelUsername(name.clone()),
        }
    }
}

/// The addresses that a sequence of destinations stands for.
pub open spec fn addresses(chats: Seq<Destination>) -> Seq<Address> {
    chats.map_values(|chat: Destination| chat@)
}

/// One feed, its destinations and its expiry policy.
#[derive(Clone, Debug, PartialEq, Eq)]
pub struct Site {
    pub id: String,
    pub url: String,
    /// Seconds a delivered item is remembered; negative means for ever.
    pub expire_delay: i32,
    pub chats: Vec<Destination>,
}

/// The whole configuration of one process.
#[derive(Clone, Debug, PartialEq, Eq)]
pub struct Config {
    pub sites: Vec<Site>,
    /// Seconds between two rounds over all sites.
    pub news_interval: u64,
    pub db_host: String,
    pub db_port: u16,
}

/// The store's host when the configuration names none.
pub fn default_db_host() -> (host: String)
    ensures
        host@ == "localhost"@,
{
    String::from_str("localhost")
}

/// The store's port when the configuration names none.
pub fn default_db_port() -> (port: u16)
    ensures
        port == 6379,
{
    6379
}

/// Seconds a delivered item is remembered when a site names no delay: one week.
pub fn default_expire_delay() -> (delay: i32)
    ensures
        delay == 604800,
        delay == 7 * 24 * 60 * 60,
{
    604800
}

} // verus!
