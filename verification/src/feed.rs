//! Feed documents: the entries a document holds, in the document's order.

use vstd::prelude::*;
use vstd::string::StringExecFns;
use crate::nesting::{is_shallow, shallow};

verus! {

/// One entry of a feed document. An entry may lack its title, its link or both.
#[derive(Clone, Debug, PartialEq, Eq)]
pub struct Item {
    pub title: Option<String>,
    pub link: Option<String>,
}

/// What an entry holds, as mathematical values.
pub struct Entry {
    pub title: Option<Seq<char>>,
    pub link: Option<Seq<char>>,
}

/// The characters of an optional string.
pub open spec fn text_of(s: Option<String>) -> Option<Seq<char>> {
    match s {
        Some(s) => Some(s@),
        None => None,
    }
}

impl View for Item {
    type V = Entry;

    open spec fn view(&self) -> Entry {
        Entry { title: text_of(self.title), link: text_of(self.link) }
    }
}

/// The entries that a sequence of items stands for.
pub open spec fn entries(items: Seq<Item>) -> Seq<Entry> {
    items.map_values(|item: Item| item@)
}

/// The number of entries without a title.
pub open spec fn untitled(items: Seq<Entry>) -> nat
    decreases items.len(),
{
    if items.len() == 0 {
        0
    } else {
        untitled(items.drop_last()) + if items.last().title is None {
            1nat
        } else {
            0nat
        }
    }
}

/// Counts the items without a title: those that a run passes over.
pub fn count_untitled(items: &Vec<Item>) -> (count: usize)
    ensures
        count == untitled(entries(items@)),
        count <= items.len(),
{
    let ghost feed = entries(items@);
    let mut count: usize = 0;
    let mut i: usize = 0;
    while i < items.len()
        invariant
            i <= items.len(),
            count <= i,
            feed == entries(items@),
            count == untitled(feed.take(i as int)),
        decreases items.len() - i,
    {
        assert(feed.take(i + 1).drop_last() == feed.take(i as int));
        if items[i].title.is_none() {
            count = count + 1;
        }
        i = i + 1;
    }
    assert(feed.take(i as int) == feed);
    count
}

/// Why a byte stream was not accepted as a feed document.
#[derive(Clone, Debug, PartialEq, Eq)]
pub struct ParseError {
    pub cause: String,
}

/// `rss::Error`, the reader's error, carried as a value that is not looked
/// into.
#[verifier::external_type_specification]
#[verifier::external_body]
pub struct ExFeedFault(rss::Error);

/// What `rss::Channel::read_from` makes of a byte stream: the title and the link
/// of each item of the channel it returns, in the order of the channel's
/// `items`, or `None` where it returns an error.
pub uninterp spec fn feed_reading(bytes: Seq<u8>) -> Option<Seq<Entry>>;

/// Calls `rss::Channel::read_from` on the bytes and keeps the title and the link
/// of each item of the channel it returns. Trusted: the reader's answer depends
/// on the bytes alone, and is what `feed_reading` names. The reader calls itself
/// for each element that is open inside an extension element and has no limit
/// of its own, so it is called on shallow documents only: there it never has
/// more than `MAX_NESTING` calls of itself under way.
#[verifier::external_body]
fn read_channel(bytes: &[u8]) -> (r: Result<Vec<Item>, rss::Error>)
    requires
        shallow(bytes@),
    ensures
        match r {
            Ok(items) => feed_reading(bytes@) == Some(entries(items@)),
            Err(_) => feed_reading(bytes@) is None,
        },
{
    let channel = rss::Channel::read_from(bytes)?;
    Ok(channel.items.into_iter().map(|i| Item { title: i.title, link: i.link }).collect())
}

/// The entries of a feed document: what the reader makes of it, if the
/// document is shallow; a document that is not is no feed.
pub open spec fn parsed(bytes: Seq<u8>) -> Option<Seq<Entry>> {
    if shallow(bytes) {
        feed_reading(bytes)
    } else {
        None
    }
}

/// Turns fetched bytes into the feed's items, in the feed's order. An entry
/// without a title is no error: it comes back with `title: None`. A document
/// that is not shallow is refused unread.
pub fn parse(bytes: &[u8]) -> (r: Result<Vec<Item>, ParseError>)
    ensures
        r is Ok <==> shallow(bytes@) && feed_reading(bytes@) is Some,
        r matches Ok(items) ==> parsed(bytes@) == Some(entries(items@)),
{
    if !is_shallow(bytes) {
        return Err(
            ParseError {
                cause: String::from_str(
                    "the document nests its elements too deeply or declares markup of its own",
                ),
            },
        );
    }
    match read_channel(bytes) {
        Ok(items) => Ok(items),
        Err(fault) => Err(ParseError { cause: fault.to_string() }),
    }
}

} // verus!
