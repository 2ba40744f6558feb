//! The scheduler's decisions: whose turn it is in a round over all sites, and
//! which deliveries a site's result calls for.

use vstd::prelude::*;
use crate::compose::{Draft, PipelineResult};
use crate::config::{addresses, Address, Destination, Site};

verus! {

/// One message for one destination.
#[derive(Clone, Debug, PartialEq, Eq)]
pub struct Delivery {
    pub to: Destination,
    pub text: String,
    /// The text holds simple hyperlink markup.
    pub hyperlinks: bool,
}

/// A delivery, as mathematical values.
pub struct Parcel {
    pub to: Address,
    pub text: Seq<char>,
    pub hyperlinks: bool,
}

impl View for Delivery {
    type V = Parcel;

    open spec fn view(&self) -> Parcel {
        Parcel { to: self.to@, text: self.text@, hyperlinks: self.hyperlinks }
    }
}

/// The parcels that a sequence of deliveries stands for.
pub open spec fn parcels(plan: Seq<Delivery>) -> Seq<Parcel> {
    plan.map_values(|delivery: Delivery| delivery@)
}

/// The deliveries that a result calls for: none where nothing was accepted,
/// else the message once for each destination, in the order of the
/// destinations.
pub open spec fn planned(chats: Seq<Address>, draft: Draft) -> Seq<Parcel> {
    if draft.accepted.len() == 0 {
        Seq::empty()
    } else {
        chats.map_values(|to: Address| Parcel { to, text: draft.message, hyperlinks: true })
    }
}

/// Lists the deliveries to make for `site` after a run that yielded `result`.
pub fn deliveries(site: &Site, result: &PipelineResult) -> (plan: Vec<Delivery>)
    ensures
        parcels(plan@) == planned(addresses(site.chats@), result@),
{
    let mut plan: Vec<Delivery> = Vec::new();
    if result.accepted.len() == 0 {
        return plan;
    }
    let ghost chats = addresses(site.chats@);
    let mut i: usize = 0;
    while i < site.chats.len()
        invariant
            i <= site.chats.len(),
            result@.accepted.len() > 0,
            chats == addresses(site.chats@),
            parcels(plan@) == planned(chats, result@).take(i as int),
        decreases site.chats.len() - i,
    {
        let ghost listed = plan@;
        let delivery = Delivery {
            to: site.chats[i].duplicate(),
            text: result.message.clone(),
            hyperlinks: true,
        };
        plan.push(delivery);
        assert(parcels(plan@) =~= parcels(listed).push(delivery@));
        i = i + 1;
    }
    plan
}

/// Whose turn it is.
#[derive(Clone, Copy, Debug, PartialEq, Eq, Structural)]
pub enum Turn {
    /// Run the pipeline for the site at this place of the configuration.
    Run(usize),
    /// Every site had its turn: wait this many seconds, then start over.
    Sleep(u64),
}

/// A round over all sites, again and again. How a site's run ended is never
/// asked: a site that fails does not hold up the others.
pub struct Scheduler {
    sites: usize,
    interval: u64,
    next: usize,
}

/// The turn of a scheduler that is to take up site `next` of `sites`.
pub open spec fn turn_of(sites: nat, interval: u64, next: nat) -> Turn {
    if next < sites {
        Turn::Run(next as usize)
    } else {
        Turn::Sleep(interval)
    }
}

/// The site to take up after that turn.
pub open spec fn next_after(sites: nat, next: nat) -> nat {
    if next < sites {
        next + 1
    } else {
        0
    }
}

impl Scheduler {
    /// The place to take up lies within the round.
    pub closed spec fn wf(&self) -> bool {
        self.next <= self.sites
    }

    /// The number of sites.
    pub closed spec fn sites(&self) -> nat {
        self.sites as nat
    }

    /// The seconds to wait between two rounds.
    pub closed spec fn interval(&self) -> u64 {
        self.interval
    }

    /// The site whose turn is next; the number of sites where the round is over.
    pub closed spec fn next(&self) -> nat {
        self.next as nat
    }

    /// A scheduler at the start of its first round.
    pub fn new(sites: usize, interval: u64) -> (scheduler: Scheduler)
        ensures
            scheduler.wf(),
            scheduler.sites() == sites,
            scheduler.interval() == interval,
            scheduler.next() == 0,
    {
        Scheduler { sites, interval, next: 0 }
    }

    /// Says whose turn it is and moves on.
    pub fn turn(&mut self) -> (turn: Turn)
        requires
            old(self).wf(),
        ensures
            final(self).wf(),
            final(self).sites() == old(self).sites(),
            final(self).interval() == old(self).interval(),
            turn == turn_of(old(self).sites(), old(self).interval(), old(self).next()),
            final(self).next() == next_after(old(self).sites(), old(self).next()),
    {
        if self.next < self.sites {
            let site = self.next;
            self.next = self.next + 1;
            Turn::Run(site)
        } else {
            self.next = 0;
            Turn::Sleep(self.interval)
        }
    }
}

} // verus!
