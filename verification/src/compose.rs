//! The message composer: items go in feed order into one message of bounded
//! length, each as a hyperlink fragment, and only those the store calls new.

use vstd::prelude::*;
use vstd::string::*;
use crate::feed::{entries, Entry, Item};
use crate::store::{lookup_in, novel, DedupStore, Records};

verus! {

/// The longest message, in characters, that a composer builds unless told
/// otherwise.
pub const MESSAGE_BUDGET: usize = 4096;

/// What one pipeline run yields: the message text and the titles of the items
/// that went into it, in feed order.
#[derive(Clone, Debug, PartialEq, Eq)]
pub struct PipelineResult {
    pub message: String,
    pub accepted: Vec<String>,
}

/// A message under construction, as mathematical values.
pub struct Draft {
    pub message: Seq<char>,
    pub accepted: Seq<Seq<char>>,
}

/// The characters of each string of a sequence.
pub open spec fn texts(strings: Seq<String>) -> Seq<Seq<char>> {
    strings.map_values(|s: String| s@)
}

impl View for PipelineResult {
    type V = Draft;

    open spec fn view(&self) -> Draft {
        Draft { message: self.message@, accepted: texts(self.accepted@) }
    }
}

/// The draft that holds nothing yet.
pub open spec fn empty_draft() -> Draft {
    Draft { message: Seq::empty(), accepted: Seq::empty() }
}

/// The link that a fragment points to: the entry's own, or the empty string.
pub open spec fn link_text(link: Option<Seq<char>>) -> Seq<char> {
    match link {
        Some(l) => l,
        None => Seq::empty(),
    }
}

/// The fragment of one item: its title as a hyperlink to its link, followed by
/// an empty line.
pub open spec fn fragment_text(link: Option<Seq<char>>, title: Seq<char>) -> Seq<char> {
    "<a href=\""@ + link_text(link) + "\">"@ + title + "</a>\n\n"@
}

/// A fragment is seventeen characters longer than its link and its title
/// together.
pub proof fn lemma_fragment_length(link: Option<Seq<char>>, title: Seq<char>)
    ensures
        fragment_text(link, title).len() == 17 + link_text(link).len() + title.len(),
{
    reveal_strlit("<a href=\"");
    reveal_strlit("\">");
    reveal_strlit("</a>\n\n");
}

/// There is room for an item while it has a title and its fragment still fits
/// under the cap.
pub open spec fn has_room(draft: Draft, entry: Entry, cap: nat) -> bool {
    entry.title matches Some(title) && draft.message.len() + fragment_text(entry.link, title).len()
        <= cap
}

/// An item is a candidate while there is room for it and its title has not
/// been accepted earlier in the same run. Only for a candidate is the store
/// asked.
pub open spec fn candidate(draft: Draft, entry: Entry, cap: nat) -> bool {
    has_room(draft, entry, cap) && !draft.accepted.contains(entry.title->0)
}

/// The draft with the entry's fragment and title appended.
pub open spec fn accept(draft: Draft, entry: Entry) -> Draft {
    Draft {
        message: draft.message + fragment_text(entry.link, entry.title->0),
        accepted: draft.accepted.push(entry.title->0),
    }
}

/// One item's turn: it is appended if it is a candidate and the store called it
/// new; otherwise the draft stays as it is and the run goes on with the next
/// item.
pub open spec fn compose_step(draft: Draft, entry: Entry, novel: bool, cap: nat) -> Draft {
    if candidate(draft, entry, cap) && novel {
        accept(draft, entry)
    } else {
        draft
    }
}

/// The draft after the first `n` items had their turn, `novel[i]` being the
/// store's answer for item `i`.
pub open spec fn composed_to(items: Seq<Entry>, novel: Seq<bool>, cap: nat, n: nat) -> Draft
    decreases n,
{
    if n == 0 {
        empty_draft()
    } else {
        compose_step(
            composed_to(items, novel, cap, (n - 1) as nat),
            items[n - 1],
            novel[n - 1],
            cap,
        )
    }
}

/// The draft after every item had its turn.
pub open spec fn composed(items: Seq<Entry>, novel: Seq<bool>, cap: nat) -> Draft {
    composed_to(items, novel, cap, items.len())
}

/// Builds the fragment of an item.
pub fn fragment(link: &Option<String>, title: &str) -> (text: String)
    ensures
        text@ == fragment_text(crate::feed::text_of(*link), title@),
{
    let mut text = String::from_str("<a href=\"");
    if let Some(l) = link {
        text.append(l.as_str());
    }
    text.append("\">");
    text.append(title);
    text.append("</a>\n\n");
    text
}

/// A message under construction, with its budget.
pub struct Composer {
    cap: usize,
    length: usize,
    message: String,
    accepted: Vec<String>,
}

impl Composer {
    /// The recorded length is the message's, and the message is within budget.
    pub closed spec fn wf(&self) -> bool {
        self.length == self.message@.len() && self.length <= self.cap
    }

    /// The budget, in characters.
    pub closed spec fn cap(&self) -> nat {
        self.cap as nat
    }

    /// What has been composed so far.
    pub closed spec fn draft(&self) -> Draft {
        Draft { message: self.message@, accepted: texts(self.accepted@) }
    }

    /// A sound composer's message is within its budget.
    pub proof fn lemma_within_budget(&self)
        requires
            self.wf(),
        ensures
            self.draft().message.len() <= self.cap(),
    {
    }

    /// An empty message with room for `cap` characters.
    pub fn new(cap: usize) -> (composer: Composer)
        ensures
            composer.wf(),
            composer.cap() == cap,
            composer.draft() == empty_draft(),
    {
        let composer = Composer { cap, length: 0, message: String::new(), accepted: Vec::new() };
        assert(texts(composer.accepted@) =~= Seq::<Seq<char>>::empty());
        composer
    }

    /// Whether `title` has been accepted already.
    pub fn holds(&self, title: &String) -> (held: bool)
        ensures
            held == self.draft().accepted.contains(title@),
    {
        let mut i: usize = 0;
        while i < self.accepted.len()
            invariant
                i <= self.accepted.len(),
                forall|j: int| 0 <= j < i ==> texts(self.accepted@)[j] != title@,
            decreases self.accepted.len() - i,
        {
            if self.accepted[i] == *title {
                assert(texts(self.accepted@)[i as int] == title@);
                return true;
            }
            i = i + 1;
        }
        false
    }

    /// Whether the store is to be asked about `item`: it has a title that was
    /// not accepted before, and its fragment fits into what is left of the
    /// budget.
    pub fn wants(&self, item: &Item) -> (asked: bool)
        requires
            self.wf(),
        ensures
            asked == candidate(self.draft(), item@, self.cap()),
    {
        match &item.title {
            None => false,
            Some(title) => {
                let text = fragment(&item.link, title.as_str());
                text.as_str().unicode_len() <= self.cap - self.length && !self.holds(title)
            },
        }
    }

    /// Gives `item` its turn, `novel` being the store's answer to whether its
    /// title is new. The answer is not read for an item that `wants` turns down.
    pub fn settle(&mut self, item: &Item, novel: bool)
        requires
            old(self).wf(),
        ensures
            final(self).wf(),
            final(self).cap() == old(self).cap(),
            final(self).draft() == compose_step(old(self).draft(), item@, novel, old(self).cap()),
    {
        match &item.title {
            None => {},
            Some(title) => {
                let text = fragment(&item.link, title.as_str());
                let length = text.as_str().unicode_len();
                if length <= self.cap - self.length && novel && !self.holds(title) {
                    self.length = self.length + length;
                    self.message.append(text.as_str());
                    self.accepted.push(title.clone());
                    assert(texts(self.accepted@) =~= texts(old(self).accepted@).push(title@));
                }
            },
        }
    }

    /// The number of characters composed so far.
    pub fn length(&self) -> (length: usize)
        requires
            self.wf(),
        ensures
            length == self.draft().message.len(),
            length <= self.cap(),
    {
        self.length
    }

    /// The number of titles accepted so far.
    pub fn accepted_len(&self) -> (count: usize)
        ensures
            count == self.draft().accepted.len(),
    {
        self.accepted.len()
    }

    /// The title accepted at place `i`.
    pub fn accepted_title(&self, i: usize) -> (title: &String)
        requires
            i < self.draft().accepted.len(),
        ensures
            title@ == self.draft().accepted[i as int],
    {
        &self.accepted[i]
    }

    /// A copy of what has been composed so far.
    pub fn result(&self) -> (result: PipelineResult)
        ensures
            result@ == self.draft(),
    {
        let mut accepted: Vec<String> = Vec::new();
        let mut i: usize = 0;
        while i < self.accepted.len()
            invariant
                i <= self.accepted.len(),
                texts(accepted@) == texts(self.accepted@).take(i as int),
            decreases self.accepted.len() - i,
        {
            let ghost copied = accepted@;
            accepted.push(self.accepted[i].clone());
            assert(texts(accepted@) =~= texts(copied).push(self.accepted[i as int]@));
            i = i + 1;
        }
        assert(texts(self.accepted@).take(i as int) =~= texts(self.accepted@));
        PipelineResult { message: self.message.clone(), accepted }
    }

    /// Ends the composition.
    pub fn finish(self) -> (result: PipelineResult)
        ensures
            result@ == self.draft(),
    {
        PipelineResult { message: self.message, accepted: self.accepted }
    }
}

/// The answers of a store that holds `records`, asked at `now` about each item
/// in turn. An item without a title is never asked about.
pub open spec fn answers(records: Records, items: Seq<Entry>, now: u64) -> Seq<bool> {
    Seq::new(
        items.len(),
        |i: int| items[i].title matches Some(title) && novel(lookup_in(records, title), now),
    )
}

/// Composes one message from `items`, taken in feed order, asking `store` at
/// `now` whether a title is new. Nothing is written to the store.
pub fn compose(items: &Vec<Item>, store: &DedupStore, now: u64, cap: usize) -> (result:
    PipelineResult)
    requires
        store.wf(),
    ensures
        result@ == composed(entries(items@), answers(store@, entries(items@), now), cap as nat),
{
    let mut composer = Composer::new(cap);
    let ghost feed = entries(items@);
    let ghost said = answers(store@, feed, now);
    let mut i: usize = 0;
    while i < items.len()
        invariant
            i <= items.len(),
            store.wf(),
            composer.wf(),
            composer.cap() == cap,
            feed == entries(items@),
            said == answers(store@, feed, now),
            composer.draft() == composed_to(feed, said, cap as nat, i as nat),
        decreases items.len() - i,
    {
        let item = &items[i];
        if composer.wants(item) {
            let new = match &item.title {
                Some(title) => store.is_new(title.as_str(), now),
                None => false,
            };
            composer.settle(item, new);
        }
        i = i + 1;
    }
    composer.finish()
}

} // verus!
