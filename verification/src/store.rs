//! Deduplication records: when a record lapses, how a lookup is read, and an
//! in-memory store that keeps one record per title.

use vstd::prelude::*;

verus! {

/// The moment at which a deduplication record lapses.
#[derive(Clone, Copy, Debug, PartialEq, Eq, Structural)]
pub enum Expiry {
    /// The record lapses once the clock reaches this second.
    At(u64),
    /// The record never lapses.
    Never,
}

impl Expiry {
    /// A record is live at `now` while its expiry lies strictly ahead.
    pub open spec fn live_at(self, now: u64) -> bool {
        match self {
            Expiry::At(t) => now < t,
            Expiry::Never => true,
        }
    }

    /// Whether a record with this expiry still counts at `now`.
    pub fn is_live(&self, now: u64) -> (live: bool)
        ensures
            live == self.live_at(now),
    {
        match self {
            Expiry::At(t) => now < *t,
            Expiry::Never => true,
        }
    }
}

/// The expiry of a record written at `now` with `expire_delay` seconds to live.
/// A negative delay means the record never lapses; so does a delay that ends
/// beyond the last second a `u64` clock can show.
pub open spec fn expiry_of(now: u64, expire_delay: i32) -> Expiry {
    if expire_delay < 0 || now + expire_delay > u64::MAX {
        Expiry::Never
    } else {
        Expiry::At((now + expire_delay) as u64)
    }
}

/// Computes the expiry of a record written at `now`.
pub fn expiry_for(now: u64, expire_delay: i32) -> (expiry: Expiry)
    ensures
        expiry == expiry_of(now, expire_delay),
{
    if expire_delay < 0 {
        Expiry::Never
    } else {
        match now.checked_add(expire_delay as u64) {
            Some(t) => Expiry::At(t),
            None => Expiry::Never,
        }
    }
}

/// What a store holds: for each title it knows, the expiry of its record.
pub type Records = Map<Seq<char>, Expiry>;

/// What the store answered when it was asked for a title's record.
#[derive(Clone, Copy, Debug, PartialEq, Eq, Structural)]
pub enum Lookup {
    /// The store holds no record of the title.
    Absent,
    /// The store holds a record with this expiry.
    Present(Expiry),
    /// The store could not be read.
    Failed,
}

/// A title is new when the store holds no live record of it. A store that
/// could not be read makes no title new: an item dropped in silence is
/// preferred to one delivered twice.
pub open spec fn novel(lookup: Lookup, now: u64) -> bool {
    match lookup {
        Lookup::Absent => true,
        Lookup::Present(expiry) => !expiry.live_at(now),
        Lookup::Failed => false,
    }
}

impl Lookup {
    /// Whether this answer, read at `now`, makes the title new.
    pub fn is_new(&self, now: u64) -> (new: bool)
        ensures
            new == novel(*self, now),
    {
        match self {
            Lookup::Absent => true,
            Lookup::Present(expiry) => !expiry.is_live(now),
            Lookup::Failed => false,
        }
    }
}

/// The score under which an expiry is kept in a sorted set: the second itself,
/// and the largest score for a record that never lapses.
pub open spec fn score_of(expiry: Expiry) -> u64 {
    match expiry {
        Expiry::At(t) => t,
        Expiry::Never => u64::MAX,
    }
}

/// The expiry that a score stands for.
pub open spec fn expiry_from(score: u64) -> Expiry {
    if score == u64::MAX {
        Expiry::Never
    } else {
        Expiry::At(score)
    }
}

impl Expiry {
    /// The score to write for this expiry.
    pub fn score(&self) -> (score: u64)
        ensures
            score == score_of(*self),
    {
        match self {
            Expiry::At(t) => *t,
            Expiry::Never => u64::MAX,
        }
    }

    /// The expiry read back from a score.
    pub fn from_score(score: u64) -> (expiry: Expiry)
        ensures
            expiry == expiry_from(score),
    {
        if score == u64::MAX {
            Expiry::Never
        } else {
            Expiry::At(score)
        }
    }
}

/// The scores that a purge at `now` is to remove from a sorted set, as the
/// bounds of a range that includes both: exactly the scores of the records that
/// have lapsed. The score of a record that never lapses lies in no such range.
pub fn purge_range(now: u64) -> (range: (u64, u64))
    ensures
        range.0 == 0,
        range.1 == if now == u64::MAX {
            now - 1
        } else {
            now as int
        },
        forall|score: u64|
            (range.0 <= score <= range.1) <==> !(#[trigger] expiry_from(score)).live_at(now),
{
    if now == u64::MAX {
        (0, now - 1)
    } else {
        (0, now)
    }
}

/// One title with its expiry.
struct Record {
    title: String,
    expiry: Expiry,
}

/// No title occurs twice.
spec fn distinct(records: Seq<Record>) -> bool {
    forall|i: int, j: int|
        0 <= i < j < records.len() ==> (#[trigger] records[i]).title@ != (
        #[trigger] records[j]).title@
}

/// Some record bears the title.
spec fn knows(records: Seq<Record>, title: Seq<char>) -> bool {
    exists|i: int| 0 <= i < records.len() && (#[trigger] records[i]).title@ == title
}

/// The place of a record that bears the title.
spec fn place(records: Seq<Record>, title: Seq<char>) -> int {
    choose|i: int| 0 <= i < records.len() && (#[trigger] records[i]).title@ == title
}

/// The mapping that the records stand for.
spec fn model(records: Seq<Record>) -> Records {
    Map::new(
        |title: Seq<char>| knows(records, title),
        |title: Seq<char>| records[place(records, title)].expiry,
    )
}

/// Where no title occurs twice, each record is what the mapping holds for its
/// title.
proof fn lemma_model_at(records: Seq<Record>, i: int)
    requires
        distinct(records),
        0 <= i < records.len(),
    ensures
        model(records).contains_key(records[i].title@),
        model(records)[records[i].title@] == records[i].expiry,
{
    let j = place(records, records[i].title@);
    assert(j == i);
}

/// Where no title occurs twice, the mapping holds as many titles as there are
/// records.
proof fn lemma_model_len(records: Seq<Record>)
    requires
        distinct(records),
    ensures
        model(records).dom().finite(),
        model(records).dom().len() == records.len(),
    decreases records.len(),
{
    if records.len() == 0 {
        assert(model(records).dom() =~= Set::<Seq<char>>::empty());
    } else {
        let rest = records.drop_last();
        let last = records.last();
        lemma_model_len(rest);
        assert forall|t: Seq<char>| knows(records, t) <==> (t == last.title@ || knows(rest, t)) by {
            if knows(records, t) && t != last.title@ {
                assert(rest[place(records, t)].title@ == t);
            }
        }
        assert(model(records).dom() =~= model(rest).dom().insert(last.title@));
    }
}

/// The answer of a store that holds `records`, asked for `title`.
pub open spec fn lookup_in(records: Records, title: Seq<char>) -> Lookup {
    if records.contains_key(title) {
        Lookup::Present(records[title])
    } else {
        Lookup::Absent
    }
}

/// The records that are still live at `now`.
pub open spec fn purged(records: Records, now: u64) -> Records {
    Map::new(
        |title: Seq<char>| records.contains_key(title) && records[title].live_at(now),
        |title: Seq<char>| records[title],
    )
}

/// A deduplication store held in memory: at most one record per title.
pub struct DedupStore {
    records: Vec<Record>,
}

impl View for DedupStore {
    type V = Records;

    closed spec fn view(&self) -> Records {
        model(self.records@)
    }
}

impl DedupStore {
    /// No title is recorded twice.
    pub closed spec fn wf(&self) -> bool {
        distinct(self.records@)
    }

    /// A store without records.
    pub fn new() -> (store: DedupStore)
        ensures
            store.wf(),
            store@ == Records::empty(),
    {
        let store = DedupStore { records: Vec::new() };
        store
    }

    /// The number of records.
    pub fn len(&self) -> (count: usize)
        requires
            self.wf(),
        ensures
            self@.dom().finite(),
            count == self@.dom().len(),
    {
        proof {
            lemma_model_len(self.records@);
        }
        self.records.len()
    }

    /// The place of the record that bears `title`, if there is one.
    fn position(&self, title: &String) -> (at: Option<usize>)
        ensures
            match at {
                Some(i) => i < self.records.len() && self.records[i as int].title@ == title@,
                None => !knows(self.records@, title@),
            },
    {
        let mut i: usize = 0;
        while i < self.records.len()
            invariant
                i <= self.records.len(),
                forall|j: int| 0 <= j < i ==> (#[trigger] self.records[j]).title@ != title@,
            decreases self.records.len() - i,
        {
            if self.records[i].title == *title {
                return Some(i);
            }
            i = i + 1;
        }
        None
    }

    /// Asks for the record of `title`. A store in memory never fails.
    pub fn lookup(&self, title: &str) -> (found: Lookup)
        requires
            self.wf(),
        ensures
            found == lookup_in(self@, title@),
    {
        let key = title.to_owned();
        match self.position(&key) {
            Some(i) => {
                proof {
                    lemma_model_at(self.records@, i as int);
                }
                Lookup::Present(self.records[i].expiry)
            },
            None => Lookup::Absent,
        }
    }

    /// Whether no live record of `title` exists at `now`.
    pub fn is_new(&self, title: &str, now: u64) -> (new: bool)
        requires
            self.wf(),
        ensures
            new == novel(lookup_in(self@, title@), now),
    {
        self.lookup(title).is_new(now)
    }

    /// Stores or refreshes the record of `title`: it lapses `expire_delay`
    /// seconds after `now`, or never if the delay is negative.
    pub fn record(&mut self, title: &str, now: u64, expire_delay: i32)
        requires
            old(self).wf(),
        ensures
            final(self).wf(),
            final(self)@ == old(self)@.insert(title@, expiry_of(now, expire_delay)),
    {
        let key = title.to_owned();
        let expiry = expiry_for(now, expire_delay);
        let at = self.position(&key);
        let ghost before = self.records@;
        match at {
            Some(i) => {
                self.records.set(i, Record { title: key, expiry });
            },
            None => {
                self.records.push(Record { title: key, expiry });
            },
        }
        proof {
            let after = self.records@;
            assert forall|t: Seq<char>| knows(after, t) <==> (t == title@ || knows(before, t)) by {
                if knows(before, t) {
                    assert(after[place(before, t)].title@ == t);
                }
                if t == title@ && at is None {
                    assert(after[before.len() as int].title@ == t);
                }
            }
            assert forall|t: Seq<char>| knows(after, t) implies #[trigger] model(after)[t] == (
            if t == title@ {
                expiry
            } else {
                model(before)[t]
            }) by {
                let j = place(after, t);
                lemma_model_at(after, j);
                if t != title@ {
                    lemma_model_at(before, j);
                }
            }
        }
    }

    /// Removes every record whose expiry is at or before `now`, and says how
    /// many it removed. A record that is still live at `now` stays.
    pub fn purge_expired(&mut self, now: u64) -> (removed: usize)
        requires
            old(self).wf(),
        ensures
            final(self).wf(),
            final(self)@ == purged(old(self)@, now),
            old(self)@.dom().finite(),
            final(self)@.dom().finite(),
            removed == old(self)@.dom().len() - final(self)@.dom().len(),
    {
        let ghost before = self.records@;
        let mut kept: Vec<Record> = Vec::new();
        let mut removed: usize = 0;
        let mut i: usize = 0;
        while i < self.records.len()
            invariant
                i <= self.records.len(),
                self.records@ == before,
                distinct(before),
                removed + kept.len() == i,
                distinct(kept@),
                forall|k: int|
                    0 <= k < kept.len() ==> exists|j: int|
                        0 <= j < i && (#[trigger] before[j]).title@ == (#[trigger] kept[k]).title@
                            && before[j].expiry == kept[k].expiry && before[j].expiry.live_at(now),
                forall|j: int|
                    0 <= j < i && (#[trigger] before[j]).expiry.live_at(now) ==> exists|k: int|
                        0 <= k < kept.len() && (#[trigger] kept[k]).title@ == before[j].title@
                            && kept[k].expiry == before[j].expiry,
            decreases self.records.len() - i,
        {
            let expiry = self.records[i].expiry;
            if expiry.is_live(now) {
                let ghost earlier = kept@;
                let title = self.records[i].title.clone();
                kept.push(Record { title, expiry });
                proof {
                    let last = earlier.len() as int;
                    assert(kept[last].title@ == before[i as int].title@);
                    assert forall|k: int| 0 <= k < last implies kept[k] == earlier[k] by {}
                }
            } else {
                removed = removed + 1;
            }
            i = i + 1;
        }
        self.records = kept;
        proof {
            let after = self.records@;
            lemma_model_len(before);
            lemma_model_len(after);
        }
        removed
    }
}

} // verus!
