//! What holds of the store, the composer and the fetcher as a whole: laws that
//! relate several of their functions, each with its proof.

use vstd::prelude::*;
use crate::compose::{
    answers, candidate, compose_step, composed, composed_to, empty_draft, fragment_text, has_room,
    Draft,
};
use crate::feed::Entry;
use crate::fetch::{fetch_result, Outcome};
use crate::memory::{ingested, recorded};
use crate::store::{
    expiry_from, expiry_of, lookup_in, novel, purged, score_of, Expiry, Records,
};

verus! {

/// An item recorded with a delay of `expire_delay` seconds is new again once the
/// clock has reached the second of recording plus the delay, and never before.
pub proof fn lemma_expiry_is_exact(
    records: Records,
    title: Seq<char>,
    now: u64,
    expire_delay: i32,
    later: u64,
)
    requires
        expire_delay >= 0,
    ensures
        novel(lookup_in(records.insert(title, expiry_of(now, expire_delay)), title), later)
            <==> later >= now + expire_delay,
{
}

/// An item recorded with a negative delay is never new again, and no purge
/// removes its record.
pub proof fn lemma_negative_delay_is_for_ever(
    records: Records,
    title: Seq<char>,
    now: u64,
    expire_delay: i32,
    later: u64,
)
    requires
        expire_delay < 0,
    ensures
        !novel(lookup_in(records.insert(title, expiry_of(now, expire_delay)), title), later),
        purged(records.insert(title, expiry_of(now, expire_delay)), later).contains_key(title),
        purged(records.insert(title, expiry_of(now, expire_delay)), later)[title] == Expiry::Never,
{
}

/// A record that never lapses stays through every purge, and its title is
/// never new.
pub proof fn lemma_for_ever_outlasts_purges(
    records: Records,
    title: Seq<char>,
    at: u64,
)
    requires
        records.contains_key(title),
        records[title] == Expiry::Never,
    ensures
        !novel(lookup_in(records, title), at),
        purged(records, at).contains_key(title),
        purged(records, at)[title] == Expiry::Never,
{
}

/// An expiry comes back from its score as it went in, but for the one that
/// lapses at the clock's last second, whose score is that of "never". Before
/// that second, what comes back is live exactly when what went in is.
pub proof fn lemma_score_keeps_expiry(expiry: Expiry, now: u64)
    ensures
        expiry != Expiry::At(u64::MAX) ==> expiry_from(score_of(expiry)) == expiry,
        now < u64::MAX ==> expiry_from(score_of(expiry)).live_at(now) == expiry.live_at(now),
{
}

/// Recording a title twice with the same expiry is recording it once.
pub proof fn lemma_record_is_idempotent(
    records: Records,
    title: Seq<char>,
    expiry: Expiry,
)
    ensures
        records.insert(title, expiry).insert(title, expiry) == records.insert(title, expiry),
{
}

/// A purge removes no record that is live at the time of the purge, and it
/// changes no answer, then or later: what it removes had lapsed already.
pub proof fn lemma_purge_changes_no_answer(
    records: Records,
    title: Seq<char>,
    now: u64,
    later: u64,
)
    requires
        now <= later,
    ensures
        records.contains_key(title) && records[title].live_at(now) ==> purged(
            records,
            now,
        ).contains_key(title) && purged(records, now)[title] == records[title],
        novel(lookup_in(purged(records, now), title), later) == novel(
            lookup_in(records, title),
            later,
        ),
{
}

/// A message never grows beyond its budget.
pub proof fn lemma_budget_is_kept(items: Seq<Entry>, said: Seq<bool>, cap: nat, n: nat)
    ensures
        composed_to(items, said, cap, n).message.len() <= cap,
    decreases n,
{
    if n > 0 {
        lemma_budget_is_kept(items, said, cap, (n - 1) as nat);
    }
}

/// What is composed is never taken back: the draft after `m` items is the
/// beginning of the draft after any `n >= m` items, message and titles alike.
pub proof fn lemma_drafts_only_grow(items: Seq<Entry>, said: Seq<bool>, cap: nat, m: nat, n: nat)
    requires
        m <= n,
    ensures
        composed_to(items, said, cap, m).message.is_prefix_of(
            composed_to(items, said, cap, n).message,
        ),
        composed_to(items, said, cap, m).accepted.is_prefix_of(
            composed_to(items, said, cap, n).accepted,
        ),
    decreases n,
{
    if m < n {
        lemma_drafts_only_grow(items, said, cap, m, (n - 1) as nat);
    }
}

/// An item without a title leaves the draft as it is, whatever the store says.
pub proof fn lemma_untitled_adds_nothing(draft: Draft, entry: Entry, new: bool, cap: nat)
    requires
        entry.title is None,
    ensures
        compose_step(draft, entry, new, cap) == draft,
{
}

/// The places of the items that went into the draft of the first `n` items.
pub open spec fn picked(items: Seq<Entry>, said: Seq<bool>, cap: nat, n: nat) -> Seq<int>
    decreases n,
{
    if n == 0 {
        Seq::empty()
    } else {
        let before = picked(items, said, cap, (n - 1) as nat);
        let draft = composed_to(items, said, cap, (n - 1) as nat);
        if candidate(draft, items[n - 1], cap) && said[n - 1] {
            before.push(n - 1)
        } else {
            before
        }
    }
}

/// The fragments of the items at `places`, one after the other.
pub open spec fn joined(items: Seq<Entry>, places: Seq<int>) -> Seq<char>
    decreases places.len(),
{
    if places.len() == 0 {
        Seq::empty()
    } else {
        joined(items, places.drop_last()) + fragment_text(
            items[places.last()].link,
            items[places.last()].title->0,
        )
    }
}

/// What is accepted is a selection of the feed in feed order, made first fit:
/// the accepted titles are those of the picked items, place by place; the
/// places rise; each picked item has a title, was called new and was a
/// candidate at its turn; the message is the picked items' fragments and
/// nothing else; and no title is accepted twice in one run.
pub proof fn lemma_accepted_is_first_fit(items: Seq<Entry>, said: Seq<bool>, cap: nat, n: nat)
    ensures
        picked(items, said, cap, n).len() == composed_to(items, said, cap, n).accepted.len(),
        forall|k: int|
            0 <= k < picked(items, said, cap, n).len() ==> {
                let place = #[trigger] picked(items, said, cap, n)[k];
                &&& 0 <= place < n
                &&& said[place]
                &&& candidate(composed_to(items, said, cap, place as nat), items[place], cap)
                &&& items[place].title == Some(composed_to(items, said, cap, n).accepted[k])
            },
        forall|k: int, l: int|
            0 <= k < l < picked(items, said, cap, n).len() ==> picked(items, said, cap, n)[k]
                < picked(items, said, cap, n)[l],
        composed_to(items, said, cap, n).message == joined(items, picked(items, said, cap, n)),
        forall|k: int, l: int|
            0 <= k < l < composed_to(items, said, cap, n).accepted.len() ==> composed_to(
                items,
                said,
                cap,
                n,
            ).accepted[k] != composed_to(items, said, cap, n).accepted[l],
    decreases n,
{
    if n > 0 {
        let m = (n - 1) as nat;
        lemma_accepted_is_first_fit(items, said, cap, m);
        if candidate(composed_to(items, said, cap, m), items[n - 1], cap) && said[n - 1] {
            assert(picked(items, said, cap, n).drop_last() =~= picked(items, said, cap, m));
        }
    }
}

/// The draft after `n` items depends on nothing but those `n` items and the
/// answers for them.
proof fn lemma_composed_to_reads_its_items(
    items: Seq<Entry>,
    said: Seq<bool>,
    others: Seq<Entry>,
    heard: Seq<bool>,
    cap: nat,
    n: nat,
)
    requires
        forall|i: int| 0 <= i < n ==> items[i] == others[i] && said[i] == heard[i],
    ensures
        composed_to(items, said, cap, n) == composed_to(others, heard, cap, n),
    decreases n,
{
    if n > 0 {
        lemma_composed_to_reads_its_items(items, said, others, heard, cap, (n - 1) as nat);
    }
}

/// Beyond an item without a title, the draft is the one composed with that item
/// taken out of the feed.
proof fn lemma_untitled_can_be_dropped(
    items: Seq<Entry>,
    said: Seq<bool>,
    cap: nat,
    at: int,
    n: nat,
)
    requires
        0 <= at < n <= items.len(),
        n <= said.len(),
        items[at].title is None,
    ensures
        composed_to(items, said, cap, n) == composed_to(
            items.remove(at),
            said.remove(at),
            cap,
            (n - 1) as nat,
        ),
    decreases n,
{
    let fewer = items.remove(at);
    let heard = said.remove(at);
    if n == at + 1 {
        lemma_composed_to_reads_its_items(items, said, fewer, heard, cap, at as nat);
    } else {
        lemma_untitled_can_be_dropped(items, said, cap, at, (n - 1) as nat);
    }
}

/// An item without a title never shows in the result: neither in the accepted
/// titles nor in the message's length. The result is that of the feed without
/// the item.
pub proof fn lemma_untitled_never_shows(items: Seq<Entry>, said: Seq<bool>, cap: nat, at: int)
    requires
        0 <= at < items.len(),
        items.len() <= said.len(),
        items[at].title is None,
    ensures
        composed(items, said, cap) == composed(items.remove(at), said.remove(at), cap),
{
    lemma_untitled_can_be_dropped(items, said, cap, at, items.len());
}

/// Where no answer is "new", nothing is composed.
pub proof fn lemma_nothing_new_nothing_composed(
    items: Seq<Entry>,
    said: Seq<bool>,
    cap: nat,
    n: nat,
)
    requires
        forall|i: int| 0 <= i < n ==> !said[i],
    ensures
        composed_to(items, said, cap, n) == empty_draft(),
    decreases n,
{
    if n > 0 {
        lemma_nothing_new_nothing_composed(items, said, cap, (n - 1) as nat);
    }
}

/// A run turns no new item down for want of room: for every item with a title
/// that the store calls new there is room at its turn.
pub open spec fn room_for_all(items: Seq<Entry>, said: Seq<bool>, cap: nat) -> bool {
    forall|i: int|
        0 <= i < items.len() && items[i].title is Some && #[trigger] said[i] ==> has_room(
            composed_to(items, said, cap, i as nat),
            items[i],
            cap,
        )
}

/// Where there is room for all, every new item's title is among the accepted.
proof fn lemma_room_for_all_accepts_all_new(
    items: Seq<Entry>,
    said: Seq<bool>,
    cap: nat,
    n: nat,
    i: int,
)
    requires
        room_for_all(items, said, cap),
        0 <= i < n <= items.len(),
        items[i].title is Some,
        said[i],
    ensures
        composed_to(items, said, cap, n).accepted.contains(items[i].title->0),
    decreases n,
{
    let before = composed_to(items, said, cap, (n - 1) as nat);
    let draft = composed_to(items, said, cap, n);
    if i == n - 1 {
        if candidate(before, items[i], cap) {
            assert(draft.accepted.last() == items[i].title->0);
        }
    } else {
        lemma_room_for_all_accepts_all_new(items, said, cap, (n - 1) as nat, i);
        lemma_drafts_only_grow(items, said, cap, (n - 1) as nat, n);
    }
}

/// Running the pipeline twice on an unchanged feed yields a result on the first
/// run and none on the second, which leaves the store as the first run left it.
/// This holds where the feed has an item that is new at the first run, where
/// the first run turns no new item down for want of room, and where no expiry
/// elapses between the runs: a record written by the first run, and a record
/// that kept an item of the feed from being new, are still live at the second.
pub proof fn lemma_second_run_is_empty(
    records: Records,
    items: Seq<Entry>,
    now: u64,
    later: u64,
    expire_delay: i32,
    cap: nat,
)
    requires
        exists|i: int|
            0 <= i < items.len() && items[i].title is Some && #[trigger] answers(
                records,
                items,
                now,
            )[i],
        room_for_all(items, answers(records, items, now), cap),
        expiry_of(now, expire_delay).live_at(later),
        forall|i: int|
            0 <= i < items.len() && (#[trigger] items[i]).title is Some && records.contains_key(
                items[i].title->0,
            ) && records[items[i].title->0].live_at(now) ==> records[items[i].title->0].live_at(
                later,
            ),
    ensures
        ingested(records, items, now, expire_delay, cap).0.accepted.len() > 0,
        ingested(
            ingested(records, items, now, expire_delay, cap).1,
            items,
            later,
            expire_delay,
            cap,
        ) == (empty_draft(), ingested(records, items, now, expire_delay, cap).1),
{
    let said = answers(records, items, now);
    let first = composed(items, said, cap);
    let after = recorded(records, first.accepted, expiry_of(now, expire_delay));
    let witness = choose|i: int|
        0 <= i < items.len() && items[i].title is Some && #[trigger] answers(
            records,
            items,
            now,
        )[i];
    lemma_room_for_all_accepts_all_new(items, said, cap, items.len(), witness);
    let heard = answers(after, items, later);
    assert forall|i: int| 0 <= i < items.len() implies !heard[i] by {
        if items[i].title is Some && said[i] {
            lemma_room_for_all_accepts_all_new(items, said, cap, items.len(), i);
        }
    }
    lemma_nothing_new_nothing_composed(items, heard, cap, items.len());
}

/// A fetch is over after at most one attempt more than are retried: the first
/// success among them stands, and where all of them fail, the cause is that of
/// the last.
pub proof fn lemma_fetch_is_bounded(failed: nat, max_attempts: nat, outcomes: Seq<Outcome>)
    requires
        failed <= max_attempts,
        outcomes.len() > max_attempts - failed,
    ensures
        match fetch_result(failed, max_attempts, outcomes) {
            Some(Ok(bytes)) => exists|i: int|
                0 <= i <= max_attempts - failed && #[trigger] outcomes[i] == Ok::<
                    Seq<u8>,
                    Seq<char>,
                >(bytes) && forall|j: int| 0 <= j < i ==> (#[trigger] outcomes[j]) is Err,
            Some(Err(cause)) => outcomes[max_attempts - failed] == Err::<Seq<u8>, Seq<char>>(cause)
                && forall|j: int|
                0 <= j <= max_attempts - failed ==> (#[trigger] outcomes[j]) is Err,
            None => false,
        },
    decreases outcomes.len(),
{
    if outcomes[0] is Err && failed < max_attempts {
        let rest = outcomes.drop_first();
        lemma_fetch_is_bounded(failed + 1, max_attempts, rest);
        match fetch_result(failed + 1, max_attempts, rest) {
            Some(Ok(bytes)) => {
                let i = choose|i: int|
                    0 <= i <= max_attempts - failed - 1 && #[trigger] rest[i] == Ok::<
                        Seq<u8>,
                        Seq<char>,
                    >(bytes) && forall|j: int| 0 <= j < i ==> (#[trigger] rest[j]) is Err;
                assert(outcomes[i + 1] == rest[i]);
                assert forall|j: int| 0 <= j < i + 1 implies (#[trigger] outcomes[j]) is Err by {
                    if j > 0 {
                        assert(outcomes[j] == rest[j - 1]);
                    }
                }
            },
            Some(Err(cause)) => {
                assert(outcomes[max_attempts - failed] == rest[max_attempts - failed - 1]);
                assert forall|j: int| 0 <= j <= max_attempts - failed implies (
                #[trigger] outcomes[j]) is Err by {
                    if j > 0 {
                        assert(outcomes[j] == rest[j - 1]);
                    }
                }
            },
            None => {},
        }
    }
}

} // verus!
