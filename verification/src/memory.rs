//! The pipeline against a store held in memory: parse, compose and commit as
//! one plain function, with nothing to wait for.

use vstd::prelude::*;
use crate::compose::{answers, compose, composed, texts, Draft, PipelineResult};
use crate::feed::{parse, parsed, Entry, ParseError};
use crate::store::{expiry_of, DedupStore, Expiry, Records};

verus! {

/// The records after each of `titles` was written with `expiry`.
pub open spec fn recorded(
    records: Records,
    titles: Seq<Seq<char>>,
    expiry: Expiry,
) -> Records {
    Map::new(
        |title: Seq<char>| records.contains_key(title) || titles.contains(title),
        |title: Seq<char>|
            if titles.contains(title) {
                expiry
            } else {
                records[title]
            },
    )
}

/// What a run over `items` yields against a store that holds `records`, and
/// what the store holds after it: the message is composed from the store's
/// answers at `now`, then every accepted title is recorded.
pub open spec fn ingested(
    records: Records,
    items: Seq<Entry>,
    now: u64,
    expire_delay: i32,
    cap: nat,
) -> (Draft, Records) {
    let draft = composed(items, answers(records, items, now), cap);
    (draft, recorded(records, draft.accepted, expiry_of(now, expire_delay)))
}

/// Records every accepted title in `store`, to lapse `expire_delay` seconds
/// after `now`.
pub fn commit(store: &mut DedupStore, accepted: &Vec<String>, now: u64, expire_delay: i32)
    requires
        old(store).wf(),
    ensures
        final(store).wf(),
        final(store)@ == recorded(old(store)@, texts(accepted@), expiry_of(now, expire_delay)),
{
    let ghost before = store@;
    let ghost titles = texts(accepted@);
    let ghost expiry = expiry_of(now, expire_delay);
    let mut i: usize = 0;
    while i < accepted.len()
        invariant
            i <= accepted.len(),
            store.wf(),
            titles == texts(accepted@),
            expiry == expiry_of(now, expire_delay),
            store@ == recorded(before, titles.take(i as int), expiry),
        decreases accepted.len() - i,
    {
        store.record(accepted[i].as_str(), now, expire_delay);
        proof {
            let shorter = titles.take(i as int);
            let longer = titles.take(i + 1);
            assert forall|t: Seq<char>| longer.contains(t) <==> (shorter.contains(t) || t
                == titles[i as int]) by {
                if t == titles[i as int] {
                    assert(longer[i as int] == t);
                }
            }
        }
        i = i + 1;
    }
    assert(titles.take(i as int) =~= titles);
}

/// Runs the pipeline on a fetched document against a store held in memory:
/// parse, compose, then record what was accepted. A document that is no feed
/// leaves the store as it was.
pub fn ingest(store: &mut DedupStore, bytes: &[u8], now: u64, expire_delay: i32, cap: usize) -> (r:
    Result<PipelineResult, ParseError>)
    requires
        old(store).wf(),
    ensures
        final(store).wf(),
        match parsed(bytes@) {
            Some(items) => r matches Ok(result) && (result@, final(store)@) == ingested(
                old(store)@,
                items,
                now,
                expire_delay,
                cap as nat,
            ),
            None => r is Err && final(store)@ == old(store)@,
        },
{
    match parse(bytes) {
        Ok(items) => {
            let result = compose(&items, store, now, cap);
            commit(store, &result.accepted, now, expire_delay);
            Ok(result)
        },
        Err(error) => Err(error),
    }
}

} // verus!
