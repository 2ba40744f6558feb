//! What holds of a pipeline run as a whole, whatever the outside answers.

use vstd::prelude::*;
use crate::compose::{candidate, compose_step, composed, composed_to, Draft};
use crate::feed::{parsed, Entry};
use crate::pipeline::{consistent, next_candidate, stepped, task_of, Run, Signal, Stage, Task};
use crate::store::{expiry_of, novel, Lookup};

verus! {

/// The next candidate lies at or after the place the search started from and
/// is a candidate; the items passed over are none.
pub proof fn lemma_next_candidate(items: Seq<Entry>, draft: Draft, cap: nat, from: nat)
    requires
        from <= items.len(),
    ensures
        from <= next_candidate(items, draft, cap, from) <= items.len(),
        next_candidate(items, draft, cap, from) < items.len() ==> candidate(
            draft,
            items[next_candidate(items, draft, cap, from) as int],
            cap,
        ),
        forall|j: int|
            from <= j < next_candidate(items, draft, cap, from) ==> !candidate(
                draft,
                #[trigger] items[j],
                cap,
            ),
    decreases items.len() - from,
{
    if from < items.len() && !candidate(draft, items[from as int], cap) {
        lemma_next_candidate(items, draft, cap, from + 1);
    }
}

/// A step keeps a run consistent, whatever the event.
pub proof fn lemma_step_keeps_consistency(run: Run, signal: Signal, now: u64)
    requires
        consistent(run),
    ensures
        consistent(stepped(run, signal, now)),
{
    match (run.stage, signal) {
        (Stage::Start, Signal::Fetched(Ok(bytes))) => {
            if let Some(items) = parsed(bytes) {
                lemma_next_candidate(items, run.draft, run.cap, 0);
            }
        },
        (Stage::Parsed, Signal::Answered(lookup)) => {
            let draft = compose_step(
                run.draft,
                run.items[run.cursor as int],
                novel(lookup, now),
                run.cap,
            );
            lemma_next_candidate(run.items, draft, run.cap, run.cursor + 1);
        },
        _ => {},
    }
}

/// The run after the store has answered every lookup that the run asks for,
/// `lookups[i]` being its answer about item `i`.
pub open spec fn after_answers(run: Run, lookups: Seq<Lookup>, now: u64) -> Run
    decreases run.items.len() - run.cursor,
{
    if run.stage == Stage::Parsed && run.cursor < run.items.len() {
        let next = stepped(run, Signal::Answered(lookups[run.cursor as int]), now);
        proof {
            lemma_next_candidate(run.items, next.draft, run.cap, run.cursor + 1);
        }
        after_answers(next, lookups, now)
    } else {
        run
    }
}

/// Items that are no candidates leave the draft as it is.
proof fn lemma_passed_over(items: Seq<Entry>, said: Seq<bool>, cap: nat, from: nat, to: nat)
    requires
        from <= to <= items.len(),
        forall|j: int|
            from <= j < to ==> !candidate(
                composed_to(items, said, cap, from),
                #[trigger] items[j],
                cap,
            ),
    ensures
        composed_to(items, said, cap, to) == composed_to(items, said, cap, from),
    decreases to - from,
{
    if from < to {
        lemma_passed_over(items, said, cap, from, (to - 1) as nat);
    }
}

/// Whatever the store answers, the run composes as `composed` says: from a run
/// that awaits an answer, with the draft of the items before it, the answers
/// lead to the draft of the whole feed, and to the stage after composing.
pub proof fn lemma_answers_lead_to_composed(
    run: Run,
    lookups: Seq<Lookup>,
    said: Seq<bool>,
    now: u64,
)
    requires
        consistent(run),
        run.stage == Stage::Parsed,
        forall|i: int| 0 <= i < run.items.len() ==> said[i] == novel(#[trigger] lookups[i], now),
        run.draft == composed_to(run.items, said, run.cap, run.cursor),
    ensures
        after_answers(run, lookups, now).draft == composed(run.items, said, run.cap),
        after_answers(run, lookups, now).stage == Stage::Composed || after_answers(
            run,
            lookups,
            now,
        ).stage == Stage::Committed,
        consistent(after_answers(run, lookups, now)),
    decreases run.items.len() - run.cursor,
{
    let signal = Signal::Answered(lookups[run.cursor as int]);
    let next = stepped(run, signal, now);
    lemma_step_keeps_consistency(run, signal, now);
    lemma_next_candidate(run.items, next.draft, run.cap, run.cursor + 1);
    lemma_passed_over(run.items, said, run.cap, run.cursor + 1, next.cursor);
    if next.stage == Stage::Parsed {
        lemma_answers_lead_to_composed(next, lookups, said, now);
    }
}

/// From its start a run composes as `composed` says of the fetched feed and the
/// store's answers.
pub proof fn lemma_run_composes(
    run: Run,
    bytes: Seq<u8>,
    lookups: Seq<Lookup>,
    said: Seq<bool>,
    now: u64,
)
    requires
        consistent(run),
        run.stage == Stage::Start,
        parsed(bytes) matches Some(items) && forall|i: int|
            0 <= i < items.len() ==> said[i] == novel(#[trigger] lookups[i], now),
    ensures
        after_answers(stepped(run, Signal::Fetched(Ok(bytes)), now), lookups, now).draft
            == composed(parsed(bytes)->0, said, run.cap),
{
    let items = parsed(bytes)->0;
    let signal = Signal::Fetched(Ok(bytes));
    let ready = stepped(run, signal, now);
    lemma_step_keeps_consistency(run, signal, now);
    lemma_next_candidate(items, run.draft, run.cap, 0);
    lemma_passed_over(items, said, run.cap, 0, ready.cursor);
    if ready.stage == Stage::Parsed {
        lemma_answers_lead_to_composed(ready, lookups, said, now);
    }
}

/// The run after the store reported on one write after the other, `true` for a
/// record it took and `false` for a write that failed.
pub open spec fn after_writes(run: Run, outcomes: Seq<bool>, now: u64) -> Run
    decreases outcomes.len(),
{
    if outcomes.len() == 0 {
        run
    } else {
        stepped(
            after_writes(run, outcomes.drop_last(), now),
            Signal::Recorded(outcomes.last()),
            now,
        )
    }
}

/// A write that fails holds nothing up: however the writes end, each accepted
/// title is handed to the store in its turn, and after the last the run
/// finishes with its result whole.
pub proof fn lemma_failed_write_holds_nothing_up(run: Run, outcomes: Seq<bool>, now: u64)
    requires
        consistent(run),
        run.stage == Stage::Composed,
        run.written + outcomes.len() <= run.draft.accepted.len(),
    ensures
        after_writes(run, outcomes, now).draft == run.draft,
        after_writes(run, outcomes, now).written == run.written + outcomes.len(),
        run.written + outcomes.len() < run.draft.accepted.len() ==> task_of(
            after_writes(run, outcomes, now),
            now,
        ) == Task::Record(
            run.draft.accepted[(run.written + outcomes.len()) as int],
            expiry_of(now, run.expire_delay),
        ),
        run.written + outcomes.len() == run.draft.accepted.len() ==> task_of(
            after_writes(run, outcomes, now),
            now,
        ) == Task::Finish(run.draft),
    decreases outcomes.len(),
{
    if outcomes.len() > 0 {
        lemma_failed_write_holds_nothing_up(run, outcomes.drop_last(), now);
    }
}

} // verus!
