//! One pipeline run for one site, as a state machine: it is told what the
//! outside did (a GET came back, the store answered, a record was written) and
//! says what is to be done next. The caller does the outside work.

use vstd::prelude::*;
use vstd::pervasive::unreached;
use crate::compose::{candidate, compose_step, empty_draft, Composer, Draft, PipelineResult};
use crate::feed::{
    count_untitled, entries, parse, parsed, untitled, Entry, Item, ParseError,
};
use crate::fetch::{outcome_view, verdict, FetchError, FetchStep, Fetcher, Outcome, Verdict};
use crate::store::{expiry_for, expiry_of, novel, Expiry, Lookup};

verus! {

/// How far a run has come. Between a successful fetch and `Parsed` no step
/// rests: parsing needs nothing from outside.
#[derive(Clone, Copy, Debug, PartialEq, Eq, Structural)]
pub enum Stage {
    /// Nothing is in hand yet: a GET is owed.
    Start,
    /// The feed is parsed; the store is being asked about its items.
    Parsed,
    /// The message is composed; its titles are being recorded.
    Composed,
    /// Every accepted title was handed to the store.
    Committed,
    /// The run was given up; the store was not written to.
    Failed,
}

/// Why a run was given up.
#[derive(Clone, Debug, PartialEq, Eq)]
pub enum PipelineError {
    Fetch(FetchError),
    Parse(ParseError),
}

/// Why a run was given up, as mathematical values: a failed fetch with the
/// cause of its last attempt, or a document that is no feed.
pub enum Fault {
    Fetch(Seq<char>),
    Parse,
}

impl View for PipelineError {
    type V = Fault;

    open spec fn view(&self) -> Fault {
        match self {
            PipelineError::Fetch(error) => Fault::Fetch(error.cause@),
            PipelineError::Parse(_) => Fault::Parse,
        }
    }
}

/// What the outside did since the last step.
#[derive(Debug, PartialEq, Eq)]
pub enum Event {
    /// A GET came back, with the body or with the cause of its failure.
    Fetched(Result<Vec<u8>, String>),
    /// The store answered the lookup.
    Answered(Lookup),
    /// The store took the record (`true`) or the write failed (`false`).
    Recorded(bool),
}

/// An event, as mathematical values.
pub enum Signal {
    Fetched(Outcome),
    Answered(Lookup),
    Recorded(bool),
}

impl View for Event {
    type V = Signal;

    open spec fn view(&self) -> Signal {
        match self {
            Event::Fetched(outcome) => Signal::Fetched(outcome_view(*outcome)),
            Event::Answered(lookup) => Signal::Answered(*lookup),
            Event::Recorded(written) => Signal::Recorded(*written),
        }
    }
}

/// What the caller is to do next.
#[derive(Clone, Debug, PartialEq, Eq)]
pub enum Action {
    /// GET this URL and report the outcome.
    Fetch(String),
    /// Ask the store for the record of this title and report the answer.
    Lookup(String),
    /// Write this title with this expiry and report whether it was taken.
    Record(String, Expiry),
    /// The run is over: this is its result.
    Finish(PipelineResult),
    /// The run is over: it was given up for this reason.
    Abort(PipelineError),
}

/// An action, as mathematical values.
pub enum Task {
    Fetch(Seq<char>),
    Lookup(Seq<char>),
    Record(Seq<char>, Expiry),
    Finish(Draft),
    Abort(Fault),
}

impl View for Action {
    type V = Task;

    open spec fn view(&self) -> Task {
        match self {
            Action::Fetch(url) => Task::Fetch(url@),
            Action::Lookup(title) => Task::Lookup(title@),
            Action::Record(title, expiry) => Task::Record(title@, *expiry),
            Action::Finish(result) => Task::Finish(result@),
            Action::Abort(error) => Task::Abort(error@),
        }
    }
}

/// A run, as mathematical values.
pub struct Run {
    pub stage: Stage,
    /// The feed's address.
    pub url: Seq<char>,
    /// Seconds an accepted title is remembered; negative means for ever.
    pub expire_delay: i32,
    /// How many failed attempts are followed by another one.
    pub max_attempts: nat,
    /// How many attempts have failed and were retried.
    pub failed: nat,
    /// The message budget, in characters.
    pub cap: nat,
    /// The feed's items, once parsed.
    pub items: Seq<Entry>,
    /// In `Parsed`: the item whose answer is awaited.
    pub cursor: nat,
    /// What has been composed.
    pub draft: Draft,
    /// In `Composed`: how many accepted titles were handed to the store.
    pub written: nat,
    /// In `Failed`: why.
    pub fault: Option<Fault>,
}

/// What holds of a run at every step.
pub open spec fn consistent(run: Run) -> bool {
    &&& run.failed <= run.max_attempts
    &&& run.draft.message.len() <= run.cap
    &&& run.cursor <= run.items.len()
    &&& run.written <= run.draft.accepted.len()
    &&& (run.stage == Stage::Start ==> run.items.len() == 0 && run.draft == empty_draft())
    &&& (run.stage == Stage::Parsed ==> run.cursor < run.items.len() && candidate(
        run.draft,
        run.items[run.cursor as int],
        run.cap,
    ))
    &&& (run.stage == Stage::Composed ==> run.written < run.draft.accepted.len())
    &&& (run.stage == Stage::Committed ==> run.written == run.draft.accepted.len())
    &&& (run.stage == Stage::Failed <==> run.fault is Some)
}

/// A run before its first step.
pub open spec fn fresh(url: Seq<char>, expire_delay: i32, max_attempts: nat, cap: nat) -> Run {
    Run {
        stage: Stage::Start,
        url,
        expire_delay,
        max_attempts,
        failed: 0,
        cap,
        items: Seq::empty(),
        cursor: 0,
        draft: empty_draft(),
        written: 0,
        fault: None,
    }
}

/// The first item at or after `from` that is a candidate for `draft`, or the
/// number of items where there is none.
pub open spec fn next_candidate(items: Seq<Entry>, draft: Draft, cap: nat, from: nat) -> nat
    decreases items.len() - from,
{
    if from >= items.len() {
        items.len()
    } else if candidate(draft, items[from as int], cap) {
        from
    } else {
        next_candidate(items, draft, cap, from + 1)
    }
}

/// The run as it rests once composing has gone on from item `from`: at the
/// next candidate, whose answer is then awaited; with no candidate left, at the
/// first title to record; with nothing accepted, at its end.
pub open spec fn resumed(run: Run, from: nat) -> Run {
    let cursor = next_candidate(run.items, run.draft, run.cap, from);
    let stage = if cursor < run.items.len() {
        Stage::Parsed
    } else if run.draft.accepted.len() > 0 {
        Stage::Composed
    } else {
        Stage::Committed
    };
    Run { stage, cursor, written: 0, ..run }
}

/// The run after one event, read at `now`. An event that the stage does not
/// await changes nothing.
pub open spec fn stepped(run: Run, signal: Signal, now: u64) -> Run {
    match (run.stage, signal) {
        (Stage::Start, Signal::Fetched(outcome)) => match verdict(
            run.failed,
            run.max_attempts,
            outcome,
        ) {
            Verdict::Retry => Run { failed: run.failed + 1, ..run },
            Verdict::GaveUp(cause) => Run {
                stage: Stage::Failed,
                fault: Some(Fault::Fetch(cause)),
                ..run
            },
            Verdict::Done(bytes) => match parsed(bytes) {
                None => Run { stage: Stage::Failed, fault: Some(Fault::Parse), ..run },
                Some(items) => resumed(Run { items, ..run }, 0),
            },
        },
        (Stage::Parsed, Signal::Answered(lookup)) => resumed(
            Run {
                draft: compose_step(
                    run.draft,
                    run.items[run.cursor as int],
                    novel(lookup, now),
                    run.cap,
                ),
                ..run
            },
            run.cursor + 1,
        ),
        (Stage::Composed, Signal::Recorded(_)) => if run.written + 1 < run.draft.accepted.len() {
            Run { written: run.written + 1, ..run }
        } else {
            Run { stage: Stage::Committed, written: run.written + 1, ..run }
        },
        _ => run,
    }
}

/// What a run at rest asks of its caller at `now`.
pub open spec fn task_of(run: Run, now: u64) -> Task {
    match run.stage {
        Stage::Start => Task::Fetch(run.url),
        Stage::Parsed => Task::Lookup(run.items[run.cursor as int].title->0),
        Stage::Composed => Task::Record(
            run.draft.accepted[run.written as int],
            expiry_of(now, run.expire_delay),
        ),
        Stage::Committed => Task::Finish(run.draft),
        Stage::Failed => Task::Abort(run.fault->0),
    }
}

/// One pipeline run for one site.
pub struct Pipeline {
    url: String,
    expire_delay: i32,
    fetcher: Fetcher,
    stage: Stage,
    items: Vec<Item>,
    cursor: usize,
    composer: Composer,
    written: usize,
    failure: Option<PipelineError>,
}

impl View for Pipeline {
    type V = Run;

    closed spec fn view(&self) -> Run {
        Run {
            stage: self.stage,
            url: self.url@,
            expire_delay: self.expire_delay,
            max_attempts: self.fetcher.max_attempts(),
            failed: self.fetcher.failed(),
            cap: self.composer.cap(),
            items: entries(self.items@),
            cursor: self.cursor as nat,
            draft: self.composer.draft(),
            written: self.written as nat,
            fault: match self.failure {
                Some(error) => Some(error@),
                None => None,
            },
        }
    }
}

impl Pipeline {
    /// The parts are sound and the run is consistent.
    pub closed spec fn wf(&self) -> bool {
        &&& self.fetcher.wf()
        &&& self.composer.wf()
        &&& consistent(self@)
    }

    /// A sound pipeline's run is consistent.
    pub proof fn lemma_consistent(&self)
        requires
            self.wf(),
        ensures
            consistent(self@),
    {
    }

    /// A run for the feed at `url`, before its first step.
    pub fn new(url: &str, expire_delay: i32, max_attempts: u32, cap: usize) -> (pipeline: Pipeline)
        ensures
            pipeline.wf(),
            pipeline@ == fresh(url@, expire_delay, max_attempts as nat, cap as nat),
    {
        let pipeline = Pipeline {
            url: url.to_owned(),
            expire_delay,
            fetcher: Fetcher::new(max_attempts),
            stage: Stage::Start,
            items: Vec::new(),
            cursor: 0,
            composer: Composer::new(cap),
            written: 0,
            failure: None,
        };
        assert(entries(pipeline.items@) =~= Seq::<Entry>::empty());
        pipeline
    }

    /// How far the run has come.
    pub fn stage(&self) -> (stage: Stage)
        ensures
            stage == self@.stage,
    {
        self.stage
    }

    /// Whether the run is over.
    pub fn is_over(&self) -> (over: bool)
        ensures
            over == (self@.stage == Stage::Committed || self@.stage == Stage::Failed),
    {
        match self.stage {
            Stage::Committed => true,
            Stage::Failed => true,
            _ => false,
        }
    }

    /// The number of items of the parsed feed that have no title. The run
    /// passes over them; the caller may want to warn of them.
    pub fn untitled(&self) -> (count: usize)
        ensures
            count == untitled(self@.items),
    {
        count_untitled(&self.items)
    }

    /// What the caller is to do next. The clock is read for the expiry of a
    /// record that is to be written.
    pub fn pending(&self, now: u64) -> (action: Action)
        requires
            self.wf(),
        ensures
            action@ == task_of(self@, now),
    {
        match self.stage {
            Stage::Start => Action::Fetch(self.url.clone()),
            Stage::Parsed => {
                match &self.items[self.cursor].title {
                    Some(title) => Action::Lookup(title.clone()),
                    None => unreached(),
                }
            },
            Stage::Composed => Action::Record(
                self.composer.accepted_title(self.written).clone(),
                expiry_for(now, self.expire_delay),
            ),
            Stage::Committed => Action::Finish(self.composer.result()),
            Stage::Failed => match &self.failure {
                Some(PipelineError::Fetch(error)) => Action::Abort(
                    PipelineError::Fetch(FetchError { cause: error.cause.clone() }),
                ),
                Some(PipelineError::Parse(error)) => Action::Abort(
                    PipelineError::Parse(ParseError { cause: error.cause.clone() }),
                ),
                None => unreached(),
            },
        }
    }

    /// Goes on composing from item `from`: passes over the items that are no
    /// candidates and rests where `resumed` says.
    fn resume(&mut self, from: usize)
        requires
            old(self).fetcher.wf(),
            old(self).composer.wf(),
            from <= old(self).items.len(),
            old(self).failure is None,
            old(self).fetcher.failed() <= old(self).fetcher.max_attempts(),
        ensures
            final(self).wf(),
            final(self)@ == resumed(old(self)@, from as nat),
    {
        let ghost feed = entries(self.items@);
        let mut at: usize = from;
        while at < self.items.len() && !self.composer.wants(&self.items[at])
            invariant
                from <= at <= self.items.len(),
                self.composer.wf(),
                *self == *old(self),
                feed == entries(self.items@),
                next_candidate(feed, self.composer.draft(), self.composer.cap(), from as nat)
                    == next_candidate(feed, self.composer.draft(), self.composer.cap(), at as nat),
            decreases self.items.len() - at,
        {
            at = at + 1;
        }
        proof {
            self.composer.lemma_within_budget();
        }
        self.cursor = at;
        self.written = 0;
        if at < self.items.len() {
            self.stage = Stage::Parsed;
        } else if self.composer.accepted_len() > 0 {
            self.stage = Stage::Composed;
        } else {
            self.stage = Stage::Committed;
        }
    }

    /// Takes what the outside did and moves the run on. `now` is the clock at
    /// which a store's answer is read.
    pub fn step(&mut self, event: Event, now: u64)
        requires
            old(self).wf(),
        ensures
            final(self).wf(),
            final(self)@ == stepped(old(self)@, event@, now),
    {
        match self.stage {
            Stage::Start => match event {
                Event::Fetched(outcome) => match self.fetcher.next(outcome) {
                    FetchStep::Retry => {},
                    FetchStep::GaveUp(error) => {
                        self.stage = Stage::Failed;
                        self.failure = Some(PipelineError::Fetch(error));
                    },
                    FetchStep::Done(bytes) => match parse(bytes.as_slice()) {
                        Ok(items) => {
                            self.items = items;
                            self.resume(0);
                        },
                        Err(error) => {
                            self.stage = Stage::Failed;
                            self.failure = Some(PipelineError::Parse(error));
                        },
                    },
                },
                _ => {},
            },
            Stage::Parsed => match event {
                Event::Answered(lookup) => {
                    let new = lookup.is_new(now);
                    assert(self.cursor < self.items.len());
                    self.composer.settle(&self.items[self.cursor], new);
                    let from = self.cursor + 1;
                    self.resume(from);
                },
                _ => {},
            },
            Stage::Composed => match event {
                Event::Recorded(_) => {
                    let accepted = self.composer.accepted_len();
                    self.written = self.written + 1;
                    if self.written >= accepted {
                        self.stage = Stage::Committed;
                    }
                },
                _ => {},
            },
            _ => {},
        }
    }
}

} // verus!
