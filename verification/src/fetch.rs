//! The retrying fetcher: how often a GET is tried again, and which attempt's
//! outcome stands. The request itself is made by the caller.

use vstd::prelude::*;

verus! {

/// How many failed attempts are followed by another one, unless told otherwise.
pub const MAX_ATTEMPTS: u32 = 4;

/// The fetch failed for good: the cause is that of the last attempt.
#[derive(Clone, Debug, PartialEq, Eq)]
pub struct FetchError {
    pub cause: String,
}

/// What the fetcher makes of one attempt's outcome.
#[derive(Clone, Debug, PartialEq, Eq)]
pub enum FetchStep {
    /// The attempt failed; the next one is to follow at once.
    Retry,
    /// The attempt succeeded with these bytes.
    Done(Vec<u8>),
    /// The final attempt failed too.
    GaveUp(FetchError),
}

/// What a fetcher makes of one attempt's outcome, as mathematical values.
pub enum Verdict {
    Retry,
    Done(Seq<u8>),
    GaveUp(Seq<char>),
}

impl View for FetchStep {
    type V = Verdict;

    open spec fn view(&self) -> Verdict {
        match self {
            FetchStep::Retry => Verdict::Retry,
            FetchStep::Done(bytes) => Verdict::Done(bytes@),
            FetchStep::GaveUp(error) => Verdict::GaveUp(error.cause@),
        }
    }
}

/// One attempt's outcome, as mathematical values: the body's bytes, or the
/// cause of the failure.
pub type Outcome = Result<Seq<u8>, Seq<char>>;

/// The outcome that an attempt's result stands for.
pub open spec fn outcome_view(outcome: Result<Vec<u8>, String>) -> Outcome {
    match outcome {
        Ok(bytes) => Ok(bytes@),
        Err(cause) => Err(cause@),
    }
}

/// The verdict on an attempt that follows `failed` failed ones. A success
/// stands at once. A failure is followed by another attempt as long as fewer
/// than `max_attempts` have failed before it; the failure after that is final.
pub open spec fn verdict(failed: nat, max_attempts: nat, outcome: Outcome) -> Verdict {
    match outcome {
        Ok(bytes) => Verdict::Done(bytes),
        Err(cause) => if failed < max_attempts {
            Verdict::Retry
        } else {
            Verdict::GaveUp(cause)
        },
    }
}

/// The number of failed attempts after one more outcome.
pub open spec fn failed_after(failed: nat, max_attempts: nat, outcome: Outcome) -> nat {
    if outcome is Err && failed < max_attempts {
        failed + 1
    } else {
        failed
    }
}

/// What a whole fetch comes to when its attempts end as `outcomes` says, the
/// first of them following `failed` failed ones: the first verdict that is not
/// `Retry`. It is `None` where the outcomes run out before that.
pub open spec fn fetch_result(failed: nat, max_attempts: nat, outcomes: Seq<Outcome>) -> Option<
    Outcome,
>
    decreases outcomes.len(),
{
    if outcomes.len() == 0 {
        None
    } else {
        match verdict(failed, max_attempts, outcomes[0]) {
            Verdict::Retry => fetch_result(failed + 1, max_attempts, outcomes.drop_first()),
            Verdict::Done(bytes) => Some(Ok(bytes)),
            Verdict::GaveUp(cause) => Some(Err(cause)),
        }
    }
}

/// The retry policy of one fetch: it counts the failed attempts.
pub struct Fetcher {
    max_attempts: u32,
    failed: u32,
}

impl Fetcher {
    /// No more attempts have failed than are retried.
    pub closed spec fn wf(&self) -> bool {
        self.failed <= self.max_attempts
    }

    /// The number of failed attempts that are followed by another one.
    pub closed spec fn max_attempts(&self) -> nat {
        self.max_attempts as nat
    }

    /// The number of attempts that have failed and were retried.
    pub closed spec fn failed(&self) -> nat {
        self.failed as nat
    }

    /// A fetcher before its first attempt.
    pub fn new(max_attempts: u32) -> (fetcher: Fetcher)
        ensures
            fetcher.wf(),
            fetcher.max_attempts() == max_attempts,
            fetcher.failed() == 0,
    {
        Fetcher { max_attempts, failed: 0 }
    }

    /// The number of attempts made so far that failed and were retried.
    pub fn retries(&self) -> (count: u32)
        ensures
            count == self.failed(),
    {
        self.failed
    }

    /// Takes the outcome of the attempt just made and says how to go on.
    pub fn next(&mut self, outcome: Result<Vec<u8>, String>) -> (step: FetchStep)
        requires
            old(self).wf(),
        ensures
            final(self).wf(),
            final(self).max_attempts() == old(self).max_attempts(),
            step@ == verdict(old(self).failed(), old(self).max_attempts(), outcome_view(outcome)),
            final(self).failed() == failed_after(
                old(self).failed(),
                old(self).max_attempts(),
                outcome_view(outcome),
            ),
    {
        match outcome {
            Ok(bytes) => FetchStep::Done(bytes),
            Err(cause) => {
                if self.failed < self.max_attempts {
                    self.failed = self.failed + 1;
                    FetchStep::Retry
                } else {
                    FetchStep::GaveUp(FetchError { cause })
                }
            },
        }
    }
}

} // verus!
