//! The attempt loop's decisions. The caller runs the loop: it takes the next
//! `(wait, is_last)` pair from the schedule, runs the command, asks the policy,
//! and then hands the decision to [`after_attempt`], which says whether to
//! finish, to sleep and go on, or to go on at once.

use crate::backoff::is_last;
use std::ops::ControlFlow;
use vstd::prelude::*;

verus! {

/// Exit code of a successful run.
pub const SUCCESS: i32 = 0;

/// Exit code when the command could not be spawned or waited on.
pub const IO_ERROR: i32 = 1;

/// Exit code when every attempt failed.
pub const RETRIES_EXHAUSTED: i32 = 3;

/// Exit code when the policy stopped a failing command.
pub const STOPPED: i32 = 4;

/// How a whole run ended, short of an I/O error.
#[derive(Debug, Clone, Copy, PartialEq, Eq, Structural)]
pub enum Outcome {
    Success,
    RetriesExhausted,
    Stopped,
}

pub open spec fn outcome_code(o: Outcome) -> i32 {
    match o {
        Outcome::Success => SUCCESS,
        Outcome::RetriesExhausted => RETRIES_EXHAUSTED,
        Outcome::Stopped => STOPPED,
    }
}

impl Outcome {
    /// The process exit code for this outcome.
    pub fn exit_code(self) -> (r: i32)
        ensures
            r == outcome_code(self),
    {
        match self {
            Outcome::Success => SUCCESS,
            Outcome::RetriesExhausted => RETRIES_EXHAUSTED,
            Outcome::Stopped => STOPPED,
        }
    }
}

impl From<Outcome> for i32 {
    fn from(value: Outcome) -> (r: i32)
        ensures
            r == outcome_code(value),
    {
        value.exit_code()
    }
}

impl vstd::std_specs::convert::FromSpecImpl<Outcome> for i32 {
    open spec fn obeys_from_spec() -> bool {
        true
    }

    open spec fn from_spec(v: Outcome) -> i32 {
        outcome_code(v)
    }
}

/// What to do once an attempt has been judged.
#[derive(Debug, Clone, Copy, PartialEq, Eq, Structural)]
pub enum Step {
    /// The run is over.
    Finish(Outcome),
    /// Sleep this many milliseconds, then make the next attempt.
    Sleep(u64),
    /// Go on without sleeping: this was the last attempt, so the schedule
    /// ends and the retries are exhausted.
    Proceed,
}

/// The step after an attempt: on `Break`, finish with success or stopped as
/// the exit status says; on `Continue`, sleep the wait unless this was the
/// last attempt.
pub open spec fn step_after(decision: ControlFlow<()>, succeeded: bool, wait: u64, last: bool) -> Step {
    match decision {
        ControlFlow::Break(_) => if succeeded {
            Step::Finish(Outcome::Success)
        } else {
            Step::Finish(Outcome::Stopped)
        },
        ControlFlow::Continue(_) => if last {
            Step::Proceed
        } else {
            Step::Sleep(wait)
        },
    }
}

/// Decides what follows an attempt whose exit status was (or was not) a
/// success, given the policy's decision and the schedule's pair.
pub fn after_attempt(decision: ControlFlow<()>, succeeded: bool, wait: u64, last: bool) -> (r: Step)
    ensures
        r == step_after(decision, succeeded, wait, last),
{
    match decision {
        ControlFlow::Break(_) => if succeeded {
            Step::Finish(Outcome::Success)
        } else {
            Step::Finish(Outcome::Stopped)
        },
        ControlFlow::Continue(_) => if last {
            Step::Proceed
        } else {
            Step::Sleep(wait)
        },
    }
}

/// When every attempt is to be retried, the loop sleeps after each attempt
/// but the last: with a cap of `attempts`, attempt `k` is followed by a sleep
/// of its wait exactly when `k + 1 < attempts`.
pub proof fn no_sleep_after_the_last_attempt(attempts: usize, k: nat, succeeded: bool, wait: u64)
    requires
        k < attempts,
    ensures
        step_after(ControlFlow::Continue(()), succeeded, wait, is_last(Some(attempts), k)) == if k
            + 1 == attempts {
            Step::Proceed
        } else {
            Step::Sleep(wait)
        },
{
}

} // verus!
