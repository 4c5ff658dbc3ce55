//! The configuration of a run, once read from the command line: schedule,
//! wait shaping, policy, attempt cap and timeouts. Times are milliseconds.

use crate::backoff::{BackoffIter, BackoffSchedule, WaitParameters};
use crate::policy::{policy_decision, CapturedOutput, PolicyError, PolicyParameters};
use std::ops::ControlFlow;
use vstd::prelude::*;

verus! {

/// A combination of settings that cannot be run.
#[derive(Debug, Clone, Copy, PartialEq, Eq, Structural)]
pub enum ArgumentError {
    /// No command to attempt.
    NoCommand,
    /// `stop_if_timeout` without a timeout.
    StopIfTimeoutWithoutTimeout,
    /// `retry_if_timeout` without a timeout.
    RetryIfTimeoutWithoutTimeout,
    /// `wait_min` above `wait_max`.
    WaitMinAboveMax,
}

pub open spec fn argument_message(e: ArgumentError) -> Seq<char> {
    match e {
        ArgumentError::NoCommand => "No command specified."@,
        ArgumentError::StopIfTimeoutWithoutTimeout => "--stop-if-timeout requires --timeout."@,
        ArgumentError::RetryIfTimeoutWithoutTimeout => "--retry-if-timeout requires --timeout."@,
        ArgumentError::WaitMinAboveMax => "--wait-min cannot be greater than --wait-max."@,
    }
}

impl ArgumentError {
    /// What is wrong, in words.
    pub fn message(&self) -> (r: &'static str)
        ensures
            r@ == argument_message(*self),
    {
        match self {
            ArgumentError::NoCommand => "No command specified.",
            ArgumentError::StopIfTimeoutWithoutTimeout => "--stop-if-timeout requires --timeout.",
            ArgumentError::RetryIfTimeoutWithoutTimeout => "--retry-if-timeout requires --timeout.",
            ArgumentError::WaitMinAboveMax => "--wait-min cannot be greater than --wait-max.",
        }
    }
}

#[derive(Debug, Clone)]
pub struct AttemptArguments {
    pub schedule: BackoffSchedule,
    pub wait_params: WaitParameters,
    pub policy_params: PolicyParameters,
    /// The maximum number of attempts.
    pub attempts: usize,
    /// Timeout of one attempt.
    pub timeout: Option<u64>,
    /// How long the command is expected to take; it is polled less often
    /// meanwhile.
    pub expected_runtime: Option<u64>,
    pub verbose: u8,
    pub quiet: u8,
    /// No cap on attempts.
    pub unlimited_attempts: bool,
    /// Always retry, with no cap on attempts.
    pub forever: bool,
}

/// The first problem with a configuration, checked in this order, if any.
pub open spec fn first_argument_error(a: AttemptArguments) -> Option<ArgumentError> {
    if a.schedule.spec_command().len() == 0 {
        Some(ArgumentError::NoCommand)
    } else if a.timeout is None && a.policy_params.stop_if_timeout {
        Some(ArgumentError::StopIfTimeoutWithoutTimeout)
    } else if a.timeout is None && a.policy_params.retry_if_timeout {
        Some(ArgumentError::RetryIfTimeoutWithoutTimeout)
    } else if a.wait_params.wait_min matches Some(lo) && a.wait_params.wait_max matches Some(hi)
        && lo > hi {
        Some(ArgumentError::WaitMinAboveMax)
    } else {
        None
    }
}

/// The cap on attempts that the schedule gets: none when unlimited or forever.
pub open spec fn attempt_cap(a: AttemptArguments) -> Option<usize> {
    if a.unlimited_attempts || a.forever {
        None
    } else {
        Some(a.attempts)
    }
}

impl Default for AttemptArguments {
    /// A fixed wait of one second, three attempts, no command.
    fn default() -> (r: Self)
        ensures
            r.schedule.spec_command().len() == 0,
            r.attempts == 3,
            r.timeout is None,
            r.expected_runtime is None,
            !r.unlimited_attempts && !r.forever,
    {
        AttemptArguments {
            schedule: BackoffSchedule::Fixed { wait: 1000, command: Vec::new() },
            wait_params: WaitParameters { stagger: None, jitter: None, wait_min: None, wait_max: None },
            policy_params: PolicyParameters::default(),
            attempts: 3,
            timeout: None,
            expected_runtime: None,
            verbose: 0,
            quiet: 0,
            unlimited_attempts: false,
            forever: false,
        }
    }
}

impl AttemptArguments {
    /// Rejects the combinations that cannot be run.
    pub fn validate(&self) -> (r: Result<(), ArgumentError>)
        ensures
            match first_argument_error(*self) {
                Some(e) => r == Err::<(), ArgumentError>(e),
                None => r is Ok,
            },
    {
        if self.schedule.command().len() == 0 {
            return Err(ArgumentError::NoCommand);
        }
        if self.timeout.is_none() && self.policy_params.stop_if_timeout {
            return Err(ArgumentError::StopIfTimeoutWithoutTimeout);
        }
        if self.timeout.is_none() && self.policy_params.retry_if_timeout {
            return Err(ArgumentError::RetryIfTimeoutWithoutTimeout);
        }
        if let Some(hi) = self.wait_params.wait_max {
            if let Some(lo) = self.wait_params.wait_min {
                if lo > hi {
                    return Err(ArgumentError::WaitMinAboveMax);
                }
            }
        }
        Ok(())
    }

    /// Whether the expected runtime is longer than the timeout, in which case
    /// the timeout is used as the expected runtime.
    pub fn runtime_exceeds_timeout(&self) -> (r: bool)
        ensures
            r == (self.timeout matches Some(t) && self.expected_runtime matches Some(e) && t < e),
    {
        match (self.timeout, self.expected_runtime) {
            (Some(t), Some(e)) => t < e,
            _ => false,
        }
    }

    /// The backoff schedule: one pair per attempt, or without end when
    /// attempts are unlimited or the command runs forever.
    pub fn backoff(&self) -> (r: BackoffIter)
        ensures
            r.wf(),
            r.spec_params() == self.schedule.spec_params(),
            r.spec_attempts() == attempt_cap(*self),
            r.spec_wait_params() == self.wait_params,
            r.index() == 0,
    {
        let cap = if self.unlimited_attempts || self.forever {
            None
        } else {
            Some(self.attempts)
        };
        BackoffIter::new(self.schedule.params(), cap, self.wait_params)
    }

    /// The policy's decision on one attempt; `forever` counts as a retry
    /// predicate.
    pub fn evaluate_policy(&self, output: &CapturedOutput, timed_out: bool) -> (r: Result<
        ControlFlow<()>,
        PolicyError,
    >)
        ensures
            r == policy_decision(self.policy_params, *output, timed_out, self.forever),
    {
        self.policy_params.evaluate_policy(output, timed_out, self.forever)
    }
}

} // verus!
