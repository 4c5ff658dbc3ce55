//! The adaptive polling schedule. The caller polls the child; when it has not
//! finished, it asks [`PollSchedule::next_delay`] how long to sleep, handing
//! over the milliseconds elapsed since polling began. `None` means the
//! timeout is reached. Polling starts fast and backs off; a known expected
//! runtime is waited out first in one-minute steps.

use vstd::prelude::*;

verus! {

/// Sleep between polls while the expected runtime runs, in milliseconds.
pub const FIXED_DELAY: u64 = 60000;

/// First sleep of the backing-off schedule, in milliseconds.
pub const EXP_MULTIPLIER: u64 = 10;

/// Largest sleep of the backing-off schedule, in milliseconds.
pub const EXP_MAX_DELAY: u64 = 15000;

/// Where the schedule stands.
#[derive(Debug, Clone, Copy, PartialEq, Eq, Structural)]
pub enum PollPhase {
    /// An expected runtime under a minute: sleep it once.
    Settle { wait: u64 },
    /// An expected runtime of a minute or more: `left` more one-minute sleeps,
    /// then sleep up to `expected`.
    Fixed { left: u64, expected: u64 },
    /// Backing off: the next sleep, unless the timeout comes first.
    Exponential { delay: u64 },
}

/// The schedule for one child: its timeout and the phase it is in.
#[derive(Debug, Clone, Copy, PartialEq, Eq)]
pub struct PollSchedule {
    pub timeout: u64,
    pub phase: PollPhase,
}

/// The next backing-off sleep after a sleep of `delay`.
pub open spec fn doubled(delay: int) -> int {
    if 2 * delay > EXP_MAX_DELAY {
        EXP_MAX_DELAY as int
    } else {
        2 * delay
    }
}

/// The backing-off step: give up once `elapsed` reaches the timeout, else
/// sleep `delay`, but not past the timeout.
pub open spec fn exponential_step(timeout: int, delay: int, elapsed: int) -> (PollPhase, Option<int>) {
    if elapsed >= timeout {
        (PollPhase::Exponential { delay: delay as u64 }, None)
    } else {
        let rem = timeout - elapsed;
        (
            PollPhase::Exponential { delay: doubled(delay) as u64 },
            Some(if delay < rem { delay } else { rem }),
        )
    }
}

/// One step of the schedule: the next phase, and the sleep (or `None` to give
/// up).
pub open spec fn poll_step(timeout: int, phase: PollPhase, elapsed: int) -> (PollPhase, Option<int>) {
    match phase {
        PollPhase::Settle { wait } => (
            PollPhase::Exponential { delay: EXP_MULTIPLIER },
            Some(wait as int),
        ),
        PollPhase::Fixed { left, expected } => if left > 0 {
            (PollPhase::Fixed { left: (left - 1) as u64, expected }, Some(FIXED_DELAY as int))
        } else if elapsed < expected {
            (PollPhase::Exponential { delay: EXP_MULTIPLIER }, Some(expected - elapsed))
        } else {
            exponential_step(timeout, EXP_MULTIPLIER as int, elapsed)
        },
        PollPhase::Exponential { delay } => exponential_step(timeout, delay as int, elapsed),
    }
}

/// The phase a schedule starts in: the expected runtime is cut to the
/// timeout; under a minute it is slept once, else in whole minutes first.
pub open spec fn first_phase(timeout: int, expected_runtime: Option<u64>) -> PollPhase {
    match expected_runtime {
        None => PollPhase::Exponential { delay: EXP_MULTIPLIER },
        Some(rt) => {
            let e = if rt < timeout {
                rt as int
            } else {
                timeout
            };
            if e < FIXED_DELAY {
                PollPhase::Settle { wait: e as u64 }
            } else {
                PollPhase::Fixed { left: (e / FIXED_DELAY as int) as u64, expected: e as u64 }
            }
        },
    }
}

/// The elapsed time when a child that never finishes is given up on, when
/// each sleep lasts exactly as asked; `None` if `fuel` steps do not suffice.
pub open spec fn give_up_time(timeout: int, phase: PollPhase, elapsed: int, fuel: nat) -> Option<int>
    decreases fuel,
{
    if fuel == 0 {
        None
    } else {
        match poll_step(timeout, phase, elapsed) {
            (_, None) => Some(elapsed),
            (next, Some(d)) => give_up_time(timeout, next, elapsed + d, (fuel - 1) as nat),
        }
    }
}

pub open spec fn phase_ok(p: PollPhase) -> bool {
    match p {
        PollPhase::Exponential { delay } => 1 <= delay <= EXP_MAX_DELAY,
        _ => true,
    }
}

impl PollSchedule {
    /// A schedule for a child with the given timeout and, optionally, the
    /// runtime it is expected to take.
    pub fn new(timeout: u64, expected_runtime: Option<u64>) -> (r: Self)
        ensures
            r.timeout == timeout,
            r.phase == first_phase(timeout as int, expected_runtime),
            phase_ok(r.phase),
    {
        let phase = match expected_runtime {
            None => PollPhase::Exponential { delay: EXP_MULTIPLIER },
            Some(rt) => {
                let e = if rt < timeout {
                    rt
                } else {
                    timeout
                };
                if e < FIXED_DELAY {
                    PollPhase::Settle { wait: e }
                } else {
                    PollPhase::Fixed { left: e / FIXED_DELAY, expected: e }
                }
            },
        };
        PollSchedule { timeout, phase }
    }

    /// How long to sleep before the next poll, given the milliseconds elapsed
    /// since polling began; `None` once the timeout is reached. While backing
    /// off, a sleep never runs past the timeout.
    pub fn next_delay(&mut self, elapsed: u64) -> (r: Option<u64>)
        requires
            phase_ok(old(self).phase),
        ensures
            final(self).timeout == old(self).timeout,
            phase_ok(final(self).phase),
            (final(self).phase, match r {
                Some(d) => Some(d as int),
                None => None,
            }) == poll_step(old(self).timeout as int, old(self).phase, elapsed as int),
            r is None ==> elapsed >= old(self).timeout,
            old(self).phase is Exponential ==> match r {
                Some(d) => 1 <= d <= EXP_MAX_DELAY && elapsed + d <= old(self).timeout,
                None => true,
            },
    {
        match self.phase {
            PollPhase::Settle { wait } => {
                self.phase = PollPhase::Exponential { delay: EXP_MULTIPLIER };
                Some(wait)
            },
            PollPhase::Fixed { left, expected } => {
                if left > 0 {
                    self.phase = PollPhase::Fixed { left: left - 1, expected };
                    Some(FIXED_DELAY)
                } else if elapsed < expected {
                    self.phase = PollPhase::Exponential { delay: EXP_MULTIPLIER };
                    Some(expected - elapsed)
                } else {
                    self.exponential(EXP_MULTIPLIER, elapsed)
                }
            },
            PollPhase::Exponential { delay } => self.exponential(delay, elapsed),
        }
    }

    fn exponential(&mut self, delay: u64, elapsed: u64) -> (r: Option<u64>)
        requires
            1 <= delay <= EXP_MAX_DELAY,
        ensures
            final(self).timeout == old(self).timeout,
            phase_ok(final(self).phase),
            (final(self).phase, match r {
                Some(d) => Some(d as int),
                None => None,
            }) == exponential_step(old(self).timeout as int, delay as int, elapsed as int),
            r is None ==> elapsed >= old(self).timeout,
            match r {
                Some(d) => 1 <= d <= EXP_MAX_DELAY && elapsed + d <= old(self).timeout,
                None => true,
            },
    {
        if elapsed >= self.timeout {
            self.phase = PollPhase::Exponential { delay };
            None
        } else {
            let rem = self.timeout - elapsed;
            let next = if delay > EXP_MAX_DELAY / 2 {
                EXP_MAX_DELAY
            } else {
                2 * delay
            };
            self.phase = PollPhase::Exponential { delay: next };
            Some(
                if delay < rem {
                    delay
                } else {
                    rem
                },
            )
        }
    }
}

/// Backing off from any sleep length, a child that never finishes is given
/// up on exactly at the timeout: the sleeps add up to the time that was left.
pub proof fn backing_off_ends_at_timeout(timeout: int, delay: int, elapsed: int, fuel: nat)
    requires
        1 <= delay <= EXP_MAX_DELAY,
        0 <= elapsed <= timeout,
        fuel > timeout - elapsed,
    ensures
        give_up_time(timeout, PollPhase::Exponential { delay: delay as u64 }, elapsed, fuel)
            == Some(timeout),
    decreases timeout - elapsed,
{
    if elapsed < timeout {
        let rem = timeout - elapsed;
        let d = if delay < rem {
            delay
        } else {
            rem
        };
        backing_off_ends_at_timeout(timeout, doubled(delay), elapsed + d, (fuel - 1) as nat);
    }
}

/// Without an expected runtime, a child that never finishes is slept on for
/// exactly the timeout, in total, before polling gives up.
pub proof fn never_ready_sleeps_the_timeout(timeout: u64)
    ensures
        give_up_time(timeout as int, first_phase(timeout as int, None), 0, (timeout + 1) as nat)
            == Some(timeout as int),
{
    backing_off_ends_at_timeout(timeout as int, EXP_MULTIPLIER as int, 0, (timeout + 1) as nat);
}

} // verus!
