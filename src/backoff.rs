//! The backoff schedule and the shaping of each wait. All times are whole
//! milliseconds; an exponential base is given in thousandths.

use rand_distr::Distribution;
use vstd::arithmetic::power::pow;
use vstd::prelude::*;

verus! {

/// Largest time that can be expressed; arithmetic on times saturates here.
pub open spec fn time_cap() -> int {
    u64::MAX as int
}

/// `x`, but no more than the largest time.
pub open spec fn saturate(x: int) -> int {
    if x > time_cap() {
        time_cap()
    } else {
        x
    }
}

/// Relies on rand_distr's `Uniform::new_inclusive` and `Distribution::sample`
/// over rand's `thread_rng`: a sample in `0..=hi`. Nothing more is known of it.
#[verifier::external_body]
fn uniform_up_to(hi: u64) -> (r: u64)
    ensures
        r <= hi,
{
    rand_distr::Uniform::new_inclusive(0u64, hi).sample(&mut rand::thread_rng())
}

/// How waits are shaped: a random delay before the first attempt (stagger),
/// random jitter added to each wait, and bounds on the wait before jitter.
#[derive(Debug, Clone, Copy, Default, PartialEq, Eq)]
pub struct WaitParameters {
    pub stagger: Option<u64>,
    pub jitter: Option<u64>,
    pub wait_min: Option<u64>,
    pub wait_max: Option<u64>,
}

impl WaitParameters {
    pub open spec fn jitter_bound(self) -> int {
        match self.jitter {
            Some(j) => j as int,
            None => 0,
        }
    }

    /// The wait raised to `wait_min` and then lowered to `wait_max`.
    pub open spec fn clamped(self, delay: int) -> int {
        let low = match self.wait_min {
            Some(m) => if delay < m {
                m as int
            } else {
                delay
            },
            None => delay,
        };
        match self.wait_max {
            Some(m) => if low > m {
                m as int
            } else {
                low
            },
            None => low,
        }
    }

    /// The shaped wait for a jitter draw `sample`: jitter is added after the
    /// bounds, so it may go past `wait_max`.
    pub open spec fn shaped(self, delay: int, sample: int) -> int {
        saturate(self.clamped(delay) + sample)
    }

    /// The shaped wait for a given jitter draw.
    pub fn shape_wait(&self, delay: u64, sample: u64) -> (r: u64)
        ensures
            r == self.shaped(delay as int, sample as int),
    {
        let mut low = delay;
        if let Some(m) = self.wait_min {
            if low < m {
                low = m;
            }
        }
        if let Some(m) = self.wait_max {
            if low > m {
                low = m;
            }
        }
        low.saturating_add(sample)
    }

    /// The shaped wait, with jitter drawn uniformly from `0..=jitter`.
    pub fn wait_delay(&self, delay: u64) -> (r: u64)
        ensures
            exists|s: int| 0 <= s <= self.jitter_bound() && r == self.shaped(delay as int, s),
            self.clamped(delay as int) <= r,
            self.jitter is None ==> r == self.clamped(delay as int),
    {
        let sample = match self.jitter {
            Some(j) => uniform_up_to(j),
            None => 0,
        };
        self.shape_wait(delay, sample)
    }

    /// The delay before the first attempt, drawn uniformly from
    /// `0..=stagger`, or none without a stagger.
    pub fn stagger_delay(&self) -> (r: Option<u64>)
        ensures
            match self.stagger {
                Some(s) => r matches Some(d) && d <= s,
                None => r is None,
            },
    {
        match self.stagger {
            Some(s) => Some(uniform_up_to(s)),
            None => None,
        }
    }
}

/// The three strategies and their parameters, without the command.
#[derive(Debug, Clone, Copy, PartialEq, Eq)]
pub enum BackoffParameters {
    Fixed { wait: u64 },
    Exponential { base: u64, multiplier: u64 },
    Linear { multiplier: u64, starting_wait: u64 },
}

/// The strategy chosen, with the command to attempt.
#[derive(Debug, Clone, PartialEq, Eq)]
pub enum BackoffSchedule {
    /// The same wait each time.
    Fixed { wait: u64, command: Vec<String> },
    /// `multiplier * base^n`, with `base` in thousandths.
    Exponential { base: u64, multiplier: u64, command: Vec<String> },
    /// `multiplier * n + starting_wait`.
    Linear { multiplier: u64, starting_wait: u64, command: Vec<String> },
}

/// The exponential wait before scaling: each step multiplies by `base`
/// thousandths, rounded down to a millisecond.
pub open spec fn exponential_wait(multiplier: int, base: int, n: nat) -> int
    decreases n,
{
    if n == 0 {
        saturate(multiplier)
    } else {
        saturate(exponential_wait(multiplier, base, (n - 1) as nat) * base / 1000)
    }
}

/// The raw wait after attempt `n` (counting from 0), before shaping.
pub open spec fn raw_interval(p: BackoffParameters, n: nat) -> int {
    match p {
        BackoffParameters::Fixed { wait } => wait as int,
        BackoffParameters::Linear { multiplier, starting_wait } => saturate(
            multiplier * n + starting_wait,
        ),
        BackoffParameters::Exponential { base, multiplier } => exponential_wait(
            multiplier as int,
            base as int,
            n,
        ),
    }
}

/// Whether attempt `n` exists under a cap on attempts (none: unlimited).
pub open spec fn has_attempt(attempts: Option<usize>, n: nat) -> bool {
    match attempts {
        Some(a) => n < a,
        None => true,
    }
}

/// Whether attempt `n` is the last one.
pub open spec fn is_last(attempts: Option<usize>, n: nat) -> bool {
    match attempts {
        Some(a) => n + 1 == a,
        None => false,
    }
}

impl BackoffSchedule {
    pub open spec fn spec_params(&self) -> BackoffParameters {
        match self {
            BackoffSchedule::Fixed { wait, .. } => BackoffParameters::Fixed { wait: *wait },
            BackoffSchedule::Exponential { base, multiplier, .. } => BackoffParameters::Exponential {
                base: *base,
                multiplier: *multiplier,
            },
            BackoffSchedule::Linear { multiplier, starting_wait, .. } => BackoffParameters::Linear {
                multiplier: *multiplier,
                starting_wait: *starting_wait,
            },
        }
    }

    pub open spec fn spec_command(&self) -> Vec<String> {
        match self {
            BackoffSchedule::Fixed { command, .. } => *command,
            BackoffSchedule::Exponential { command, .. } => *command,
            BackoffSchedule::Linear { command, .. } => *command,
        }
    }

    /// The strategy's parameters.
    pub fn params(&self) -> (r: BackoffParameters)
        ensures
            r == self.spec_params(),
    {
        match self {
            BackoffSchedule::Fixed { wait, .. } => BackoffParameters::Fixed { wait: *wait },
            BackoffSchedule::Exponential { base, multiplier, .. } => BackoffParameters::Exponential {
                base: *base,
                multiplier: *multiplier,
            },
            BackoffSchedule::Linear { multiplier, starting_wait, .. } => BackoffParameters::Linear {
                multiplier: *multiplier,
                starting_wait: *starting_wait,
            },
        }
    }

    /// The command to attempt, program first.
    pub fn command(&self) -> (r: &Vec<String>)
        ensures
            *r == self.spec_command(),
    {
        match self {
            BackoffSchedule::Fixed { command, .. } => command,
            BackoffSchedule::Exponential { command, .. } => command,
            BackoffSchedule::Linear { command, .. } => command,
        }
    }
}

/// The schedule as a sequence of `(wait, is_last)` pairs, one per attempt,
/// produced by [`BackoffIter::next`].
#[derive(Debug, Clone, Copy, PartialEq, Eq)]
pub struct BackoffIter {
    params: BackoffParameters,
    attempts: Option<usize>,
    wait_params: WaitParameters,
    /// Index of the next attempt.
    n: usize,
    /// The exponential wait of attempt `n`, kept to avoid recomputing it.
    exp_wait: u64,
}

impl BackoffIter {
    pub closed spec fn spec_params(self) -> BackoffParameters {
        self.params
    }

    pub closed spec fn spec_attempts(self) -> Option<usize> {
        self.attempts
    }

    pub closed spec fn spec_wait_params(self) -> WaitParameters {
        self.wait_params
    }

    /// Index of the attempt the next pair is for.
    pub closed spec fn index(self) -> nat {
        self.n as nat
    }

    pub closed spec fn wf(self) -> bool {
        match self.params {
            BackoffParameters::Exponential { base, multiplier } => self.exp_wait
                == exponential_wait(multiplier as int, base as int, self.n as nat),
            _ => true,
        }
    }

    /// A fresh schedule: `attempts` pairs, or without end for `None`.
    pub fn new(params: BackoffParameters, attempts: Option<usize>, wait_params: WaitParameters) -> (r:
        Self)
        ensures
            r.wf(),
            r.spec_params() == params,
            r.spec_attempts() == attempts,
            r.spec_wait_params() == wait_params,
            r.index() == 0,
    {
        let exp_wait = match params {
            BackoffParameters::Exponential { multiplier, .. } => multiplier,
            _ => 0,
        };
        BackoffIter { params, attempts, wait_params, n: 0, exp_wait }
    }

    fn raw(&self) -> (r: u64)
        requires
            self.wf(),
        ensures
            r == raw_interval(self.params, self.n as nat),
    {
        match self.params {
            BackoffParameters::Fixed { wait } => wait,
            BackoffParameters::Linear { multiplier, starting_wait } => {
                let m = multiplier as u128;
                let k = self.n as u128;
                assert(m * k <= 0xFFFF_FFFF_FFFF_FFFFu128 * 0xFFFF_FFFF_FFFF_FFFFu128) by (nonlinear_arith)
                    requires
                        m <= 0xFFFF_FFFF_FFFF_FFFFu128,
                        k <= 0xFFFF_FFFF_FFFF_FFFFu128,
                ;
                let x: u128 = m * k + (starting_wait as u128);
                if x > u64::MAX as u128 {
                    u64::MAX
                } else {
                    x as u64
                }
            },
            BackoffParameters::Exponential { .. } => self.exp_wait,
        }
    }

    /// The next `(wait, is_last)` pair: the raw interval of this attempt,
    /// shaped, and whether no attempt follows. `None` once the attempts are
    /// used up.
    pub fn next(&mut self) -> (r: Option<(u64, bool)>)
        requires
            old(self).wf(),
        ensures
            final(self).wf(),
            final(self).spec_params() == old(self).spec_params(),
            final(self).spec_attempts() == old(self).spec_attempts(),
            final(self).spec_wait_params() == old(self).spec_wait_params(),
            !has_attempt(old(self).spec_attempts(), old(self).index()) ==> r is None
                && final(self).index() == old(self).index(),
            has_attempt(old(self).spec_attempts(), old(self).index()) ==> (r matches Some(
                (d, last),
            ) && last == is_last(old(self).spec_attempts(), old(self).index()) && exists|s: int|
                0 <= s <= old(self).spec_wait_params().jitter_bound() && d == old(
                    self,
                ).spec_wait_params().shaped(
                    raw_interval(old(self).spec_params(), old(self).index()),
                    s,
                )),
            has_attempt(old(self).spec_attempts(), old(self).index()) && old(self).index()
                < usize::MAX ==> final(self).index() == old(self).index() + 1,
    {
        let last = match self.attempts {
            Some(a) => {
                if self.n >= a {
                    return None;
                }
                self.n + 1 == a
            },
            None => false,
        };
        let raw = self.raw();
        let d = self.wait_params.wait_delay(raw);
        if self.n < usize::MAX {
            if let BackoffParameters::Exponential { base, .. } = self.params {
                let w = self.exp_wait as u128;
                let b = base as u128;
                assert(w * b <= 0xFFFF_FFFF_FFFF_FFFFu128 * 0xFFFF_FFFF_FFFF_FFFFu128) by (nonlinear_arith)
                    requires
                        w <= 0xFFFF_FFFF_FFFF_FFFFu128,
                        b <= 0xFFFF_FFFF_FFFF_FFFFu128,
                ;
                let x: u128 = w * b / 1000;
                self.exp_wait = if x > u64::MAX as u128 {
                    u64::MAX
                } else {
                    x as u64
                };
            }
            self.n = self.n + 1;
        }
        Some((d, last))
    }
}


/// A fixed schedule capped at `attempts` (at least one) has exactly that many
/// pairs; each has the fixed wait before shaping, and only the pair of index
/// `attempts - 1` is marked last.
pub proof fn fixed_schedule_pairs(wait: u64, attempts: usize, k: nat)
    requires
        attempts >= 1,
    ensures
        has_attempt(Some(attempts), k) <==> k < attempts,
        k < attempts ==> raw_interval(BackoffParameters::Fixed { wait }, k) == wait,
        k < attempts ==> (is_last(Some(attempts), k) <==> k == attempts - 1),
{
}

/// Without jitter, a wait below `wait_min` becomes `wait_min` and one above
/// `wait_max` becomes `wait_max`, when only that bound is set.
pub proof fn bounds_replace_waits_outside_them(p: WaitParameters, delay: int)
    requires
        p.jitter is None,
        0 <= delay,
    ensures
        p.wait_max is None ==> match p.wait_min {
            Some(lo) => delay < lo ==> p.shaped(delay, 0) == lo,
            None => true,
        },
        p.wait_min is None ==> match p.wait_max {
            Some(hi) => delay > hi ==> p.shaped(delay, 0) == hi,
            None => true,
        },
{
}

/// Jitter only lengthens a wait: whatever the draw, the shaped wait is at
/// least the bounded wait, which is never negative.
pub proof fn jitter_never_shortens(p: WaitParameters, delay: int, sample: int)
    requires
        0 <= delay <= time_cap(),
        0 <= sample,
    ensures
        0 <= p.clamped(delay) <= p.shaped(delay, sample),
{
}


proof fn power_nonnegative(q: int, e: nat)
    requires
        0 <= q,
    ensures
        0 <= pow(q, e),
    decreases e,
{
    reveal(pow);
    if e > 0 {
        power_nonnegative(q, (e - 1) as nat);
        assert(0 <= q * pow(q, (e - 1) as nat)) by (nonlinear_arith)
            requires
                0 <= q,
                0 <= pow(q, (e - 1) as nat),
        ;
    }
}

/// With a whole-number base `q` (written `1000 * q` in thousandths), the
/// exponential wait of attempt `n` is exactly `multiplier * q^n`, saturated.
pub proof fn whole_base_is_a_power(multiplier: int, q: int, n: nat)
    requires
        0 <= multiplier,
        0 <= q,
    ensures
        exponential_wait(multiplier, 1000 * q, n) == saturate(multiplier * pow(q, n)),
    decreases n,
{
    reveal(pow);
    if n > 0 {
        whole_base_is_a_power(multiplier, q, (n - 1) as nat);
        let y = multiplier * pow(q, (n - 1) as nat);
        let prev = exponential_wait(multiplier, 1000 * q, (n - 1) as nat);
        power_nonnegative(q, (n - 1) as nat);
        assert(0 <= y) by (nonlinear_arith)
            requires
                0 <= multiplier,
                0 <= pow(q, (n - 1) as nat),
                y == multiplier * pow(q, (n - 1) as nat),
        ;
        assert(prev * (1000 * q) / 1000 == prev * q) by (nonlinear_arith);
        assert(multiplier * pow(q, n) == y * q) by (nonlinear_arith)
            requires
                pow(q, n) == q * pow(q, (n - 1) as nat),
                y == multiplier * pow(q, (n - 1) as nat),
        ;
        assert(exponential_wait(multiplier, 1000 * q, n) == saturate(prev * q));
        if y <= time_cap() {
            assert(prev == y);
        } else {
            assert(prev == time_cap());
            if q == 0 {
                assert(y * q == 0) by (nonlinear_arith)
                    requires
                        q == 0,
                ;
                assert(prev * q == 0) by (nonlinear_arith)
                    requires
                        q == 0,
                ;
            } else {
                assert(y * q >= y) by (nonlinear_arith)
                    requires
                        q >= 1,
                        y >= 0,
                ;
                assert(prev * q >= prev) by (nonlinear_arith)
                    requires
                        q >= 1,
                        prev >= 0,
                ;
            }
        }
    }
}

} // verus!
