//! Reading numeric settings from text.

use crate::pattern::{is_space, is_space_char};
use vstd::prelude::*;

verus! {

/// Why a value was refused.
#[derive(Debug, Clone, Copy, PartialEq, Eq, Structural)]
pub enum ValueError {
    LessThanZero,
    LessThanOne,
    UnknownTimeUnit,
    EmptyTimeString,
    InvalidNumber,
    InconsistentUnits,
}

pub open spec fn value_message(e: ValueError) -> Seq<char> {
    match e {
        ValueError::LessThanZero => "Must be >= 0"@,
        ValueError::LessThanOne => "Must be >= 1"@,
        ValueError::UnknownTimeUnit => "Unknown unit of time"@,
        ValueError::EmptyTimeString => "Empty time string"@,
        ValueError::InvalidNumber => "Invalid number"@,
        ValueError::InconsistentUnits => "If any time value has a unit, all must have units"@,
    }
}

impl ValueError {
    /// What the error means, in words.
    pub fn message(&self) -> (r: &'static str)
        ensures
            r@ == value_message(*self),
    {
        match self {
            ValueError::LessThanZero => "Must be >= 0",
            ValueError::LessThanOne => "Must be >= 1",
            ValueError::UnknownTimeUnit => "Unknown unit of time",
            ValueError::EmptyTimeString => "Empty time string",
            ValueError::InvalidNumber => "Invalid number",
            ValueError::InconsistentUnits => "If any time value has a unit, all must have units",
        }
    }
}

pub open spec fn is_digit(c: char) -> bool {
    0x30 <= (c as u32) <= 0x39
}

pub open spec fn all_digits(s: Seq<char>) -> bool {
    forall|i: int| 0 <= i < s.len() ==> #[trigger] is_digit(s[i])
}

/// The number that a run of decimal digits spells.
pub open spec fn digits_value(s: Seq<char>) -> int
    decreases s.len(),
{
    if s.len() == 0 {
        0
    } else {
        digits_value(s.drop_last()) * 10 + ((s.last() as u32) - 0x30)
    }
}

/// The digits of an unsigned integer literal: an optional `+`, then at least
/// one digit.
pub open spec fn unsigned_digits(s: Seq<char>) -> Option<Seq<char>> {
    let body = if s.len() > 0 && s[0] == '+' {
        s.subrange(1, s.len() as int)
    } else {
        s
    };
    if body.len() > 0 && all_digits(body) {
        Some(body)
    } else {
        None
    }
}

/// Reads a count of at least one: an unsigned decimal integer that fits in
/// `usize`. Zero is `LessThanOne`; anything else that is not such an
/// integer is `InvalidNumber`.
pub fn usize_gte_1(s: &str) -> (r: Result<usize, ValueError>)
    ensures
        match unsigned_digits(s@) {
            None => r == Err::<usize, ValueError>(ValueError::InvalidNumber),
            Some(d) => if digits_value(d) > usize::MAX {
                r == Err::<usize, ValueError>(ValueError::InvalidNumber)
            } else if digits_value(d) == 0 {
                r == Err::<usize, ValueError>(ValueError::LessThanOne)
            } else {
                r == Ok::<usize, ValueError>(digits_value(d) as usize)
            },
        },
{
    let len = s.unicode_len();
    let start: usize = if len > 0 && s.get_char(0) == '+' {
        1
    } else {
        0
    };
    if start >= len {
        return Err(ValueError::InvalidNumber);
    }
    let ghost body = s@.subrange(start as int, len as int);
    if start == 0 {
        assert(body =~= s@);
    }
    assert(unsigned_digits(s@) == if all_digits(body) {
        Some(body)
    } else {
        None::<Seq<char>>
    });
    let mut value: usize = 0;
    let mut overflow = false;
    let mut i: usize = start;
    while i < len
        invariant
            len == s@.len(),
            start <= i <= len,
            start < len,
            body == s@.subrange(start as int, len as int),
            unsigned_digits(s@) == if all_digits(body) {
                Some(body)
            } else {
                None::<Seq<char>>
            },
            all_digits(s@.subrange(start as int, i as int)),
            overflow ==> digits_value(s@.subrange(start as int, i as int)) > usize::MAX,
            !overflow ==> value == digits_value(s@.subrange(start as int, i as int)),
        decreases len - i,
    {
        let c = s.get_char(i);
        let ghost prefix = s@.subrange(start as int, i as int);
        let ghost next = s@.subrange(start as int, i + 1 as int);
        assert(next.drop_last() =~= prefix);
        assert(next.last() == c);
        if !(0x30 <= (c as u32) && (c as u32) <= 0x39) {
            assert(body[i - start] == c);
            assert(!is_digit(body[i - start]));
            return Err(ValueError::InvalidNumber);
        }
        let d = (c as u32 - 0x30) as usize;
        assert(digits_value(next) == digits_value(prefix) * 10 + d);
        if !overflow {
            if value > (usize::MAX - d) / 10 {
                assert(value * 10 + d > usize::MAX) by (nonlinear_arith)
                    requires
                        value > (usize::MAX - d) / 10,
                        d <= 9,
                ;
                overflow = true;
            } else {
                assert(value * 10 + d <= usize::MAX) by (nonlinear_arith)
                    requires
                        value <= (usize::MAX - d) / 10,
                        d <= 9,
                ;
                value = value * 10 + d;
            }
        }
        assert forall|k: int| 0 <= k < next.len() implies #[trigger] is_digit(next[k]) by {
            if k < prefix.len() {
                assert(next[k] == prefix[k]);
            }
        }
        i = i + 1;
    }
    assert(s@.subrange(start as int, len as int) =~= body);
    if overflow {
        Err(ValueError::InvalidNumber)
    } else if value == 0 {
        Err(ValueError::LessThanOne)
    } else {
        Ok(value)
    }
}


// ---------------------------------------------------------------------------
// Durations such as `1h 30m` or `0.05`
// ---------------------------------------------------------------------------

/// Microseconds per second.
pub const MICROS_PER_SECOND: u64 = 1000000;

/// A unit of time, and the number of microseconds it stands for.
#[derive(Debug, Clone, Copy, PartialEq, Eq, Structural)]
pub enum TimeUnit {
    Hour,
    Minute,
    Second,
    Millisecond,
    Nanosecond,
}

pub open spec fn unit_of(u: Seq<char>) -> Option<TimeUnit> {
    if u == seq!['h'] || u == seq!['h', 'r'] {
        Some(TimeUnit::Hour)
    } else if u == seq!['m'] || u == seq!['m', 'i', 'n'] {
        Some(TimeUnit::Minute)
    } else if u == seq!['s'] {
        Some(TimeUnit::Second)
    } else if u == seq!['m', 's'] {
        Some(TimeUnit::Millisecond)
    } else if u == seq!['n', 's'] {
        Some(TimeUnit::Nanosecond)
    } else {
        None
    }
}

pub open spec fn micros_of(u: TimeUnit) -> int {
    match u {
        TimeUnit::Hour => 3600000000,
        TimeUnit::Minute => 60000000,
        TimeUnit::Second => 1000000,
        TimeUnit::Millisecond => 1000,
        TimeUnit::Nanosecond => 1,
    }
}

impl TimeUnit {
    /// Microseconds in one unit. A `ns` counts as a millionth of a second.
    pub fn scale(&self) -> (r: u64)
        ensures
            r == micros_of(*self),
    {
        match self {
            TimeUnit::Hour => 3600000000,
            TimeUnit::Minute => 60000000,
            TimeUnit::Second => 1000000,
            TimeUnit::Millisecond => 1000,
            TimeUnit::Nanosecond => 1,
        }
    }

    /// Reads `h`/`hr`, `m`/`min`, `s`, `ms` or `ns`.
    pub fn from_str(s: &str) -> (r: Result<TimeUnit, ValueError>)
        ensures
            match unit_of(s@) {
                Some(u) => r == Ok::<TimeUnit, ValueError>(u),
                None => r == Err::<TimeUnit, ValueError>(ValueError::UnknownTimeUnit),
            },
    {
        let n = s.unicode_len();
        if n == 1 {
            let a = s.get_char(0);
            if a == 'h' {
                assert(s@ =~= seq!['h']);
                return Ok(TimeUnit::Hour);
            } else if a == 'm' {
                assert(s@ =~= seq!['m']);
                return Ok(TimeUnit::Minute);
            } else if a == 's' {
                assert(s@ =~= seq!['s']);
                return Ok(TimeUnit::Second);
            }
        } else if n == 2 {
            let a = s.get_char(0);
            let b = s.get_char(1);
            if a == 'h' && b == 'r' {
                assert(s@ =~= seq!['h', 'r']);
                return Ok(TimeUnit::Hour);
            } else if a == 'm' && b == 's' {
                assert(s@ =~= seq!['m', 's']);
                return Ok(TimeUnit::Millisecond);
            } else if a == 'n' && b == 's' {
                assert(s@ =~= seq!['n', 's']);
                return Ok(TimeUnit::Nanosecond);
            }
        } else if n == 3 {
            if s.get_char(0) == 'm' && s.get_char(1) == 'i' && s.get_char(2) == 'n' {
                assert(s@ =~= seq!['m', 'i', 'n']);
                return Ok(TimeUnit::Minute);
            }
        }
        Err(ValueError::UnknownTimeUnit)
    }
}

/// Characters of a number: digits and dots.
pub open spec fn is_num_char(c: char) -> bool {
    is_digit(c) || c == '.'
}

/// Characters of a unit: neither number characters nor white space.
pub open spec fn is_unit_char(c: char) -> bool {
    !is_num_char(c) && !is_space(c)
}

pub enum Run {
    Digits,
    Number,
    Space,
    Unit,
}

pub open spec fn in_run(c: char, run: Run) -> bool {
    match run {
        Run::Digits => is_digit(c),
        Run::Number => is_num_char(c),
        Run::Space => is_space(c),
        Run::Unit => is_unit_char(c),
    }
}

/// The index where the run of `run` characters starting at `i` ends.
pub open spec fn run_end(c: Seq<char>, i: int, run: Run) -> int
    decreases c.len() - i,
{
    if 0 <= i < c.len() && in_run(c[i], run) {
        run_end(c, i + 1, run)
    } else {
        i
    }
}

/// `floor(0.d1 d2 ... dk * scale)` for the digits `f`, taken from the right.
pub open spec fn fraction_scaled(f: Seq<char>, scale: int) -> int
    decreases f.len(),
{
    if f.len() == 0 {
        0
    } else {
        ((f[0] as u32 - 0x30) * scale + fraction_scaled(f.skip(1), scale)) / 10
    }
}

pub open spec fn cap() -> int {
    u64::MAX as int
}

pub open spec fn capped(x: int) -> int {
    if x > cap() {
        cap()
    } else {
        x
    }
}

/// Whether `t` is a decimal number: digits with at most one dot, and at
/// least one digit.
pub open spec fn is_decimal(t: Seq<char>) -> bool {
    let p = run_end(t, 0, Run::Digits);
    (p == t.len() && p > 0) || (p < t.len() && t[p] == '.' && all_digits(t.skip(p + 1))
        && t.len() > 1)
}

/// The decimal number `t` times `scale`, rounded down, capped at the largest
/// `u64`.
pub open spec fn scaled_decimal(t: Seq<char>, scale: int) -> int {
    let p = run_end(t, 0, Run::Digits);
    if p == t.len() {
        capped(digits_value(t) * scale)
    } else {
        capped(digits_value(t.take(p)) * scale + fraction_scaled(t.skip(p + 1), scale))
    }
}

/// The component that starts at index `i`: a number, optional white space,
/// a unit, optional white space. Gives its value in microseconds and the
/// index after it.
pub open spec fn component_at(c: Seq<char>, i: int) -> Result<(int, int), ValueError> {
    let j = run_end(c, i, Run::Number);
    let k = run_end(c, j, Run::Space);
    let l = run_end(c, k, Run::Unit);
    let m = run_end(c, l, Run::Space);
    if l == k {
        Err(ValueError::InconsistentUnits)
    } else if !is_decimal(c.subrange(i, j)) {
        Err(ValueError::InvalidNumber)
    } else {
        match unit_of(c.subrange(k, l)) {
            None => Err(ValueError::UnknownTimeUnit),
            Some(u) => Ok((scaled_decimal(c.subrange(i, j), micros_of(u)), m)),
        }
    }
}

/// The components from index `i` on, added to `acc` (microseconds).
pub open spec fn components_from(c: Seq<char>, i: int, acc: int) -> Result<int, ValueError>
    decreases c.len() - i,
{
    if i >= c.len() {
        Ok(acc)
    } else {
        match component_at(c, i) {
            Err(e) => Err(e),
            Ok((v, m)) => if i < m <= c.len() {
                components_from(c, m, capped(acc + v))
            } else {
                Err(ValueError::InconsistentUnits)
            },
        }
    }
}

/// What a duration text means, in microseconds: a bare number of seconds,
/// or components such as `1h 30m` that each carry a unit.
pub open spec fn duration_micros(c: Seq<char>) -> Result<int, ValueError> {
    if run_end(c, 0, Run::Space) >= c.len() {
        Err(ValueError::EmptyTimeString)
    } else if forall|i: int| 0 <= i < c.len() ==> #[trigger] is_num_char(c[i]) {
        if is_decimal(c) {
            Ok(scaled_decimal(c, MICROS_PER_SECOND as int))
        } else {
            Err(ValueError::InvalidNumber)
        }
    } else {
        components_from(c, run_end(c, 0, Run::Space), 0)
    }
}


fn in_run_char(c: char, run: &Run) -> (r: bool)
    ensures
        r == in_run(c, *run),
{
    let digit = 0x30 <= (c as u32) && (c as u32) <= 0x39;
    match run {
        Run::Digits => digit,
        Run::Number => digit || c == '.',
        Run::Space => is_space_char(c),
        Run::Unit => !(digit || c == '.') && !is_space_char(c),
    }
}

/// The end of the run of `run` characters from `i`, within the first `to`
/// characters of `s`.
fn scan_run(s: &str, i: usize, to: usize, run: Run) -> (r: usize)
    requires
        i <= to <= s@.len(),
    ensures
        i <= r <= to,
        r == run_end(s@.subrange(0, to as int), i as int, run),
{
    let ghost c = s@.subrange(0, to as int);
    let mut q = i;
    while q < to && in_run_char(s.get_char(q), &run)
        invariant
            i <= q <= to,
            to <= s@.len(),
            c == s@.subrange(0, to as int),
            run_end(c, i as int, run) == run_end(c, q as int, run),
        decreases to - q,
    {
        q = q + 1;
    }
    q
}

/// The number spelled by the digits `s[from..to]`, capped at the largest
/// `u64`.
fn digits_capped(s: &str, from: usize, to: usize) -> (r: u64)
    requires
        from <= to <= s@.len(),
        all_digits(s@.subrange(from as int, to as int)),
    ensures
        r == capped(digits_value(s@.subrange(from as int, to as int))),
{
    let mut v: u64 = 0;
    let mut q = from;
    while q < to
        invariant
            from <= q <= to <= s@.len(),
            all_digits(s@.subrange(from as int, to as int)),
            v == capped(digits_value(s@.subrange(from as int, q as int))),
        decreases to - q,
    {
        let ghost prefix = s@.subrange(from as int, q as int);
        let ghost next = s@.subrange(from as int, q + 1 as int);
        assert(next.drop_last() =~= prefix);
        assert(is_digit(s@.subrange(from as int, to as int)[q - from]));
        let d = (s.get_char(q) as u32 - 0x30) as u64;
        assert(digits_value(next) == digits_value(prefix) * 10 + d);
        let ghost full = digits_value(prefix);
        assert(full >= 0) by {
            digits_nonnegative(prefix);
        }
        if v > (u64::MAX - d) / 10 {
            assert(v * 10 + d > u64::MAX) by (nonlinear_arith)
                requires
                    v > (u64::MAX - d) / 10,
                    d <= 9,
            ;
            assert(full * 10 + d > u64::MAX) by (nonlinear_arith)
                requires
                    full >= v,
                    v * 10 + d > u64::MAX,
            ;
            v = u64::MAX;
        } else {
            assert(v * 10 + d <= u64::MAX) by (nonlinear_arith)
                requires
                    v <= (u64::MAX - d) / 10,
                    d <= 9,
            ;
            assert(full <= u64::MAX);
            v = v * 10 + d;
        }
        q = q + 1;
    }
    v
}

proof fn digits_nonnegative(t: Seq<char>)
    requires
        all_digits(t),
    ensures
        digits_value(t) >= 0,
    decreases t.len(),
{
    if t.len() > 0 {
        assert(t.drop_last().len() < t.len());
        assert forall|i: int| 0 <= i < t.drop_last().len() implies #[trigger] is_digit(
            t.drop_last()[i],
        ) by {
            assert(is_digit(t[i]));
        }
        digits_nonnegative(t.drop_last());
        assert(is_digit(t[t.len() - 1]));
    }
}

/// `floor(0.d1 ... dk * scale)` for the digits `s[from..to]`.
fn fraction(s: &str, from: usize, to: usize, scale: u64) -> (r: u64)
    requires
        from <= to <= s@.len(),
        all_digits(s@.subrange(from as int, to as int)),
        1 <= scale <= 3600000000,
    ensures
        r == fraction_scaled(s@.subrange(from as int, to as int), scale as int),
        r < scale,
{
    let mut x: u64 = 0;
    let mut q = to;
    while q > from
        invariant
            from <= q <= to <= s@.len(),
            all_digits(s@.subrange(from as int, to as int)),
            1 <= scale <= 3600000000,
            x == fraction_scaled(s@.subrange(q as int, to as int), scale as int),
            x < scale,
        decreases q - from,
    {
        let ghost tail = s@.subrange(q as int, to as int);
        let ghost longer = s@.subrange(q - 1 as int, to as int);
        assert(longer.skip(1) =~= tail);
        assert(is_digit(s@.subrange(from as int, to as int)[q - 1 - from]));
        let d = (s.get_char(q - 1) as u32 - 0x30) as u64;
        assert(longer[0] == s@[q - 1]);
        assert(d * scale + x < 10 * scale) by (nonlinear_arith)
            requires
                d <= 9,
                x < scale,
        ;
        assert(d * scale <= 9 * 3600000000) by (nonlinear_arith)
            requires
                d <= 9,
                scale <= 3600000000,
        ;
        x = (d * scale + x) / 10;
        q = q - 1;
    }
    x
}

/// The decimal number `s[from..to]` times `scale`, rounded down and capped,
/// or `None` if it is no decimal number.
fn read_scaled(s: &str, from: usize, to: usize, scale: u64) -> (r: Option<u64>)
    requires
        from <= to <= s@.len(),
        1 <= scale <= 3600000000,
    ensures
        match r {
            Some(v) => is_decimal(s@.subrange(from as int, to as int)) && v == scaled_decimal(
                s@.subrange(from as int, to as int),
                scale as int,
            ),
            None => !is_decimal(s@.subrange(from as int, to as int)),
        },
{
    let ghost t = s@.subrange(from as int, to as int);
    let mut p = from;
    while p < to && 0x30 <= (s.get_char(p) as u32) && (s.get_char(p) as u32) <= 0x39
        invariant
            from <= p <= to <= s@.len(),
            t == s@.subrange(from as int, to as int),
            run_end(t, 0, Run::Digits) == run_end(t, p - from, Run::Digits),
            all_digits(s@.subrange(from as int, p as int)),
        decreases to - p,
    {
        assert(t[p - from] == s@[p as int]);
        assert forall|k: int| 0 <= k < p + 1 - from implies #[trigger] is_digit(
            s@.subrange(from as int, p + 1 as int)[k],
        ) by {
            if k < p - from {
                assert(s@.subrange(from as int, p + 1 as int)[k] == s@.subrange(
                    from as int,
                    p as int,
                )[k]);
            }
        }
        p = p + 1;
    }
    let ghost pp = run_end(t, 0, Run::Digits);
    assert(pp == p - from);
    assert(s@.subrange(from as int, p as int) =~= t.take(p - from));
    let int_part = digits_capped(s, from, p);
    let ghost iv = digits_value(t.take(p - from));
    proof {
        digits_nonnegative(t.take(p - from));
    }
    if p == to {
        if p == from {
            return None;
        }
        assert(t.take(p - from) =~= t);
        let a = int_part as u128;
        let b = scale as u128;
        assert(a * b <= 0xFFFF_FFFF_FFFF_FFFFu128 * 3600000000u128) by (nonlinear_arith)
            requires
                a <= 0xFFFF_FFFF_FFFF_FFFFu128,
                b <= 3600000000u128,
        ;
        let x: u128 = a * b;
        proof {
            capped_product(iv, scale as int, 0);
        }
        return Some(
            if x > u64::MAX as u128 {
                u64::MAX
            } else {
                x as u64
            },
        );
    }
    if s.get_char(p) != '.' || to - from <= 1 {
        return None;
    }
    let mut q = p + 1;
    while q < to
        invariant
            from <= p,
            p + 1 <= q <= to <= s@.len(),
            t == s@.subrange(from as int, to as int),
            run_end(t, 0, Run::Digits) == p - from,
            p < to,
            all_digits(s@.subrange(p + 1 as int, q as int)),
        decreases to - q,
    {
        let ch = s.get_char(q);
        if !(0x30 <= (ch as u32) && (ch as u32) <= 0x39) {
            assert(t.skip(p - from + 1)[q - p - 1] == ch);
            assert(!is_digit(t.skip(p - from + 1)[q - p - 1]));
            assert(!all_digits(t.skip(p - from + 1)));
            return None;
        }
        assert forall|k: int| 0 <= k < q + 1 - (p + 1) implies #[trigger] is_digit(
            s@.subrange(p + 1 as int, q + 1 as int)[k],
        ) by {
            if k < q - (p + 1) {
                assert(s@.subrange(p + 1 as int, q + 1 as int)[k] == s@.subrange(
                    p + 1 as int,
                    q as int,
                )[k]);
            }
        }
        q = q + 1;
    }
    assert(s@.subrange(p + 1 as int, to as int) =~= t.skip(p - from + 1));
    let f = fraction(s, p + 1, to, scale);
    let a = int_part as u128;
    let b = scale as u128;
    assert(a * b <= 0xFFFF_FFFF_FFFF_FFFFu128 * 3600000000u128) by (nonlinear_arith)
        requires
            a <= 0xFFFF_FFFF_FFFF_FFFFu128,
            b <= 3600000000u128,
    ;
    let x: u128 = a * b + (f as u128);
    proof {
        capped_product(iv, scale as int, f as int);
    }
    Some(
        if x > u64::MAX as u128 {
            u64::MAX
        } else {
            x as u64
        },
    )
}

/// Capping the number before scaling changes nothing once the product is
/// capped.
proof fn capped_product(v: int, scale: int, f: int)
    requires
        v >= 0,
        scale >= 1,
        f >= 0,
    ensures
        capped(capped(v) * scale + f) == capped(v * scale + f),
{
    if v > cap() {
        assert(capped(v) * scale >= cap()) by (nonlinear_arith)
            requires
                capped(v) == cap(),
                scale >= 1,
        ;
        assert(v * scale >= v) by (nonlinear_arith)
            requires
                v >= 0,
                scale >= 1,
        ;
    }
}


/// Reads the component at index `i`: its value in microseconds and the index
/// after it.
fn read_component(s: &str, i: usize, len: usize) -> (r: Result<(u64, usize), ValueError>)
    requires
        i < len == s@.len(),
    ensures
        match r {
            Ok((v, m)) => component_at(s@, i as int) == Ok::<(int, int), ValueError>(
                (v as int, m as int),
            ) && i < m <= len,
            Err(e) => component_at(s@, i as int) == Err::<(int, int), ValueError>(e),
        },
{
    assert(s@.subrange(0, len as int) =~= s@);
    let j = scan_run(s, i, len, Run::Number);
    let k = scan_run(s, j, len, Run::Space);
    let l = scan_run(s, k, len, Run::Unit);
    let m = scan_run(s, l, len, Run::Space);
    if l == k {
        return Err(ValueError::InconsistentUnits);
    }
    let unit = TimeUnit::from_str(s.substring_char(k, l));
    let scale = match unit {
        Ok(u) => u.scale(),
        Err(_) => 1,
    };
    match read_scaled(s, i, j, scale) {
        None => Err(ValueError::InvalidNumber),
        Some(v) => match unit {
            Err(e) => Err(e),
            Ok(_) => Ok((v, m)),
        },
    }
}

/// Reads a duration and gives it in whole milliseconds, rounded down. The
/// text is either a bare number of seconds (`0.05`), or components that each
/// carry a unit (`1h 30m`, `1.5h30s`): `h`/`hr`, `m`/`min`, `s`, `ms`, and
/// `ns` for a millionth of a second.
pub fn time_duration(s: &str) -> (r: Result<u64, ValueError>)
    ensures
        match duration_micros(s@) {
            Ok(us) => r == Ok::<u64, ValueError>((us / 1000) as u64),
            Err(e) => r == Err::<u64, ValueError>(e),
        },
{
    let len = s.unicode_len();
    let ghost c = s@;
    assert(s@.subrange(0, len as int) =~= c);
    let start = scan_run(s, 0, len, Run::Space);
    if start >= len {
        return Err(ValueError::EmptyTimeString);
    }
    let mut k: usize = 0;
    while k < len && in_run_char(s.get_char(k), &Run::Number)
        invariant
            k <= len == c.len(),
            c == s@,
            forall|j: int| 0 <= j < k ==> #[trigger] is_num_char(c[j]),
        decreases len - k,
    {
        k = k + 1;
    }
    if k == len {
        return match read_scaled(s, 0, len, MICROS_PER_SECOND) {
            Some(v) => Ok(v / 1000),
            None => Err(ValueError::InvalidNumber),
        };
    }
    assert(!is_num_char(c[k as int]));
    assert(duration_micros(c) == components_from(c, start as int, 0));
    let mut i = start;
    let mut acc: u64 = 0;
    while i < len
        invariant
            start <= i <= len == c.len(),
            c == s@,
            duration_micros(c) == components_from(c, start as int, 0),
            components_from(c, i as int, acc as int) == components_from(c, start as int, 0),
        decreases len - i,
    {
        match read_component(s, i, len) {
            Err(e) => {
                return Err(e);
            },
            Ok((v, m)) => {
                acc = acc.saturating_add(v);
                i = m;
            },
        }
    }
    Ok(acc / 1000)
}


/// What a non-negative decimal means in thousandths: a decimal number, rounded
/// down; a negative one (other than zero) is `LessThanZero`.
pub open spec fn thousandths_of(c: Seq<char>) -> Result<int, ValueError> {
    if is_decimal(c) {
        Ok(scaled_decimal(c, 1000))
    } else if c.len() > 0 && c[0] == '-' && is_decimal(c.skip(1)) {
        if scaled_decimal(c.skip(1), 1000) == 0 {
            Ok(0)
        } else {
            Err(ValueError::LessThanZero)
        }
    } else {
        Err(ValueError::InvalidNumber)
    }
}

/// Reads a non-negative decimal number (such as an exponential base) in
/// thousandths, rounded down.
pub fn f32_gte_0(s: &str) -> (r: Result<u64, ValueError>)
    ensures
        match thousandths_of(s@) {
            Ok(v) => r == Ok::<u64, ValueError>(v as u64),
            Err(e) => r == Err::<u64, ValueError>(e),
        },
{
    let len = s.unicode_len();
    assert(s@.subrange(0, len as int) =~= s@);
    if let Some(v) = read_scaled(s, 0, len, 1000) {
        return Ok(v);
    }
    if len > 0 && s.get_char(0) == '-' {
        assert(s@.subrange(1, len as int) =~= s@.skip(1));
        match read_scaled(s, 1, len, 1000) {
            Some(0) => Ok(0),
            Some(_) => Err(ValueError::LessThanZero),
            None => Err(ValueError::InvalidNumber),
        }
    } else {
        Err(ValueError::InvalidNumber)
    }
}

} // verus!
