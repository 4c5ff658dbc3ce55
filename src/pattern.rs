//! Sets of codes (exit statuses or signals) written as lists and ranges,
//! e.g. `1..3,5,10..12`.

use std::ops::RangeInclusive;
use vstd::array::*;
use vstd::prelude::*;
use vstd::string::*;

verus! {

/// Number of distinct codes, `0..=255`.
pub const CODE_COUNT: usize = 256;

/// A number is tracked up to this value; anything that large cannot be read
/// as an `i32` and is rejected.
pub const NUMBER_CAP: u64 = 2147483648;

/// Why a pattern could not be read.
#[derive(Debug, Clone, Copy, PartialEq, Eq, Structural)]
pub enum ParsingErrorKind {
    InvalidCharacters,
    InvalidValue,
    InvalidNumber,
    HeadlessRange,
    FootlessRange,
    WrongDots,
    BrokenRange,
    Empty,
}

/// A rejected pattern: what went wrong, the text, and the character index
/// the error points at.
#[derive(Clone, Debug, PartialEq, Eq)]
pub struct ParsingError {
    pub kind: ParsingErrorKind,
    pub input: String,
    pub idx: usize,
}

/// A set of codes in `0..=255`, kept as a membership table.
#[derive(Debug, Clone, PartialEq, Eq)]
pub struct CodePattern {
    codes: [bool; 256],
}

/// The set of codes that a membership table marks.
pub open spec fn table_set(t: Seq<bool>) -> Set<int> {
    Set::new(|c: int| 0 <= c < CODE_COUNT && t[c])
}

/// The codes `lo..=hi`.
pub open spec fn span(lo: int, hi: int) -> Set<int> {
    Set::new(|c: int| lo <= c <= hi)
}

impl View for CodePattern {
    type V = Set<int>;

    closed spec fn view(&self) -> Set<int> {
        table_set(self.codes@)
    }
}

// ---------------------------------------------------------------------------
// The grammar, as a scanner over the characters.
// ---------------------------------------------------------------------------

/// Characters with Unicode's `White_Space` property.
pub open spec fn is_space(c: char) -> bool {
    let u = c as u32;
    (0x9 <= u <= 0xD) || u == 0x20 || u == 0x85 || u == 0xA0 || u == 0x1680 || (0x2000 <= u
        <= 0x200A) || u == 0x2028 || u == 0x2029 || u == 0x202F || u == 0x205F || u == 0x3000
}

pub open spec fn is_digit(c: char) -> bool {
    0x30 <= (c as u32) <= 0x39
}

pub open spec fn digit_of(c: char) -> int {
    (c as u32) - 0x30
}

/// A number read so far, followed by one more digit.
pub open spec fn push_digit(n: int, c: char) -> int {
    let m = n * 10 + digit_of(c);
    if m < NUMBER_CAP {
        m
    } else {
        NUMBER_CAP as int
    }
}

/// The code that a complete number stands for.
pub open spec fn code_of(n: int) -> Result<int, ParsingErrorKind> {
    if n > i32::MAX {
        Err(ParsingErrorKind::InvalidNumber)
    } else if n >= CODE_COUNT {
        Err(ParsingErrorKind::InvalidValue)
    } else {
        Ok(n)
    }
}

/// A table with the codes `lo..=hi` marked as well.
pub open spec fn mark(t: Seq<bool>, lo: int, hi: int) -> Seq<bool> {
    Seq::new(t.len(), |c: int| t[c] || (lo <= c <= hi))
}

/// What the scanner knows after a prefix of the text.
pub struct ScanState {
    /// Codes marked so far.
    pub table: Seq<bool>,
    /// The number being read, if any.
    pub number: Option<int>,
    /// The first end of a range whose second end is awaited.
    pub range_begin: Option<int>,
    /// Dots seen in a row.
    pub dots: int,
    /// Whether the last character was white space.
    pub last_ws: bool,
    /// Whether at least one item was completed.
    pub any: bool,
}

pub enum ScanStep {
    Next(ScanState),
    Fail(ParsingErrorKind, int),
}

pub open spec fn initial_scan() -> ScanState {
    ScanState {
        table: Seq::new(CODE_COUNT as nat, |c: int| false),
        number: None,
        range_begin: None,
        dots: 0,
        last_ws: false,
        any: false,
    }
}

/// Completes the current item, a single code or a range, with the code `v`.
/// Ranges may be written either way round.
pub open spec fn close_item(st: ScanState, v: int) -> ScanState {
    match st.range_begin {
        Some(b) => ScanState {
            table: if b <= v {
                mark(st.table, b, v)
            } else {
                mark(st.table, v, b)
            },
            number: None,
            range_begin: None,
            dots: 0,
            last_ws: false,
            any: true,
        },
        None => ScanState {
            table: mark(st.table, v, v),
            number: None,
            range_begin: None,
            dots: st.dots,
            last_ws: false,
            any: true,
        },
    }
}

pub open spec fn with_last_ws(st: ScanState, w: bool) -> ScanState {
    ScanState { last_ws: w, ..st }
}

/// One character `c`, at index `i`.
pub open spec fn scan_step(st: ScanState, i: int, c: char) -> ScanStep {
    if c != '.' && st.dots == 1 {
        ScanStep::Fail(ParsingErrorKind::WrongDots, i)
    } else if is_space(c) {
        ScanStep::Next(with_last_ws(st, true))
    } else if is_digit(c) {
        match st.number {
            Some(n) => if st.last_ws {
                ScanStep::Fail(ParsingErrorKind::InvalidNumber, i - 1)
            } else {
                ScanStep::Next(ScanState { number: Some(push_digit(n, c)), last_ws: false, ..st })
            },
            None => ScanStep::Next(
                ScanState { number: Some(push_digit(0, c)), last_ws: false, ..st },
            ),
        }
    } else if c == '.' {
        if st.dots + 1 == 2 {
            if st.last_ws {
                ScanStep::Fail(ParsingErrorKind::WrongDots, i - 1)
            } else {
                ScanStep::Next(ScanState { dots: 2, last_ws: false, ..st })
            }
        } else if st.dots + 1 > 2 {
            if st.number is None {
                ScanStep::Fail(ParsingErrorKind::WrongDots, i)
            } else {
                ScanStep::Fail(ParsingErrorKind::BrokenRange, i)
            }
        } else if st.range_begin is Some {
            ScanStep::Fail(ParsingErrorKind::BrokenRange, i)
        } else {
            match st.number {
                None => ScanStep::Fail(ParsingErrorKind::HeadlessRange, i),
                Some(n) => match code_of(n) {
                    Ok(v) => ScanStep::Next(
                        ScanState {
                            number: None,
                            range_begin: Some(v),
                            dots: 1,
                            last_ws: false,
                            ..st
                        },
                    ),
                    Err(k) => ScanStep::Fail(k, i - 1),
                },
            }
        }
    } else if c == ',' {
        match st.number {
            Some(n) => match code_of(n) {
                Ok(v) => ScanStep::Next(close_item(st, v)),
                Err(k) => ScanStep::Fail(k, i - 1),
            },
            None => if st.range_begin is Some {
                ScanStep::Fail(ParsingErrorKind::FootlessRange, i)
            } else {
                ScanStep::Next(with_last_ws(st, false))
            },
        }
    } else {
        ScanStep::Fail(ParsingErrorKind::InvalidCharacters, i)
    }
}

/// The end of a text of `len` characters: the marked table, and whether any
/// item was given.
pub open spec fn scan_finish(st: ScanState, len: int) -> Result<(Seq<bool>, bool), (ParsingErrorKind, int)> {
    match st.number {
        Some(n) => match code_of(n) {
            Ok(v) => Ok((close_item(st, v).table, true)),
            Err(k) => Err((k, len - 1)),
        },
        None => if st.range_begin is Some {
            Err((ParsingErrorKind::FootlessRange, len - 1))
        } else {
            Ok((st.table, st.any))
        },
    }
}

pub open spec fn scan_from(s: Seq<char>, st: ScanState, i: nat) -> Result<(Seq<bool>, bool), (ParsingErrorKind, int)>
    decreases s.len() - i,
{
    if i >= s.len() {
        scan_finish(st, s.len() as int)
    } else {
        match scan_step(st, i as int, s[i as int]) {
            ScanStep::Next(next) => scan_from(s, next, i + 1),
            ScanStep::Fail(k, j) => Err((k, j)),
        }
    }
}

/// The result of scanning the whole text `s`.
pub open spec fn scan_codes(s: Seq<char>) -> Result<(Seq<bool>, bool), (ParsingErrorKind, int)> {
    scan_from(s, initial_scan(), 0)
}

/// What `s` means as a code pattern: its membership table, or the kind and
/// character index of the first error. A text without any code is `Empty`.
pub open spec fn parse_pattern(s: Seq<char>) -> Result<Seq<bool>, (ParsingErrorKind, int)> {
    match scan_codes(s) {
        Ok((t, any)) => if any {
            Ok(t)
        } else {
            Err((ParsingErrorKind::Empty, 0))
        },
        Err(e) => Err(e),
    }
}

// ---------------------------------------------------------------------------
// Executable scanner
// ---------------------------------------------------------------------------

pub fn is_space_char(c: char) -> (r: bool)
    ensures
        r == is_space(c),
{
    let u = c as u32;
    (0x9 <= u && u <= 0xD) || u == 0x20 || u == 0x85 || u == 0xA0 || u == 0x1680 || (0x2000 <= u
        && u <= 0x200A) || u == 0x2028 || u == 0x2029 || u == 0x202F || u == 0x205F || u == 0x3000
}

/// Marks the codes `lo..=hi`.
pub(crate) fn mark_codes(table: &mut [bool; 256], lo: usize, hi: usize)
    requires
        lo <= hi < CODE_COUNT,
    ensures
        final(table)@ == mark(old(table)@, lo as int, hi as int),
{
    let mut c: usize = lo;
    while c <= hi
        invariant
            lo <= c <= hi + 1,
            hi < CODE_COUNT,
            table@.len() == CODE_COUNT,
            forall|k: int|
                0 <= k < CODE_COUNT ==> #[trigger] table@[k] == (old(table)@[k] || (lo <= k
                    < c)),
        decreases hi + 1 - c,
    {
        table[c] = true;
        c = c + 1;
    }
    assert(table@ =~= mark(old(table)@, lo as int, hi as int));
}

/// The scanner's state as the spec sees it.
pub open spec fn state_of(
    table: [bool; 256],
    number: Option<u64>,
    range_begin: Option<usize>,
    dots: usize,
    last_ws: bool,
    any: bool,
) -> ScanState {
    ScanState {
        table: table@,
        number: match number {
            Some(n) => Some(n as int),
            None => None,
        },
        range_begin: match range_begin {
            Some(b) => Some(b as int),
            None => None,
        },
        dots: dots as int,
        last_ws,
        any,
    }
}

/// Reads a finished number as a code.
fn code_of_number(n: u64) -> (r: Result<usize, ParsingErrorKind>)
    requires
        n <= NUMBER_CAP,
    ensures
        match r {
            Ok(v) => code_of(n as int) == Ok::<int, ParsingErrorKind>(v as int),
            Err(k) => code_of(n as int) == Err::<int, ParsingErrorKind>(k),
        },
{
    if n > 2147483647 {
        Err(ParsingErrorKind::InvalidNumber)
    } else if n >= 256 {
        Err(ParsingErrorKind::InvalidValue)
    } else {
        Ok(n as usize)
    }
}

/// Scans the whole text: the marked table and whether any item was given, or
/// the first error with its character index.
pub fn scan_pattern(s: &str) -> (r: Result<([bool; 256], bool), (ParsingErrorKind, usize)>)
    ensures
        match r {
            Ok((t, any)) => scan_codes(s@) == Ok::<(Seq<bool>, bool), (ParsingErrorKind, int)>(
                (t@, any),
            ),
            Err((k, j)) => scan_codes(s@) == Err::<(Seq<bool>, bool), (ParsingErrorKind, int)>(
                (k, j as int),
            ),
        },
{
    broadcast use vstd::array::group_array_axioms;

    let len = s.unicode_len();
    let mut table: [bool; 256] = [false; 256];
    let mut number: Option<u64> = None;
    let mut range_begin: Option<usize> = None;
    let mut dots: usize = 0;
    let mut last_ws: bool = false;
    let mut any: bool = false;
    assert(table@ =~= initial_scan().table);
    let mut i: usize = 0;
    while i < len
        invariant
            len == s@.len(),
            i <= len,
            dots <= 2,
            match number {
                Some(n) => n <= NUMBER_CAP,
                None => true,
            },
            match range_begin {
                Some(b) => b < CODE_COUNT,
                None => true,
            },
            i == 0 ==> (number is None && range_begin is None && !last_ws),
            scan_from(s@, state_of(table, number, range_begin, dots, last_ws, any), i as nat)
                == scan_codes(s@),
        decreases len - i,
    {
        let c = s.get_char(i);
        let ghost st = state_of(table, number, range_begin, dots, last_ws, any);
        assert(scan_from(s@, st, i as nat) == match scan_step(st, i as int, c) {
            ScanStep::Next(next) => scan_from(s@, next, (i + 1) as nat),
            ScanStep::Fail(k, j) => Err((k, j)),
        });
        if c != '.' && dots == 1 {
            return Err((ParsingErrorKind::WrongDots, i));
        }
        if is_space_char(c) {
            last_ws = true;
        } else if 0x30 <= (c as u32) && (c as u32) <= 0x39 {
            let d = (c as u32 - 0x30) as u64;
            match number {
                Some(n) => {
                    if last_ws {
                        return Err((ParsingErrorKind::InvalidNumber, i - 1));
                    }
                    let m = if n >= 214748365 {
                        NUMBER_CAP
                    } else {
                        let t = n * 10 + d;
                        if t < NUMBER_CAP {
                            t
                        } else {
                            NUMBER_CAP
                        }
                    };
                    number = Some(m);
                },
                None => {
                    number = Some(d);
                },
            }
            last_ws = false;
        } else if c == '.' {
            if dots + 1 == 2 {
                if last_ws {
                    return Err((ParsingErrorKind::WrongDots, i - 1));
                }
                dots = 2;
            } else if dots + 1 > 2 {
                if number.is_none() {
                    return Err((ParsingErrorKind::WrongDots, i));
                } else {
                    return Err((ParsingErrorKind::BrokenRange, i));
                }
            } else if range_begin.is_some() {
                return Err((ParsingErrorKind::BrokenRange, i));
            } else {
                match number {
                    None => {
                        return Err((ParsingErrorKind::HeadlessRange, i));
                    },
                    Some(n) => match code_of_number(n) {
                        Ok(v) => {
                            range_begin = Some(v);
                            number = None;
                            dots = 1;
                        },
                        Err(k) => {
                            return Err((k, i - 1));
                        },
                    },
                }
            }
            last_ws = false;
        } else if c == ',' {
            match number {
                Some(n) => match code_of_number(n) {
                    Ok(v) => {
                        match range_begin {
                            Some(b) => {
                                if b <= v {
                                    mark_codes(&mut table, b, v);
                                } else {
                                    mark_codes(&mut table, v, b);
                                }
                                dots = 0;
                            },
                            None => {
                                mark_codes(&mut table, v, v);
                            },
                        }
                        number = None;
                        range_begin = None;
                        any = true;
                    },
                    Err(k) => {
                        return Err((k, i - 1));
                    },
                },
                None => {
                    if range_begin.is_some() {
                        return Err((ParsingErrorKind::FootlessRange, i));
                    }
                },
            }
            last_ws = false;
        } else {
            return Err((ParsingErrorKind::InvalidCharacters, i));
        }
        assert(scan_step(st, i as int, c) == ScanStep::Next(
            state_of(table, number, range_begin, dots, last_ws, any),
        ));
        i = i + 1;
    }
    let ghost st = state_of(table, number, range_begin, dots, last_ws, any);
    assert(scan_from(s@, st, i as nat) == scan_finish(st, len as int));
    match number {
        Some(n) => match code_of_number(n) {
            Ok(v) => {
                match range_begin {
                    Some(b) => {
                        if b <= v {
                            mark_codes(&mut table, b, v);
                        } else {
                            mark_codes(&mut table, v, b);
                        }
                    },
                    None => {
                        mark_codes(&mut table, v, v);
                    },
                }
                Ok((table, true))
            },
            Err(k) => Err((k, len - 1)),
        },
        None => {
            if range_begin.is_some() {
                Err((ParsingErrorKind::FootlessRange, len - 1))
            } else {
                Ok((table, any))
            }
        },
    }
}


// ---------------------------------------------------------------------------
// Messages
// ---------------------------------------------------------------------------

pub open spec fn kind_message(k: ParsingErrorKind) -> Seq<char> {
    match k {
        ParsingErrorKind::InvalidCharacters => "Invalid characters: must be digits, commas, periods, or whitespace."@,
        ParsingErrorKind::InvalidValue => "Invalid value: Must be in the range [0, 255]."@,
        ParsingErrorKind::InvalidNumber => "Invalid value: Number could not be understood."@,
        ParsingErrorKind::HeadlessRange => "Invalid range: Range has no begining."@,
        ParsingErrorKind::FootlessRange => "Invalid range: Range has no end."@,
        ParsingErrorKind::WrongDots => "Invalid range: Ranges use two dots (..)."@,
        ParsingErrorKind::BrokenRange => "Invalid range: Ranges can only be between 2 numbers."@,
        ParsingErrorKind::Empty => "Invalid value: Pattern cannot be empty."@,
    }
}

/// A report of an error in a text: the message, then the text, then a caret
/// under the character at `idx`, the last two lines indented by two spaces.
pub open spec fn caret_report(message: Seq<char>, input: Seq<char>, idx: nat) -> Seq<char> {
    message + "\n  "@ + input + "\n  "@ + Seq::new(idx, |i: int| ' ') + "^"@
}

impl ParsingErrorKind {
    /// What the error means, in words.
    pub fn message(&self) -> (r: &'static str)
        ensures
            r@ == kind_message(*self),
    {
        match self {
            ParsingErrorKind::InvalidCharacters => "Invalid characters: must be digits, commas, periods, or whitespace.",
            ParsingErrorKind::InvalidValue => "Invalid value: Must be in the range [0, 255].",
            ParsingErrorKind::InvalidNumber => "Invalid value: Number could not be understood.",
            ParsingErrorKind::HeadlessRange => "Invalid range: Range has no begining.",
            ParsingErrorKind::FootlessRange => "Invalid range: Range has no end.",
            ParsingErrorKind::WrongDots => "Invalid range: Ranges use two dots (..).",
            ParsingErrorKind::BrokenRange => "Invalid range: Ranges can only be between 2 numbers.",
            ParsingErrorKind::Empty => "Invalid value: Pattern cannot be empty.",
        }
    }
}

/// Builds the report of an error at `idx` in `input`.
pub fn caret_text(message: &str, input: &str, idx: usize) -> (r: String)
    ensures
        r@ == caret_report(message@, input@, idx as nat),
{
    let mut out = String::from_str(message);
    out.append("\n  ");
    out.append(input);
    out.append("\n  ");
    let ghost before = out@;
    let mut i: usize = 0;
    while i < idx
        invariant
            i <= idx,
            out@ == before + Seq::new(i as nat, |k: int| ' '),
        decreases idx - i,
    {
        out.append(" ");
        proof {
            reveal_strlit(" ");
        }
        assert(out@ =~= before + Seq::new((i + 1) as nat, |k: int| ' '));
        i = i + 1;
    }
    out.append("^");
    out
}

impl ParsingError {
    /// The error's message, the text, and a caret under the offending
    /// character.
    pub fn message(&self) -> (r: String)
        ensures
            r@ == caret_report(kind_message(self.kind), self.input@, self.idx as nat),
    {
        caret_text(self.kind.message(), self.input.as_str(), self.idx)
    }
}

// ---------------------------------------------------------------------------
// Range bounds
// ---------------------------------------------------------------------------

/// Relies on `RangeInclusive::start`: the lower bound of a range that has not
/// been iterated to its end.
pub assume_specification<Idx>[ RangeInclusive::<Idx>::start ](r: &RangeInclusive<Idx>) -> (s: &Idx)
    ensures
        !r@.exhausted ==> *s == r@.start,
;

/// Relies on `RangeInclusive::end`: the upper bound of a range that has not
/// been iterated to its end.
pub assume_specification<Idx>[ RangeInclusive::<Idx>::end ](r: &RangeInclusive<Idx>) -> (s: &Idx)
    ensures
        !r@.exhausted ==> *s == r@.end,
;

impl Default for CodePattern {
    fn default() -> (r: Self)
        ensures
            r@ == Set::<int>::empty(),
    {
        let r = CodePattern { codes: [false; 256] };
        assert(r@ =~= Set::<int>::empty());
        r
    }
}

impl CodePattern {
    /// Whether `code` is in the set; codes outside `0..=255` never are.
    pub fn contains(&self, code: i32) -> (r: bool)
        ensures
            r == self@.contains(code as int),
    {
        if 0 <= code && code < 256 {
            self.codes[code as usize]
        } else {
            false
        }
    }

    /// The set with the codes of `range` added. A range whose start is above
    /// its end adds nothing.
    pub fn with_range(self, range: RangeInclusive<i32>) -> (r: Self)
        requires
            !range@.exhausted ==> 0 <= range@.start < CODE_COUNT && 0 <= range@.end
                < CODE_COUNT,
        ensures
            !range@.exhausted ==> r@ == self@ + span(range@.start as int, range@.end as int),
    {
        let lo = *range.start();
        let hi = *range.end();
        let mut codes = self.codes;
        if 0 <= lo && lo <= hi && hi < 256 {
            mark_codes(&mut codes, lo as usize, hi as usize);
        }
        let r = CodePattern { codes };
        assert(!range@.exhausted ==> r@ =~= self@ + span(range@.start as int, range@.end as int));
        r
    }

    /// The set with `code` added.
    pub fn with_code(self, code: i32) -> (r: Self)
        requires
            0 <= code < CODE_COUNT,
        ensures
            r@ == self@.insert(code as int),
    {
        let mut codes = self.codes;
        mark_codes(&mut codes, code as usize, code as usize);
        let r = CodePattern { codes };
        assert(r@ =~= self@.insert(code as int));
        r
    }

    /// The set holding `code` alone.
    pub fn only(code: i32) -> (r: Self)
        requires
            0 <= code < CODE_COUNT,
        ensures
            r@ == set![code as int],
    {
        let r = Self::default().with_code(code);
        assert(r@ =~= set![code as int]);
        r
    }

    /// Reads a pattern: codes in `0..=255` separated by commas, each a single
    /// code or a range `a..b` (either way round), with white space allowed
    /// around the items. Empty items between commas are skipped; a text with
    /// no code at all is rejected.
    pub fn from_str(s: &str) -> (r: Result<CodePattern, ParsingError>)
        ensures
            match r {
                Ok(p) => parse_pattern(s@) matches Ok(t) && p@ == table_set(t),
                Err(e) => parse_pattern(s@) == Err::<Seq<bool>, (ParsingErrorKind, int)>(
                    (e.kind, e.idx as int),
                ) && e.input@ == s@,
            },
    {
        match scan_pattern(s) {
            Ok((codes, any)) => {
                if any {
                    Ok(CodePattern { codes })
                } else {
                    Err(ParsingError { kind: ParsingErrorKind::Empty, input: String::from_str(s), idx: 0 })
                }
            },
            Err((kind, idx)) => Err(ParsingError { kind, input: String::from_str(s), idx }),
        }
    }
}

} // verus!
