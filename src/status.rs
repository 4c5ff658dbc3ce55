//! Sets of exit statuses written as lists and ranges, with a coarser account
//! of what went wrong than [`crate::pattern`], and where an empty text is the
//! empty set.

use crate::pattern::{
    caret_report, caret_text, mark_codes, scan_codes, scan_pattern, span, table_set, ParsingErrorKind, CODE_COUNT,
};
use std::ops::RangeInclusive;
use vstd::prelude::*;
use vstd::string::*;

verus! {

/// Why a status pattern could not be read.
#[derive(Debug, Clone, Copy, PartialEq, Eq, Structural)]
pub enum InvalidTokenKind {
    Characters,
    Status,
    Range,
    Number,
}

/// A rejected status pattern: what went wrong, the text, and the character
/// index the error points at.
#[derive(Clone, Debug, PartialEq, Eq)]
pub struct ParsingError {
    pub kind: InvalidTokenKind,
    pub input: String,
    pub idx: usize,
}

/// A set of exit statuses in `0..=255`, kept as a membership table.
#[derive(Debug, Clone, PartialEq, Eq)]
pub struct StatusCodePattern {
    codes: [bool; 256],
}

impl View for StatusCodePattern {
    type V = Set<int>;

    closed spec fn view(&self) -> Set<int> {
        table_set(self.codes@)
    }
}

/// The coarse kind that stands for a scanner error.
pub open spec fn token_kind(k: ParsingErrorKind) -> InvalidTokenKind {
    match k {
        ParsingErrorKind::InvalidCharacters => InvalidTokenKind::Characters,
        ParsingErrorKind::InvalidValue => InvalidTokenKind::Status,
        ParsingErrorKind::InvalidNumber => InvalidTokenKind::Number,
        _ => InvalidTokenKind::Range,
    }
}

/// What `s` means as a status pattern: the membership table (possibly empty),
/// or the coarse kind and character index of the first error.
pub open spec fn parse_status_pattern(s: Seq<char>) -> Result<Seq<bool>, (InvalidTokenKind, int)> {
    match scan_codes(s) {
        Ok((t, _)) => Ok(t),
        Err((k, i)) => Err((token_kind(k), i)),
    }
}

fn coarse_kind(k: ParsingErrorKind) -> (r: InvalidTokenKind)
    ensures
        r == token_kind(k),
{
    match k {
        ParsingErrorKind::InvalidCharacters => InvalidTokenKind::Characters,
        ParsingErrorKind::InvalidValue => InvalidTokenKind::Status,
        ParsingErrorKind::InvalidNumber => InvalidTokenKind::Number,
        _ => InvalidTokenKind::Range,
    }
}

pub open spec fn token_message(k: InvalidTokenKind) -> Seq<char> {
    match k {
        InvalidTokenKind::Characters => "Invalid characters: must be digits, commas, periods, or whitespace."@,
        InvalidTokenKind::Status => "Statuses must be in the range [0, 255]."@,
        InvalidTokenKind::Range => "Range could not be understood."@,
        InvalidTokenKind::Number => "Number could not be understood."@,
    }
}

impl InvalidTokenKind {
    /// What the error means, in words.
    pub fn message(&self) -> (r: &'static str)
        ensures
            r@ == token_message(*self),
    {
        match self {
            InvalidTokenKind::Characters => "Invalid characters: must be digits, commas, periods, or whitespace.",
            InvalidTokenKind::Status => "Statuses must be in the range [0, 255].",
            InvalidTokenKind::Range => "Range could not be understood.",
            InvalidTokenKind::Number => "Number could not be understood.",
        }
    }
}

impl ParsingError {
    /// The error's message, the text, and a caret under the offending
    /// character.
    pub fn message(&self) -> (r: String)
        ensures
            r@ == caret_report(token_message(self.kind), self.input@, self.idx as nat),
    {
        caret_text(self.kind.message(), self.input.as_str(), self.idx)
    }
}

impl Default for StatusCodePattern {
    fn default() -> (r: Self)
        ensures
            r@ == Set::<int>::empty(),
    {
        let r = StatusCodePattern { codes: [false; 256] };
        assert(r@ =~= Set::<int>::empty());
        r
    }
}

impl StatusCodePattern {
    /// Whether `code` is in the set; codes outside `0..=255` never are.
    pub fn contains(&self, code: i32) -> (r: bool)
        ensures
            r == self@.contains(code as int),
    {
        if 0 <= code && code < 256 {
            self.codes[code as usize]
        } else {
            false
        }
    }

    /// The set with the codes of `range` added. A range whose start is above
    /// its end adds nothing.
    pub fn with_range(self, range: RangeInclusive<i32>) -> (r: Self)
        requires
            !range@.exhausted ==> 0 <= range@.start < CODE_COUNT && 0 <= range@.end
                < CODE_COUNT,
        ensures
            !range@.exhausted ==> r@ == self@ + span(range@.start as int, range@.end as int),
    {
        let lo = *range.start();
        let hi = *range.end();
        let mut codes = self.codes;
        if 0 <= lo && lo <= hi && hi < 256 {
            mark_codes(&mut codes, lo as usize, hi as usize);
        }
        let r = StatusCodePattern { codes };
        assert(!range@.exhausted ==> r@ =~= self@ + span(range@.start as int, range@.end as int));
        r
    }

    /// The set with `code` added.
    pub fn with_code(self, code: i32) -> (r: Self)
        requires
            0 <= code < CODE_COUNT,
        ensures
            r@ == self@.insert(code as int),
    {
        let mut codes = self.codes;
        mark_codes(&mut codes, code as usize, code as usize);
        let r = StatusCodePattern { codes };
        assert(r@ =~= self@.insert(code as int));
        r
    }

    /// The set holding `code` alone.
    pub fn only(code: i32) -> (r: Self)
        requires
            0 <= code < CODE_COUNT,
        ensures
            r@ == set![code as int],
    {
        let r = Self::default().with_code(code);
        assert(r@ =~= set![code as int]);
        r
    }

    /// Reads a status pattern with the grammar of
    /// [`crate::pattern::CodePattern::from_str`]; a text without any status is
    /// the empty set.
    pub fn from_str(s: &str) -> (r: Result<StatusCodePattern, ParsingError>)
        ensures
            match r {
                Ok(p) => parse_status_pattern(s@) matches Ok(t) && p@ == table_set(t),
                Err(e) => parse_status_pattern(s@) == Err::<Seq<bool>, (InvalidTokenKind, int)>(
                    (e.kind, e.idx as int),
                ) && e.input@ == s@,
            },
    {
        match scan_pattern(s) {
            Ok((codes, _)) => Ok(StatusCodePattern { codes }),
            Err((kind, idx)) => Err(
                ParsingError { kind: coarse_kind(kind), input: String::from_str(s), idx },
            ),
        }
    }
}

} // verus!
