//! The policy evaluator: from a finished child's outcome, decide whether to
//! stop or to try again. Stop predicates are looked at first and win over
//! retry predicates; when neither matches, retrying stops.

use crate::pattern::CodePattern;
use std::ops::ControlFlow;
use vstd::prelude::*;

verus! {

/// What a regular expression search gives: `None` where `pattern` is not a
/// valid regular expression, else whether it matches somewhere in `hay`.
pub uninterp spec fn regex_verdict(pattern: Seq<char>, hay: Seq<char>) -> Option<bool>;

/// Relies on `regex::Regex::new` and `regex::Regex::is_match`: compiling the
/// pattern succeeds or fails by the pattern alone, and a compiled pattern's
/// search depends on the haystack alone.
#[verifier::external_body]
fn regex_search(pattern: &str, hay: &str) -> (r: Option<bool>)
    ensures
        r == regex_verdict(pattern@, hay@),
{
    match regex::Regex::new(pattern) {
        Ok(re) => Some(re.is_match(hay)),
        Err(_) => None,
    }
}

/// Whether `needle` occurs in `hay` as a run of consecutive characters.
pub open spec fn contains_text(hay: Seq<char>, needle: Seq<char>) -> bool {
    exists|i: int|
        0 <= i && i + needle.len() <= hay.len() && #[trigger] hay.subrange(i, i + needle.len())
            == needle
}

/// Relies on `str::contains` with a `&str` pattern: true exactly when the
/// needle matches a sub-slice of the haystack.
#[verifier::external_body]
fn str_contains(hay: &str, needle: &str) -> (r: bool)
    ensures
        r == contains_text(hay@, needle@),
{
    hay.contains(needle)
}

/// A stream that a text predicate needed was not valid UTF-8.
#[derive(Debug, Clone, Copy, PartialEq, Eq, Structural)]
pub enum PolicyError {
    StdoutNotText,
    StderrNotText,
}

/// What a finished attempt left behind. A stream is `None` when its bytes
/// are not valid UTF-8 (or were not captured).
#[derive(Debug, Clone, PartialEq, Eq)]
pub struct CapturedOutput {
    pub status_code: Option<i32>,
    pub signal: Option<i32>,
    pub stdout: Option<String>,
    pub stderr: Option<String>,
}

/// Access to a finished child's outcome.
pub trait OutputShim {
    fn status_code(&self) -> Option<i32>;

    fn stdout(&self) -> Option<&str>;

    fn stderr(&self) -> Option<&str>;

    fn signal(&self) -> Option<i32>;
}

impl OutputShim for CapturedOutput {
    fn status_code(&self) -> Option<i32> {
        self.status_code
    }

    fn stdout(&self) -> Option<&str> {
        match &self.stdout {
            Some(s) => Some(s.as_str()),
            None => None,
        }
    }

    fn stderr(&self) -> Option<&str> {
        match &self.stderr {
            Some(s) => Some(s.as_str()),
            None => None,
        }
    }

    fn signal(&self) -> Option<i32> {
        self.signal
    }
}

/// The stop and retry predicates. Text predicates hold a literal string
/// (`*_contains`) or a regular expression's source (`*_matches`); the
/// `*_if_contains` and `*_if_matches` ones look at stdout, then stderr.
#[derive(Debug, Clone)]
pub struct PolicyParameters {
    pub retry_failing_status: bool,
    pub retry_if_status: Option<CodePattern>,
    pub retry_if_contains: Option<String>,
    pub retry_if_matches: Option<String>,
    pub retry_if_stdout_contains: Option<String>,
    pub retry_if_stdout_matches: Option<String>,
    pub retry_if_stderr_contains: Option<String>,
    pub retry_if_stderr_matches: Option<String>,
    pub retry_always: bool,
    pub retry_if_killed: bool,
    pub retry_if_signal: Option<CodePattern>,
    pub retry_if_timeout: bool,
    pub stop_if_status: Option<CodePattern>,
    pub stop_if_contains: Option<String>,
    pub stop_if_matches: Option<String>,
    pub stop_if_stdout_contains: Option<String>,
    pub stop_if_stdout_matches: Option<String>,
    pub stop_if_stderr_contains: Option<String>,
    pub stop_if_stderr_matches: Option<String>,
    pub stop_if_killed: bool,
    pub stop_if_signal: Option<CodePattern>,
    pub stop_if_timeout: bool,
}

// ---------------------------------------------------------------------------
// The rules
// ---------------------------------------------------------------------------

pub enum TextTest {
    Contains,
    Matches,
}

pub enum Scope {
    Both,
    Stdout,
    Stderr,
}

pub open spec fn text_of(s: Option<String>) -> Option<Seq<char>> {
    match s {
        Some(t) => Some(t@),
        None => None,
    }
}

/// Whether the text `t` passes the test with argument `arg`.
pub open spec fn text_hit(test: TextTest, t: Seq<char>, arg: Seq<char>) -> bool {
    match test {
        TextTest::Contains => contains_text(t, arg),
        TextTest::Matches => regex_verdict(arg, t) == Some(true),
    }
}

/// A test on one stream; an undecodable stream is an error.
pub open spec fn stream_hit(
    stream: Option<String>,
    missing: PolicyError,
    test: TextTest,
    arg: Seq<char>,
) -> Result<bool, PolicyError> {
    match text_of(stream) {
        Some(t) => Ok(text_hit(test, t, arg)),
        None => Err(missing),
    }
}

/// `a`, and only where it does not hold, `b`.
pub open spec fn or_else(a: Result<bool, PolicyError>, b: Result<bool, PolicyError>) -> Result<
    bool,
    PolicyError,
> {
    match a {
        Ok(true) => Ok(true),
        Ok(false) => b,
        Err(e) => Err(e),
    }
}

/// An optional text predicate; an unset one does not match.
pub open spec fn text_predicate(
    arg: Option<String>,
    test: TextTest,
    scope: Scope,
    o: CapturedOutput,
) -> Result<bool, PolicyError> {
    match arg {
        None => Ok(false),
        Some(a) => match scope {
            Scope::Both => or_else(
                stream_hit(o.stdout, PolicyError::StdoutNotText, test, a@),
                stream_hit(o.stderr, PolicyError::StderrNotText, test, a@),
            ),
            Scope::Stdout => stream_hit(o.stdout, PolicyError::StdoutNotText, test, a@),
            Scope::Stderr => stream_hit(o.stderr, PolicyError::StderrNotText, test, a@),
        },
    }
}

/// The six text predicates of one side, in order.
pub open spec fn text_chain(
    o: CapturedOutput,
    contains: Option<String>,
    matches: Option<String>,
    stdout_contains: Option<String>,
    stdout_matches: Option<String>,
    stderr_contains: Option<String>,
    stderr_matches: Option<String>,
) -> Result<bool, PolicyError> {
    or_else(
        text_predicate(contains, TextTest::Contains, Scope::Both, o),
        or_else(
            text_predicate(matches, TextTest::Matches, Scope::Both, o),
            or_else(
                text_predicate(stdout_contains, TextTest::Contains, Scope::Stdout, o),
                or_else(
                    text_predicate(stdout_matches, TextTest::Matches, Scope::Stdout, o),
                    or_else(
                        text_predicate(stderr_contains, TextTest::Contains, Scope::Stderr, o),
                        text_predicate(stderr_matches, TextTest::Matches, Scope::Stderr, o),
                    ),
                ),
            ),
        ),
    )
}

pub open spec fn pattern_has(pattern: Option<CodePattern>, code: i32) -> bool {
    match pattern {
        Some(p) => p@.contains(code as int),
        None => false,
    }
}

pub open spec fn signal_hit(pattern: Option<CodePattern>, signal: Option<i32>) -> bool {
    match signal {
        Some(s) => pattern_has(pattern, s),
        None => false,
    }
}

/// Whether a stop predicate matches: timeout, then status (or, with no
/// status, having been killed), then signal, then the text predicates.
pub open spec fn stop_verdict(p: PolicyParameters, o: CapturedOutput, timed_out: bool) -> Result<
    bool,
    PolicyError,
> {
    if p.stop_if_timeout && timed_out {
        Ok(true)
    } else if match o.status_code {
        Some(c) => pattern_has(p.stop_if_status, c),
        None => p.stop_if_killed,
    } {
        Ok(true)
    } else if signal_hit(p.stop_if_signal, o.signal) {
        Ok(true)
    } else {
        text_chain(
            o,
            p.stop_if_contains,
            p.stop_if_matches,
            p.stop_if_stdout_contains,
            p.stop_if_stdout_matches,
            p.stop_if_stderr_contains,
            p.stop_if_stderr_matches,
        )
    }
}

/// Whether a retry predicate matches: always (or forever), timeout, status,
/// failing status, killed, signal, then the text predicates.
pub open spec fn retry_verdict(
    p: PolicyParameters,
    o: CapturedOutput,
    forever: bool,
    timed_out: bool,
) -> Result<bool, PolicyError> {
    if p.retry_always || forever {
        Ok(true)
    } else if p.retry_if_timeout && timed_out {
        Ok(true)
    } else if o.status_code matches Some(c) && pattern_has(p.retry_if_status, c) {
        Ok(true)
    } else if p.retry_failing_status && (o.status_code matches Some(c) && c != 0) {
        Ok(true)
    } else if o.status_code is None && p.retry_if_killed {
        Ok(true)
    } else if signal_hit(p.retry_if_signal, o.signal) {
        Ok(true)
    } else {
        text_chain(
            o,
            p.retry_if_contains,
            p.retry_if_matches,
            p.retry_if_stdout_contains,
            p.retry_if_stdout_matches,
            p.retry_if_stderr_contains,
            p.retry_if_stderr_matches,
        )
    }
}

/// No predicate and no flag is set.
pub open spec fn is_default_policy(p: PolicyParameters) -> bool {
    &&& p.retry_if_status is None
    &&& p.retry_if_contains is None
    &&& p.retry_if_matches is None
    &&& p.retry_if_stdout_contains is None
    &&& p.retry_if_stdout_matches is None
    &&& p.retry_if_stderr_contains is None
    &&& p.retry_if_stderr_matches is None
    &&& p.stop_if_status is None
    &&& p.stop_if_contains is None
    &&& p.stop_if_matches is None
    &&& p.stop_if_stdout_contains is None
    &&& p.stop_if_stdout_matches is None
    &&& p.stop_if_stderr_contains is None
    &&& p.stop_if_stderr_matches is None
    &&& !p.stop_if_killed
    &&& !p.stop_if_timeout
    &&& !p.retry_failing_status
    &&& !p.retry_always
    &&& !p.retry_if_killed
    &&& !p.retry_if_timeout
    &&& p.retry_if_signal is None
    &&& p.stop_if_signal is None
}

/// The decision for an attempt. With the default policy: stop on status 0,
/// else retry. Otherwise: stop if a stop predicate matches; else retry if a
/// retry predicate matches; else stop.
pub open spec fn policy_decision(
    p: PolicyParameters,
    o: CapturedOutput,
    timed_out: bool,
    forever: bool,
) -> Result<ControlFlow<()>, PolicyError> {
    if is_default_policy(p) {
        if o.status_code == Some(0i32) {
            Ok(ControlFlow::Break(()))
        } else {
            Ok(ControlFlow::Continue(()))
        }
    } else {
        match stop_verdict(p, o, timed_out) {
            Err(e) => Err(e),
            Ok(true) => Ok(ControlFlow::Break(())),
            Ok(false) => match retry_verdict(p, o, forever, timed_out) {
                Err(e) => Err(e),
                Ok(true) => Ok(ControlFlow::Continue(())),
                Ok(false) => Ok(ControlFlow::Break(())),
            },
        }
    }
}

// ---------------------------------------------------------------------------
// Evaluation
// ---------------------------------------------------------------------------

fn stream_check(stream: &Option<String>, missing: PolicyError, test: &TextTest, arg: &str) -> (r:
    Result<bool, PolicyError>)
    ensures
        r == stream_hit(*stream, missing, *test, arg@),
{
    match stream {
        None => Err(missing),
        Some(t) => match test {
            TextTest::Contains => Ok(str_contains(t.as_str(), arg)),
            TextTest::Matches => Ok(regex_search(arg, t.as_str()) == Some(true)),
        },
    }
}

fn text_check(arg: &Option<String>, test: TextTest, scope: Scope, o: &CapturedOutput) -> (r:
    Result<bool, PolicyError>)
    ensures
        r == text_predicate(*arg, test, scope, *o),
{
    match arg {
        None => Ok(false),
        Some(a) => match scope {
            Scope::Both => match stream_check(&o.stdout, PolicyError::StdoutNotText, &test, a.as_str()) {
                Ok(true) => Ok(true),
                Ok(false) => stream_check(&o.stderr, PolicyError::StderrNotText, &test, a.as_str()),
                Err(e) => Err(e),
            },
            Scope::Stdout => stream_check(&o.stdout, PolicyError::StdoutNotText, &test, a.as_str()),
            Scope::Stderr => stream_check(&o.stderr, PolicyError::StderrNotText, &test, a.as_str()),
        },
    }
}

fn text_checks(
    o: &CapturedOutput,
    contains: &Option<String>,
    matches: &Option<String>,
    stdout_contains: &Option<String>,
    stdout_matches: &Option<String>,
    stderr_contains: &Option<String>,
    stderr_matches: &Option<String>,
) -> (r: Result<bool, PolicyError>)
    ensures
        r == text_chain(
            *o,
            *contains,
            *matches,
            *stdout_contains,
            *stdout_matches,
            *stderr_contains,
            *stderr_matches,
        ),
{
    let r1 = text_check(contains, TextTest::Contains, Scope::Both, o);
    if !matches!(r1, Ok(false)) {
        return r1;
    }
    let r2 = text_check(matches, TextTest::Matches, Scope::Both, o);
    if !matches!(r2, Ok(false)) {
        return r2;
    }
    let r3 = text_check(stdout_contains, TextTest::Contains, Scope::Stdout, o);
    if !matches!(r3, Ok(false)) {
        return r3;
    }
    let r4 = text_check(stdout_matches, TextTest::Matches, Scope::Stdout, o);
    if !matches!(r4, Ok(false)) {
        return r4;
    }
    let r5 = text_check(stderr_contains, TextTest::Contains, Scope::Stderr, o);
    if !matches!(r5, Ok(false)) {
        return r5;
    }
    text_check(stderr_matches, TextTest::Matches, Scope::Stderr, o)
}

fn pattern_check(pattern: &Option<CodePattern>, code: i32) -> (r: bool)
    ensures
        r == pattern_has(*pattern, code),
{
    match pattern {
        Some(p) => p.contains(code),
        None => false,
    }
}

fn signal_check(pattern: &Option<CodePattern>, signal: Option<i32>) -> (r: bool)
    ensures
        r == signal_hit(*pattern, signal),
{
    match signal {
        Some(s) => pattern_check(pattern, s),
        None => false,
    }
}


impl Default for PolicyParameters {
    fn default() -> (r: Self)
        ensures
            is_default_policy(r),
    {
        PolicyParameters {
            retry_failing_status: false,
            retry_if_status: None,
            retry_if_contains: None,
            retry_if_matches: None,
            retry_if_stdout_contains: None,
            retry_if_stdout_matches: None,
            retry_if_stderr_contains: None,
            retry_if_stderr_matches: None,
            retry_always: false,
            retry_if_killed: false,
            retry_if_signal: None,
            retry_if_timeout: false,
            stop_if_status: None,
            stop_if_contains: None,
            stop_if_matches: None,
            stop_if_stdout_contains: None,
            stop_if_stdout_matches: None,
            stop_if_stderr_contains: None,
            stop_if_stderr_matches: None,
            stop_if_killed: false,
            stop_if_signal: None,
            stop_if_timeout: false,
        }
    }
}

impl PolicyParameters {
    /// Whether no predicate and no flag is set, so that the decision rests on
    /// the exit status alone and the output need not be captured.
    pub fn default_behavior(&self) -> (r: bool)
        ensures
            r == is_default_policy(*self),
    {
        self.retry_if_status.is_none() && self.retry_if_contains.is_none()
            && self.retry_if_matches.is_none() && self.retry_if_stdout_contains.is_none()
            && self.retry_if_stdout_matches.is_none() && self.retry_if_stderr_contains.is_none()
            && self.retry_if_stderr_matches.is_none() && self.stop_if_status.is_none()
            && self.stop_if_contains.is_none() && self.stop_if_matches.is_none()
            && self.stop_if_stdout_contains.is_none() && self.stop_if_stdout_matches.is_none()
            && self.stop_if_stderr_contains.is_none() && self.stop_if_stderr_matches.is_none()
            && !self.stop_if_killed && !self.stop_if_timeout && !self.retry_failing_status
            && !self.retry_always && !self.retry_if_killed && !self.retry_if_timeout
            && self.retry_if_signal.is_none() && self.stop_if_signal.is_none()
    }

    /// Whether a stop predicate matches the outcome, looked at in order and
    /// stopping at the first match.
    pub fn evaluate_stop_predicates(&self, output: &CapturedOutput, timed_out: bool) -> (r: Result<
        bool,
        PolicyError,
    >)
        ensures
            r == stop_verdict(*self, *output, timed_out),
    {
        if self.stop_if_timeout && timed_out {
            return Ok(true);
        }
        match output.status_code {
            Some(code) => {
                if pattern_check(&self.stop_if_status, code) {
                    return Ok(true);
                }
            },
            None => {
                if self.stop_if_killed {
                    return Ok(true);
                }
            },
        }
        if signal_check(&self.stop_if_signal, output.signal) {
            return Ok(true);
        }
        text_checks(
            output,
            &self.stop_if_contains,
            &self.stop_if_matches,
            &self.stop_if_stdout_contains,
            &self.stop_if_stdout_matches,
            &self.stop_if_stderr_contains,
            &self.stop_if_stderr_matches,
        )
    }

    /// Whether a retry predicate matches the outcome, looked at in order and
    /// stopping at the first match.
    pub fn evaluate_retry_predicates(
        &self,
        output: &CapturedOutput,
        forever: bool,
        timed_out: bool,
    ) -> (r: Result<bool, PolicyError>)
        ensures
            r == retry_verdict(*self, *output, forever, timed_out),
    {
        if self.retry_always || forever {
            return Ok(true);
        }
        if self.retry_if_timeout && timed_out {
            return Ok(true);
        }
        if let Some(code) = output.status_code {
            if pattern_check(&self.retry_if_status, code) {
                return Ok(true);
            }
        }
        if self.retry_failing_status {
            if let Some(code) = output.status_code {
                if code != 0 {
                    return Ok(true);
                }
            }
        }
        if output.status_code.is_none() && self.retry_if_killed {
            return Ok(true);
        }
        if signal_check(&self.retry_if_signal, output.signal) {
            return Ok(true);
        }
        text_checks(
            output,
            &self.retry_if_contains,
            &self.retry_if_matches,
            &self.retry_if_stdout_contains,
            &self.retry_if_stdout_matches,
            &self.retry_if_stderr_contains,
            &self.retry_if_stderr_matches,
        )
    }

    /// The decision for one attempt: `Break` to stop, `Continue` to try
    /// again. With the default policy only the exit status is read.
    pub fn evaluate_policy(&self, output: &CapturedOutput, timed_out: bool, forever: bool) -> (r:
        Result<ControlFlow<()>, PolicyError>)
        ensures
            r == policy_decision(*self, *output, timed_out, forever),
    {
        if self.default_behavior() {
            if output.status_code == Some(0i32) {
                return Ok(ControlFlow::Break(()));
            } else {
                return Ok(ControlFlow::Continue(()));
            }
        }
        match self.evaluate_stop_predicates(output, timed_out) {
            Err(e) => Err(e),
            Ok(true) => Ok(ControlFlow::Break(())),
            Ok(false) => match self.evaluate_retry_predicates(output, forever, timed_out) {
                Err(e) => Err(e),
                Ok(true) => Ok(ControlFlow::Continue(())),
                Ok(false) => Ok(ControlFlow::Break(())),
            },
        }
    }
}

/// With the default policy, a successful exit stops and a failing one is
/// retried, whatever the captured streams hold, even when they were never
/// captured or are not text.
pub proof fn default_policy_reads_status_only(
    p: PolicyParameters,
    o: CapturedOutput,
    timed_out: bool,
    forever: bool,
)
    requires
        is_default_policy(p),
    ensures
        o.status_code == Some(0i32) ==> policy_decision(p, o, timed_out, forever) == Ok::<
            ControlFlow<()>,
            PolicyError,
        >(ControlFlow::Break(())),
        o.status_code != Some(0i32) ==> policy_decision(p, o, timed_out, forever) == Ok::<
            ControlFlow<()>,
            PolicyError,
        >(ControlFlow::Continue(())),
        forall|o2: CapturedOutput|
            o2.status_code == o.status_code ==> #[trigger] policy_decision(
                p,
                o2,
                timed_out,
                forever,
            ) == policy_decision(p, o, timed_out, forever),
{
}

/// Stop predicates win: when one matches (here, the exit status is in
/// `stop_if_status`), the decision is to stop, whatever the retry predicates
/// and flags say, `retry_always` and `forever` included.
pub proof fn stop_predicates_dominate(
    p: PolicyParameters,
    o: CapturedOutput,
    timed_out: bool,
    forever: bool,
)
    requires
        o.status_code matches Some(c) && pattern_has(p.stop_if_status, c),
    ensures
        policy_decision(p, o, timed_out, forever) == Ok::<ControlFlow<()>, PolicyError>(
            ControlFlow::Break(()),
        ),
{
}

/// More generally, any matching stop predicate gives `Break`.
pub proof fn matching_stop_predicate_stops(
    p: PolicyParameters,
    o: CapturedOutput,
    timed_out: bool,
    forever: bool,
)
    requires
        stop_verdict(p, o, timed_out) == Ok::<bool, PolicyError>(true),
    ensures
        policy_decision(p, o, timed_out, forever) == Ok::<ControlFlow<()>, PolicyError>(
            ControlFlow::Break(()),
        ),
{
}

} // verus!
