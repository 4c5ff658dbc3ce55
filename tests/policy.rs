use attempt::pattern::CodePattern;
use attempt::attempt::{after_attempt, Outcome, Step};
use attempt::policy::{CapturedOutput, PolicyError, PolicyParameters};
use std::ops::ControlFlow;

const SIGTERM: i32 = 15;
const SIGKILL: i32 = 9;

fn output(status_code: Option<i32>, signal: Option<i32>, stdout: &str, stderr: &str) -> CapturedOutput {
    CapturedOutput {
        status_code,
        signal,
        stdout: Some(stdout.to_string()),
        stderr: Some(stderr.to_string()),
    }
}

fn successful() -> CapturedOutput {
    output(Some(0), None, "", "")
}

fn failing_status_code() -> CapturedOutput {
    output(Some(1), None, "", "")
}

fn killed() -> CapturedOutput {
    output(None, Some(SIGKILL), "", "")
}

fn prints_foo_stdout() -> CapturedOutput {
    output(Some(0), None, "foo", "")
}

fn prints_foo_stderr() -> CapturedOutput {
    output(Some(0), None, "", "foo")
}

fn prints_bar_stdout() -> CapturedOutput {
    output(Some(0), None, "bar", "")
}

fn prints_bar_stderr() -> CapturedOutput {
    output(Some(0), None, "", "bar")
}

fn killed_by_sigterm() -> CapturedOutput {
    output(None, Some(SIGTERM), "", "")
}

fn killed_by_sigkill() -> CapturedOutput {
    output(None, Some(SIGKILL), "", "")
}

#[test]
fn stop_if_status() {
    let policy = PolicyParameters {
        stop_if_status: Some(CodePattern::only(1)),
        ..Default::default()
    };

    assert!(policy.evaluate_stop_predicates(&failing_status_code(), false).unwrap());
    assert!(!policy.evaluate_stop_predicates(&successful(), false).unwrap());
}

#[test]
fn stop_if_timeout() {
    let policy = PolicyParameters {
        stop_if_timeout: true,
        ..Default::default()
    };

    assert!(policy.evaluate_stop_predicates(&successful(), true).unwrap());
    assert!(!policy.evaluate_stop_predicates(&successful(), false).unwrap());
}

#[test]
fn stop_if_killed() {
    let policy = PolicyParameters {
        stop_if_killed: true,
        ..Default::default()
    };

    assert!(policy.evaluate_stop_predicates(&killed(), false).unwrap());
    assert!(!policy.evaluate_stop_predicates(&successful(), false).unwrap());
}

#[test]
fn stop_if_contains() {
    let policy = PolicyParameters {
        stop_if_contains: Some("foo".to_string()),
        ..Default::default()
    };

    assert!(policy.evaluate_stop_predicates(&prints_foo_stdout(), false).unwrap());
    assert!(policy.evaluate_stop_predicates(&prints_foo_stderr(), false).unwrap());
    assert!(!policy.evaluate_retry_predicates(&prints_bar_stdout(), false, false).unwrap());
    assert!(!policy.evaluate_stop_predicates(&successful(), false).unwrap());

    let policy = PolicyParameters {
        stop_if_stdout_contains: Some("foo".to_string()),
        ..Default::default()
    };

    assert!(policy.evaluate_stop_predicates(&prints_foo_stdout(), false).unwrap());
    assert!(!policy.evaluate_stop_predicates(&prints_foo_stderr(), false).unwrap());
    assert!(!policy.evaluate_retry_predicates(&prints_bar_stdout(), false, false).unwrap());
    assert!(!policy.evaluate_stop_predicates(&successful(), false).unwrap());

    let policy = PolicyParameters {
        stop_if_stderr_contains: Some("foo".to_string()),
        ..Default::default()
    };

    assert!(policy.evaluate_stop_predicates(&prints_foo_stderr(), false).unwrap());
    assert!(!policy.evaluate_stop_predicates(&prints_foo_stdout(), false).unwrap());
    assert!(!policy.evaluate_retry_predicates(&prints_bar_stdout(), false, false).unwrap());
    assert!(!policy.evaluate_stop_predicates(&successful(), false).unwrap());
}

#[test]
fn stop_if_matches() {
    let policy = PolicyParameters {
        stop_if_matches: Some("foo".to_string()),
        ..Default::default()
    };

    assert!(policy.evaluate_stop_predicates(&prints_foo_stdout(), false).unwrap());
    assert!(policy.evaluate_stop_predicates(&prints_foo_stderr(), false).unwrap());
    assert!(!policy.evaluate_stop_predicates(&prints_bar_stdout(), false).unwrap());
    assert!(!policy.evaluate_stop_predicates(&successful(), false).unwrap());

    let policy = PolicyParameters {
        stop_if_stdout_matches: Some("foo".to_string()),
        ..Default::default()
    };

    assert!(policy.evaluate_stop_predicates(&prints_foo_stdout(), false).unwrap());
    assert!(!policy.evaluate_stop_predicates(&prints_foo_stderr(), false).unwrap());
    assert!(!policy.evaluate_stop_predicates(&prints_bar_stdout(), false).unwrap());
    assert!(!policy.evaluate_stop_predicates(&successful(), false).unwrap());

    let policy = PolicyParameters {
        stop_if_stderr_matches: Some("foo".to_string()),
        ..Default::default()
    };

    assert!(policy.evaluate_stop_predicates(&prints_foo_stderr(), false).unwrap());
    assert!(!policy.evaluate_stop_predicates(&prints_foo_stdout(), false).unwrap());
    assert!(!policy.evaluate_stop_predicates(&prints_bar_stderr(), false).unwrap());
    assert!(!policy.evaluate_stop_predicates(&successful(), false).unwrap());
}

#[test]
fn retry_if_status() {
    let policy = PolicyParameters {
        retry_if_status: Some(CodePattern::only(1)),
        ..Default::default()
    };

    assert!(policy.evaluate_retry_predicates(&failing_status_code(), false, false).unwrap());
    assert!(!policy.evaluate_retry_predicates(&successful(), false, false).unwrap());
}

#[test]
fn retry_failing_status() {
    let policy = PolicyParameters {
        retry_failing_status: true,
        ..Default::default()
    };

    assert!(policy.evaluate_retry_predicates(&failing_status_code(), false, false).unwrap());
    assert!(!policy.evaluate_retry_predicates(&successful(), false, false).unwrap());
}

#[test]
fn retry_if_timeout() {
    let policy = PolicyParameters {
        retry_if_timeout: true,
        ..Default::default()
    };

    assert!(policy.evaluate_retry_predicates(&successful(), false, true).unwrap());
    assert!(!policy.evaluate_retry_predicates(&successful(), false, false).unwrap());
}

#[test]
fn retry_if_killed() {
    let policy = PolicyParameters {
        retry_if_killed: true,
        ..Default::default()
    };

    assert!(policy.evaluate_retry_predicates(&killed(), false, false).unwrap());
    assert!(!policy.evaluate_retry_predicates(&successful(), false, false).unwrap());
}

#[test]
fn retry_always_and_forever() {
    let policy = PolicyParameters {
        retry_always: true,
        ..Default::default()
    };

    assert!(policy.evaluate_retry_predicates(&failing_status_code(), false, false).unwrap());
    assert!(policy.evaluate_retry_predicates(&killed(), false, false).unwrap());
    assert!(policy.evaluate_retry_predicates(&successful(), false, false).unwrap());

    let policy = PolicyParameters::default();

    assert!(policy.evaluate_retry_predicates(&failing_status_code(), true, false).unwrap());
    assert!(policy.evaluate_retry_predicates(&killed(), true, false).unwrap());
    assert!(policy.evaluate_retry_predicates(&successful(), true, false).unwrap());
}

#[test]
fn retry_if_contains() {
    let policy = PolicyParameters {
        retry_if_contains: Some("foo".to_string()),
        ..Default::default()
    };

    assert!(policy.evaluate_retry_predicates(&prints_foo_stdout(), false, false).unwrap());
    assert!(policy.evaluate_retry_predicates(&prints_foo_stderr(), false, false).unwrap());
    assert!(!policy.evaluate_retry_predicates(&prints_bar_stdout(), false, false).unwrap());
    assert!(!policy.evaluate_retry_predicates(&successful(), false, false).unwrap());

    let policy = PolicyParameters {
        retry_if_stdout_contains: Some("foo".to_string()),
        ..Default::default()
    };

    assert!(policy.evaluate_retry_predicates(&prints_foo_stdout(), false, false).unwrap());
    assert!(!policy.evaluate_retry_predicates(&prints_foo_stderr(), false, false).unwrap());
    assert!(!policy.evaluate_retry_predicates(&prints_bar_stdout(), false, false).unwrap());
    assert!(!policy.evaluate_retry_predicates(&successful(), false, false).unwrap());

    let policy = PolicyParameters {
        retry_if_stderr_contains: Some("foo".to_string()),
        ..Default::default()
    };

    assert!(policy.evaluate_retry_predicates(&prints_foo_stderr(), false, false).unwrap());
    assert!(!policy.evaluate_retry_predicates(&prints_foo_stdout(), false, false).unwrap());
    assert!(!policy.evaluate_retry_predicates(&prints_bar_stdout(), false, false).unwrap());
    assert!(!policy.evaluate_retry_predicates(&successful(), false, false).unwrap());
}

#[test]
fn retry_if_matches() {
    let policy = PolicyParameters {
        retry_if_matches: Some("foo".to_string()),
        ..Default::default()
    };

    assert!(policy.evaluate_retry_predicates(&prints_foo_stdout(), false, false).unwrap());
    assert!(policy.evaluate_retry_predicates(&prints_foo_stderr(), false, false).unwrap());
    assert!(!policy.evaluate_retry_predicates(&prints_bar_stdout(), false, false).unwrap());
    assert!(!policy.evaluate_retry_predicates(&successful(), false, false).unwrap());

    let policy = PolicyParameters {
        retry_if_stdout_matches: Some("foo".to_string()),
        ..Default::default()
    };

    assert!(policy.evaluate_retry_predicates(&prints_foo_stdout(), false, false).unwrap());
    assert!(!policy.evaluate_retry_predicates(&prints_foo_stderr(), false, false).unwrap());
    assert!(!policy.evaluate_retry_predicates(&prints_bar_stdout(), false, false).unwrap());
    assert!(!policy.evaluate_retry_predicates(&successful(), false, false).unwrap());

    let policy = PolicyParameters {
        retry_if_stderr_matches: Some("foo".to_string()),
        ..Default::default()
    };

    assert!(policy.evaluate_retry_predicates(&prints_foo_stderr(), false, false).unwrap());
    assert!(!policy.evaluate_retry_predicates(&prints_foo_stdout(), false, false).unwrap());
    assert!(!policy.evaluate_retry_predicates(&prints_bar_stderr(), false, false).unwrap());
    assert!(!policy.evaluate_retry_predicates(&successful(), false, false).unwrap());
}

#[test]
fn stop_if_signal() {
    let policy = PolicyParameters {
        stop_if_signal: Some(CodePattern::only(SIGTERM)),
        ..Default::default()
    };

    assert!(policy.evaluate_stop_predicates(&killed_by_sigterm(), false).unwrap());
    assert!(!policy.evaluate_stop_predicates(&killed_by_sigkill(), false).unwrap());
    assert!(!policy.evaluate_stop_predicates(&successful(), false).unwrap());
}

#[test]
fn retry_if_signal() {
    let policy = PolicyParameters {
        retry_if_signal: Some(CodePattern::only(SIGTERM)),
        ..Default::default()
    };

    assert!(policy.evaluate_retry_predicates(&killed_by_sigterm(), false, false).unwrap());
    assert!(!policy.evaluate_retry_predicates(&killed_by_sigkill(), false, false).unwrap());
    assert!(!policy.evaluate_retry_predicates(&successful(), false, false).unwrap());
}

#[test]
fn signal_pattern_matching() {
    let policy = PolicyParameters {
        retry_if_signal: Some(CodePattern::default().with_range(1..=9)),
        ..Default::default()
    };

    assert!(policy.evaluate_retry_predicates(&killed_by_sigkill(), false, false).unwrap()); // Signal 9
    assert!(!policy.evaluate_retry_predicates(&killed_by_sigterm(), false, false).unwrap()); // Signal 15
    assert!(!policy.evaluate_retry_predicates(&successful(), false, false).unwrap());

    let policy = PolicyParameters {
        retry_if_signal: Some(CodePattern::default().with_range(1..=20)),
        ..Default::default()
    };

    assert!(policy.evaluate_retry_predicates(&killed_by_sigkill(), false, false).unwrap()); // Signal 9
    assert!(policy.evaluate_retry_predicates(&killed_by_sigterm(), false, false).unwrap()); // Signal 15
    assert!(!policy.evaluate_retry_predicates(&successful(), false, false).unwrap());

    let policy = PolicyParameters {
        retry_if_signal: Some(CodePattern::default().with_range(20..=30)),
        ..Default::default()
    };

    assert!(!policy.evaluate_retry_predicates(&killed_by_sigkill(), false, false).unwrap()); // Signal 9
    assert!(!policy.evaluate_retry_predicates(&killed_by_sigterm(), false, false).unwrap()); // Signal 15
    assert!(!policy.evaluate_retry_predicates(&successful(), false, false).unwrap());
}

#[test]
fn default_policy_stops_on_success_and_retries_on_failure() {
    let policy = PolicyParameters::default();
    assert!(policy.default_behavior());
    let unread = CapturedOutput { status_code: Some(0), signal: None, stdout: None, stderr: None };
    assert_eq!(policy.evaluate_policy(&unread, false, false), Ok(ControlFlow::Break(())));
    let unread = CapturedOutput { status_code: Some(1), signal: None, stdout: None, stderr: None };
    assert_eq!(policy.evaluate_policy(&unread, false, false), Ok(ControlFlow::Continue(())));
    let killed = CapturedOutput { status_code: None, signal: Some(9), stdout: None, stderr: None };
    assert_eq!(policy.evaluate_policy(&killed, false, false), Ok(ControlFlow::Continue(())));
}

#[test]
fn stop_status_wins_over_retry_always() {
    let policy = PolicyParameters {
        stop_if_status: Some(CodePattern::only(1)),
        retry_always: true,
        ..Default::default()
    };
    assert!(!policy.default_behavior());
    assert_eq!(
        policy.evaluate_policy(&failing_status_code(), false, true),
        Ok(ControlFlow::Break(()))
    );
    assert_eq!(
        policy.evaluate_policy(&successful(), false, false),
        Ok(ControlFlow::Continue(()))
    );
}

#[test]
fn unmatched_retry_status_stops() {
    let policy = PolicyParameters {
        retry_if_status: Some(CodePattern::only(10)),
        ..Default::default()
    };
    let decision = policy.evaluate_policy(&failing_status_code(), false, false).unwrap();
    assert_eq!(decision, ControlFlow::Break(()));
    let step = after_attempt(decision, false, 1000, false);
    assert_eq!(step, Step::Finish(Outcome::Stopped));
    assert_eq!(Outcome::Stopped.exit_code(), 4);
}

#[test]
fn undecodable_stream_fails_only_when_read() {
    let policy = PolicyParameters {
        stop_if_stderr_contains: Some("foo".to_string()),
        ..Default::default()
    };
    let garbled_out = CapturedOutput {
        status_code: Some(1),
        signal: None,
        stdout: None,
        stderr: Some("foo".to_string()),
    };
    assert_eq!(policy.evaluate_stop_predicates(&garbled_out, false), Ok(true));
    let garbled_err = CapturedOutput {
        status_code: Some(1),
        signal: None,
        stdout: Some("foo".to_string()),
        stderr: None,
    };
    assert_eq!(
        policy.evaluate_stop_predicates(&garbled_err, false),
        Err(PolicyError::StderrNotText)
    );
    let policy = PolicyParameters {
        retry_if_contains: Some("foo".to_string()),
        ..Default::default()
    };
    assert_eq!(
        policy.evaluate_retry_predicates(&garbled_out, false, false),
        Err(PolicyError::StdoutNotText)
    );
    assert_eq!(policy.evaluate_retry_predicates(&garbled_err, false, false), Ok(true));
}

#[test]
fn regex_predicates_use_the_pattern() {
    let policy = PolicyParameters {
        retry_if_stdout_matches: Some("^f.o$".to_string()),
        ..Default::default()
    };
    assert!(policy.evaluate_retry_predicates(&prints_foo_stdout(), false, false).unwrap());
    assert!(!policy.evaluate_retry_predicates(&prints_bar_stdout(), false, false).unwrap());
    let broken = PolicyParameters {
        retry_if_stdout_matches: Some("f(o".to_string()),
        ..Default::default()
    };
    assert!(!broken.evaluate_retry_predicates(&prints_foo_stdout(), false, false).unwrap());
}

#[test]
fn contains_needs_consecutive_characters() {
    let policy = PolicyParameters {
        stop_if_stdout_contains: Some("fo".to_string()),
        ..Default::default()
    };
    assert!(policy.evaluate_stop_predicates(&prints_foo_stdout(), false).unwrap());
    let policy = PolicyParameters {
        stop_if_stdout_contains: Some("fx".to_string()),
        ..Default::default()
    };
    assert!(!policy.evaluate_stop_predicates(&prints_foo_stdout(), false).unwrap());
}

#[test]
fn forever_retries_outside_the_default_policy() {
    let policy = PolicyParameters {
        retry_if_killed: true,
        ..Default::default()
    };
    assert_eq!(
        policy.evaluate_policy(&successful(), false, true),
        Ok(ControlFlow::Continue(()))
    );
    assert_eq!(
        policy.evaluate_policy(&successful(), false, false),
        Ok(ControlFlow::Break(()))
    );
}
