//! Retrying a child command under a backoff schedule and a stop/retry policy.
//!
//! The library holds the decisions: code patterns, the backoff schedule and the
//! shaping of its waits, the policy evaluator, the adaptive polling schedule and
//! the attempt loop's transitions. Spawning, waiting and sleeping are left to
//! the caller, which feeds the results back in.

pub mod pattern;
pub mod status;
pub mod policy;
pub mod backoff;
pub mod poll;
pub mod arguments;
pub mod attempt;
pub mod value_parsing;
pub mod logger;
