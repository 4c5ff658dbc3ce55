//! How much is reported, from the counts of `-v` and `-q` flags.

use vstd::prelude::*;

verus! {

/// The most severe kind of message still shown, or none at all.
#[derive(Debug, Clone, Copy, PartialEq, Eq, Structural)]
pub enum LogLevel {
    Off,
    Error,
    Warn,
    Debug,
    Trace,
}

/// The level for a net verbosity (verbose count minus quiet count): two or
/// more quiets silence everything, one shows errors only, none shows
/// warnings, one verbose adds debug messages, more show everything.
pub open spec fn level_for(net: int) -> LogLevel {
    if net <= -2 {
        LogLevel::Off
    } else if net == -1 {
        LogLevel::Error
    } else if net == 0 {
        LogLevel::Warn
    } else if net == 1 {
        LogLevel::Debug
    } else {
        LogLevel::Trace
    }
}

/// The reporting settings of a run.
#[derive(Debug, Clone, Copy, PartialEq, Eq)]
pub struct Logger {
    pub filter: LogLevel,
}

impl Logger {
    pub fn new(verbosity: u8, quietness: u8) -> (r: Self)
        ensures
            r.filter == level_for(verbosity - quietness),
    {
        let net = (verbosity as i16) - (quietness as i16);
        let filter = if net <= -2 {
            LogLevel::Off
        } else if net == -1 {
            LogLevel::Error
        } else if net == 0 {
            LogLevel::Warn
        } else if net == 1 {
            LogLevel::Debug
        } else {
            LogLevel::Trace
        };
        Logger { filter }
    }
}

} // verus!
