//! The minimal error logger used when full logging is not wired in: it
//! accepts every record handed to it and lets only error-level records
//! through to standard error.  Writing the surviving lines is the caller's
//! part; which records survive is decided, and proved, here.

use vstd::prelude::*;

verus! {

/// The severity of a log record, most severe first.
#[derive(Clone, Copy, Debug, PartialEq, Eq, Structural)]
pub enum Level {
    Error,
    Warn,
    Info,
    Debug,
    Trace,
}

/// The numeric rank of a severity; smaller is more severe.
pub open spec fn level_rank(l: Level) -> int {
    match l {
        Level::Error => 1,
        Level::Warn => 2,
        Level::Info => 3,
        Level::Debug => 4,
        Level::Trace => 5,
    }
}

/// The error logger: it is installed with a maximum level, and a record
/// reaches standard error iff its level is at most that maximum.
pub struct ErrorLog {
    pub max_level: Level,
}

/// Installs the error logger, which passes error-level records only.
pub fn init() -> (lg: ErrorLog)
    ensures
        lg.max_level == Level::Error,
{
    ErrorLog { max_level: Level::Error }
}

impl ErrorLog {
    /// The logger itself accepts every record; the level cut happens when a
    /// record is logged.
    pub fn enabled(&self) -> (r: bool)
        ensures
            r,
    {
        true
    }

    /// Decides whether a record reaches standard error: it does iff its
    /// level is at most the installed maximum, and then exactly the
    /// record's message is written.
    pub fn log(&self, level: &Level, message: String) -> (out: Option<String>)
        ensures
            level_rank(*level) <= level_rank(self.max_level) ==> out == Some(message),
            level_rank(*level) > level_rank(self.max_level) ==> out is None,
    {
        let lr: u8 = match level {
            Level::Error => 1,
            Level::Warn => 2,
            Level::Info => 3,
            Level::Debug => 4,
            Level::Trace => 5,
        };
        let mr: u8 = match self.max_level {
            Level::Error => 1,
            Level::Warn => 2,
            Level::Info => 3,
            Level::Debug => 4,
            Level::Trace => 5,
        };
        if lr <= mr {
            Some(message)
        } else {
            None
        }
    }

    /// Standard error is unbuffered here; there is nothing to flush.
    pub fn flush(&self) {
    }
}

} // verus!
