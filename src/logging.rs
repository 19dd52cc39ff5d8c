//! Log levels and the tags that mark them.
use vstd::prelude::*;

verus! {

/// How severe a log line is.
#[derive(Debug, Clone, Copy, PartialEq, Eq, Structural)]
pub enum LoggingLevel {
    Trace,
    Info,
    Warn,
    Error,
    Fatal,
}

/// The five-character tag of a level.
pub open spec fn tag_of(lvl: LoggingLevel) -> Seq<char> {
    match lvl {
        LoggingLevel::Trace => "TRACE"@,
        LoggingLevel::Info => "INFO "@,
        LoggingLevel::Warn => "WARN "@,
        LoggingLevel::Error => "ERROR"@,
        LoggingLevel::Fatal => "FATAL"@,
    }
}

impl LoggingLevel {
    /// The five-character tag that starts a log line of this level.
    pub fn tag(&self) -> (r: &'static str)
        ensures
            r@ == tag_of(*self),
    {
        match self {
            LoggingLevel::Trace => "TRACE",
            LoggingLevel::Info => "INFO ",
            LoggingLevel::Warn => "WARN ",
            LoggingLevel::Error => "ERROR",
            LoggingLevel::Fatal => "FATAL",
        }
    }
}

} // verus!
