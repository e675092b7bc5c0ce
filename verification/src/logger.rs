//! How log lines look.

use vstd::prelude::*;
use vstd::string::*;
use crate::text::joined3;

verus! {

/// How grave a log line is, the gravest first.
#[derive(Clone, Copy, Debug, PartialEq, Eq, Structural)]
pub enum LogLevel {
    Error,
    Warn,
    Info,
    Debug,
    Trace,
}

/// A logger that writes every line, with its level in colour before it.
#[derive(Clone, Copy, Debug)]
pub struct SimpleColorLogger;

/// The coloured tag of a level: red for errors, yellow for warnings, green
/// for information, cyan for debugging and magenta for traces.
pub open spec fn tag_of(level: LogLevel) -> Seq<char> {
    match level {
        LogLevel::Error => "\x1b[31m[ERROR]\x1b[0m"@,
        LogLevel::Warn => "\x1b[33m[WARN]\x1b[0m"@,
        LogLevel::Info => "\x1b[32m[INFO]\x1b[0m"@,
        LogLevel::Debug => "\x1b[36m[DEBUG]\x1b[0m"@,
        LogLevel::Trace => "\x1b[35m[TRACE]\x1b[0m"@,
    }
}

impl SimpleColorLogger {
    /// Whether a line of this level is written: every line is.
    pub fn enabled(&self, level: LogLevel) -> (r: bool)
        ensures
            r,
    {
        true
    }

    /// The coloured tag of a level.
    pub fn tag(level: LogLevel) -> (r: &'static str)
        ensures
            r@ == tag_of(level),
    {
        match level {
            LogLevel::Error => "\x1b[31m[ERROR]\x1b[0m",
            LogLevel::Warn => "\x1b[33m[WARN]\x1b[0m",
            LogLevel::Info => "\x1b[32m[INFO]\x1b[0m",
            LogLevel::Debug => "\x1b[36m[DEBUG]\x1b[0m",
            LogLevel::Trace => "\x1b[35m[TRACE]\x1b[0m",
        }
    }

    /// The line that is written for a message: its tag, a space, and the
    /// message.
    pub fn log(&self, level: LogLevel, message: &str) -> (r: String)
        ensures
            r@ == tag_of(level) + " "@ + message@,
    {
        joined3(SimpleColorLogger::tag(level), " ", message)
    }
}

/// The logger to install when the tool starts, and the level up to which
/// it is heard at first: information and graver.
pub fn init() -> (r: (SimpleColorLogger, LogLevel))
    ensures
        r.1 == LogLevel::Info,
{
    (SimpleColorLogger, LogLevel::Info)
}

} // verus!
