//! The command line as a whole.

use vstd::prelude::*;
use vstd::string::*;
use crate::config::ConfigArgs;
use crate::error::{Error, ErrorView};
use crate::generate::GenerateArgs;
use crate::logger::LogLevel;
use crate::publish::PublishArgs;

verus! {

/// What is said to an operator who asks for more than the most verbose
/// output.
pub const TOO_VERBOSE_REMARK: &'static str = "Man don't be too crazy";

/// What is said to an operator who names no command.
pub const NO_COMMAND_HINT: &'static str = "Choose an option, referring to '--help' for more info";

/// What is put before a failure that reaches the top.
pub const FAILURE_LEAD: &'static str = "Unexpected error during exec: ";

/// The arguments of the tool.
#[derive(Debug)]
pub struct Cli {
    pub command: Option<Command>,
    /// How often the operator asked for more output.
    pub verbose: u8,
}

/// A command of the tool.
#[derive(Debug)]
pub enum Command {
    /// Publish the current folder as a mod.
    Publish(PublishArgs),
    /// Show or change the settings.
    Config(ConfigArgs),
    /// Generate files for the mod.
    Generate(GenerateArgs),
}

/// How the tool sets out: the level up to which the log is heard, and what
/// is said before anything runs.
#[derive(Debug)]
pub struct Launch {
    pub level: LogLevel,
    /// A remark to print.
    pub remark: Option<&'static str>,
    /// A warning to log, once the level is set.
    pub warning: Option<&'static str>,
}

/// The level up to which the log is heard: information, debugging with
/// one request for more, traces with two or more.
pub open spec fn level_of(verbose: u8) -> LogLevel {
    if verbose == 0 {
        LogLevel::Info
    } else if verbose == 1 {
        LogLevel::Debug
    } else {
        LogLevel::Trace
    }
}

impl Cli {
    /// How the tool sets out. More than two requests for more output earn a
    /// remark; no command earns a hint, and nothing runs.
    pub fn run(&self) -> (r: Launch)
        ensures
            r.level == level_of(self.verbose),
            match r.remark {
                Some(text) => self.verbose > 2 && text@ == TOO_VERBOSE_REMARK@,
                None => self.verbose <= 2,
            },
            match r.warning {
                Some(text) => self.command is None && text@ == NO_COMMAND_HINT@,
                None => self.command is Some,
            },
    {
        let level = if self.verbose == 0 {
            LogLevel::Info
        } else if self.verbose == 1 {
            LogLevel::Debug
        } else {
            LogLevel::Trace
        };
        let remark = if self.verbose > 2 {
            Some(TOO_VERBOSE_REMARK)
        } else {
            None
        };
        let warning = match self.command {
            Some(_) => None,
            None => Some(NO_COMMAND_HINT),
        };
        Launch { level, remark, warning }
    }

    /// The failure of a command as it is reported at the top.
    pub fn failure(error: &Error) -> (r: Error)
        ensures
            r@ == (ErrorView { kind: error.kind, message: FAILURE_LEAD@ + error.message@ }),
    {
        error.within(FAILURE_LEAD)
    }
}

} // verus!
