//! The configuration that a project carries in its own directory.

use vstd::prelude::*;
use vstd::string::*;
use crate::error::{Error, ErrorKind, ErrorView};
use crate::matcher::PROJECT_CONFIG_FILE_NAME;
use crate::text::{joined3, text_of};

verus! {

/// What was found where a configuration file is expected.
#[derive(Debug)]
pub enum FileProbe<T> {
    /// There is no such file.
    Absent,
    /// The file could not be read, for the reason given.
    Unreadable(String),
    /// The file could not be parsed, for the reason given.
    Malformed(String),
    /// The file was read and parsed.
    Parsed(T),
}

/// The message for a configuration file that could not be parsed.
pub open spec fn parse_failure_message(file: Seq<char>, detail: Seq<char>) -> Seq<char> {
    "Failed to parse "@ + file + ": "@ + detail
}

/// The failure for a configuration file that could not be parsed.
pub fn parse_failure(file: &str, detail: &str) -> (r: Error)
    ensures
        r@ == (ErrorView { kind: ErrorKind::Config, message: parse_failure_message(file@, detail@) }),
{
    let mut message = joined3("Failed to parse ", file, ": ");
    message.append(detail);
    Error::of(ErrorKind::Config, message)
}

/// The configuration of a project.
#[derive(Debug)]
pub struct ProjectConf {
    /// The name under which the project is published; empty where the
    /// directory's name is to be used.
    pub name: String,
}

impl Default for ProjectConf {
    fn default() -> (r: ProjectConf)
        ensures
            r.name@ == Seq::<char>::empty(),
    {
        ProjectConf { name: String::new() }
    }
}

/// The message for a project without a name in a directory without one.
pub const NO_NAME_MESSAGE: &'static str =
    "Didn't configure 'name' and failed to get working directory name";

/// The name of a project after resolution: its own where it has one, else
/// the name of its directory. A project that has neither has no name, which
/// is a failure: a resolved name is never empty.
pub open spec fn resolved_name(name: Seq<char>, directory: Option<Seq<char>>) -> Result<
    Seq<char>,
    ErrorView,
> {
    if name.len() > 0 {
        Ok(name)
    } else {
        match directory {
            Some(d) => if d.len() > 0 {
                Ok(d)
            } else {
                Err(ErrorView { kind: ErrorKind::Config, message: NO_NAME_MESSAGE@ })
            },
            None => Err(ErrorView { kind: ErrorKind::Config, message: NO_NAME_MESSAGE@ }),
        }
    }
}

/// Resolves the name of a project from the name that its configuration
/// gives and the name of its directory.
pub fn resolve(name: String, directory: Option<String>) -> (r: Result<String, Error>)
    ensures
        match resolved_name(name@, text_of(directory)) {
            Ok(resolved) => r matches Ok(n) && n@ == resolved && n@.len() > 0,
            Err(e) => r matches Err(failure) && failure@ == e,
        },
{
    if !name.as_str().is_empty() {
        return Ok(name);
    }
    match directory {
        Some(d) => if !d.as_str().is_empty() {
            Ok(d)
        } else {
            Err(Error::of(ErrorKind::Config, NO_NAME_MESSAGE.to_owned()))
        },
        None => Err(Error::of(ErrorKind::Config, NO_NAME_MESSAGE.to_owned())),
    }
}

impl ProjectConf {
    /// Gives a project without a name the name of its directory. A project
    /// that has no name, in a directory whose name is not known or is empty,
    /// cannot be resolved: that is a failure, and the project stays as it
    /// was. After a success the name is not empty.
    pub fn resolve_name(&mut self, directory: Option<String>) -> (r: Result<(), Error>)
        ensures
            match resolved_name(old(self).name@, text_of(directory)) {
                Ok(resolved) => r is Ok && final(self).name@ == resolved && final(self).name@.len()
                    > 0,
                Err(e) => r matches Err(failure) && failure@ == e && final(self).name@ == old(
                    self,
                ).name@,
            },
    {
        if !self.name.as_str().is_empty() {
            return Ok(());
        }
        match directory {
            Some(d) => if !d.as_str().is_empty() {
                self.name = d;
                Ok(())
            } else {
                Err(Error::of(ErrorKind::Config, NO_NAME_MESSAGE.to_owned()))
            },
            None => Err(Error::of(ErrorKind::Config, NO_NAME_MESSAGE.to_owned())),
        }
    }

    /// The configuration of the project in the current directory, and
    /// whether it came from a file: the default where there is no file, a
    /// failure where the file cannot be read or parsed.
    pub fn load_current(probe: FileProbe<ProjectConf>) -> (r: Result<(ProjectConf, bool), Error>)
        ensures
            match probe {
                FileProbe::Absent => r matches Ok(pair) && pair.0.name@ == Seq::<char>::empty()
                    && !pair.1,
                FileProbe::Unreadable(detail) => r matches Err(e) && e@ == (ErrorView {
                    kind: ErrorKind::Filesystem,
                    message: detail@,
                }),
                FileProbe::Malformed(detail) => r matches Err(e) && e@ == (ErrorView {
                    kind: ErrorKind::Config,
                    message: parse_failure_message(PROJECT_CONFIG_FILE_NAME@, detail@),
                }),
                FileProbe::Parsed(conf) => r matches Ok(pair) && pair.0.name@ == conf.name@
                    && pair.1,
            },
    {
        match probe {
            FileProbe::Absent => Ok((ProjectConf::default(), false)),
            FileProbe::Unreadable(detail) => Err(Error::of(ErrorKind::Filesystem, detail)),
            FileProbe::Malformed(detail) => Err(
                parse_failure(PROJECT_CONFIG_FILE_NAME, detail.as_str()),
            ),
            FileProbe::Parsed(conf) => Ok((conf, true)),
        }
    }
}

} // verus!
