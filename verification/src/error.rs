//! Failures that end an operation.

use vstd::prelude::*;
use vstd::string::*;

verus! {

/// What kind of thing went wrong.
#[derive(Clone, Copy, Debug, PartialEq, Eq, Structural)]
pub enum ErrorKind {
    /// A key or a value of the configuration is missing or invalid, a
    /// configuration file cannot be read, or no destination is known.
    Config,
    /// A directory could not be listed, removed or created.
    Filesystem,
    /// The build could not be started, or it failed.
    Build,
}

/// A failure that ends an operation, with the words that describe it.
#[derive(Debug)]
pub struct Error {
    pub kind: ErrorKind,
    pub message: String,
}

/// What an [`Error`] stands for.
pub struct ErrorView {
    pub kind: ErrorKind,
    pub message: Seq<char>,
}

impl View for Error {
    type V = ErrorView;

    open spec fn view(&self) -> ErrorView {
        ErrorView { kind: self.kind, message: self.message@ }
    }
}

impl Error {
    /// A failure of the given kind whose message is `lead` followed by
    /// `detail`.
    pub fn new(kind: ErrorKind, lead: &str, detail: &str) -> (r: Error)
        ensures
            r@ == (ErrorView { kind, message: lead@ + detail@ }),
    {
        let mut message = lead.to_owned();
        message.append(detail);
        Error { kind, message }
    }

    /// A failure of the given kind with the given message.
    pub fn of(kind: ErrorKind, message: String) -> (r: Error)
        ensures
            r@ == (ErrorView { kind, message: message@ }),
    {
        Error { kind, message }
    }

    /// A copy of this failure.
    pub fn duplicate(&self) -> (r: Error)
        ensures
            r@ == self@,
    {
        Error { kind: self.kind, message: self.message.clone() }
    }

    /// This failure with `lead` before its message.
    pub fn within(&self, lead: &str) -> (r: Error)
        ensures
            r@ == (ErrorView { kind: self.kind, message: lead@ + self.message@ }),
    {
        Error::new(self.kind, lead, self.message.as_str())
    }

    /// The words that describe the failure.
    pub fn message(&self) -> (r: String)
        ensures
            r@ == self@.message,
    {
        self.message.clone()
    }
}

} // verus!
