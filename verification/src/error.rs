//! The toolkit-wide error type.
//!
//! Errors carry plain values only: an I/O or parser failure is stored as
//! its rendered message, a path annotation as a string, and a captured
//! backtrace as its rendered text.

use vstd::prelude::*;

verus! {

/// Toolkit error type
#[derive(Debug)]
pub enum Error {
    /// An operating-system I/O failure, rendered as its message
    Io(String),
    /// An error annotated with the path it arose from
    WithPath { inner: Box<Error>, path: String },
    /// An error annotated with a captured backtrace
    WithBacktrace { inner: Box<Error>, backtrace: String },
    /// Generic error
    Message(String),
}

/// Holds when `e` is the message `text`, possibly wrapped in any number of
/// backtrace annotations (a capture may or may not succeed at run time).
pub open spec fn is_message(e: Error, text: Seq<char>) -> bool
    decreases e,
{
    match e {
        Error::Message(m) => m@ == text,
        Error::WithBacktrace { inner, .. } => is_message(*inner, text),
        _ => false,
    }
}

/// Relies on `std::backtrace::Backtrace::capture`: yields the rendered
/// backtrace, or `None` when capturing is disabled or unsupported on this
/// platform. The outcome depends on the environment, so nothing more is
/// promised of it.
#[verifier::external_body]
fn capture_backtrace() -> (r: Option<String>) {
    let bt = std::backtrace::Backtrace::capture();
    match bt.status() {
        std::backtrace::BacktraceStatus::Disabled => None,
        std::backtrace::BacktraceStatus::Unsupported => None,
        _ => Some(format!("{bt}")),
    }
}

impl Error {
    /// Wrap the rendered message of some other error.
    pub fn message(text: String) -> (r: Error)
        ensures
            r == Error::Message(text),
    {
        Error::Message(text)
    }

    /// Annotate this error with the path it arose from.
    pub fn add_path(self, p: String) -> (r: Error)
        ensures
            r matches Error::WithPath { inner, path } && *inner == self && path == p,
    {
        Error::WithPath { inner: Box::new(self), path: p }
    }

    /// Return a message error, annotated with a backtrace: how a failed
    /// operation reports itself.
    pub fn bail(text: &str) -> (r: Error)
        ensures
            is_message(r, text@),
    {
        let e = Error::Message(text.to_owned());
        proof {
            assert(is_message(e, text@));
        }
        let r = e.add_backtrace();
        proof {
            assert(is_message(r, text@));
        }
        r
    }

    /// Annotate this error with a backtrace, when one can be captured;
    /// otherwise hand it back unchanged.
    pub fn add_backtrace(self) -> (r: Error)
        ensures
            r == self || (r matches Error::WithBacktrace { inner, .. } && *inner == self),
    {
        match capture_backtrace() {
            None => self,
            Some(bt) => Error::WithBacktrace { inner: Box::new(self), backtrace: bt },
        }
    }
}

} // verus!
