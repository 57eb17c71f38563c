//! The error type shared by every fallible operation of the crate.

use vstd::prelude::*;

verus! {

/// Declares the platform error type of `std::io` so that values of it can
/// be carried through this crate unread.
#[verifier::external_type_specification]
#[verifier::external_body]
pub struct ExIoError(std::io::Error);

/// What went wrong: either a platform-level failure carried verbatim, or a
/// plain descriptive message.
pub enum ErrorKind {
    /// A filesystem or process-spawn failure, wrapped with its underlying
    /// cause intact.
    Io(std::io::Error),
    /// A free-form description, used for a child process that exited with
    /// a non-zero status.
    Msg(String),
}

/// The error returned by the fallible operations of the crate.
pub struct Error(pub ErrorKind);

impl Error {
    /// Wraps a platform failure.
    pub fn io_error(err: std::io::Error) -> (r: Self)
        ensures
            r == (Error(ErrorKind::Io(err))),
    {
        Error(ErrorKind::Io(err))
    }

    /// Wraps a descriptive message.
    pub fn msg(msg: String) -> (r: Self)
        ensures
            r == (Error(ErrorKind::Msg(msg))),
    {
        Error(ErrorKind::Msg(msg))
    }

    /// The descriptive message, when the error carries one.
    pub fn message(&self) -> (r: Option<&String>)
        ensures
            match self.0 {
                ErrorKind::Msg(ref m) => r == Some(m),
                ErrorKind::Io(_) => r is None,
            },
    {
        match self.0 {
            ErrorKind::Msg(ref m) => Some(m),
            ErrorKind::Io(_) => None,
        }
    }
}

} // verus!
