//! The error type for the operations of this crate.
//!
//! Errors mostly originate from executing the `cargo rustc --print cfg`
//! command and reading its output; custom instances can be created with the
//! `Generic` variant and a message.

use vstd::prelude::*;

verus! {

/// A failure of one of the operations of this crate.
#[derive(Clone, Debug, PartialEq)]
pub enum Error {
    /// A command operation failed: the external process exited with a
    /// non-zero status. Carries the captured standard error text.
    Command(String),
    /// UTF-8 string conversion of captured output failed. Carries a
    /// description of the conversion failure.
    FromUtf8(String),
    /// A generic, or custom, error occurred. The message should contain the
    /// detailed information.
    Generic(String),
    /// An I/O operation failed, such as spawning the external process.
    /// Carries a description of the underlying failure.
    Io(String),
    /// A mandatory line was absent from otherwise successful output. Carries
    /// the name of the missing key.
    MissingOutput(String),
}

impl Error {
    /// The text of the human-readable message for this error.
    pub open spec fn spec_message(&self) -> Seq<char> {
        match self {
            Error::Command(stderr) => "command failed: "@ + stderr@,
            Error::FromUtf8(msg) => "output is not valid UTF-8: "@ + msg@,
            Error::Generic(msg) => msg@,
            Error::Io(msg) => "io error: "@ + msg@,
            Error::MissingOutput(key) => "missing from the output: "@ + key@,
        }
    }

    /// A human-readable message describing the error. The message of a
    /// command failure contains the captured standard error text, and the
    /// message of a missing-output failure names the missing key.
    pub fn message(&self) -> (r: String)
        ensures
            r@ == self.spec_message(),
    {
        match self {
            Error::Command(stderr) => String::from_str("command failed: ").concat(
                stderr.as_str(),
            ),
            Error::FromUtf8(msg) => String::from_str("output is not valid UTF-8: ").concat(
                msg.as_str(),
            ),
            Error::Generic(msg) => msg.clone(),
            Error::Io(msg) => String::from_str("io error: ").concat(msg.as_str()),
            Error::MissingOutput(key) => String::from_str("missing from the output: ").concat(
                key.as_str(),
            ),
        }
    }
}

impl From<String> for Error {
    /// A caller-supplied message becomes a generic error.
    fn from(msg: String) -> (r: Error) {
        Error::Generic(msg)
    }
}

impl vstd::std_specs::convert::FromSpecImpl<String> for Error {
    open spec fn obeys_from_spec() -> bool {
        true
    }

    open spec fn from_spec(msg: String) -> Error {
        Error::Generic(msg)
    }
}

} // verus!
