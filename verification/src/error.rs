//! A small module containing the [`Error`] type.

use vstd::prelude::*;

verus! {

/// I/O errors of the standard library are carried through this crate unopened.
#[verifier::external_type_specification]
#[verifier::external_body]
pub struct ExIoError(std::io::Error);

/// Join errors of tokio are carried through this crate unopened.
#[verifier::external_type_specification]
#[verifier::external_body]
pub struct ExJoinError(tokio::task::JoinError);

/// Error type for this library. Any error this library produces uses this to represent it.
#[derive(Debug)]
pub enum Error {
    /// Indicates that there was some I/O error.
    Io(std::io::Error),
    /// Indicates that there was a serialisation error. Holds the message of the internal error.
    Serialise(String),
    /// Indicates that there was a deserialisation error. Holds the message of the internal error.
    Deserialise(String),
    /// Indicates that tokio could not join a task.
    TokioJoin(tokio::task::JoinError),
    /// Indicates that something is closed: by the very operation that reports it (`true`),
    /// or already before that operation was attempted (`false`).
    Closed(bool),
}

/// `ToString::to_string` on an I/O error: the text that the standard library prints for it.
/// Nothing is claimed of the text.
#[verifier::external_body]
fn io_error_text(e: &std::io::Error) -> String {
    e.to_string()
}

/// `ToString::to_string` on a join error: the text that tokio prints for it.
/// Nothing is claimed of the text.
#[verifier::external_body]
fn join_error_text(e: &tokio::task::JoinError) -> String {
    e.to_string()
}

/// The text for a closed instance.
pub open spec fn closed_text(by_operation: bool) -> Seq<char> {
    if by_operation {
        "was closed by operation"@
    } else {
        "already closed"@
    }
}

impl Error {
    /// Tells the two ways of being closed apart: `Some(true)` when the failing call itself closed
    /// the instance, `Some(false)` when it had been closed before, `None` for any other error.
    pub fn closed_by_operation(&self) -> (r: Option<bool>)
        ensures
            r == (match *self {
                Error::Closed(by_operation) => Some(by_operation),
                _ => None,
            }),
    {
        match self {
            Error::Closed(by_operation) => Some(*by_operation),
            _ => None,
        }
    }

    /// Describes this error in words: what kind it is, then what the error inside it says.
    pub fn message(&self) -> (text: String)
        ensures
            match *self {
                Error::Io(_) => "io: "@.is_prefix_of(text@),
                Error::Serialise(inner) => text@ == "serialisation: "@ + inner@,
                Error::Deserialise(inner) => text@ == "deserialisation: "@ + inner@,
                Error::TokioJoin(_) => "tokio join failed: "@.is_prefix_of(text@),
                Error::Closed(by_operation) => text@ == closed_text(by_operation),
            },
    {
        let mut text = String::new();
        match self {
            Error::Io(e) => {
                text.push_str("io: ");
                let inner = io_error_text(e);
                text.push_str(inner.as_str());
            },
            Error::Serialise(inner) => {
                text.push_str("serialisation: ");
                text.push_str(inner.as_str());
            },
            Error::Deserialise(inner) => {
                text.push_str("deserialisation: ");
                text.push_str(inner.as_str());
            },
            Error::TokioJoin(e) => {
                text.push_str("tokio join failed: ");
                let inner = join_error_text(e);
                text.push_str(inner.as_str());
            },
            Error::Closed(by_operation) => {
                if *by_operation {
                    text.push_str("was closed by operation");
                } else {
                    text.push_str("already closed");
                }
            },
        }
        text
    }
}

} // verus!
