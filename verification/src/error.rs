//! The error that handlers, plugins and the server itself report.

use vstd::prelude::*;

verus! {

/// What kind of failure an error reports.
#[derive(Clone, Copy, Debug, PartialEq, Eq, Structural)]
pub enum ErrorKind {
    Protocol,
    IO,
    Client,
    Network,
    Server,
    Serialization,
    Other,
}

/// A failure: its kind and a text for the log or for the peer.
#[derive(Debug, PartialEq, Eq)]
pub struct ServerError {
    pub kind: ErrorKind,
    pub message: String,
}

impl Clone for ServerError {
    fn clone(&self) -> (copy: ServerError)
        ensures
            copy == *self,
    {
        ServerError { kind: self.kind, message: self.message.clone() }
    }
}

impl ServerError {
    /// An error of the given kind with the given text.
    pub fn new(kind: ErrorKind, message: String) -> (e: ServerError)
        ensures
            e.kind == kind,
            e.message == message,
    {
        ServerError { kind, message }
    }

    /// The kind of the failure.
    pub fn kind(&self) -> (k: ErrorKind)
        ensures
            k == self.kind,
    {
        self.kind
    }

    /// The text of the failure.
    pub fn message(&self) -> (m: &str)
        ensures
            m@ == self.message@,
    {
        self.message.as_str()
    }
}

} // verus!
