//! The library's error type.
use vstd::prelude::*;

verus! {

/// What went wrong.
#[derive(Clone, Copy, Debug, PartialEq, Eq, Structural)]
pub enum ErrorKind {
    /// A `Once` timer was started a second time.
    AlreadyExecuted,
    /// A `ManyTimes` timer was started more often than its count.
    OccurrencesExceeded,
    /// A `Never` timer reached a start.
    NeverTimer,
    /// The next point of a timer could not be computed.
    InvalidTime,
    /// Launching a command failed.
    Spawn,
    /// Terminating a process failed.
    Kill,
    /// A command-line argument was missing or malformed.
    InvalidArgument,
    /// No entry matches an identifier.
    EntryNotFound,
    /// No entry id is left to assign.
    IdExhausted,
    Other,
}

/// An error, with its kind and a message for people.
#[derive(Clone, Debug)]
pub struct RtodoError {
    pub kind: ErrorKind,
    pub msg: String,
}

impl RtodoError {
    /// An error of kind `Other`.
    pub fn new(msg: &str) -> (r: RtodoError)
        ensures
            r.kind == ErrorKind::Other,
            r.msg@ == msg@,
    {
        RtodoError { kind: ErrorKind::Other, msg: msg.to_owned() }
    }

    pub fn with_kind(kind: ErrorKind, msg: &str) -> (r: RtodoError)
        ensures
            r.kind == kind,
            r.msg@ == msg@,
    {
        RtodoError { kind, msg: msg.to_owned() }
    }

    /// The message, as `Display` would show it.
    pub fn message(&self) -> (r: String)
        ensures
            r@ == self.msg@,
    {
        self.msg.clone()
    }
}

/// The outcome of an operation, without the error's message.
pub open spec fn kind_of(r: Result<(), RtodoError>) -> Result<(), ErrorKind> {
    match r {
        Ok(_) => Ok(()),
        Err(e) => Err(e.kind),
    }
}

} // verus!
