//! Typed errors returned by every fallible operation of the library.

use vstd::prelude::*;

verus! {

/// The category of a failure.
#[derive(Clone, Copy, Debug, PartialEq, Eq, Structural)]
pub enum IOErrorKind {
    /// A failure of no more specific category, carrying only a description.
    Other,
    /// The resource could not be acquired when the session was started.
    OpenFailure,
    /// The peer's channel endpoint was dropped.
    ChannelDisconnected,
    /// A message arrived where another one was required.
    ProtocolViolation,
    /// A timer or a session was started a second time.
    AlreadyStarted,
    /// A worker was run a second time.
    AlreadyUsed,
    /// An operation needed a started timer or a running session.
    NotStarted,
    /// The session was stopped or joined before.
    AlreadyStopped,
    /// The deadline passed while the worker was still running.
    Timeout,
    /// A read or write on the underlying resource failed.
    IOFailure,
}

/// An error: its category and a description for people.
#[derive(Debug)]
pub struct IOError {
    pub kind: IOErrorKind,
    pub message: String,
}

pub type IOResult<T> = Result<T, IOError>;

/// The category given to errors that wrap a foreign description.
pub const IO_ERROR: IOErrorKind = IOErrorKind::Other;

/// The description that the library gives an error of category `kind` when
/// it raises one itself.
pub open spec fn describe(kind: IOErrorKind) -> Seq<char> {
    match kind {
        IOErrorKind::Other => "failure"@,
        IOErrorKind::OpenFailure => "failed to open file"@,
        IOErrorKind::ChannelDisconnected => "disconnected"@,
        IOErrorKind::ProtocolViolation => "unexpected response type"@,
        IOErrorKind::AlreadyStarted => "has already started."@,
        IOErrorKind::AlreadyUsed => "worker has been already used."@,
        IOErrorKind::NotStarted => "has not started yet."@,
        IOErrorKind::AlreadyStopped => "has already stopped."@,
        IOErrorKind::Timeout => "timeout"@,
        IOErrorKind::IOFailure => "input/output failure"@,
    }
}

impl IOErrorKind {
    /// The description of the category: [`describe`].
    pub fn description(&self) -> (s: &'static str)
        ensures
            s@ == describe(*self),
    {
        match self {
            IOErrorKind::Other => "failure",
            IOErrorKind::OpenFailure => "failed to open file",
            IOErrorKind::ChannelDisconnected => "disconnected",
            IOErrorKind::ProtocolViolation => "unexpected response type",
            IOErrorKind::AlreadyStarted => "has already started.",
            IOErrorKind::AlreadyUsed => "worker has been already used.",
            IOErrorKind::NotStarted => "has not started yet.",
            IOErrorKind::AlreadyStopped => "has already stopped.",
            IOErrorKind::Timeout => "timeout",
            IOErrorKind::IOFailure => "input/output failure",
        }
    }
}

impl IOError {
    /// Whether this is an error of category `kind` described by `message`.
    pub open spec fn says(&self, kind: IOErrorKind, message: Seq<char>) -> bool {
        self.kind == kind && self.message@ == message
    }

    /// Whether this is the error the library raises for `kind` where the
    /// place has no words of its own: of that category, with the category's
    /// description.
    pub open spec fn plain(&self, kind: IOErrorKind) -> bool {
        self.says(kind, describe(kind))
    }

    /// The error the library raises for `kind`.
    pub fn from_kind(kind: IOErrorKind) -> (e: IOError)
        ensures
            e.plain(kind),
    {
        IOError { kind, message: kind.description().to_owned() }
    }

    /// An error of category `kind` described by `message`.
    pub fn new(kind: IOErrorKind, message: &str) -> (e: IOError)
        ensures
            e.says(kind, message@),
    {
        IOError { kind, message: message.to_owned() }
    }

    pub fn kind(&self) -> (k: IOErrorKind)
        ensures
            k == self.kind,
    {
        self.kind
    }

    /// The description, as an owned string.
    pub fn to_string(&self) -> (s: String)
        ensures
            s@ == self.message@,
    {
        self.message.clone()
    }
}

impl Clone for IOError {
    fn clone(&self) -> (e: IOError)
        ensures
            e == *self,
    {
        IOError { kind: self.kind, message: self.message.clone() }
    }
}

/// Wraps a foreign error's description as a failed result of category
/// [`IO_ERROR`].
pub fn io_error<T>(description: &str) -> (r: IOResult<T>)
    ensures
        r is Err,
        r->Err_0.kind == IO_ERROR,
        r->Err_0.message@ == description@,
{
    Err(IOError::new(IO_ERROR, description))
}

} // verus!
