//! The failures of a tube operation.

use crate::io::text::{decimal, push_decimal, push_signed_decimal, signed_decimal};
use vstd::prelude::*;
use vstd::string::StringExecFns;

verus! {

/// How a child process ended.
#[derive(Clone, Copy, Debug, PartialEq, Eq, Structural)]
pub enum ExitStatus {
    /// It exited with this code.
    Exited(u32),
    /// This signal ended it.
    Signaled(u8),
    /// The system reported a status that is neither of the above.
    Other(i32),
    /// It is known to have ended, but not how.
    Undetermined,
}

/// The kinds of failure.
#[derive(Clone, Copy, Debug, PartialEq, Eq, Structural)]
pub enum ErrorKind {
    /// A request was handed to an operation that does not accept its kind:
    /// a defect in the calling program.
    IncorrectAction,
    /// A bounded wait ran out.
    Timeout,
    /// The child process could not be started.
    Popen,
    /// The connection could not be made.
    Connect,
    /// The peer ended while a send or a receive was under way.
    UnexpectedTerminate(ExitStatus),
    /// The text of a pattern is not a regular expression.
    Pattern,
    /// A failure of the operating system that is none of the above.
    Source,
}

/// How the end of a child reads in a message.
pub open spec fn exit_text(status: ExitStatus) -> Seq<char> {
    match status {
        ExitStatus::Exited(code) => "with exit code "@ + decimal(code as nat),
        ExitStatus::Signaled(signal) => "because of signal "@ + decimal(signal as nat),
        ExitStatus::Other(status) => "because of unknown reason "@ + signed_decimal(status as int),
        ExitStatus::Undetermined => "because of unknown reason"@,
    }
}

/// How a kind of failure reads in a message.
pub open spec fn kind_text(kind: ErrorKind) -> Seq<char> {
    match kind {
        ErrorKind::IncorrectAction => "Incorrect action when converting (bug)"@,
        ErrorKind::Timeout => "Timeout"@,
        ErrorKind::Popen => "Process open error"@,
        ErrorKind::Connect => "Connection error"@,
        ErrorKind::UnexpectedTerminate(status) => "process terminates "@ + exit_text(status),
        ErrorKind::Pattern => "Pattern error"@,
        ErrorKind::Source => "Error from another source"@,
    }
}

/// How a failure reads: its kind, directly followed by the description of
/// the underlying error where there is one.
pub open spec fn error_text(e: ErrorView) -> Seq<char> {
    match e.source {
        Some(text) => kind_text(e.kind) + text,
        None => kind_text(e.kind),
    }
}

impl ErrorKind {
    /// The kind as it reads in a message.
    pub fn to_string(&self) -> (text: String)
        ensures
            text@ == kind_text(*self),
    {
        match self {
            ErrorKind::IncorrectAction => "Incorrect action when converting (bug)".to_owned(),
            ErrorKind::Timeout => "Timeout".to_owned(),
            ErrorKind::Popen => "Process open error".to_owned(),
            ErrorKind::Connect => "Connection error".to_owned(),
            ErrorKind::UnexpectedTerminate(status) => {
                let mut text = "process terminates ".to_owned();
                match status {
                    ExitStatus::Exited(code) => {
                        text.append("with exit code ");
                        push_decimal(&mut text, *code as u64);
                    },
                    ExitStatus::Signaled(signal) => {
                        text.append("because of signal ");
                        push_decimal(&mut text, *signal as u64);
                    },
                    ExitStatus::Other(status) => {
                        text.append("because of unknown reason ");
                        push_signed_decimal(&mut text, *status);
                    },
                    ExitStatus::Undetermined => {
                        text.append("because of unknown reason");
                    },
                }
                assert(text@ =~= kind_text(*self));
                text
            },
            ErrorKind::Pattern => "Pattern error".to_owned(),
            ErrorKind::Source => "Error from another source".to_owned(),
        }
    }
}

/// The kinds of failed call of the operating system that the library tells
/// apart; every kind that it does not name is `Other`.
#[derive(Clone, Copy, Debug, PartialEq, Eq, Structural)]
pub enum IoKind {
    /// The deadline of the call passed.
    TimedOut,
    /// The call would have had to wait: how some systems report a passed
    /// deadline.
    WouldBlock,
    /// The other end of a pipe or socket is closed.
    BrokenPipe,
    /// The peer reset the connection.
    ConnectionReset,
    /// The connection was aborted.
    ConnectionAborted,
    /// There is no connection.
    NotConnected,
    /// The stream ended where more was expected.
    UnexpectedEof,
    /// Anything else.
    Other,
}

/// What a failed call means for the operation that made it.
#[derive(Clone, Copy, Debug, PartialEq, Eq, Structural)]
pub enum FaultClass {
    /// Its deadline passed.
    Deadline,
    /// The peer is gone.
    PeerGone,
    /// The system failed in some other way.
    System,
}

impl IoKind {
    /// What a failure of this kind means: a passed deadline, however the
    /// system reports it; a peer that is gone, for the kinds that say that
    /// the other end is closed or the connection lost; otherwise a failure
    /// of the system.
    pub open spec fn spec_class(self) -> FaultClass {
        match self {
            IoKind::TimedOut | IoKind::WouldBlock => FaultClass::Deadline,
            IoKind::BrokenPipe
            | IoKind::ConnectionReset
            | IoKind::ConnectionAborted
            | IoKind::NotConnected
            | IoKind::UnexpectedEof => FaultClass::PeerGone,
            IoKind::Other => FaultClass::System,
        }
    }

    /// What a failure of this kind means.
    pub fn class(&self) -> (class: FaultClass)
        ensures
            class == self.spec_class(),
    {
        match self {
            IoKind::TimedOut => FaultClass::Deadline,
            IoKind::WouldBlock => FaultClass::Deadline,
            IoKind::BrokenPipe => FaultClass::PeerGone,
            IoKind::ConnectionReset => FaultClass::PeerGone,
            IoKind::ConnectionAborted => FaultClass::PeerGone,
            IoKind::NotConnected => FaultClass::PeerGone,
            IoKind::UnexpectedEof => FaultClass::PeerGone,
            IoKind::Other => FaultClass::System,
        }
    }
}

/// What the library reads of a failed call of the operating system: its
/// kind, and the description of the error.
#[derive(Debug, PartialEq, Eq)]
pub struct IoFault {
    pub kind: IoKind,
    pub text: String,
}

/// A failure: its kind and, where there is one, the description of the
/// underlying error.
#[derive(Debug, PartialEq, Eq)]
pub struct Error {
    pub kind: ErrorKind,
    pub source: Option<String>,
}

/// An `Error` as a mathematical value.
pub struct ErrorView {
    pub kind: ErrorKind,
    pub source: Option<Seq<char>>,
}

impl View for Error {
    type V = ErrorView;

    open spec fn view(&self) -> ErrorView {
        ErrorView {
            kind: self.kind,
            source: match self.source {
                Some(text) => Some(text@),
                None => None,
            },
        }
    }
}

impl ErrorView {
    /// The failure of `kind` without an underlying error.
    pub open spec fn of_kind(kind: ErrorKind) -> ErrorView {
        ErrorView { kind, source: None }
    }

    /// The failure of `kind` caused by the error that `text` describes.
    pub open spec fn caused(kind: ErrorKind, text: Seq<char>) -> ErrorView {
        ErrorView { kind, source: Some(text) }
    }
}

/// The failure that a failed call of the operating system amounts to: a
/// passed deadline is a `Timeout`, and not a failure of the system; a peer
/// that is gone is an unexpected termination, of which no more is known;
/// anything else is a `Source` with the description of the error.
pub open spec fn fault_error(fault: IoFault) -> ErrorView {
    match fault.kind.spec_class() {
        FaultClass::Deadline => ErrorView::of_kind(ErrorKind::Timeout),
        FaultClass::PeerGone => ErrorView::of_kind(
            ErrorKind::UnexpectedTerminate(ExitStatus::Undetermined),
        ),
        FaultClass::System => ErrorView::caused(ErrorKind::Source, fault.text@),
    }
}

impl Error {
    /// A failure of the given kind, with no underlying error.
    pub fn from_kind(kind: ErrorKind) -> (e: Error)
        ensures
            e@ == ErrorView::of_kind(kind),
    {
        Error { kind, source: None }
    }

    /// A failure of the operating system, described by `source`.
    pub fn from_source(source: String) -> (e: Error)
        ensures
            e@ == ErrorView::caused(ErrorKind::Source, source@),
    {
        Error { kind: ErrorKind::Source, source: Some(source) }
    }

    /// A failure of the given kind, caused by the error that `source`
    /// describes.
    pub fn caused(kind: ErrorKind, source: String) -> (e: Error)
        ensures
            e@ == ErrorView::caused(kind, source@),
    {
        Error { kind, source: Some(source) }
    }

    /// The failure of a bounded wait that ran out.
    pub fn timeout() -> (e: Error)
        ensures
            e@ == ErrorView::of_kind(ErrorKind::Timeout),
    {
        Error { kind: ErrorKind::Timeout, source: None }
    }

    /// The failure that a failed call of the operating system amounts to.
    pub fn from_fault(fault: IoFault) -> (e: Error)
        ensures
            e@ == fault_error(fault),
    {
        match fault.kind.class() {
            FaultClass::Deadline => Error::timeout(),
            FaultClass::PeerGone => Error::from_kind(
                ErrorKind::UnexpectedTerminate(ExitStatus::Undetermined),
            ),
            FaultClass::System => Error::from_source(fault.text),
        }
    }

    /// The failure as it reads in a message.
    pub fn to_string(&self) -> (text: String)
        ensures
            text@ == error_text(self@),
    {
        let mut text = self.kind.to_string();
        match &self.source {
            Some(source) => {
                text.append(source.as_str());
            },
            None => {},
        }
        text
    }

    /// Whether this is the failure of a wait that ran out.
    pub fn is_timeout(&self) -> (yes: bool)
        ensures
            yes == (self@.kind == ErrorKind::Timeout),
    {
        self.kind == ErrorKind::Timeout
    }
}

} // verus!
