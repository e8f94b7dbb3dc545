//! What can go wrong with a session or with the terminal, and how it reads
//! on a status line.

use vstd::prelude::*;

verus! {

/// The kind of an operating-system I/O error, as far as the failures below
/// tell kinds apart.
#[derive(Clone, Copy, Debug, PartialEq, Eq, Structural)]
pub enum IoKind {
    AddrInUse,
    AddrNotAvailable,
    InvalidInput,
    PermissionDenied,
    ConnectionRefused,
    ConnectionReset,
    ConnectionAborted,
    NotConnected,
    BrokenPipe,
    TimedOut,
    UnexpectedEof,
    WriteZero,
    Other,
}

/// Why a server could not start listening.
#[derive(Clone, Copy, Debug, PartialEq, Eq, Structural)]
pub enum BindFailure {
    /// The address does not name an endpoint that can be bound.
    InvalidAddress,
    /// Another socket already holds the address.
    AddressInUse,
}

impl BindFailure {
    /// A bind fails because the address is taken, or else because the
    /// address is no good.
    pub open spec fn of_kind(kind: IoKind) -> BindFailure {
        if kind == IoKind::AddrInUse {
            BindFailure::AddressInUse
        } else {
            BindFailure::InvalidAddress
        }
    }

    /// Classifies the error of a failed bind.
    pub fn from_kind(kind: IoKind) -> (reason: BindFailure)
        ensures
            reason == BindFailure::of_kind(kind),
    {
        match kind {
            IoKind::AddrInUse => BindFailure::AddressInUse,
            _ => BindFailure::InvalidAddress,
        }
    }
}

/// Why an outbound connection was not made.
#[derive(Clone, Copy, Debug, PartialEq, Eq, Structural)]
pub enum ConnectFailure {
    Refused,
    TimedOut,
    Unreachable,
}

impl ConnectFailure {
    /// A connection is refused, or times out, or else the host was not
    /// reached.
    pub open spec fn of_kind(kind: IoKind) -> ConnectFailure {
        if kind == IoKind::ConnectionRefused {
            ConnectFailure::Refused
        } else if kind == IoKind::TimedOut {
            ConnectFailure::TimedOut
        } else {
            ConnectFailure::Unreachable
        }
    }

    /// Classifies the error of a failed connection attempt.
    pub fn from_kind(kind: IoKind) -> (reason: ConnectFailure)
        ensures
            reason == ConnectFailure::of_kind(kind),
    {
        match kind {
            IoKind::ConnectionRefused => ConnectFailure::Refused,
            IoKind::TimedOut => ConnectFailure::TimedOut,
            _ => ConnectFailure::Unreachable,
        }
    }
}

/// Why an open session broke.
#[derive(Clone, Copy, Debug, PartialEq, Eq, Structural)]
pub enum IoFailure {
    PeerReset,
    BrokenPipe,
    ShortTransfer,
}

impl IoFailure {
    /// A session breaks because the peer reset or aborted it, because a
    /// read or write fell short, or else because the pipe is broken.
    pub open spec fn of_kind(kind: IoKind) -> IoFailure {
        if kind == IoKind::ConnectionReset || kind == IoKind::ConnectionAborted {
            IoFailure::PeerReset
        } else if kind == IoKind::UnexpectedEof || kind == IoKind::WriteZero {
            IoFailure::ShortTransfer
        } else {
            IoFailure::BrokenPipe
        }
    }

    /// Classifies the error that broke a session.
    pub fn from_kind(kind: IoKind) -> (reason: IoFailure)
        ensures
            reason == IoFailure::of_kind(kind),
    {
        match kind {
            IoKind::ConnectionReset => IoFailure::PeerReset,
            IoKind::ConnectionAborted => IoFailure::PeerReset,
            IoKind::UnexpectedEof => IoFailure::ShortTransfer,
            IoKind::WriteZero => IoFailure::ShortTransfer,
            _ => IoFailure::BrokenPipe,
        }
    }
}

/// Every failure the application can surface.
///
/// The three network errors end the current session attempt and nothing
/// else. `InputError` stands for a failure of the terminal itself and ends
/// the process.
#[derive(Clone, Copy, Debug, PartialEq, Eq, Structural)]
pub enum Error {
    BindError(BindFailure),
    ConnectError(ConnectFailure),
    SessionIoError(IoFailure),
    InputError,
}

impl Error {
    /// True for the one error that the process does not survive.
    pub open spec fn is_fatal(self) -> bool {
        self == Error::InputError
    }

    /// Executable form of [`Error::is_fatal`].
    pub fn fatal(&self) -> (r: bool)
        ensures
            r == self.is_fatal(),
    {
        match self {
            Error::InputError => true,
            _ => false,
        }
    }

    /// The status line for this error.
    pub open spec fn message_text(self) -> Seq<char> {
        match self {
            Error::BindError(BindFailure::InvalidAddress) => "bind failed: invalid address"@,
            Error::BindError(BindFailure::AddressInUse) => "bind failed: address in use"@,
            Error::ConnectError(ConnectFailure::Refused) => "connect failed: connection refused"@,
            Error::ConnectError(ConnectFailure::TimedOut) => "connect failed: timed out"@,
            Error::ConnectError(ConnectFailure::Unreachable) => "connect failed: host unreachable"@,
            Error::SessionIoError(IoFailure::PeerReset) => "session closed: reset by peer"@,
            Error::SessionIoError(IoFailure::BrokenPipe) => "session closed: broken pipe"@,
            Error::SessionIoError(IoFailure::ShortTransfer) => "session closed: short read or write"@,
            Error::InputError => "terminal input failed"@,
        }
    }

    /// Renders the error as a short status line.
    pub fn message(&self) -> (text: String)
        ensures
            text@ == self.message_text(),
    {
        let line: &str = match self {
            Error::BindError(BindFailure::InvalidAddress) => "bind failed: invalid address",
            Error::BindError(BindFailure::AddressInUse) => "bind failed: address in use",
            Error::ConnectError(ConnectFailure::Refused) => "connect failed: connection refused",
            Error::ConnectError(ConnectFailure::TimedOut) => "connect failed: timed out",
            Error::ConnectError(ConnectFailure::Unreachable) => "connect failed: host unreachable",
            Error::SessionIoError(IoFailure::PeerReset) => "session closed: reset by peer",
            Error::SessionIoError(IoFailure::BrokenPipe) => "session closed: broken pipe",
            Error::SessionIoError(IoFailure::ShortTransfer) => "session closed: short read or write",
            Error::InputError => "terminal input failed",
        };
        line.to_owned()
    }
}

} // verus!
