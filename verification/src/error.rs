//! The errors that the library hands out.
use vstd::prelude::*;

verus! {

/// The code of the system for an operation that cannot be done now.
pub const WSAEWOULDBLOCK: i32 = 10035;

/// The code of the system for a read at an end that nobody is connected to.
pub const ERROR_PIPE_LISTENING: i32 = 536;

/// An I/O error.
#[derive(Clone, Copy, Debug, PartialEq, Eq, Structural)]
pub enum IoError {
    /// The operation cannot be done now; a later readiness event says when to
    /// try again.
    WouldBlock,
    /// An argument cannot be turned into a socket address, or a socket address
    /// is not one of a Unix domain socket.
    InvalidInput,
    /// A connection was accepted, but the address of its peer is not known.
    NoRemoteAddress,
    /// An error of the operating system, by its code.
    Os(i32),
}

impl IoError {
    /// The error says that the operation cannot be done now.
    pub open spec fn blocks(self) -> bool {
        self == IoError::WouldBlock || self == IoError::Os(WSAEWOULDBLOCK)
    }

    /// Whether the error says that the operation cannot be done now.
    pub fn is_would_block(&self) -> (blocks: bool)
        ensures
            blocks == self.blocks(),
    {
        match self {
            IoError::WouldBlock => true,
            IoError::Os(code) => *code == WSAEWOULDBLOCK,
            _ => false,
        }
    }

    /// The error says that nobody is connected.
    pub open spec fn unconnected(self) -> bool {
        self == IoError::Os(ERROR_PIPE_LISTENING)
    }

    /// Whether the error says that nobody is connected.
    pub fn is_unconnected(&self) -> (unconnected: bool)
        ensures
            unconnected == self.unconnected(),
    {
        match self {
            IoError::Os(code) => *code == ERROR_PIPE_LISTENING,
            _ => false,
        }
    }

    /// The text of an error that the library makes itself.
    pub fn message(&self) -> (text: Option<&'static str>)
        ensures
            match *self {
                IoError::WouldBlock => text matches Some(t) && t@ == "would block"@,
                IoError::NoRemoteAddress => text matches Some(t) && t@
                    == "could not obtain remote address"@,
                _ => text is None,
            },
    {
        match self {
            IoError::WouldBlock => Some("would block"),
            IoError::NoRemoteAddress => Some("could not obtain remote address"),
            _ => None,
        }
    }
}

/// The error of an operation that cannot be done yet.
pub fn would_block() -> (error: IoError)
    ensures
        error == IoError::WouldBlock,
{
    IoError::WouldBlock
}

} // verus!
