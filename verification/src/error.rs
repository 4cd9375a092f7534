//! The facade's failure taxonomy.

use vstd::prelude::*;
use crate::Atom;

verus! {

/// Everything that can go wrong while loading or storing a selection.
///
/// Connection- and reply-level failures propagate typed to the caller;
/// malformed or irrelevant events met mid-protocol are skipped, never
/// surfaced as errors.
#[derive(Clone, Copy, Debug, PartialEq, Eq, Structural)]
pub enum Error {
    /// The X connection could not be established.
    ConnectionSetup,
    /// A transport or reply failure while talking to the server.
    ProtocolIo,
    /// The selection store's lock was poisoned.
    Lock,
    /// A `load`'s deadline passed before the transfer reached a terminal
    /// state.
    Timeout,
    /// Selection ownership could not be established by `store`.
    Owner,
    /// The peer replied with a representation other than the requested
    /// target and not the INCR sentinel.
    UnexpectedType(Atom),
    /// The internal notification channel to the worker disconnected.
    ChannelClosed,
}

impl Error {
    /// What `message` returns for each variant.
    pub open spec fn message_spec(self) -> Seq<char> {
        match self {
            Error::ConnectionSetup => "could not establish the X connection"@,
            Error::ProtocolIo => "X protocol I/O failure"@,
            Error::Lock => "selection store lock is poisoned"@,
            Error::Timeout => "selection timed out"@,
            Error::Owner => "failed to take ownership of the selection"@,
            Error::UnexpectedType(_) => "unexpected reply type"@,
            Error::ChannelClosed => "worker notification channel closed"@,
        }
    }

    /// A short, fixed description of the failure.
    pub fn message(&self) -> (r: &'static str)
        ensures
            r@ == self.message_spec(),
    {
        match self {
            Error::ConnectionSetup => "could not establish the X connection",
            Error::ProtocolIo => "X protocol I/O failure",
            Error::Lock => "selection store lock is poisoned",
            Error::Timeout => "selection timed out",
            Error::Owner => "failed to take ownership of the selection",
            Error::UnexpectedType(_) => "unexpected reply type",
            Error::ChannelClosed => "worker notification channel closed",
        }
    }
}

} // verus!
