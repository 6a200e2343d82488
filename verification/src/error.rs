//! The ways in which an exchange with the backend can fail.

use vstd::prelude::*;

verus! {

/// What went wrong, named after the stage that failed.
#[derive(Clone, Copy, Debug, PartialEq, Eq, Structural)]
pub enum KuzzleError {
    /// The endpoint could not be reached, resolved or shaken hands with.
    Connection,
    /// An exchange was attempted with no open channel.
    NotConnected,
    /// A disconnect was attempted with no open channel.
    AlreadyClosed,
    /// The channel reported a framing or transport fault.
    Protocol,
    /// The channel ended before a reply arrived.
    NoReply,
    /// A request could not be written as JSON text.
    Serialization,
    /// A reply was not a well-formed response envelope.
    Deserialization,
}

impl KuzzleError {
    /// Whether a transport may report this error from `send` on an open
    /// channel.
    pub open spec fn is_exchange_fault(self) -> bool {
        self == KuzzleError::Protocol || self == KuzzleError::NoReply
    }
}

} // verus!
