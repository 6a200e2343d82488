//! Transports that carry whole messages to a backend and back.

pub mod websocket;

pub use self::websocket::{WebSocket, WebSocketOptions};

use crate::error::KuzzleError;
use vstd::prelude::*;

verus! {

/// A channel to a backend that can be opened, closed, and asked to carry one
/// message there and one back.
///
/// A transport is disconnected until `connect` succeeds and connected until
/// `disconnect` is called. It pairs a reply with a request by order alone, so
/// one exchange must end before the next begins.
///
/// Whoever implements a transport answers for what its methods promise here:
/// nothing in this library checks an implementation. `connected` and `sent`
/// are the model that the promises are stated over; they hold no code, and
/// an implementation that is not verified has nothing to say about them.
pub trait Protocol {
    /// Whether a channel is open.
    open spec fn connected(&self) -> bool {
        arbitrary()
    }

    /// The payloads handed to the channel so far, oldest first.
    open spec fn sent(&self) -> Seq<Seq<char>> {
        arbitrary()
    }

    /// Opens the channel. The only failure is `Connection`, and a transport
    /// that was disconnected stays so when it fails.
    fn connect(&mut self) -> (r: Result<(), KuzzleError>)
        ensures
            r is Ok ==> final(self).connected(),
            r is Err ==> r == Err::<(), KuzzleError>(KuzzleError::Connection),
            r is Err && !old(self).connected() ==> !final(self).connected(),
            final(self).sent() == old(self).sent(),
    ;

    /// Closes the channel and releases it, however the close goes. Fails with
    /// `AlreadyClosed` exactly where no channel was open, and with `Protocol`
    /// where the close itself failed.
    fn disconnect(&mut self) -> (r: Result<(), KuzzleError>)
        ensures
            !final(self).connected(),
            !old(self).connected() <==> r == Err::<(), KuzzleError>(KuzzleError::AlreadyClosed),
            r is Err ==> r == Err::<(), KuzzleError>(KuzzleError::AlreadyClosed) || r == Err::<
                (),
                KuzzleError,
            >(KuzzleError::Protocol),
            final(self).sent() == old(self).sent(),
    ;

    /// Writes `request` as one message and returns the next message that
    /// comes in. Fails with `NotConnected`, handing nothing to the channel,
    /// where no channel is open; on an open channel the failures are
    /// `Protocol` and `NoReply`.
    fn send(&mut self, request: String) -> (r: Result<String, KuzzleError>)
        ensures
            final(self).connected() == old(self).connected(),
            !old(self).connected() ==> r == Err::<String, KuzzleError>(KuzzleError::NotConnected)
                && final(self).sent() == old(self).sent(),
            old(self).connected() ==> final(self).sent() == old(self).sent().push(request@),
            old(self).connected() ==> (r matches Err(e) ==> e.is_exchange_fault()),
    ;
}

} // verus!
