//! The orchestrator: one transport, and the round trip of a request over it.

use crate::error::KuzzleError;
use crate::json::{json_parse, json_text};
use crate::protocols::Protocol;
use crate::types::request::{request_model, Request};
use crate::types::response::{decoded_view, response_of_text, Response, ResponseView};
use vstd::prelude::*;

verus! {

/// The entry point of an application: it owns one transport and speaks
/// envelopes over it.
pub struct Kuzzle<P: Protocol> {
    protocol: P,
}

/// The wire text of `request`, or `None` where it cannot be written.
pub open spec fn request_text(request: Request) -> Option<Seq<char>> {
    json_text(request_model(request@))
}

/// What a query returns for what the transport came back with: the
/// transport's error as it is, or the reply decoded as a response.
pub open spec fn response_of_reply(reply: Result<String, KuzzleError>) -> Result<
    ResponseView,
    KuzzleError,
> {
    match reply {
        Ok(text) => response_of_text(text@),
        Err(e) => Err(e),
    }
}

/// Whether `response` is what some reply text decodes to.
pub open spec fn decodes_to(reply: Seq<char>, response: Response) -> bool {
    response_of_text(reply) == Ok::<ResponseView, KuzzleError>(response@)
}

/// The outcome of a query, from what the transport came back with.
pub fn read_reply(reply: Result<String, KuzzleError>) -> (r: Result<Response, KuzzleError>)
    ensures
        decoded_view(r) == response_of_reply(reply),
{
    match reply {
        Ok(text) => Response::from_text(text.as_str()),
        Err(e) => Err(e),
    }
}

/// A reply that is not JSON makes the query fail with `Deserialization`.
pub proof fn lemma_invalid_reply_is_refused(reply: String)
    requires
        json_parse(reply@) is None,
    ensures
        response_of_reply(Ok(reply)) == Err::<ResponseView, KuzzleError>(
            KuzzleError::Deserialization,
        ),
{
}

/// A failure of the transport is the failure of the query.
pub proof fn lemma_transport_failure_is_handed_on(error: KuzzleError)
    ensures
        response_of_reply(Err(error)) == Err::<ResponseView, KuzzleError>(
            error,
        ),
{
}

impl<P: Protocol> Kuzzle<P> {
    /// The transport that this orchestrator owns.
    pub closed spec fn transport(&self) -> P {
        self.protocol
    }

    /// Whether the transport holds an open channel.
    pub open spec fn connected(&self) -> bool {
        self.transport().connected()
    }

    /// The payloads handed to the transport so far, oldest first.
    pub open spec fn sent(&self) -> Seq<Seq<char>> {
        self.transport().sent()
    }

    /// An orchestrator over `protocol`.
    pub fn new(protocol: P) -> (kuzzle: Kuzzle<P>)
        ensures
            kuzzle.transport() == protocol,
    {
        Kuzzle { protocol }
    }

    /// Opens the transport's channel; the transport's outcome is handed on
    /// as it is.
    pub fn connect(&mut self) -> (r: Result<(), KuzzleError>)
        ensures
            r is Ok ==> final(self).connected(),
            r is Err ==> r == Err::<(), KuzzleError>(KuzzleError::Connection),
            r is Err && !old(self).connected() ==> !final(self).connected(),
            final(self).sent() == old(self).sent(),
    {
        self.protocol.connect()
    }

    /// Closes the transport's channel; the transport's outcome is handed on
    /// as it is. A second disconnect in a row fails with `AlreadyClosed`.
    pub fn disconnect(&mut self) -> (r: Result<(), KuzzleError>)
        ensures
            !final(self).connected(),
            !old(self).connected() <==> r == Err::<(), KuzzleError>(KuzzleError::AlreadyClosed),
            r is Err ==> r == Err::<(), KuzzleError>(KuzzleError::AlreadyClosed) || r == Err::<
                (),
                KuzzleError,
            >(KuzzleError::Protocol),
            final(self).sent() == old(self).sent(),
    {
        self.protocol.disconnect()
    }

    /// Sends `request` and returns the response to it: the request is written
    /// as JSON text, the text handed to the transport, and the reply decoded.
    ///
    /// A request that cannot be written fails with `Serialization` before the
    /// transport is touched. Otherwise the transport gets exactly the
    /// request's text. With no open channel the query fails with
    /// `NotConnected`; a failure of the transport is handed on as it is; a
    /// reply that is no response fails with `Deserialization`.
    pub fn query(&mut self, request: &Request) -> (r: Result<Response, KuzzleError>)
        ensures
            final(self).connected() == old(self).connected(),
            request_text(*request) is None ==> r == Err::<Response, KuzzleError>(
                KuzzleError::Serialization,
            ) && final(self).sent() == old(self).sent(),
            request_text(*request) is Some && !old(self).connected() ==> r == Err::<
                Response,
                KuzzleError,
            >(KuzzleError::NotConnected) && final(self).sent() == old(self).sent(),
            old(self).connected() ==> (request_text(*request) matches Some(text) ==> final(self).sent()
                == old(self).sent().push(text)),
            request_text(*request) is Some && old(self).connected() ==> (r matches Err(e)
                ==> e.is_exchange_fault() || e == KuzzleError::Deserialization),
            r matches Ok(response) ==> exists|reply: Seq<char>| #[trigger]
                decodes_to(reply, response),
    {
        let text = match request.to_text() {
            Ok(text) => text,
            Err(e) => return Err(e),
        };
        let reply = self.protocol.send(text);
        let ghost came_back = reply;
        let r = read_reply(reply);
        proof {
            if r is Ok {
                assert(decodes_to(came_back->Ok_0@, r->Ok_0));
            }
        }
        r
    }
}

} // verus!
