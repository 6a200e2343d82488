//! The WebSocket transport: its options, the endpoint it dials, and what it
//! decides at each step of connecting, disconnecting and exchanging a message.
//!
//! The socket itself is not here. [`WebSocket::step`] takes what happened and
//! answers with what to do next; whoever owns the socket does it and comes
//! back with the outcome.

use crate::error::KuzzleError;
use async_tungstenite::tungstenite;
use async_tungstenite::tungstenite::Message;
use vstd::prelude::*;
use vstd::string::StringExecFns;
use vstd::utf8::{decode_utf8, valid_utf8};

verus! {

/// The port a Kuzzle backend listens on unless told otherwise.
pub const DEFAULT_PORT: u16 = 7512;

/// How long to wait before reconnecting, in milliseconds, unless told
/// otherwise.
pub const DEFAULT_RECONNECTION_DELAY: u64 = 1000;

/// How long to wait between keep-alive probes, in milliseconds, unless told
/// otherwise.
pub const DEFAULT_PING_INTERVAL: u64 = 2000;

/// Where and how the WebSocket transport dials. The endpoint is made of
/// `port` and `ssl`; the other options are for whoever owns the socket, and
/// no decision of the transport reads them.
#[derive(Debug, Clone)]
pub struct WebSocketOptions {
    /// TCP port to dial.
    pub port: u16,
    /// Whether the connection is encrypted (`wss://` in place of `ws://`).
    pub ssl: bool,
    /// Extra headers for the handshake, as pairs of name and value.
    pub headers: Vec<(String, String)>,
    /// Milliseconds to wait before an automatic reconnect.
    pub reconnection_delay: u64,
    /// Milliseconds between keep-alive probes.
    pub ping_interval: u64,
    /// Whether to reconnect when the channel closes unexpectedly.
    pub auto_reconnect: bool,
}

impl Default for WebSocketOptions {
    fn default() -> (options: Self)
        ensures
            options.is_default(),
    {
        WebSocketOptions::new()
    }
}

impl WebSocketOptions {
    /// Whether these are the default options: port 7512, no encryption, no
    /// extra headers, a second before reconnecting, two seconds between
    /// probes, automatic reconnection.
    pub open spec fn is_default(self) -> bool {
        &&& self.port == DEFAULT_PORT
        &&& !self.ssl
        &&& self.headers@ == Seq::<(String, String)>::empty()
        &&& self.reconnection_delay == DEFAULT_RECONNECTION_DELAY
        &&& self.ping_interval == DEFAULT_PING_INTERVAL
        &&& self.auto_reconnect
    }

    /// The default options.
    pub fn new() -> (options: Self)
        ensures
            options.is_default(),
    {
        WebSocketOptions {
            port: DEFAULT_PORT,
            ssl: false,
            headers: Vec::new(),
            reconnection_delay: DEFAULT_RECONNECTION_DELAY,
            ping_interval: DEFAULT_PING_INTERVAL,
            auto_reconnect: true,
        }
    }

    /// The same options with another port.
    pub fn port(self, port: u16) -> (options: Self)
        ensures
            options == (WebSocketOptions { port, ..self }),
    {
        let mut options = self;
        options.port = port;
        options
    }

    /// The same options with encryption switched on or off.
    pub fn ssl(self, ssl: bool) -> (options: Self)
        ensures
            options == (WebSocketOptions { ssl, ..self }),
    {
        let mut options = self;
        options.ssl = ssl;
        options
    }

    /// The same options with other handshake headers.
    pub fn headers(self, headers: Vec<(String, String)>) -> (options: Self)
        ensures
            options == (WebSocketOptions { headers, ..self }),
    {
        let mut options = self;
        options.headers = headers;
        options
    }

    /// The same options with another delay before reconnecting.
    pub fn reconnection_delay(self, reconnection_delay: u64) -> (options: Self)
        ensures
            options == (WebSocketOptions { reconnection_delay, ..self }),
    {
        let mut options = self;
        options.reconnection_delay = reconnection_delay;
        options
    }

    /// The same options with another interval between probes.
    pub fn ping_interval(self, ping_interval: u64) -> (options: Self)
        ensures
            options == (WebSocketOptions { ping_interval, ..self }),
    {
        let mut options = self;
        options.ping_interval = ping_interval;
        options
    }

    /// The same options with automatic reconnection switched on or off.
    pub fn auto_reconnect(self, auto_reconnect: bool) -> (options: Self)
        ensures
            options == (WebSocketOptions { auto_reconnect, ..self }),
    {
        let mut options = self;
        options.auto_reconnect = auto_reconnect;
        options
    }
}

/// The character that stands for a digit.
pub open spec fn digit(d: nat) -> char {
    if d == 0 {
        '0'
    } else if d == 1 {
        '1'
    } else if d == 2 {
        '2'
    } else if d == 3 {
        '3'
    } else if d == 4 {
        '4'
    } else if d == 5 {
        '5'
    } else if d == 6 {
        '6'
    } else if d == 7 {
        '7'
    } else if d == 8 {
        '8'
    } else {
        '9'
    }
}

/// A number in decimal, without leading zeros.
pub open spec fn decimal(n: nat) -> Seq<char>
    decreases n,
{
    if n < 10 {
        seq![digit(n)]
    } else {
        decimal(n / 10).push(digit(n % 10))
    }
}

/// The URL of a backend: `ws://host:port`, or `wss://host:port` where the
/// connection is encrypted.
pub open spec fn endpoint(host: Seq<char>, port: u16, ssl: bool) -> Seq<char> {
    (if ssl {
        "wss://"@
    } else {
        "ws://"@
    }) + host + ":"@ + decimal(port as nat)
}

/// The canonical form that `Url::parse` gives a URL, or `None` where it
/// rejects the text.
pub uninterp spec fn url_canonical(url: Seq<char>) -> Option<Seq<char>>;

/// `Url::parse`, then the URL as a string: the canonical form of `url`, or
/// `None` where it does not parse.
#[verifier::external_body]
fn canonical_url(url: &str) -> (r: Option<String>)
    ensures
        r is Some <==> url_canonical(url@) is Some,
        r matches Some(canonical) ==> url_canonical(url@) == Some(canonical@),
{
    url::Url::parse(url).ok().map(String::from)
}

/// What a close frame says.
#[derive(Debug, Clone, PartialEq, Eq)]
pub struct CloseFrame {
    /// The status code of the close.
    pub code: u16,
    /// The reason, as text.
    pub reason: String,
}

/// One inbound message of the channel.
#[derive(Debug, Clone, PartialEq, Eq)]
pub enum Frame {
    Text(String),
    Binary(Vec<u8>),
    Ping(Vec<u8>),
    Pong(Vec<u8>),
    Close(Option<CloseFrame>),
}

/// The text that a frame converts to without loss: a text frame's own text,
/// the reason of a close frame (empty where it has none), and the payload of
/// any other frame where it is UTF-8.
pub open spec fn frame_text(frame: Frame) -> Option<Seq<char>> {
    match frame {
        Frame::Text(text) => Some(text@),
        Frame::Binary(data) | Frame::Ping(data) | Frame::Pong(data) => if valid_utf8(data@) {
            Some(decode_utf8(data@))
        } else {
            None
        },
        Frame::Close(None) => Some(Seq::empty()),
        Frame::Close(Some(close)) => Some(close.reason@),
    }
}

/// `Message::into_text` of tungstenite, on the message that `frame` stands
/// for: the frame's text, or `None` where its payload is not UTF-8.
#[verifier::external_body]
fn frame_into_text(frame: Frame) -> (r: Option<String>)
    ensures
        match frame_text(frame) {
            Some(text) => r matches Some(converted) && converted@ == text,
            None => r is None,
        },
{
    let message = match frame {
        Frame::Text(text) => Message::Text(text.into()),
        Frame::Binary(data) => Message::Binary(data.into()),
        Frame::Ping(data) => Message::Ping(data.into()),
        Frame::Pong(data) => Message::Pong(data.into()),
        Frame::Close(None) => Message::Close(None),
        Frame::Close(Some(c)) => Message::Close(Some(tungstenite::protocol::CloseFrame { code: c.code.into(), reason: c.reason.into() })),
    };
    message.into_text().ok().map(|text| text.as_str().to_owned())
}

/// What the transport is in the middle of.
#[derive(Debug, Clone, Copy, PartialEq, Eq, Structural)]
pub enum Phase {
    /// Nothing: the next event is a command.
    Idle,
    /// A handshake; the next event says how it went.
    Dialing,
    /// A close; the next event says how it went.
    Closing,
    /// Writing a request; the next event says how it went.
    Writing,
    /// Waiting for the reply; the next event brings it.
    Reading,
}

/// What happened: a command of the application, or the outcome of the action
/// that the transport asked for last.
#[derive(Debug, Clone, PartialEq, Eq)]
pub enum Event {
    /// The application asks for a connection.
    Connect,
    /// The application asks to close the connection.
    Disconnect,
    /// The application asks to send this payload and wait for the reply.
    Send(String),
    /// The handshake succeeded; a channel is open.
    Opened,
    /// The endpoint could not be reached, or the handshake failed.
    Refused,
    /// The close frame went out.
    Closed,
    /// The close frame could not be sent.
    CloseFailed,
    /// The frame was written.
    Written,
    /// The channel reported a fault while writing.
    WriteFailed,
    /// The next inbound frame.
    Received(Frame),
    /// The channel reported a fault while reading.
    ReadFailed,
    /// The channel ended before a frame came.
    EndOfStream,
}

/// What to do next.
#[derive(Debug, Clone, PartialEq, Eq)]
pub enum Action {
    /// Shake hands with this URL, then report `Opened` or `Refused`.
    Dial(String),
    /// Send a close frame and release the channel, then report `Closed` or
    /// `CloseFailed`.
    Close,
    /// Write this payload as one text frame, then report `Written` or
    /// `WriteFailed`.
    Write(String),
    /// Read the next frame, then report `Received`, `ReadFailed` or
    /// `EndOfStream`.
    Read,
    /// The operation succeeded and yields nothing.
    Finished,
    /// The exchange succeeded and yields this reply.
    Reply(String),
    /// The operation failed.
    Failed(KuzzleError),
}

/// What an action holds.
pub enum ActionView {
    Dial(Seq<char>),
    Close,
    Write(Seq<char>),
    Read,
    Finished,
    Reply(Seq<char>),
    Failed(KuzzleError),
}

impl View for Action {
    type V = ActionView;

    open spec fn view(&self) -> ActionView {
        match *self {
            Action::Dial(url) => ActionView::Dial(url@),
            Action::Close => ActionView::Close,
            Action::Write(payload) => ActionView::Write(payload@),
            Action::Read => ActionView::Read,
            Action::Finished => ActionView::Finished,
            Action::Reply(text) => ActionView::Reply(text@),
            Action::Failed(e) => ActionView::Failed(e),
        }
    }
}

/// The WebSocket transport without its socket: where it dials, whether it
/// holds an open channel, and what it is in the middle of.
#[derive(Debug)]
pub struct WebSocket {
    host: String,
    options: WebSocketOptions,
    open: bool,
    phase: Phase,
}

/// What a transport holds.
pub struct WebSocketView {
    pub host: Seq<char>,
    pub options: WebSocketOptions,
    /// Whether a channel is open.
    pub open: bool,
    pub phase: Phase,
}

impl WebSocketView {
    /// The same transport in another phase.
    pub open spec fn at(self, phase: Phase) -> WebSocketView {
        WebSocketView { phase, ..self }
    }

    /// The same transport, idle, with its channel open or not.
    pub open spec fn settled(self, open: bool) -> WebSocketView {
        WebSocketView { open, phase: Phase::Idle, ..self }
    }
}

/// What the transport becomes and asks for when `event` happens.
///
/// A command is taken only when idle. `Connect` dials the canonical form of
/// the endpoint, and fails with `Connection` where the endpoint is no URL or
/// the handshake is refused; a refused handshake leaves the channel as it
/// was. `Disconnect` fails with `AlreadyClosed` where no channel is open;
/// otherwise the channel is released however the close goes. `Send` fails
/// with `NotConnected` where no channel is open; otherwise the payload is
/// written and one frame read: a fault gives `Protocol`, the end of the
/// stream `NoReply`, a frame that is no text `Protocol`. An event that does
/// not answer what was asked last changes nothing and fails with `Protocol`.
pub open spec fn transition(before: WebSocketView, event: Event) -> (WebSocketView, ActionView) {
    match (before.phase, event) {
        (Phase::Idle, Event::Connect) => match url_canonical(
            endpoint(before.host, before.options.port, before.options.ssl),
        ) {
            Some(url) => (before.at(Phase::Dialing), ActionView::Dial(url)),
            None => (before, ActionView::Failed(KuzzleError::Connection)),
        },
        (Phase::Dialing, Event::Opened) => (before.settled(true), ActionView::Finished),
        (Phase::Dialing, Event::Refused) => (
            before.at(Phase::Idle),
            ActionView::Failed(KuzzleError::Connection),
        ),
        (Phase::Idle, Event::Disconnect) => if before.open {
            (before.at(Phase::Closing), ActionView::Close)
        } else {
            (before, ActionView::Failed(KuzzleError::AlreadyClosed))
        },
        (Phase::Closing, Event::Closed) => (before.settled(false), ActionView::Finished),
        (Phase::Closing, Event::CloseFailed) => (
            before.settled(false),
            ActionView::Failed(KuzzleError::Protocol),
        ),
        (Phase::Idle, Event::Send(payload)) => if before.open {
            (before.at(Phase::Writing), ActionView::Write(payload@))
        } else {
            (before, ActionView::Failed(KuzzleError::NotConnected))
        },
        (Phase::Writing, Event::Written) => (before.at(Phase::Reading), ActionView::Read),
        (Phase::Writing, Event::WriteFailed) => (
            before.at(Phase::Idle),
            ActionView::Failed(KuzzleError::Protocol),
        ),
        (Phase::Reading, Event::Received(frame)) => (
            before.at(Phase::Idle),
            match frame_text(frame) {
                Some(text) => ActionView::Reply(text),
                None => ActionView::Failed(KuzzleError::Protocol),
            },
        ),
        (Phase::Reading, Event::ReadFailed) => (
            before.at(Phase::Idle),
            ActionView::Failed(KuzzleError::Protocol),
        ),
        (Phase::Reading, Event::EndOfStream) => (
            before.at(Phase::Idle),
            ActionView::Failed(KuzzleError::NoReply),
        ),
        _ => (before, ActionView::Failed(KuzzleError::Protocol)),
    }
}

/// A send with no open channel fails with `NotConnected` and changes nothing:
/// nothing is written and nothing is waited for.
pub proof fn lemma_send_needs_channel(ws: WebSocketView, payload: String)
    requires
        ws.phase == Phase::Idle,
        !ws.open,
    ensures
        transition(ws, Event::Send(payload)) == (
            ws,
            ActionView::Failed(KuzzleError::NotConnected),
        ),
{
}

/// Of two disconnects in a row the second fails with `AlreadyClosed`: the
/// first asks for a close, succeeds where the close does, and releases the
/// channel either way.
pub proof fn lemma_second_disconnect_fails(ws: WebSocketView, close_went_out: bool)
    requires
        ws.phase == Phase::Idle,
        ws.open,
    ensures
        ({
            let asked = transition(ws, Event::Disconnect);
            let first = transition(
                asked.0,
                if close_went_out {
                    Event::Closed
                } else {
                    Event::CloseFailed
                },
            );
            let second = transition(first.0, Event::Disconnect);
            &&& asked.1 == ActionView::Close
            &&& close_went_out ==> first.1 == ActionView::Finished
            &&& !close_went_out ==> first.1 == ActionView::Failed(KuzzleError::Protocol)
            &&& first.0 == ws.settled(false)
            &&& second == (first.0, ActionView::Failed(KuzzleError::AlreadyClosed))
        }),
{
}

/// A connect that does not reach the backend fails with `Connection`, as soon
/// as the refusal is known, and leaves the transport as it was: either the
/// endpoint is no URL and nothing is dialled, or the handshake is refused.
pub proof fn lemma_refused_connect_fails(ws: WebSocketView)
    requires
        ws.phase == Phase::Idle,
    ensures
        ({
            let asked = transition(ws, Event::Connect);
            if asked.1 is Dial {
                transition(asked.0, Event::Refused) == (
                    ws,
                    ActionView::Failed(KuzzleError::Connection),
                )
            } else {
                asked == (ws, ActionView::Failed(KuzzleError::Connection))
            }
        }),
{
}

/// A connect whose handshake succeeds leaves the transport idle with an open
/// channel.
pub proof fn lemma_accepted_connect_opens(ws: WebSocketView)
    requires
        ws.phase == Phase::Idle,
    ensures
        ({
            let asked = transition(ws, Event::Connect);
            asked.1 is Dial ==> transition(asked.0, Event::Opened) == (
                ws.settled(true),
                ActionView::Finished,
            )
        }),
{
}

/// One exchange on an open channel writes the payload as it is, reads one
/// frame, and hands back the text of that frame as it is; the transport is
/// then as it was before, ready for the next exchange. Replies therefore come
/// back in the order in which the requests went out.
pub proof fn lemma_exchange_returns_the_reply(ws: WebSocketView, payload: String, reply: String)
    requires
        ws.phase == Phase::Idle,
        ws.open,
    ensures
        ({
            let asked = transition(ws, Event::Send(payload));
            let written = transition(asked.0, Event::Written);
            let read = transition(written.0, Event::Received(Frame::Text(reply)));
            &&& asked.1 == ActionView::Write(payload@)
            &&& written.1 == ActionView::Read
            &&& read == (ws, ActionView::Reply(reply@))
        }),
{
}

/// An exchange whose channel ends before a frame comes fails with `NoReply`.
pub proof fn lemma_silent_peer_gives_no_reply(ws: WebSocketView, payload: String)
    requires
        ws.phase == Phase::Idle,
        ws.open,
    ensures
        ({
            let asked = transition(ws, Event::Send(payload));
            let written = transition(asked.0, Event::Written);
            transition(written.0, Event::EndOfStream) == (
                ws,
                ActionView::Failed(KuzzleError::NoReply),
            )
        }),
{
}

/// No event opens a channel but an accepted handshake, and none but the end
/// of a close releases one.
pub proof fn lemma_channel_changes_only_on_connect_and_disconnect(ws: WebSocketView, event: Event)
    ensures
        ({
            let after = transition(ws, event).0;
            &&& after.host == ws.host && after.options == ws.options
            &&& after.open != ws.open ==> if after.open {
                ws.phase == Phase::Dialing && event == Event::Opened
            } else {
                ws.phase == Phase::Closing && (event == Event::Closed || event
                    == Event::CloseFailed)
            }
        }),
{
}

/// The text of one digit.
fn digit_text(d: u16) -> (text: &'static str)
    requires
        d < 10,
    ensures
        text@ == seq![digit(d as nat)],
{
    proof {
        reveal_strlit("0");
        reveal_strlit("1");
        reveal_strlit("2");
        reveal_strlit("3");
        reveal_strlit("4");
        reveal_strlit("5");
        reveal_strlit("6");
        reveal_strlit("7");
        reveal_strlit("8");
        reveal_strlit("9");
    }
    let text = if d == 0 {
        "0"
    } else if d == 1 {
        "1"
    } else if d == 2 {
        "2"
    } else if d == 3 {
        "3"
    } else if d == 4 {
        "4"
    } else if d == 5 {
        "5"
    } else if d == 6 {
        "6"
    } else if d == 7 {
        "7"
    } else if d == 8 {
        "8"
    } else {
        "9"
    };
    assert(text@ =~= seq![digit(d as nat)]);
    text
}

/// A port number in decimal.
pub fn port_text(port: u16) -> (text: String)
    ensures
        text@ == decimal(port as nat),
    decreases port,
{
    if port < 10 {
        String::from_str(digit_text(port))
    } else {
        let mut text = port_text(port / 10);
        text.append(digit_text(port % 10));
        assert(text@ =~= decimal(port as nat));
        text
    }
}

impl View for WebSocket {
    type V = WebSocketView;

    closed spec fn view(&self) -> WebSocketView {
        WebSocketView {
            host: self.host@,
            options: self.options,
            open: self.open,
            phase: self.phase,
        }
    }
}

impl WebSocket {
    /// A transport for the backend at `host`, with the default options where
    /// none are given. It starts idle, with no channel.
    pub fn new(host: &str, options: Option<WebSocketOptions>) -> (ws: WebSocket)
        ensures
            ws@.host == host@,
            match options {
                Some(given) => ws@.options == given,
                None => ws@.options.is_default(),
            },
            !ws@.open,
            ws@.phase == Phase::Idle,
    {
        let options = match options {
            Some(o) => o,
            None => WebSocketOptions::new(),
        };
        WebSocket { host: host.to_owned(), options, open: false, phase: Phase::Idle }
    }

    /// The URL of the backend, from the host and the options.
    pub fn get_url(&self) -> (url: String)
        ensures
            url@ == endpoint(self@.host, self@.options.port, self@.options.ssl),
    {
        let mut url = if self.options.ssl {
            String::from_str("wss://")
        } else {
            String::from_str("ws://")
        };
        url.append(self.host.as_str());
        url.append(":");
        let port = port_text(self.options.port);
        url.append(port.as_str());
        url
    }

    /// The options that the transport was made with.
    pub fn options(&self) -> (options: &WebSocketOptions)
        ensures
            *options == self@.options,
    {
        &self.options
    }

    /// Whether a channel is open.
    pub fn is_connected(&self) -> (open: bool)
        ensures
            open == self@.open,
    {
        self.open
    }

    /// What the transport is in the middle of.
    pub fn phase(&self) -> (phase: Phase)
        ensures
            phase == self@.phase,
    {
        self.phase
    }

    /// Takes in what happened and says what to do next.
    pub fn step(&mut self, event: Event) -> (action: Action)
        ensures
            (final(self)@, action@) == transition(old(self)@, event),
    {
        match event {
            Event::Connect => {
                if self.phase == Phase::Idle {
                    let url = self.get_url();
                    match canonical_url(url.as_str()) {
                        Some(canonical) => {
                            self.phase = Phase::Dialing;
                            Action::Dial(canonical)
                        },
                        None => Action::Failed(KuzzleError::Connection),
                    }
                } else {
                    Action::Failed(KuzzleError::Protocol)
                }
            },
            Event::Opened => {
                if self.phase == Phase::Dialing {
                    self.open = true;
                    self.phase = Phase::Idle;
                    Action::Finished
                } else {
                    Action::Failed(KuzzleError::Protocol)
                }
            },
            Event::Refused => {
                if self.phase == Phase::Dialing {
                    self.phase = Phase::Idle;
                    Action::Failed(KuzzleError::Connection)
                } else {
                    Action::Failed(KuzzleError::Protocol)
                }
            },
            Event::Disconnect => {
                if self.phase == Phase::Idle {
                    if self.open {
                        self.phase = Phase::Closing;
                        Action::Close
                    } else {
                        Action::Failed(KuzzleError::AlreadyClosed)
                    }
                } else {
                    Action::Failed(KuzzleError::Protocol)
                }
            },
            Event::Closed => {
                if self.phase == Phase::Closing {
                    self.open = false;
                    self.phase = Phase::Idle;
                    Action::Finished
                } else {
                    Action::Failed(KuzzleError::Protocol)
                }
            },
            Event::CloseFailed => {
                if self.phase == Phase::Closing {
                    self.open = false;
                    self.phase = Phase::Idle;
                }
                Action::Failed(KuzzleError::Protocol)
            },
            Event::Send(payload) => {
                if self.phase == Phase::Idle {
                    if self.open {
                        self.phase = Phase::Writing;
                        Action::Write(payload)
                    } else {
                        Action::Failed(KuzzleError::NotConnected)
                    }
                } else {
                    Action::Failed(KuzzleError::Protocol)
                }
            },
            Event::Written => {
                if self.phase == Phase::Writing {
                    self.phase = Phase::Reading;
                    Action::Read
                } else {
                    Action::Failed(KuzzleError::Protocol)
                }
            },
            Event::WriteFailed => {
                if self.phase == Phase::Writing {
                    self.phase = Phase::Idle;
                }
                Action::Failed(KuzzleError::Protocol)
            },
            Event::Received(frame) => {
                if self.phase == Phase::Reading {
                    self.phase = Phase::Idle;
                    match frame_into_text(frame) {
                        Some(text) => Action::Reply(text),
                        None => Action::Failed(KuzzleError::Protocol),
                    }
                } else {
                    Action::Failed(KuzzleError::Protocol)
                }
            },
            Event::ReadFailed => {
                if self.phase == Phase::Reading {
                    self.phase = Phase::Idle;
                }
                Action::Failed(KuzzleError::Protocol)
            },
            Event::EndOfStream => {
                if self.phase == Phase::Reading {
                    self.phase = Phase::Idle;
                    Action::Failed(KuzzleError::NoReply)
                } else {
                    Action::Failed(KuzzleError::Protocol)
                }
            },
        }
    }
}

} // verus!
