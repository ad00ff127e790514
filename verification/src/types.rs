//! Connection status and the messages exchanged with the worker.

use crate::utils::str_eq;
use vstd::prelude::*;

verus! {

/// Lifecycle of the connection that the worker owns.
#[derive(Debug, Clone, Copy, PartialEq, Eq, Structural)]
pub enum WsStatus {
    /// Set at construction, before the worker has reported anything.
    Connecting,
    /// The worker reported that the connection is established.
    Open,
    /// The worker reported that the connection is gone. Final.
    Closed,
}

/// The control signal by which the worker reports an established connection.
pub open spec fn connected_signal() -> Seq<char> {
    "connected"@
}

/// The control signal by which the worker reports a closed connection.
pub open spec fn closed_signal() -> Seq<char> {
    "closed"@
}

impl WsStatus {
    /// The status that follows `self` once `signal` has been processed.
    ///
    /// `"closed"` always leads to `Closed`. `"connected"` leads to `Open`
    /// unless the connection is already `Closed`, which is never left.
    /// Every other signal is ignored.
    pub open spec fn after_signal(self, signal: Seq<char>) -> WsStatus {
        if signal == closed_signal() {
            WsStatus::Closed
        } else if signal == connected_signal() && self != WsStatus::Closed {
            WsStatus::Open
        } else {
            self
        }
    }

    /// The status that follows `self` once the worker's `signal` has been
    /// processed.
    pub fn signalled(self, signal: &str) -> (next: WsStatus)
        ensures
            next == self.after_signal(signal@),
    {
        if str_eq(signal, "closed") {
            WsStatus::Closed
        } else if str_eq(signal, "connected") {
            match self {
                WsStatus::Closed => WsStatus::Closed,
                _ => WsStatus::Open,
            }
        } else {
            self
        }
    }
}

/// The status after the worker's signals `signals` have been processed in
/// order, starting from `start`.
pub open spec fn status_after(start: WsStatus, signals: Seq<Seq<char>>) -> WsStatus
    decreases signals.len(),
{
    if signals.len() == 0 {
        start
    } else {
        status_after(start, signals.drop_last()).after_signal(signals.last())
    }
}

/// The two signals that the status reacts to are different texts.
pub proof fn lemma_signals_differ()
    ensures
        connected_signal() != closed_signal(),
{
    reveal_strlit("connected");
    reveal_strlit("closed");
    assert("closed"@.len() == 6);
}

/// `Closed` is final: no signal leads away from it.
pub proof fn lemma_closed_is_final(signals: Seq<Seq<char>>)
    ensures
        status_after(WsStatus::Closed, signals) == WsStatus::Closed,
    decreases signals.len(),
{
    if signals.len() > 0 {
        lemma_closed_is_final(signals.drop_last());
    }
}

/// What a new connection's status is after any run of signals: `Closed`
/// once a `"closed"` has arrived; else `Open` once a `"connected"` has
/// arrived; else still `Connecting`. In particular it reads `Open` only
/// after a `"connected"` signal has been processed.
pub proof fn lemma_status_follows_signals(signals: Seq<Seq<char>>)
    ensures
        status_after(WsStatus::Connecting, signals) == (if signals.contains(closed_signal()) {
            WsStatus::Closed
        } else if signals.contains(connected_signal()) {
            WsStatus::Open
        } else {
            WsStatus::Connecting
        }),
    decreases signals.len(),
{
    lemma_signals_differ();
    if signals.len() > 0 {
        let earlier = signals.drop_last();
        lemma_status_follows_signals(earlier);
        assert forall|s: Seq<char>| signals.contains(s) <==> earlier.contains(s) || s
            == signals.last() by {
            if signals.contains(s) && s != signals.last() {
                let i = choose|i: int| 0 <= i < signals.len() && signals[i] == s;
                assert(earlier[i] == s);
            }
        }
    }
}

/// What a request carries, as a mathematical value.
pub enum Payload {
    /// Raw bytes.
    Binary(Seq<u8>),
    /// Text.
    Text(Seq<char>),
}

/// What a message to the worker says, as a mathematical value: exactly one
/// of three things.
pub enum Outbound {
    /// Open a connection to `url`.
    Connect { url: Seq<char> },
    /// Send `payload` over the connection.
    Request { payload: Payload },
    /// Close the connection.
    Close,
}

/// The payload of a request.
#[derive(Debug, Clone)]
pub enum WsMessage {
    Binary(Vec<u8>),
    Text(String),
}

impl View for WsMessage {
    type V = Payload;

    open spec fn view(&self) -> Payload {
        match self {
            WsMessage::Binary(bytes) => Payload::Binary(bytes@),
            WsMessage::Text(text) => Payload::Text(text@),
        }
    }
}

/// The payload of a request in the shape the worker reads: a `binary` and a
/// `text` field, of which exactly one is present.
#[derive(Debug)]
pub struct WebSocketMessage {
    binary: Option<Vec<u8>>,
    text: Option<String>,
}

impl View for WebSocketMessage {
    type V = Payload;

    closed spec fn view(&self) -> Payload {
        match self.binary {
            Some(bytes) => Payload::Binary(bytes@),
            None => Payload::Text(self.text.unwrap()@),
        }
    }
}

impl WebSocketMessage {
    #[verifier::type_invariant]
    spec fn one_field_present(self) -> bool {
        self.binary is Some <==> self.text is None
    }

    /// The bytes of a binary payload; `None` for a text payload.
    pub fn binary(&self) -> (bytes: Option<Vec<u8>>)
        ensures
            match self@ {
                Payload::Binary(b) => bytes matches Some(v) && v@ == b,
                Payload::Text(_) => bytes is None,
            },
    {
        proof {
            use_type_invariant(self);
        }
        match &self.binary {
            Some(bytes) => Some(bytes.clone()),
            None => None,
        }
    }

    /// The text of a text payload; `None` for a binary payload.
    pub fn text(&self) -> (text: Option<String>)
        ensures
            match self@ {
                Payload::Binary(_) => text is None,
                Payload::Text(t) => text matches Some(s) && s@ == t,
            },
    {
        proof {
            use_type_invariant(self);
        }
        match &self.text {
            Some(text) => Some(text.clone()),
            None => None,
        }
    }
}

impl Clone for WebSocketMessage {
    fn clone(&self) -> (copy: WebSocketMessage)
        ensures
            copy@ == self@,
    {
        let binary = self.binary();
        let text = self.text();
        WebSocketMessage { binary, text }
    }
}

impl vstd::std_specs::convert::FromSpecImpl<WsMessage> for WebSocketMessage {
    open spec fn obeys_from_spec() -> bool {
        true
    }

    closed spec fn from_spec(message: WsMessage) -> WebSocketMessage {
        match message {
            WsMessage::Binary(bytes) => WebSocketMessage { binary: Some(bytes), text: None },
            WsMessage::Text(text) => WebSocketMessage { binary: None, text: Some(text) },
        }
    }
}

impl From<WsMessage> for WebSocketMessage {
    /// The same payload, in the shape the worker reads.
    fn from(message: WsMessage) -> (converted: WebSocketMessage)
        ensures
            converted@ == message@,
    {
        match message {
            WsMessage::Binary(bytes) => WebSocketMessage { binary: Some(bytes), text: None },
            WsMessage::Text(text) => WebSocketMessage { binary: None, text: Some(text) },
        }
    }
}

/// A message to the worker in the shape the worker reads: a `connect`, a
/// `request` and a `close` field, of which exactly one is populated.
#[derive(Debug)]
pub struct WorkerMessage {
    connect: Option<String>,
    request: Option<WebSocketMessage>,
    close: bool,
}

impl View for WorkerMessage {
    type V = Outbound;

    closed spec fn view(&self) -> Outbound {
        if self.close {
            Outbound::Close
        } else {
            match self.connect {
                Some(url) => Outbound::Connect { url: url@ },
                None => Outbound::Request { payload: self.request.unwrap()@ },
            }
        }
    }
}

impl WorkerMessage {
    #[verifier::type_invariant]
    spec fn one_field_populated(self) -> bool {
        if self.close {
            self.connect is None && self.request is None
        } else {
            self.connect is Some <==> self.request is None
        }
    }

    /// The message that asks the worker to connect to `message`.
    pub fn new_connect(message: String) -> (built: WorkerMessage)
        ensures
            built@ == (Outbound::Connect { url: message@ }),
    {
        WorkerMessage { connect: Some(message), request: None, close: false }
    }

    /// The message that asks the worker to send `message`.
    pub fn new_request(message: WsMessage) -> (built: WorkerMessage)
        ensures
            built@ == (Outbound::Request { payload: message@ }),
    {
        let request = WebSocketMessage::from(message);
        WorkerMessage { connect: None, request: Some(request), close: false }
    }

    /// The message that asks the worker to close the connection.
    pub fn new_close() -> (built: WorkerMessage)
        ensures
            built@ == Outbound::Close,
    {
        WorkerMessage { connect: None, request: None, close: true }
    }

    /// The address to connect to, if this is a connect message.
    pub fn connect(&self) -> (url: Option<String>)
        ensures
            match self@ {
                Outbound::Connect { url: u } => url matches Some(s) && s@ == u,
                _ => url is None,
            },
    {
        proof {
            use_type_invariant(self);
        }
        match &self.connect {
            Some(url) => Some(url.clone()),
            None => None,
        }
    }

    /// The payload to send, if this is a request.
    pub fn request(&self) -> (payload: Option<WebSocketMessage>)
        ensures
            match self@ {
                Outbound::Request { payload: p } => payload matches Some(m) && m@ == p,
                _ => payload is None,
            },
    {
        proof {
            use_type_invariant(self);
        }
        match &self.request {
            Some(request) => Some(request.clone()),
            None => None,
        }
    }

    /// Whether this is the close message.
    pub fn close(&self) -> (closing: bool)
        ensures
            closing == (self@ is Close),
    {
        proof {
            use_type_invariant(self);
        }
        self.close
    }
}

impl Clone for WorkerMessage {
    fn clone(&self) -> (copy: WorkerMessage)
        ensures
            copy@ == self@,
    {
        let connect = self.connect();
        let request = self.request();
        let close = self.close();
        WorkerMessage { connect, request, close }
    }
}

} // verus!
