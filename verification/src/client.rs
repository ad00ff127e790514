//! The call dispatcher: what a caller does around one exchange with the
//! worker.
//!
//! The dispatcher owns the response buffer, the last known connection
//! status and the configured timeout. It decides what is sent and what a
//! finished wait means; handing a message to the worker and suspending the
//! caller are done by whoever embeds it, between the calls made here.

use crate::buffer::ResponseBuffer;
use crate::error::ClientError;
use crate::framing::{
    cleared, decoded_bytes, decoded_text, drained, encoded, lemma_cleared_is_empty,
    lemma_decode_encode, lemma_exchange_leaves_cleared,
};
use crate::types::{Outbound, Payload, WorkerMessage, WsMessage, WsStatus};
use crate::utils::{decode_byte_response, str_eq};
use vstd::prelude::*;

verus! {

/// The number of slots in a client's response buffer, and so the longest
/// response that arrives whole.
pub const MAX_RESPONSE_BYTES: usize = 1024;

/// The slot on which a caller waits for a response.
pub const WAIT_SLOT: usize = 0;

/// What a wait reports when its timeout ran out before the slot changed.
pub open spec fn timed_out_outcome() -> Seq<char> {
    "timed-out"@
}

/// A client as a mathematical value.
pub struct ClientState {
    /// The slots of the response buffer.
    pub response: Seq<i32>,
    /// The last known connection status.
    pub status: WsStatus,
    /// How long a wait may take, in milliseconds; `None` for no limit.
    pub timeout_millis: Option<u32>,
}

impl ClientState {
    /// The state after the response buffer has been flushed.
    pub open spec fn flushed(self) -> ClientState {
        ClientState { response: cleared(self.response.len()), ..self }
    }

    /// The state after the message in the response buffer has been read out.
    pub open spec fn received(self) -> ClientState {
        ClientState { response: drained(self.response), ..self }
    }

    /// The state after `signal` has been processed.
    pub open spec fn signalled(self, signal: Seq<char>) -> ClientState {
        ClientState { status: self.status.after_signal(signal), ..self }
    }

    /// The state after the worker has written `payload` as its response.
    pub open spec fn delivered(self, payload: Seq<u8>) -> ClientState {
        ClientState { response: encoded(self.response, payload), ..self }
    }

    /// Whether a wait that reported `outcome` has run into the timeout.
    pub open spec fn timed_out(self, outcome: Seq<char>) -> bool {
        self.timeout_millis is Some && outcome == timed_out_outcome()
    }

    /// The state after the worker has written `payload` and the caller has
    /// read it out.
    pub open spec fn exchanged(self, payload: Seq<u8>) -> ClientState {
        self.delivered(payload).received()
    }
}

/// The caller's side of the exchange with the worker.
#[derive(Debug)]
pub struct WsClient {
    response: ResponseBuffer,
    ws_status: WsStatus,
    timeout_millis: Option<u32>,
}

impl View for WsClient {
    type V = ClientState;

    closed spec fn view(&self) -> ClientState {
        ClientState {
            response: self.response@,
            status: self.ws_status,
            timeout_millis: self.timeout_millis,
        }
    }
}

impl WsClient {
    /// A client for the connection to `url`, and the message that asks the
    /// worker to open it.
    ///
    /// The client starts out `Connecting`, with a response buffer of
    /// `MAX_RESPONSE_BYTES` slots in which every slot holds the sentinel.
    pub fn new(url: String, timeout_millis: Option<u32>) -> (created: (WsClient, WorkerMessage))
        ensures
            created.0@ == (ClientState {
                response: cleared(MAX_RESPONSE_BYTES as nat),
                status: WsStatus::Connecting,
                timeout_millis,
            }),
            created.1@ == (Outbound::Connect { url: url@ }),
    {
        let response = ResponseBuffer::new(MAX_RESPONSE_BYTES);
        let msg = WorkerMessage::new_connect(url);
        let client = WsClient { response, ws_status: WsStatus::Connecting, timeout_millis };
        (client, msg)
    }

    /// The last known connection status.
    pub fn status(&self) -> (status: WsStatus)
        ensures
            status == self@.status,
    {
        self.ws_status
    }

    /// How long a wait for a response may take; `None` for no limit.
    pub fn timeout_millis(&self) -> (timeout: Option<u32>)
        ensures
            timeout == self@.timeout_millis,
    {
        self.timeout_millis
    }

    /// Processes what the worker sent on its side channel.
    ///
    /// `"connected"` and `"closed"` update the status; anything else, and
    /// anything that is not text, is ignored. The response buffer is not
    /// involved.
    pub fn on_message(&mut self, data: Option<&str>)
        ensures
            final(self)@ == match data {
                Some(signal) => old(self)@.signalled(signal@),
                None => old(self)@,
            },
    {
        match data {
            Some(message) => {
                self.ws_status = self.ws_status.signalled(message);
            },
            None => {},
        }
    }

    /// The message that asks the worker to close the connection. The
    /// status stays as it is until the worker reports the close.
    pub fn close(&self) -> (msg: WorkerMessage)
        ensures
            msg@ == Outbound::Close,
    {
        WorkerMessage::new_close()
    }

    /// Starts a call with a binary request: flushes the response buffer and
    /// returns the request to hand to the worker.
    pub fn call_binary(&mut self, message: Vec<u8>) -> (msg: WorkerMessage)
        ensures
            final(self)@ == old(self)@.flushed(),
            msg@ == (Outbound::Request { payload: Payload::Binary(message@) }),
    {
        self.flush_response();
        self.send_binary(message)
    }

    /// Starts a call with a text request: flushes the response buffer and
    /// returns the request to hand to the worker.
    pub fn call_text(&mut self, message: String) -> (msg: WorkerMessage)
        ensures
            final(self)@ == old(self)@.flushed(),
            msg@ == (Outbound::Request { payload: Payload::Text(message@) }),
    {
        self.flush_response();
        self.send_text(message)
    }

    /// The request that carries `message` as bytes.
    pub fn send_binary(&self, message: Vec<u8>) -> (msg: WorkerMessage)
        ensures
            msg@ == (Outbound::Request { payload: Payload::Binary(message@) }),
    {
        WorkerMessage::new_request(WsMessage::Binary(message))
    }

    /// The request that carries `message` as text.
    pub fn send_text(&self, message: String) -> (msg: WorkerMessage)
        ensures
            msg@ == (Outbound::Request { payload: Payload::Text(message@) }),
    {
        WorkerMessage::new_request(WsMessage::Text(message))
    }

    /// What it means for a call that the channel to the worker took, or did
    /// not take, the message handed to it: a message that was not accepted
    /// fails the call with `ChannelUnavailable`, and nothing is waited for.
    pub fn handed_off(&self, accepted: bool) -> (result: Result<(), ClientError>)
        ensures
            result == (if accepted {
                Ok::<(), ClientError>(())
            } else {
                Err::<(), ClientError>(ClientError::ChannelUnavailable)
            }),
    {
        if accepted {
            Ok(())
        } else {
            Err(ClientError::ChannelUnavailable)
        }
    }

    /// Whether a wait that reported `outcome` has run into the configured
    /// timeout. Without a configured timeout no wait does.
    pub fn timed_out(&self, outcome: &str) -> (expired: bool)
        ensures
            expired == self@.timed_out(outcome@),
    {
        self.timeout_millis.is_some() && str_eq(outcome, "timed-out")
    }

    /// Finishes a call once the wait on slot `WAIT_SLOT` has returned
    /// `outcome`.
    ///
    /// If a timeout is configured and the wait ran into it, the call fails
    /// with `TimedOut` and the buffer is left exactly as it is. Otherwise
    /// the message is read out of the buffer and returned as text.
    pub fn recv(&mut self, outcome: &str) -> (result: Result<String, ClientError>)
        ensures
            old(self)@.timed_out(outcome@) ==> {
                &&& result == Err::<String, ClientError>(ClientError::TimedOut)
                &&& final(self)@ == old(self)@
            },
            !old(self)@.timed_out(outcome@) ==> {
                &&& final(self)@ == old(self)@.received()
                &&& match decoded_text(old(self)@.response) {
                    Some(text) => result matches Ok(s) && s@ == text,
                    None => result == Err::<String, ClientError>(ClientError::InvalidEncoding),
                }
            },
    {
        if self.timed_out(outcome) {
            return Err(ClientError::TimedOut);
        }
        decode_byte_response(&mut self.response)
    }

    /// Puts the sentinel into every slot of the response buffer.
    pub fn flush_response(&mut self)
        ensures
            final(self)@ == old(self)@.flushed(),
    {
        self.response.reset();
    }

    /// The response buffer.
    pub fn response(&self) -> (buffer: &ResponseBuffer)
        ensures
            buffer@ == self@.response,
    {
        &self.response
    }

    /// The response buffer, for whoever writes the response.
    pub fn response_mut(&mut self) -> (buffer: &mut ResponseBuffer)
        ensures
            buffer@ == old(self)@.response,
            final(self)@ == (ClientState { response: final(buffer)@, ..old(self)@ }),
    {
        &mut self.response
    }
}

/// A call that starts with a flush reads back what the worker wrote for
/// it and nothing else, whatever an earlier exchange left in the buffer:
/// the whole payload if it fits the buffer, its first `capacity` bytes if
/// not. Afterwards the buffer is flushed again, ready for the next call.
pub proof fn lemma_call_reads_own_response(before: ClientState, payload: Seq<u8>)
    ensures
        payload.len() <= before.response.len() ==> decoded_bytes(
            before.flushed().delivered(payload).response,
        ) == payload,
        payload.len() > before.response.len() ==> decoded_bytes(
            before.flushed().delivered(payload).response,
        ) == payload.take(before.response.len() as int),
        before.flushed().delivered(payload).received() == before.flushed(),
{
    let capacity = before.response.len();
    lemma_decode_encode(cleared(capacity), payload);
    lemma_exchange_leaves_cleared(capacity, payload);
}

/// Right after a flush the buffer holds the empty message: reading it gives
/// the empty text and leaves the buffer flushed.
pub proof fn lemma_flushed_reads_empty(before: ClientState)
    ensures
        decoded_text(before.flushed().response) == Some(Seq::<char>::empty()),
        before.flushed().received() == before.flushed(),
{
    lemma_cleared_is_empty(before.response.len());
}

} // verus!
