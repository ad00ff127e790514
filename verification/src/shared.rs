//! The dispatcher bound to the memory it shares with the worker.
//!
//! In a browser the slots through which the worker answers live in an
//! `Int32Array` over shared memory, and are read and written with the
//! host's atomic operations. The functions here make those accesses and
//! leave every decision to the dispatcher: what they read is moved into the
//! dispatcher's own buffer and decoded there.
//!
//! The worker writes the shared slots whenever it pleases, so nothing is
//! claimed about what an access finds. What is stated holds of every value
//! that comes back.
//!
//! The host operations exist on `wasm32` only. On any other target they are
//! not there to be called, and a call of one aborts.

use crate::client::{ClientState, WsClient};
use crate::error::ClientError;
use crate::framing::{decoded_bytes, lemma_decode_encode, lemma_frame_len_unique, SENTINEL};
use crate::types::{Outbound, Payload, WorkerMessage};
use crate::utils::encode_byte_response;
use js_sys::{Atomics, Int32Array};
use vstd::prelude::*;
use vstd::utf8::*;
use wasm_bindgen::JsValue;

verus! {

/// The host's array of 32-bit slots. Opaque: its slots are reached only
/// through the atomic operations below.
#[verifier::external_type_specification]
#[verifier::external_body]
pub struct ExInt32Array(Int32Array);

/// A value of the host, here the error that a failed host operation threw.
/// Opaque.
#[verifier::external_type_specification]
#[verifier::external_body]
pub struct ExJsValue(JsValue);

/// `Atomics::load`, an atomic read of one slot. Nothing is claimed about
/// the value read or about whether the host accepts the access.
#[verifier::external_body]
fn atomics_load(array: &Int32Array, index: u32) -> Result<i32, JsValue> {
    Atomics::load(array, index)
}

/// `Atomics::store`, an atomic write of one slot. The value that the host
/// hands back is dropped; nothing is claimed about whether the host accepts
/// the access.
#[verifier::external_body]
fn atomics_store(array: &Int32Array, index: u32, value: i32) -> Result<(), JsValue> {
    match Atomics::store(array, index, value) {
        Ok(_) => Ok(()),
        Err(error) => Err(error),
    }
}

/// Why an operation on the shared memory did not produce a response.
#[derive(Debug)]
pub enum SharedError {
    /// The call failed for a reason of the protocol.
    Call(ClientError),
    /// The host refused an access to the shared memory; this is what it threw.
    Host(JsValue),
}

/// What a value read from a shared slot adds to the message: nothing if it
/// is the sentinel, which ends the message; otherwise one byte, its low
/// eight bits.
pub open spec fn slot_payload(slot: i32) -> Option<u8> {
    if slot == SENTINEL {
        None
    } else {
        Some(slot as u8)
    }
}

/// The byte that a value read from a shared slot adds to the message, or
/// `None` if the value is the sentinel and the message ends there.
pub fn slot_byte(slot: i32) -> (byte: Option<u8>)
    ensures
        byte == slot_payload(slot),
{
    if slot == SENTINEL {
        None
    } else {
        Some(#[verifier::truncate] (slot as u8))
    }
}

/// Reads the message out of the shared slots: slot by slot from slot 0,
/// putting each slot back to the sentinel right after reading it, up to the
/// first slot that held the sentinel or until `limit` bytes have been read.
/// Returns the bytes read before the end and, for the proofs, the values
/// that the reads returned, in order.
///
/// What is read is the host's to say, and so is whether an access is
/// accepted. Whatever it says, the values read form a slot array of at most
/// `limit` slots with no sentinel before its last slot, and the bytes
/// returned are the message that this array holds. With a `limit` of zero
/// no slot is touched and the empty message is returned.
fn drain(response_array: &Int32Array, limit: usize) -> (result: (
    Result<Vec<u8>, JsValue>,
    Ghost<Seq<i32>>,
))
    ensures
        result.0 matches Ok(bytes) ==> bytes@ == decoded_bytes(result.1@) && bytes@.len() <= limit,
        forall|j: int| 0 <= j < result.1@.len() - 1 ==> #[trigger] result.1@[j] != SENTINEL,
        result.1@.len() <= limit,
        limit == 0 ==> (result.0 matches Ok(bytes) && bytes@ == Seq::<u8>::empty()),
{
    let mut bytes_response: Vec<u8> = Vec::new();
    let ghost mut loaded: Seq<i32> = Seq::empty();
    let mut i: u32 = 0;
    let mut in_message = true;
    while in_message && i < u32::MAX && bytes_response.len() < limit
        invariant
            bytes_response@.len() <= limit,
            loaded.len() == bytes_response@.len() + if in_message { 0int } else { 1int },
            loaded.len() <= limit,
            forall|j: int|
                0 <= j < bytes_response@.len() ==> #[trigger] loaded[j] != SENTINEL
                    && bytes_response@[j] == loaded[j] as u8,
            !in_message ==> loaded[loaded.len() - 1] == SENTINEL,
        decreases u32::MAX - i + if in_message { 1int } else { 0int },
    {
        let slot = match atomics_load(response_array, i) {
            Ok(slot) => slot,
            Err(error) => {
                return (Err(error), Ghost(loaded));
            },
        };
        proof {
            loaded = loaded.push(slot);
        }
        match atomics_store(response_array, i, SENTINEL) {
            Ok(()) => {},
            Err(error) => {
                return (Err(error), Ghost(loaded));
            },
        }
        match slot_byte(slot) {
            Some(byte) => {
                bytes_response.push(byte);
                i += 1;
            },
            None => {
                in_message = false;
            },
        }
    }
    proof {
        lemma_frame_len_unique(loaded, bytes_response@.len() as int);
        assert(bytes_response@ =~= decoded_bytes(loaded));
    }
    (Ok(bytes_response), Ghost(loaded))
}

/// Puts the sentinel into every slot of the client's buffer and into as
/// many slots of the shared memory, from slot 0 on.
///
/// The client's buffer is flushed whatever the host does; the host's error
/// is returned if it refuses a write.
pub fn flush_response(client: &mut WsClient, response_array: &Int32Array) -> (result: Result<
    (),
    JsValue,
>)
    ensures
        final(client)@ == old(client)@.flushed(),
{
    client.flush_response();
    let capacity = client.response().capacity();
    let mut i: u32 = 0;
    while i < u32::MAX && (i as usize) < capacity
        invariant
            client@ == old(client)@.flushed(),
        decreases u32::MAX - i,
    {
        match atomics_store(response_array, i, SENTINEL) {
            Ok(()) => {},
            Err(error) => {
                return Err(error);
            },
        }
        i += 1;
    }
    Ok(())
}

/// Starts a call with a binary request: flushes the response slots and
/// returns the request to hand to the worker.
pub fn call_binary(client: &mut WsClient, response_array: &Int32Array, message: Vec<u8>) -> (result:
    Result<WorkerMessage, JsValue>)
    ensures
        final(client)@ == old(client)@.flushed(),
        result matches Ok(msg) ==> msg@ == (Outbound::Request {
            payload: Payload::Binary(message@),
        }),
{
    match flush_response(client, response_array) {
        Ok(()) => Ok(client.send_binary(message)),
        Err(error) => Err(error),
    }
}

/// Starts a call with a text request: flushes the response slots and
/// returns the request to hand to the worker.
pub fn call_text(client: &mut WsClient, response_array: &Int32Array, message: String) -> (result:
    Result<WorkerMessage, JsValue>)
    ensures
        final(client)@ == old(client)@.flushed(),
        result matches Ok(msg) ==> msg@ == (Outbound::Request { payload: Payload::Text(message@) }),
{
    match flush_response(client, response_array) {
        Ok(()) => Ok(client.send_text(message)),
        Err(error) => Err(error),
    }
}

/// What `recv` has done when it returns `result`, if the worker's response
/// was `payload`.
pub open spec fn received_payload(
    before: ClientState,
    after: ClientState,
    result: Result<String, SharedError>,
    payload: Seq<u8>,
) -> bool {
    &&& payload.len() <= before.response.len()
    &&& after == before.exchanged(payload)
    &&& match result {
        Ok(text) => valid_utf8(payload) && text@ == decode_utf8(payload),
        Err(SharedError::Call(error)) => !valid_utf8(payload) && error
            == ClientError::InvalidEncoding,
        Err(SharedError::Host(_)) => false,
    }
}

/// Finishes a call once the wait on the shared slot `WAIT_SLOT` has
/// returned `outcome`.
///
/// If a timeout is configured and the wait ran into it, the call fails with
/// `TimedOut`; neither the shared slots nor the client's buffer are
/// touched. Otherwise the message is read out of the shared slots, which
/// are put back to the sentinel as they are read, and returned as text. If
/// the host refuses an access, its error is returned and the client's
/// buffer is left as it was.
pub fn recv(client: &mut WsClient, response_array: &Int32Array, outcome: &str) -> (result: Result<
    String,
    SharedError,
>)
    ensures
        old(client)@.timed_out(outcome@) ==> {
            &&& result matches Err(SharedError::Call(error)) && error == ClientError::TimedOut
            &&& final(client)@ == old(client)@
        },
        !old(client)@.timed_out(outcome@) ==> {
            ||| result matches Err(SharedError::Host(_)) && final(client)@ == old(client)@
            ||| exists|payload: Seq<u8>| #[trigger]
                received_payload(old(client)@, final(client)@, result, payload)
        },
{
    if client.timed_out(outcome) {
        return Err(SharedError::Call(ClientError::TimedOut));
    }
    let capacity = client.response().capacity();
    match drain(response_array, capacity).0 {
        Err(error) => Err(SharedError::Host(error)),
        Ok(payload) => {
            let ghost before = client@;
            encode_byte_response(client.response_mut(), payload.as_slice());
            proof {
                lemma_decode_encode(before.response, payload@);
            }
            let result = match client.recv(outcome) {
                Ok(text) => Ok(text),
                Err(error) => Err(SharedError::Call(error)),
            };
            assert(received_payload(before, client@, result, payload@));
            result
        },
    }
}

} // verus!
