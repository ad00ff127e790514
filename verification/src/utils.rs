//! Reading a response out of the buffer and writing one into it, and the
//! comparison of texts that signals and wait outcomes are told apart by.

use crate::buffer::ResponseBuffer;
use crate::error::ClientError;
use crate::framing::{
    decoded_bytes, decoded_text, drained, encoded, lemma_frame_len_unique, SENTINEL,
};
use vstd::prelude::*;
use vstd::utf8::*;

verus! {

/// `String::from_utf8`: the bytes become a string exactly when they are
/// well-formed UTF-8, and the string then consists of those bytes.
#[verifier::external_body]
fn string_from_utf8(bytes: Vec<u8>) -> (text: Option<String>)
    ensures
        text is Some <==> valid_utf8(bytes@),
        text matches Some(s) ==> encode_utf8(s@) == bytes@,
{
    match String::from_utf8(bytes) {
        Ok(text) => Some(text),
        Err(_) => None,
    }
}

/// Whether two string slices hold the same text.
pub fn str_eq(left: &str, right: &str) -> (same: bool)
    ensures
        same == (left@ == right@),
{
    let a = left.as_bytes();
    let b = right.as_bytes();
    proof {
        // Equal encodings decode to equal texts.
        encode_utf8_decode_utf8(left@);
        encode_utf8_decode_utf8(right@);
    }
    if a.len() != b.len() {
        return false;
    }
    let mut i: usize = 0;
    while i < a.len()
        invariant
            i <= a.len(),
            a@.len() == b@.len(),
            forall|j: int| 0 <= j < i ==> a@[j] == b@[j],
            a@ == encode_utf8(left@),
            b@ == encode_utf8(right@),
            left@ == decode_utf8(encode_utf8(left@)),
            right@ == decode_utf8(encode_utf8(right@)),
        decreases a.len() - i,
    {
        if a[i] != b[i] {
            return false;
        }
        i += 1;
    }
    assert(a@ =~= b@);
    true
}

/// Reads the message out of `response` and returns it as text.
///
/// Slots are read in order from slot 0; each one is put back to the
/// sentinel as soon as it has been read. Reading stops at the first slot
/// that held the sentinel, or at the end of the buffer. The bytes read
/// before that are the message; it fails with `InvalidEncoding` if they are
/// not UTF-8, and the buffer is consumed all the same.
pub fn decode_byte_response(response: &mut ResponseBuffer) -> (result: Result<String, ClientError>)
    ensures
        final(response)@ == drained(old(response)@),
        match decoded_text(old(response)@) {
            Some(text) => result matches Ok(s) && s@ == text,
            None => result == Err::<String, ClientError>(ClientError::InvalidEncoding),
        },
{
    let ghost before = response@;
    let capacity = response.capacity();
    let mut bytes_response: Vec<u8> = Vec::new();
    let mut i: usize = 0;
    let mut in_message = true;
    while in_message && i < capacity
        invariant
            capacity == before.len(),
            response@.len() == before.len(),
            i <= capacity,
            bytes_response@.len() == i,
            forall|j: int| 0 <= j < i ==> #[trigger] before[j] != SENTINEL,
            forall|j: int| 0 <= j < i ==> #[trigger] bytes_response@[j] == before[j] as u8,
            forall|j: int| 0 <= j < i ==> #[trigger] response@[j] == SENTINEL,
            forall|j: int| i <= j < capacity ==> #[trigger] response@[j] == before[j],
            !in_message ==> i < capacity && before[i as int] == SENTINEL,
        decreases capacity - i + if in_message { 1int } else { 0int },
    {
        let slot = response.load(i);
        response.store(i, SENTINEL);
        if slot == SENTINEL {
            in_message = false;
        } else {
            bytes_response.push(slot as u8);
            i += 1;
        }
    }
    proof {
        lemma_frame_len_unique(before, i as int);
        assert(bytes_response@ =~= decoded_bytes(before));
    }
    match string_from_utf8(bytes_response) {
        Some(text) => {
            proof {
                encode_utf8_decode_utf8(text@);
            }
            Ok(text)
        },
        None => Err(ClientError::InvalidEncoding),
    }
}

/// Writes `payload` into `response` as the worker does.
///
/// The bytes go into consecutive slots from slot 0. If the payload is
/// shorter than the buffer, the sentinel follows its last byte; otherwise
/// every slot is filled and the rest of the payload is dropped.
pub fn encode_byte_response(response: &mut ResponseBuffer, payload: &[u8])
    ensures
        final(response)@ == encoded(old(response)@, payload@),
{
    let ghost before = response@;
    let capacity = response.capacity();
    let length = payload.len();
    let mut i: usize = 0;
    while i < capacity && i < length
        invariant
            capacity == before.len(),
            response@.len() == before.len(),
            length == payload@.len(),
            i <= capacity,
            i <= length,
            forall|j: int| 0 <= j < i ==> #[trigger] response@[j] == payload@[j] as i32,
            forall|j: int| i <= j < capacity ==> #[trigger] response@[j] == before[j],
        decreases capacity - i,
    {
        response.store(i, payload[i] as i32);
        i += 1;
    }
    if length < capacity {
        response.store(length, SENTINEL);
    }
}

} // verus!
