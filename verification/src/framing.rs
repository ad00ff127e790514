//! The sentinel framing of a byte sequence in a fixed-capacity slot array.
//!
//! A slot holds either a byte (0 to 255) or the sentinel 256, which no byte
//! can be. A message occupies the leading slots; the first sentinel, or the
//! end of the array, ends it. This module is the mathematical account of
//! that layout, over `Seq<i32>`; the executable buffer and codec are proved
//! against it.

use vstd::prelude::*;
use vstd::utf8::*;

verus! {

/// The value that marks an empty slot and the end of a message.
pub const SENTINEL: i32 = 256;

/// The width of a slot in bytes: a slot is a 32-bit integer.
pub const SLOT_BYTES: usize = 4;

/// A slot holds a byte or the sentinel.
pub open spec fn valid_slot(value: i32) -> bool {
    0 <= value <= SENTINEL
}

/// Every slot of `slots` holds a byte or the sentinel.
pub open spec fn valid_slots(slots: Seq<i32>) -> bool {
    forall|i: int| 0 <= i < slots.len() ==> valid_slot(#[trigger] slots[i])
}

/// The slot array of the given capacity in which no slot holds a byte.
pub open spec fn cleared(capacity: nat) -> Seq<i32> {
    Seq::new(capacity, |i: int| SENTINEL)
}

/// The first index at or after `start` that holds the sentinel, or the
/// length of `slots` if there is none.
pub open spec fn sentinel_from(slots: Seq<i32>, start: int) -> int
    decreases slots.len() - start,
{
    if 0 <= start < slots.len() && slots[start] != SENTINEL {
        sentinel_from(slots, start + 1)
    } else {
        start
    }
}

/// The number of leading slots that belong to the message: the index of the
/// first sentinel, or the capacity if no slot holds one.
pub open spec fn frame_len(slots: Seq<i32>) -> int {
    sentinel_from(slots, 0)
}

/// `n` is where the message in `slots` ends: no sentinel before `n`, and a
/// sentinel at `n` unless `n` is the capacity.
pub open spec fn ends_at(slots: Seq<i32>, n: int) -> bool {
    &&& 0 <= n <= slots.len()
    &&& forall|i: int| 0 <= i < n ==> #[trigger] slots[i] != SENTINEL
    &&& n < slots.len() ==> slots[n] == SENTINEL
}

/// The bytes of the message that `slots` holds.
pub open spec fn decoded_bytes(slots: Seq<i32>) -> Seq<u8> {
    Seq::new(frame_len(slots) as nat, |i: int| slots[i] as u8)
}

/// The text of the message that `slots` holds, if its bytes are UTF-8.
pub open spec fn decoded_text(slots: Seq<i32>) -> Option<Seq<char>> {
    if valid_utf8(decoded_bytes(slots)) {
        Some(decode_utf8(decoded_bytes(slots)))
    } else {
        None
    }
}

/// The slot array after its message has been read out: every slot of the
/// message is back to the sentinel, the slots behind its end are untouched.
pub open spec fn drained(slots: Seq<i32>) -> Seq<i32> {
    Seq::new(
        slots.len(),
        |i: int|
            if i < frame_len(slots) {
                SENTINEL
            } else {
                slots[i]
            },
    )
}

/// The slot array after `payload` has been written over `slots`: its bytes
/// from slot 0 on, then one sentinel if a slot is left for it. A payload of
/// the capacity or more fills every slot and loses what does not fit.
pub open spec fn encoded(slots: Seq<i32>, payload: Seq<u8>) -> Seq<i32> {
    Seq::new(
        slots.len(),
        |i: int|
            if i < payload.len() {
                payload[i] as i32
            } else if i == payload.len() {
                SENTINEL
            } else {
                slots[i]
            },
    )
}

/// No slot behind the end of the message holds a byte.
pub open spec fn clean_behind_frame(slots: Seq<i32>) -> bool {
    forall|i: int| frame_len(slots) <= i < slots.len() ==> #[trigger] slots[i] == SENTINEL
}

proof fn lemma_sentinel_from(slots: Seq<i32>, start: int)
    requires
        0 <= start <= slots.len(),
    ensures
        start <= sentinel_from(slots, start) <= slots.len(),
        forall|i: int| start <= i < sentinel_from(slots, start) ==> #[trigger] slots[i] != SENTINEL,
        sentinel_from(slots, start) < slots.len() ==> slots[sentinel_from(slots, start)]
            == SENTINEL,
    decreases slots.len() - start,
{
    if start < slots.len() && slots[start] != SENTINEL {
        lemma_sentinel_from(slots, start + 1);
    }
}

proof fn lemma_sentinel_from_is(slots: Seq<i32>, start: int, n: int)
    requires
        0 <= start <= n <= slots.len(),
        forall|i: int| start <= i < n ==> #[trigger] slots[i] != SENTINEL,
        n < slots.len() ==> slots[n] == SENTINEL,
    ensures
        sentinel_from(slots, start) == n,
    decreases n - start,
{
    if start < n {
        lemma_sentinel_from_is(slots, start + 1, n);
    }
}

/// The message in `slots` ends at `frame_len(slots)`.
pub proof fn lemma_frame_len_ends(slots: Seq<i32>)
    ensures
        ends_at(slots, frame_len(slots)),
{
    lemma_sentinel_from(slots, 0);
}

/// The end of the message is unique: wherever it ends, that is `frame_len`.
pub proof fn lemma_frame_len_unique(slots: Seq<i32>, n: int)
    requires
        ends_at(slots, n),
    ensures
        frame_len(slots) == n,
{
    lemma_sentinel_from_is(slots, 0, n);
}

/// What is read back after a payload has been written is the payload,
/// whatever the slots held before: all of it if it is shorter than the
/// capacity or fills it exactly, and its first `capacity` bytes otherwise.
pub proof fn lemma_decode_encode(slots: Seq<i32>, payload: Seq<u8>)
    ensures
        payload.len() <= slots.len() ==> decoded_bytes(encoded(slots, payload)) == payload,
        payload.len() > slots.len() ==> decoded_bytes(encoded(slots, payload)) == payload.take(
            slots.len() as int,
        ),
{
    let written = encoded(slots, payload);
    let n: int = if payload.len() <= slots.len() {
        payload.len() as int
    } else {
        slots.len() as int
    };
    lemma_frame_len_unique(written, n);
}

/// A payload that is UTF-8 and shorter than the capacity is read back as
/// the text whose encoding it is.
pub proof fn lemma_decode_encode_text(slots: Seq<i32>, payload: Seq<u8>)
    requires
        payload.len() < slots.len(),
        valid_utf8(payload),
    ensures
        decoded_text(encoded(slots, payload)) == Some(decode_utf8(payload)),
        encode_utf8(decode_utf8(payload)) == payload,
{
    lemma_decode_encode(slots, payload);
    decode_utf8_encode_utf8(payload);
}

/// Reading the message out leaves every slot at the sentinel exactly when
/// no slot behind the end of the message held a byte.
pub proof fn lemma_drained_is_cleared(slots: Seq<i32>)
    ensures
        drained(slots) == cleared(slots.len()) <==> clean_behind_frame(slots),
{
    lemma_frame_len_ends(slots);
    if clean_behind_frame(slots) {
        assert(drained(slots) =~= cleared(slots.len()));
    }
    if drained(slots) == cleared(slots.len()) {
        assert forall|i: int| frame_len(slots) <= i < slots.len() implies #[trigger] slots[i]
            == SENTINEL by {
            assert(drained(slots)[i] == cleared(slots.len())[i]);
        }
    }
}

/// A payload written into a cleared buffer leaves no byte behind its end,
/// so reading it out leaves the buffer cleared again.
pub proof fn lemma_exchange_leaves_cleared(capacity: nat, payload: Seq<u8>)
    ensures
        clean_behind_frame(encoded(cleared(capacity), payload)),
        drained(encoded(cleared(capacity), payload)) == cleared(capacity),
{
    let written = encoded(cleared(capacity), payload);
    let n: int = if payload.len() <= capacity {
        payload.len() as int
    } else {
        capacity as int
    };
    assert(ends_at(written, n));
    lemma_frame_len_unique(written, n);
    lemma_drained_is_cleared(written);
}

/// A message is read at most once: after it has been read out, the buffer
/// holds the empty message.
pub proof fn lemma_drained_is_empty(slots: Seq<i32>)
    ensures
        decoded_bytes(drained(slots)) == Seq::<u8>::empty(),
        decoded_text(drained(slots)) == Some(Seq::<char>::empty()),
        drained(drained(slots)) == drained(slots),
{
    lemma_frame_len_ends(slots);
    let after = drained(slots);
    lemma_frame_len_unique(after, 0);
}

/// A cleared buffer holds the empty message, and reading it changes nothing.
pub proof fn lemma_cleared_is_empty(capacity: nat)
    ensures
        decoded_bytes(cleared(capacity)) == Seq::<u8>::empty(),
        decoded_text(cleared(capacity)) == Some(Seq::<char>::empty()),
        drained(cleared(capacity)) == cleared(capacity),
{
    let slots = cleared(capacity);
    lemma_frame_len_unique(slots, 0);
    assert(valid_utf8(Seq::<u8>::empty()));
    assert(decode_utf8(Seq::<u8>::empty()) =~= Seq::<char>::empty());
}

/// Writing a payload keeps every slot a byte or the sentinel.
pub proof fn lemma_encoded_valid(slots: Seq<i32>, payload: Seq<u8>)
    requires
        valid_slots(slots),
    ensures
        valid_slots(encoded(slots, payload)),
{
}

/// Reading the message out keeps every slot a byte or the sentinel.
pub proof fn lemma_drained_valid(slots: Seq<i32>)
    requires
        valid_slots(slots),
    ensures
        valid_slots(drained(slots)),
{
}

} // verus!
