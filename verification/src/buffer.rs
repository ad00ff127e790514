//! The response buffer: the slot array through which a response reaches the
//! caller.

use crate::framing::{cleared, valid_slot, valid_slots, SENTINEL};
use vstd::prelude::*;

verus! {

/// A fixed-capacity array of slots, each holding a byte or the sentinel.
///
/// The capacity is chosen at construction and never changes. Between calls
/// every slot holds the sentinel; a response is written into the leading
/// slots and read out again slot by slot.
#[derive(Debug)]
pub struct ResponseBuffer {
    slots: Vec<i32>,
}

impl View for ResponseBuffer {
    type V = Seq<i32>;

    closed spec fn view(&self) -> Seq<i32> {
        self.slots@
    }
}

impl ResponseBuffer {
    #[verifier::type_invariant]
    spec fn slots_in_range(self) -> bool {
        valid_slots(self.slots@)
    }

    /// A buffer of `capacity` slots, every one holding the sentinel.
    pub fn new(capacity: usize) -> (buffer: ResponseBuffer)
        ensures
            buffer@ == cleared(capacity as nat),
    {
        let mut slots: Vec<i32> = Vec::new();
        let mut i: usize = 0;
        while i < capacity
            invariant
                i <= capacity,
                slots@ == cleared(i as nat),
            decreases capacity - i,
        {
            slots.push(SENTINEL);
            i += 1;
        }
        ResponseBuffer { slots }
    }

    /// The number of slots. Each of them holds a byte or the sentinel.
    pub fn capacity(&self) -> (capacity: usize)
        ensures
            capacity == self@.len(),
            valid_slots(self@),
    {
        proof {
            use_type_invariant(self);
        }
        self.slots.len()
    }

    /// The value in slot `index`.
    pub fn load(&self, index: usize) -> (value: i32)
        requires
            index < self@.len(),
        ensures
            value == self@[index as int],
            valid_slot(value),
    {
        proof {
            use_type_invariant(self);
        }
        self.slots[index]
    }

    /// Puts `value` into slot `index` and leaves every other slot as it is.
    pub fn store(&mut self, index: usize, value: i32)
        requires
            index < old(self)@.len(),
            valid_slot(value),
        ensures
            final(self)@ == old(self)@.update(index as int, value),
    {
        proof {
            use_type_invariant(&*self);
        }
        // The slots are moved out while they are written and moved back after.
        let mut slots: Vec<i32> = Vec::new();
        std::mem::swap(&mut self.slots, &mut slots);
        slots.set(index, value);
        std::mem::swap(&mut self.slots, &mut slots);
    }

    /// Puts the sentinel into every slot.
    pub fn reset(&mut self)
        ensures
            final(self)@ == cleared(old(self)@.len()),
    {
        // The slots are moved out while they are written and moved back after.
        let mut slots: Vec<i32> = Vec::new();
        std::mem::swap(&mut self.slots, &mut slots);
        let capacity = slots.len();
        let mut i: usize = 0;
        while i < capacity
            invariant
                i <= capacity,
                capacity == slots@.len(),
                forall|j: int| 0 <= j < i ==> slots@[j] == SENTINEL,
            decreases capacity - i,
        {
            slots.set(i, SENTINEL);
            i += 1;
        }
        std::mem::swap(&mut self.slots, &mut slots);
    }
}

} // verus!
