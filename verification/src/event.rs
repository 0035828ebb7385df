//! The packed user-data word that ties a completion back to its operation.
//!
//! Every submission queue entry carries a 64-bit user-data word; the kernel
//! echoes it unchanged in the matching completion entry. The runtime packs
//! the resource id into the high 32 bits and the operation id (the slot
//! index within the resource) into the low 32 bits.

use vstd::prelude::*;

verus! {

/// The `(resource, id)` pair ferried through the kernel as the user-data
/// word of every submission.
#[derive(Clone, Copy, Debug, PartialEq, Eq, Structural)]
pub struct EventData {
    /// The resource id: the index of the resource in the worker's table.
    pub resource: u32,
    /// The operation id: the slot index within the resource's table.
    pub id: u32,
}

/// The packed word: resource in the high half, operation id in the low half.
pub open spec fn spec_encode_event(d: EventData) -> u64 {
    ((d.resource as u64) << 32) | (d.id as u64)
}

/// The two halves of a packed word, read back as an event.
pub open spec fn spec_decode_event(value: u64) -> EventData {
    EventData { resource: (value >> 32) as u32, id: value as u32 }
}

impl EventData {
    /// Pack this event into the 64-bit user-data word.
    pub fn encode(self) -> (r: u64)
        ensures
            r == spec_encode_event(self),
    {
        ((self.resource as u64) << 32) | (self.id as u64)
    }

    /// Read an event back out of a user-data word.
    pub fn decode(value: u64) -> (r: EventData)
        ensures
            r == spec_decode_event(value),
    {
        EventData { resource: (value >> 32) as u32, id: value as u32 }
    }
}

/// Law: decoding an encoded event gives the event back, for every
/// `(resource, id)` pair.
pub proof fn lemma_event_round_trip(d: EventData)
    ensures
        spec_decode_event(spec_encode_event(d)) == d,
{
    let r = d.resource;
    let i = d.id;
    assert(((((r as u64) << 32) | (i as u64)) >> 32) as u32 == r) by (bit_vector);
    assert((((r as u64) << 32) | (i as u64)) as u32 == i) by (bit_vector);
}

/// Law: encoding a decoded word gives the word back, for every 64-bit word.
pub proof fn lemma_event_word_round_trip(value: u64)
    ensures
        spec_encode_event(spec_decode_event(value)) == value,
{
    assert((((((value >> 32) as u32) as u64) << 32) | ((value as u32) as u64)) == value)
        by (bit_vector);
}

} // verus!
