//! The state machine of one in-flight operation slot, and its packed
//! encoding.
//!
//! Each slot tracks at most one in-flight kernel operation. The submitting
//! task and the worker drive the state jointly: the submitter moves
//! `Finished` to `Waiting` when it hands an entry to the ring, and `Waiting`
//! to `Cancelled` when the owning future is dropped mid-flight; the worker
//! moves `Waiting` or `Cancelled` to `Finished` when the completion arrives.
//!
//! A cancelled operation's payload — the buffer the kernel may still write
//! into, and a bit saying whether the waker should still fire — stays inside
//! the slot until the worker processes the completion, so the buffer
//! outlives the kernel's last access.
//!
//! The runtime stores a slot's state in a single 64-bit word, the tag in the
//! low two bits; the packing and unpacking of that word is modelled here on
//! the payload's address.

use vstd::prelude::*;

verus! {

/// What a cancelled operation must keep alive until the kernel reports
/// completion: the buffer the submitted entry references, and whether the
/// worker should still notify the waker when it processes the completion.
pub struct CancelData {
    /// Notify the waker when the completion of the cancelled operation is
    /// processed.
    pub wake: bool,
    /// The buffer the in-flight entry references.
    pub buf: Vec<u8>,
}

/// The state of one operation slot.
pub enum OperationState {
    /// The submitting task has handed an entry to the ring (or is about to)
    /// and awaits the completion.
    Waiting,
    /// No kernel work is pending; the payload is the last completion's
    /// result, or zero at initialization.
    Finished(i32),
    /// The owning future was dropped while `Waiting`; the payload is kept
    /// until the kernel reports completion.
    Cancelled(CancelData),
}

impl OperationState {
    /// The retained payload, if the operation stands cancelled.
    pub open spec fn spec_cancel_data(self) -> Option<CancelData> {
        match self {
            OperationState::Cancelled(x) => Some(x),
            OperationState::Waiting | OperationState::Finished(_) => None,
        }
    }

    /// The retained payload, if the operation stands cancelled.
    pub fn cancel_data(self) -> (r: Option<CancelData>)
        ensures
            r == self.spec_cancel_data(),
    {
        match self {
            OperationState::Cancelled(x) => Some(x),
            OperationState::Waiting | OperationState::Finished(_) => None,
        }
    }
}

/// A slot state as packed into one 64-bit word. The cancelled payload lives
/// in a heap box; the word carries the box's address, which the packing
/// requires to be 4-byte aligned so the low two bits are free for the tag.
#[derive(Clone, Copy, Debug, PartialEq, Eq, Structural)]
pub enum PackedState {
    /// Tag 1: an entry is in flight.
    Waiting,
    /// Tag 2: the completion's result, sign-extended, in the bits above the
    /// tag.
    Finished(i32),
    /// Tag 3: the address of the boxed payload in the bits above the tag.
    Cancelled(u64),
}

/// A packed state is encodable: a cancelled payload's address keeps its low
/// two bits free for the tag.
pub open spec fn spec_packable(s: PackedState) -> bool {
    match s {
        PackedState::Cancelled(addr) => addr & 3 == 0,
        PackedState::Waiting | PackedState::Finished(_) => true,
    }
}

/// The packed word of a slot state.
pub open spec fn spec_pack_state(s: PackedState) -> u64 {
    match s {
        PackedState::Waiting => 1u64,
        PackedState::Finished(val) => ((val as u64) << 3) | 2,
        PackedState::Cancelled(addr) => addr | 3,
    }
}

/// A word is a state at all: the tag bits are not both zero.
pub open spec fn spec_word_tagged(value: u64) -> bool {
    value & 3 != 0
}

/// The slot state read back out of a packed word.
pub open spec fn spec_unpack_state(value: u64) -> PackedState
    recommends
        spec_word_tagged(value),
{
    let data = value & !3u64;
    let tag = value & 3;
    if tag == 1 {
        PackedState::Waiting
    } else if tag == 2 {
        PackedState::Finished((data >> 3) as i32)
    } else {
        PackedState::Cancelled(data)
    }
}

impl PackedState {
    /// Pack this state into its 64-bit word.
    pub fn pack(self) -> (r: u64)
        requires
            spec_packable(self),
        ensures
            r == spec_pack_state(self),
    {
        match self {
            PackedState::Waiting => 1u64,
            PackedState::Finished(val) => ((val as u64) << 3) | 2,
            PackedState::Cancelled(addr) => addr | 3,
        }
    }

    /// Read a state back out of a packed word.
    pub fn unpack(value: u64) -> (r: PackedState)
        requires
            spec_word_tagged(value),
        ensures
            r == spec_unpack_state(value),
    {
        let data = value & !3u64;
        let tag = value & 3;
        if tag == 1 {
            PackedState::Waiting
        } else if tag == 2 {
            PackedState::Finished((data >> 3) as i32)
        } else {
            proof {
                assert(value & 3 != 0 && value & 3 != 1 && value & 3 != 2 ==> value & 3 == 3)
                    by (bit_vector);
            }
            PackedState::Cancelled(data)
        }
    }
}

/// Law: packing and unpacking round-trips for every state — `Waiting`,
/// `Finished(i)` for every 32-bit result, and `Cancelled` for every 4-byte
/// aligned payload address.
pub proof fn lemma_state_round_trip(s: PackedState)
    requires
        spec_packable(s),
    ensures
        spec_word_tagged(spec_pack_state(s)),
        spec_unpack_state(spec_pack_state(s)) == s,
{
    match s {
        PackedState::Waiting => {
            assert(1u64 & 3 == 1) by (bit_vector);
            assert(spec_unpack_state(1u64) == PackedState::Waiting);
        },
        PackedState::Finished(val) => {
            let w = ((val as u64) << 3) | 2;
            assert((((val as u64) << 3) | 2) & 3 == 2) by (bit_vector);
            assert((((((val as u64) << 3) | 2) & !3u64) >> 3) as i32 == val) by (bit_vector);
        },
        PackedState::Cancelled(addr) => {
            let w = addr | 3;
            assert((addr | 3) & 3 == 3) by (bit_vector);
            assert(addr & 3 == 0 ==> (addr | 3) & !3u64 == addr) by (bit_vector);
        },
    }
}

/// One operation slot: the sequential model of the word the two actors
/// drive by atomic exchanges.
pub struct Operation {
    /// The current state.
    pub state: OperationState,
}

/// The state, notification flag and surrendered payload after the worker
/// wakes a slot with a completion's result.
pub open spec fn spec_wake(pre: OperationState, val: i32) -> (OperationState, bool, Option<
    CancelData,
>) {
    match pre {
        OperationState::Waiting => (OperationState::Finished(val), true, None),
        OperationState::Finished(_) => (OperationState::Finished(val), true, None),
        OperationState::Cancelled(data) => {
            let wake = data.wake;
            (OperationState::Finished(val), wake, Some(data))
        },
    }
}

impl Operation {
    /// A fresh slot: no kernel work pending, result zero.
    pub fn new() -> (r: Operation)
        ensures
            r.state == OperationState::Finished(0i32),
    {
        Operation { state: OperationState::Finished(0) }
    }

    /// The submitter's registration step: a slot with no pending work moves
    /// to `Waiting` before its entry is handed to the ring.
    pub fn register(&mut self)
        requires
            old(self).state is Finished,
        ensures
            final(self).state == OperationState::Waiting,
    {
        self.state = OperationState::Waiting;
    }

    /// The worker's completion step: the slot becomes `Finished(val)`.
    /// Returns whether the waker is to be notified, and — if the operation
    /// stood cancelled — the retained payload, surrendered only now that the
    /// kernel is done with the buffer; the caller drops it.
    pub fn wake(&mut self, val: i32) -> (r: (bool, Option<CancelData>))
        ensures
            (final(self).state, r.0, r.1) == spec_wake(old(self).state, val),
    {
        let mut prev = OperationState::Finished(val);
        core::mem::swap(&mut self.state, &mut prev);
        match prev {
            OperationState::Waiting => (true, None),
            OperationState::Finished(_) => (true, None),
            OperationState::Cancelled(data) => {
                let wake = data.wake;
                (wake, Some(data))
            },
        }
    }

    /// The submitter's cancellation step, taken when the owning future is
    /// dropped. A waiting slot moves to `Cancelled` and retains the payload;
    /// any other slot is left unchanged and the payload is handed back to
    /// the caller to drop locally.
    pub fn cancel(&mut self, data: CancelData) -> (r: Option<CancelData>)
        ensures
            old(self).state is Waiting ==> final(self).state == OperationState::Cancelled(data)
                && r is None,
            !(old(self).state is Waiting) ==> *final(self) == *old(self) && r == Some(data),
    {
        match &self.state {
            OperationState::Waiting => {
                self.state = OperationState::Cancelled(data);
                None
            },
            OperationState::Finished(_) | OperationState::Cancelled(_) => Some(data),
        }
    }
}

/// Two cancel payloads carry the same flag and the same bytes.
pub open spec fn payload_equiv(a: CancelData, b: CancelData) -> bool {
    a.wake == b.wake && a.buf@ == b.buf@
}

/// Two slot states are the same state, payloads compared by content.
pub open spec fn state_equiv(a: OperationState, b: OperationState) -> bool {
    match (a, b) {
        (OperationState::Waiting, OperationState::Waiting) => true,
        (OperationState::Finished(x), OperationState::Finished(y)) => x == y,
        (OperationState::Cancelled(c), OperationState::Cancelled(d)) => payload_equiv(c, d),
        _ => false,
    }
}

impl CancelData {
    /// A copy of the payload, equal in content.
    pub fn dup(&self) -> (r: CancelData)
        ensures
            payload_equiv(*self, r),
    {
        let n = self.buf.len();
        let mut buf: Vec<u8> = Vec::new();
        let mut i: usize = 0;
        while i < n
            invariant
                i <= n,
                n == self.buf@.len(),
                buf@ == self.buf@.subrange(0, i as int),
            decreases n - i,
        {
            buf.push(self.buf[i]);
            proof {
                assert(buf@ =~= self.buf@.subrange(0, i + 1));
            }
            i = i + 1;
        }
        proof {
            assert(buf@ =~= self.buf@);
        }
        CancelData { wake: self.wake, buf }
    }
}

impl OperationState {
    /// A copy of the state, payloads copied by content.
    pub fn dup(&self) -> (r: OperationState)
        ensures
            state_equiv(*self, r),
    {
        match self {
            OperationState::Waiting => OperationState::Waiting,
            OperationState::Finished(val) => OperationState::Finished(*val),
            OperationState::Cancelled(data) => OperationState::Cancelled(data.dup()),
        }
    }
}

impl Operation {
    /// A copy of the slot, its state copied by content.
    pub fn dup(&self) -> (r: Operation)
        ensures
            state_equiv(self.state, r.state),
    {
        Operation { state: self.state.dup() }
    }
}

/// Law: a buffer pinned by a cancelled operation is surrendered exactly when
/// the worker processes the completion — the wake step is the only
/// transition out of `Cancelled`, it hands the payload back for dropping,
/// and it notifies the waker only if the cancellation asked for that.
pub proof fn lemma_cancelled_payload_survives_until_completion(data: CancelData, val: i32)
    ensures
        spec_wake(OperationState::Cancelled(data), val) == (
            OperationState::Finished(val),
            data.wake,
            Some(data),
        ),
{
}

} // verus!
