//! The per-resource table of operation slots and its poll protocol.
//!
//! A resource owns a small fixed set of slots (read, write, close, spare).
//! Beside each slot the submitter keeps a shadow poll state of its own —
//! `Idle` or `Submitting` — which the worker never reads; it records whether
//! this submitter has an operation in flight on the slot.
//!
//! In the running system the slots are shared between the user handle and
//! the worker, and each actor performs its own transitions; this module is
//! the sequential model of that table, with one actor stepping at a time.

use vstd::prelude::*;

use crate::Error;
use crate::state::{CancelData, OperationState, Operation, spec_wake, state_equiv};

verus! {

/// The submitter's shadow state for one slot: whether this submitter has an
/// operation in flight there.
#[derive(Clone, Copy, Debug, PartialEq, Eq, Structural)]
pub enum PollState {
    /// No operation started; the submitter may build and submit an entry.
    Idle,
    /// An entry was handed to the ring and its completion is awaited.
    Submitting,
}

/// What one poll of a slot reports to the submitter.
pub enum SubmitPoll {
    /// No operation has been started on this slot.
    NotStarted,
    /// The operation is still in flight.
    Pending,
    /// The operation completed, with the kernel's result translated: a
    /// non-negative result is the count, a negative one the errno.
    Done(Result<u32, Error>),
}

/// The submitter's view of a completion's signed result: a negative result
/// carries the negated errno, anything else a count. The one result that has
/// no negation in 32 bits is passed through as it stands.
pub open spec fn spec_completion_result(ret: i32) -> Result<u32, Error> {
    if ret >= 0 {
        Ok(ret as u32)
    } else if ret == i32::MIN {
        Err(Error::Io(i32::MIN))
    } else {
        Err(Error::Io((-ret) as i32))
    }
}

/// Translate a completion's signed result into the submitter's view.
pub fn completion_result(ret: i32) -> (r: Result<u32, Error>)
    ensures
        r == spec_completion_result(ret),
{
    if ret >= 0 {
        Ok(ret as u32)
    } else if ret == i32::MIN {
        Err(Error::Io(i32::MIN))
    } else {
        Err(Error::Io(-ret))
    }
}

/// A resource's table: the slots, shared with the worker in the running
/// system, and the submitter-local shadow beside each.
pub struct Operations {
    /// The operation slots.
    pub slots: Vec<Operation>,
    /// The submitter's shadow poll state, one per slot.
    pub shadows: Vec<PollState>,
}

impl Operations {
    /// The table is well formed: one shadow per slot, and a cancelled slot
    /// never has an operation in flight on it — cancellation happens only
    /// when the owning future is dropped, which also resets the shadow.
    pub open spec fn wf(self) -> bool {
        &&& self.slots@.len() == self.shadows@.len()
        &&& forall|i: int|
            0 <= i < self.slots@.len() && self.slots@[i].state is Cancelled
                ==> self.shadows@[i] is Idle
    }

    /// The number of slots.
    pub open spec fn spec_len(self) -> nat {
        self.slots@.len()
    }

    /// The number of slots.
    pub fn len(&self) -> (r: usize)
        ensures
            r == self.spec_len(),
    {
        self.slots.len()
    }

    /// An operation is in flight on the slot: submitted and not yet
    /// observed complete.
    pub open spec fn in_flight(self, id: int) -> bool {
        self.shadows@[id] is Submitting && self.slots@[id].state is Waiting
    }

    /// The slot's completion has arrived and the next poll will report it.
    pub open spec fn completed(self, id: int) -> bool {
        self.shadows@[id] is Submitting && self.slots@[id].state is Finished
    }

    /// What the next poll of the slot reports, without the shadow reset that
    /// comes with it.
    pub open spec fn spec_poll(self, id: int) -> SubmitPoll {
        match self.shadows@[id] {
            PollState::Idle => SubmitPoll::NotStarted,
            PollState::Submitting => match self.slots@[id].state {
                OperationState::Finished(ret) => SubmitPoll::Done(spec_completion_result(ret)),
                OperationState::Waiting | OperationState::Cancelled(_) => SubmitPoll::Pending,
            },
        }
    }

    /// A table over the given slots, no operation in flight on any of them.
    pub fn new(slots: Vec<Operation>) -> (r: Operations)
        ensures
            r.slots == slots,
            r.shadows@.len() == slots@.len(),
            forall|i: int| 0 <= i < r.shadows@.len() ==> r.shadows@[i] is Idle,
            (forall|i: int| 0 <= i < slots@.len() ==> !(slots@[i].state is Cancelled)) ==> r.wf(),
    {
        let mut shadows: Vec<PollState> = Vec::new();
        let n = slots.len();
        let mut i: usize = 0;
        while i < n
            invariant
                i <= n,
                shadows@.len() == i,
                forall|j: int| 0 <= j < i ==> shadows@[j] is Idle,
            decreases n - i,
        {
            shadows.push(PollState::Idle);
            i = i + 1;
        }
        Operations { slots, shadows }
    }

    /// A fresh table of `size` slots, each `Finished(0)`.
    pub fn new_from_size(size: usize) -> (r: Operations)
        ensures
            r.wf(),
            r.spec_len() == size,
            forall|i: int| 0 <= i < size ==> r.slots@[i].state == OperationState::Finished(0i32),
            forall|i: int| 0 <= i < size ==> r.shadows@[i] is Idle,
    {
        let mut slots: Vec<Operation> = Vec::new();
        let mut i: usize = 0;
        while i < size
            invariant
                i <= size,
                slots@.len() == i,
                forall|j: int| 0 <= j < i ==> slots@[j].state == OperationState::Finished(0i32),
            decreases size - i,
        {
            slots.push(Operation::new());
            i = i + 1;
        }
        Operations::new(slots)
    }

    /// The submitter's start protocol for one slot: move the slot to
    /// `Waiting`, then hand the entry to the ring — `submitted` is the
    /// outcome of that handing, which the caller performs. On success the
    /// shadow becomes `Submitting`; on failure the shadow stays `Idle`, so
    /// the next poll starts fresh, and the error is passed through.
    pub fn start_submit(&mut self, id: u32, submitted: Result<(), Error>) -> (r: Result<
        (),
        Error,
    >)
        requires
            old(self).wf(),
            (id as int) < old(self).spec_len(),
            old(self).shadows@[id as int] is Idle,
            !(old(self).slots@[id as int].state is Cancelled),
        ensures
            final(self).wf(),
            r == submitted,
            final(self).slots@ == old(self).slots@.update(
                id as int,
                Operation { state: OperationState::Waiting },
            ),
            submitted is Ok ==> final(self).shadows@ == old(self).shadows@.update(
                id as int,
                PollState::Submitting,
            ),
            submitted is Err ==> final(self).shadows@ == old(self).shadows@,
            submitted is Ok ==> final(self).in_flight(id as int),
    {
        let slot = &mut self.slots[id as usize];
        slot.state = OperationState::Waiting;
        match submitted {
            Ok(u) => {
                self.shadows[id as usize] = PollState::Submitting;
                proof {
                    assert(final(self).slots@ =~= old(self).slots@.update(
                        id as int,
                        Operation { state: OperationState::Waiting },
                    ));
                    assert(final(self).shadows@ =~= old(self).shadows@.update(
                        id as int,
                        PollState::Submitting,
                    ));
                }
                Ok(u)
            },
            Err(e) => {
                proof {
                    assert(final(self).slots@ =~= old(self).slots@.update(
                        id as int,
                        Operation { state: OperationState::Waiting },
                    ));
                }
                Err(e)
            },
        }
    }

    /// The submitter's poll protocol for one slot. With no operation
    /// started it reports `NotStarted`; with one in flight it reports
    /// `Pending` (re-registering the waker in the running system); with the
    /// completion arrived it resets the shadow and reports the translated
    /// result.
    pub fn poll_submit(&mut self, id: u32) -> (r: SubmitPoll)
        requires
            old(self).wf(),
            (id as int) < old(self).spec_len(),
        ensures
            final(self).wf(),
            r == old(self).spec_poll(id as int),
            final(self).slots@ == old(self).slots@,
            old(self).completed(id as int) ==> final(self).shadows@ == old(self).shadows@.update(
                id as int,
                PollState::Idle,
            ),
            !old(self).completed(id as int) ==> final(self).shadows@ == old(self).shadows@,
    {
        let shadow = self.shadows[id as usize];
        match shadow {
            PollState::Idle => SubmitPoll::NotStarted,
            PollState::Submitting => {
                let finished_ret: Option<i32> = match &self.slots[id as usize].state {
                    OperationState::Finished(ret) => Some(*ret),
                    OperationState::Waiting => None,
                    OperationState::Cancelled(_) => {
                        proof {
                            assert(false);
                        }
                        None
                    },
                };
                match finished_ret {
                    Some(ret) => {
                        self.shadows[id as usize] = PollState::Idle;
                        proof {
                            assert(final(self).shadows@ =~= old(self).shadows@.update(
                                id as int,
                                PollState::Idle,
                            ));
                        }
                        SubmitPoll::Done(completion_result(ret))
                    },
                    None => SubmitPoll::Pending,
                }
            },
        }
    }

    /// The worker's routing of one completion into a slot: the slot becomes
    /// `Finished(val)`; the shadow — the submitter's own — is untouched.
    /// Returns the notification flag and a cancelled operation's surrendered
    /// payload, as the slot's wake step does.
    pub fn wake(&mut self, id: u32, val: i32) -> (r: (bool, Option<CancelData>))
        requires
            old(self).wf(),
            (id as int) < old(self).spec_len(),
        ensures
            final(self).wf(),
            final(self).shadows@ == old(self).shadows@,
            (final(self).slots@[id as int].state, r.0, r.1) == spec_wake(
                old(self).slots@[id as int].state,
                val,
            ),
            final(self).slots@ == old(self).slots@.update(
                id as int,
                Operation { state: OperationState::Finished(val) },
            ),
    {
        let slot = &mut self.slots[id as usize];
        let r = slot.wake(val);
        proof {
            assert(final(self).slots@ =~= old(self).slots@.update(
                id as int,
                Operation { state: OperationState::Finished(val) },
            ));
        }
        r
    }

    /// The submitter's cancellation of one slot, on drop of the owning
    /// future. A waiting slot retains the payload and the shadow resets so a
    /// later user of the slot starts fresh; otherwise nothing changes and
    /// the payload is dropped locally. Returns whether the operation was
    /// cancelled.
    pub fn try_cancel(&mut self, id: u32, data: CancelData) -> (r: bool)
        requires
            old(self).wf(),
            (id as int) < old(self).spec_len(),
        ensures
            final(self).wf(),
            r == (old(self).slots@[id as int].state is Waiting),
            r ==> final(self).slots@ == old(self).slots@.update(
                id as int,
                Operation { state: OperationState::Cancelled(data) },
            ) && final(self).shadows@ == old(self).shadows@.update(id as int, PollState::Idle),
            !r ==> final(self).slots@ == old(self).slots@ && final(self).shadows@ == old(
                self,
            ).shadows@,
    {
        let slot = &mut self.slots[id as usize];
        let leftover = slot.cancel(data);
        match leftover {
            None => {
                self.shadows[id as usize] = PollState::Idle;
                proof {
                    assert(final(self).slots@ =~= old(self).slots@.update(
                        id as int,
                        Operation { state: OperationState::Cancelled(data) },
                    ));
                    assert(final(self).shadows@ =~= old(self).shadows@.update(
                        id as int,
                        PollState::Idle,
                    ));
                }
                true
            },
            Some(dropped) => {
                proof {
                    assert(final(self).slots@ =~= old(self).slots@);
                }
                false
            },
        }
    }

    /// The slot with the given id, if the id is in range.
    pub fn get(&self, id: u32) -> (r: Option<&Operation>)
        ensures
            r is Some <==> (id as int) < self.spec_len(),
            r matches Some(s) ==> *s == self.slots@[id as int],
    {
        self.slots.get(id as usize)
    }

    /// A copy of the table, slots copied by content, shadows as they stand.
    /// In the running system a duplicate handle shares the slots and starts
    /// from the same shadows (the close path snapshots them).
    pub fn dup(&self) -> (r: Operations)
        requires
            self.wf(),
        ensures
            r.wf(),
            ops_equiv(*self, r),
    {
        let n = self.slots.len();
        let mut slots: Vec<Operation> = Vec::new();
        let mut shadows: Vec<PollState> = Vec::new();
        let mut i: usize = 0;
        while i < n
            invariant
                i <= n,
                n == self.slots@.len(),
                self.wf(),
                slots@.len() == i,
                shadows@.len() == i,
                forall|j: int| 0 <= j < i ==> state_equiv(self.slots@[j].state, slots@[j].state),
                forall|j: int| 0 <= j < i ==> shadows@[j] == self.shadows@[j],
            decreases n - i,
        {
            slots.push(self.slots[i].dup());
            shadows.push(self.shadows[i]);
            i = i + 1;
        }
        let r = Operations { slots, shadows };
        proof {
            assert(r.shadows@ =~= self.shadows@);
        }
        r
    }

    /// Some slot still has an operation in flight on it.
    pub open spec fn spec_any_submitting(self) -> bool {
        exists|i: int| 0 <= i < self.shadows@.len() && self.shadows@[i] is Submitting
    }

    /// Whether some slot still has an operation in flight on it.
    pub fn any_submitting(&self) -> (r: bool)
        ensures
            r == self.spec_any_submitting(),
    {
        let n = self.shadows.len();
        let mut i: usize = 0;
        while i < n
            invariant
                i <= n,
                n == self.shadows@.len(),
                forall|j: int| 0 <= j < i ==> !(self.shadows@[j] is Submitting),
            decreases n - i,
        {
            if matches!(self.shadows[i], PollState::Submitting) {
                return true;
            }
            i = i + 1;
        }
        false
    }
}

/// Whether any shadow in a snapshot marks an operation in flight.
pub fn any_shadow_submitting(shadows: &Vec<PollState>) -> (r: bool)
    ensures
        r == exists|i: int| 0 <= i < shadows@.len() && shadows@[i] is Submitting,
{
    let n = shadows.len();
    let mut i: usize = 0;
    while i < n
        invariant
            i <= n,
            n == shadows@.len(),
            forall|j: int| 0 <= j < i ==> !(shadows@[j] is Submitting),
        decreases n - i,
    {
        if matches!(shadows[i], PollState::Submitting) {
            return true;
        }
        i = i + 1;
    }
    false
}

/// Two tables are the same table content for content: slot states equal by
/// content and shadows equal outright.
pub open spec fn ops_equiv(a: Operations, b: Operations) -> bool {
    &&& a.slots@.len() == b.slots@.len()
    &&& forall|i: int| 0 <= i < a.slots@.len() ==> state_equiv(a.slots@[i].state, b.slots@[i].state)
    &&& a.shadows@ == b.shadows@
}

/// Law: an operation started successfully is reported by the next poll once
/// the worker has routed its completion. `before` is any well-formed table
/// with the slot free; `submitted` is it after a successful start of the
/// slot; `woken` is that after the worker's wake with the completion's
/// result; the poll of `woken` reports exactly the translated result.
pub proof fn lemma_started_op_completes(
    before: Operations,
    submitted: Operations,
    woken: Operations,
    id: u32,
    val: i32,
)
    requires
        before.wf(),
        (id as int) < before.spec_len(),
        before.shadows@[id as int] is Idle,
        // after a successful start: the slot waits, the shadow submits
        submitted.slots@ == before.slots@.update(id as int, Operation { state: OperationState::Waiting }),
        submitted.shadows@ == before.shadows@.update(id as int, PollState::Submitting),
        // after the worker routed the completion
        woken.slots@ == submitted.slots@.update(
            id as int,
            Operation { state: OperationState::Finished(val) },
        ),
        woken.shadows@ == submitted.shadows@,
    ensures
        submitted.in_flight(id as int),
        woken.completed(id as int),
        woken.spec_poll(id as int) == SubmitPoll::Done(spec_completion_result(val)),
{
}

} // verus!
