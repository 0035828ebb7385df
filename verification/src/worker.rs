//! The worker: the single consumer that drains completions and the inbox.
//!
//! The worker owns the resource table and the cleanup pipeline. Each inbox
//! message or completion is applied as one step; what the step asks of the
//! world outside — dropping a file descriptor, notifying a waker, replying
//! to a registration — comes back as an effect value for the surrounding
//! loop to perform. The loop itself (the merged streams, the awaits) is
//! ordinary asynchronous Rust outside this library.

use vstd::prelude::*;

use crate::Error;
use crate::event::EventData;
use crate::ops::{Operations, PollState, SubmitPoll};
use crate::resource::WorkerResource;
use crate::slab::WorkerResourceSlab;
use crate::state::{CancelData, spec_wake};

verus! {

/// A close request as it travels to the worker: the resource id and a
/// snapshot of the submitter's shadows, by which the worker sees whether
/// operations are still in flight.
pub struct CloseRequest {
    /// The resource to close.
    pub id: u32,
    /// The snapshot of the resource's shadow poll states.
    pub shadows: Vec<PollState>,
}

/// One message to the worker.
pub enum WorkerMessage {
    /// A completion arrived: the decoded user-data word and the signed
    /// result.
    Uring { info: EventData, result: i32 },
    /// Install a resource: the descriptor (if it has one) and its table.
    RegisterResource { fd: Option<i32>, ops: Operations },
    /// A user handle was dropped or shut down.
    CloseResource(CloseRequest),
    /// Shut the worker down.
    Stop,
}

/// What one worker step asks of the surrounding loop.
pub enum WorkerEffect {
    /// A completion reached an active slot. The waker is to be notified iff
    /// `notify`; `dropped` is a cancelled operation's retained payload,
    /// surrendered for dropping only now that the kernel is done with it.
    Woke { resource: u32, op: u32, notify: bool, dropped: Option<CancelData> },
    /// A completion named a resource or slot the worker does not know; it
    /// is logged and the worker keeps draining.
    Dropped { resource: u32, op: u32 },
    /// The reply to a registration: the issued id, or the table was full.
    Registered(Result<u32, Error>),
    /// A close request found operations still in flight; the resource went
    /// to the cleanup pipeline, its buffers kept alive.
    PushedToCleanup { resource: u32 },
    /// A resource left the table: its descriptor is to be dropped, or
    /// merely forgotten where the kernel already closed it.
    Removed { resource: u32, fd: Option<i32>, kernel_closed: bool },
    /// A close request for a resource no longer present, or one already
    /// draining; nothing to do.
    Ignored { resource: u32 },
    /// The stop request was recorded.
    Stopped,
}

/// What one pass over one pipeline resident's slots reports.
pub enum AdvancePoll {
    /// Some slot of this resident is still in flight.
    Pending,
    /// Every slot was polled; the flag says whether the resource has come
    /// to rest (no operation in flight on any slot).
    Ready(bool),
}

/// What one pass over the cleanup pipeline reports.
pub enum CleanupPoll {
    /// Every operation of this resource came to rest: it left the table,
    /// and its descriptor is to be released.
    Finished { resource: u32, fd: Option<i32>, kernel_closed: bool },
    /// Some resource still has an operation in flight, or nothing is there
    /// to clean.
    Pending,
}

/// One resident of the cleanup pipeline: the closing resource's id, and
/// which of its slots the current pass has already polled.
pub struct CleanupEntry {
    /// The closing resource.
    pub id: u32,
    /// The slots already polled in the current pass.
    pub polled: Vec<bool>,
}

/// A resource's record may change under the cleanup pipeline only by slots
/// coming to rest: the descriptor, the closing flag and the slot states
/// stay; a shadow moves only from `Submitting` to `Idle`, and only over a
/// finished slot.
pub open spec fn resource_rests(before: WorkerResource, after: WorkerResource) -> bool {
    &&& after.fd == before.fd
    &&& after.closing == before.closing
    &&& after.ops.slots@ == before.ops.slots@
    &&& after.ops.shadows@.len() == before.ops.shadows@.len()
    &&& forall|i: int|
        0 <= i < before.ops.shadows@.len() && after.ops.shadows@[i] != before.ops.shadows@[i]
            ==> before.ops.shadows@[i] is Submitting && after.ops.shadows@[i] is Idle
            && before.ops.slots@[i].state is Finished
}

/// The worker's state: the resource table, the cleanup pipeline, and
/// whether a stop was requested.
pub struct UringRuntimeWorker {
    /// The resource table.
    pub resources: WorkerResourceSlab<WorkerResource>,
    /// The resources whose close was requested while operations were still
    /// in flight.
    pub cleanup: Vec<CleanupEntry>,
    /// A stop was requested; the loop winds down.
    pub stopped: bool,
}

impl UringRuntimeWorker {
    /// The worker is well formed: the table is, every resource's operation
    /// table is, and the cleanup pipeline names distinct, present resources
    /// with one polled flag per slot.
    pub open spec fn wf(self) -> bool {
        &&& self.resources.wf()
        &&& forall|id: u32| #[trigger]
            self.resources.contents().dom().contains(id)
                ==> self.resources.contents()[id].ops.wf()
        &&& forall|j: int|
            0 <= j < self.cleanup@.len() ==> self.resources.contents().dom().contains(
                #[trigger] self.cleanup@[j].id,
            ) && self.cleanup@[j].polled@.len() == self.resources.contents()[
                self.cleanup@[j].id
            ].ops.spec_len()
        &&& forall|i: int, j: int|
            0 <= i < j < self.cleanup@.len() ==> self.cleanup@[i].id != self.cleanup@[j].id
    }

    /// Whether a resource is in the cleanup pipeline.
    pub open spec fn spec_in_cleanup(self, id: u32) -> bool {
        exists|j: int| 0 <= j < self.cleanup@.len() && self.cleanup@[j].id == id
    }

    /// A fresh worker: nothing registered, nothing closing, running.
    pub fn new() -> (r: UringRuntimeWorker)
        ensures
            r.wf(),
            r.resources.contents() == Map::<u32, WorkerResource>::empty(),
            r.resources.free@.len() == 0,
            r.resources.entries@.len() == 0,
            r.cleanup@.len() == 0,
            !r.stopped,
    {
        UringRuntimeWorker {
            resources: WorkerResourceSlab::new(),
            cleanup: Vec::new(),
            stopped: false,
        }
    }

    /// Whether a resource is in the cleanup pipeline.
    fn in_cleanup(&self, id: u32) -> (r: bool)
        ensures
            r == self.spec_in_cleanup(id),
    {
        let n = self.cleanup.len();
        let mut j: usize = 0;
        while j < n
            invariant
                j <= n,
                n == self.cleanup@.len(),
                forall|k: int| 0 <= k < j ==> self.cleanup@[k].id != id,
            decreases n - j,
        {
            if self.cleanup[j].id == id {
                return true;
            }
            j = j + 1;
        }
        false
    }

    /// The completion step's contract: on a known resource and slot, the
    /// slot alone wakes to `Finished(result)` and the effect carries the
    /// notification flag and the surrendered payload; a stray event changes
    /// nothing and is reported.
    pub open spec fn completion_step(
        pre: UringRuntimeWorker,
        post: UringRuntimeWorker,
        info: EventData,
        result: i32,
        e: WorkerEffect,
    ) -> bool {
        let dom = pre.resources.contents().dom();
        let known = dom.contains(info.resource) && (info.id as int)
            < pre.resources.contents()[info.resource].ops.spec_len();
        &&& post.stopped == pre.stopped
        &&& post.cleanup@ == pre.cleanup@
        &&& if known {
            let r0 = pre.resources.contents()[info.resource];
            let r1 = post.resources.contents()[info.resource];
            &&& e matches WorkerEffect::Woke { resource, op, notify, dropped }
                && resource == info.resource && op == info.id && ((
            r1.ops.slots@[info.id as int].state,
            notify,
            dropped,
            ) == spec_wake(r0.ops.slots@[info.id as int].state, result))
            &&& post.resources.contents().dom() == dom
            &&& forall|id: u32|
                dom.contains(id) && id != info.resource ==> post.resources.contents()[id]
                    == pre.resources.contents()[id]
            &&& r1.fd == r0.fd && r1.closing == r0.closing
            &&& r1.ops.shadows@ == r0.ops.shadows@
            &&& r1.ops.slots@ == r0.ops.slots@.update(
                info.id as int,
                crate::state::Operation { state: crate::state::OperationState::Finished(result) },
            )
        } else {
            &&& e == (WorkerEffect::Dropped { resource: info.resource, op: info.id })
            &&& post.resources.contents() == pre.resources.contents()
        }
    }

    /// Route one completion: the slot named by the event wakes with the
    /// result, the submitter's shadow untouched; a cancelled operation's
    /// payload comes back for dropping. An event naming an unknown resource
    /// or slot is reported and nothing changes — the worker keeps draining.
    pub fn handle_completion(&mut self, info: EventData, result: i32) -> (e: WorkerEffect)
        requires
            old(self).wf(),
        ensures
            final(self).wf(),
            UringRuntimeWorker::completion_step(*old(self), *final(self), info, result, e),
    {
        if self.resources.contains(info.resource) {
            let wr = self.resources.get_mut(info.resource);
            if (info.id as usize) < wr.ops.len() {
                let (notify, dropped) = wr.ops.wake(info.id, result);
                proof {
                    assert(final(self).resources.contents().dom() =~= old(
                        self,
                    ).resources.contents().dom());
                }
                WorkerEffect::Woke { resource: info.resource, op: info.id, notify, dropped }
            } else {
                proof {
                    assert(final(self).resources.contents() =~= old(self).resources.contents());
                }
                WorkerEffect::Dropped { resource: info.resource, op: info.id }
            }
        } else {
            WorkerEffect::Dropped { resource: info.resource, op: info.id }
        }
    }

    /// The registration step's contract: the resource takes the next free
    /// id, not closing, and the reply carries that id; with the table full
    /// nothing changes and the reply is the error.
    pub open spec fn register_step(
        pre: UringRuntimeWorker,
        post: UringRuntimeWorker,
        fd: Option<i32>,
        ops: Operations,
        e: WorkerEffect,
    ) -> bool {
        let full = pre.resources.free@.len() == 0 && pre.resources.entries@.len()
            > u32::MAX as int;
        &&& post.stopped == pre.stopped
        &&& post.cleanup@ == pre.cleanup@
        &&& if full {
            e == WorkerEffect::Registered(Err(Error::TooManyResources))
                && post.resources.contents() == pre.resources.contents()
        } else {
            ({
                let id = pre.resources.spec_next_id();
                &&& e == WorkerEffect::Registered(Ok(id))
                &&& !pre.resources.contents().dom().contains(id)
                &&& post.resources.contents() == pre.resources.contents().insert(
                    id,
                    WorkerResource { fd, ops, closing: false },
                )
            })
        }
    }

    /// Install a resource: it takes the next free id, not closing. The
    /// reply — the issued id, or `TooManyResources` with nothing changed —
    /// is for the loop to send back to the registering task.
    pub fn handle_register(&mut self, fd: Option<i32>, ops: Operations) -> (e: WorkerEffect)
        requires
            old(self).wf(),
            ops.wf(),
        ensures
            final(self).wf(),
            UringRuntimeWorker::register_step(*old(self), *final(self), fd, ops, e),
    {
        let worker = WorkerResource { fd, ops, closing: false };
        match self.resources.insert(worker) {
            Ok(id) => WorkerEffect::Registered(Ok(id)),
            Err(err) => WorkerEffect::Registered(Err(err)),
        }
    }

    /// What one close request does, as a function of the worker's state: a
    /// request for an absent or already-draining resource does nothing; one
    /// with operations still in flight sends the resource to the cleanup
    /// pipeline; one at rest releases it.
    pub open spec fn spec_close_effect(self, req: CloseRequest) -> WorkerEffect {
        let dom = self.resources.contents().dom();
        let any = exists|i: int| 0 <= i < req.shadows@.len() && req.shadows@[i] is Submitting;
        if !dom.contains(req.id) || self.spec_in_cleanup(req.id) {
            WorkerEffect::Ignored { resource: req.id }
        } else if any {
            WorkerEffect::PushedToCleanup { resource: req.id }
        } else {
            WorkerEffect::Removed {
                resource: req.id,
                fd: self.resources.contents()[req.id].fd,
                kernel_closed: self.resources.contents()[req.id].closing,
            }
        }
    }

    /// Apply one close request. A resource with operations still in flight
    /// (by the snapshot) goes to the cleanup pipeline, its table and
    /// descriptor kept; one at rest leaves the table at once, its
    /// descriptor released. A request for an absent resource, or for one
    /// already draining, does nothing: the descriptor of a resource is
    /// released at most once.
    /// The close step's contract, beside the effect that
    /// `spec_close_effect` fixes: pushing to the pipeline appends one entry
    /// for the id and changes nothing else; releasing removes the id from
    /// the table; an ignored request changes nothing.
    pub open spec fn close_step(
        pre: UringRuntimeWorker,
        post: UringRuntimeWorker,
        req: CloseRequest,
        e: WorkerEffect,
    ) -> bool {
        let dom = pre.resources.contents().dom();
        let any = exists|i: int| 0 <= i < req.shadows@.len() && req.shadows@[i] is Submitting;
        &&& post.stopped == pre.stopped
        &&& e == pre.spec_close_effect(req)
        &&& if !dom.contains(req.id) || pre.spec_in_cleanup(req.id) {
            &&& post.resources.contents() == pre.resources.contents()
            &&& post.cleanup@ == pre.cleanup@
        } else if any {
            &&& post.resources.contents() == pre.resources.contents()
            &&& post.cleanup@.len() == pre.cleanup@.len() + 1
            &&& post.cleanup@[post.cleanup@.len() - 1].id == req.id
            &&& forall|k: int| 0 <= k < pre.cleanup@.len() ==> post.cleanup@[k] == pre.cleanup@[k]
        } else {
            &&& post.resources.contents() == pre.resources.contents().remove(req.id)
            &&& post.resources.free@ == pre.resources.free@.push(req.id)
            &&& post.cleanup@ == pre.cleanup@
        }
    }

    pub fn handle_close(&mut self, req: &CloseRequest) -> (e: WorkerEffect)
        requires
            old(self).wf(),
        ensures
            final(self).wf(),
            UringRuntimeWorker::close_step(*old(self), *final(self), *req, e),
    {
        if !self.resources.contains(req.id) {
            return WorkerEffect::Ignored { resource: req.id };
        }
        if self.in_cleanup(req.id) {
            return WorkerEffect::Ignored { resource: req.id };
        }
        let any = crate::ops::any_shadow_submitting(&req.shadows);
        if any {
            let n = { self.resources.get(req.id).unwrap().ops.len() };
            let mut polled: Vec<bool> = Vec::new();
            let mut i: usize = 0;
            while i < n
                invariant
                    i <= n,
                    polled@.len() == i,
                decreases n - i,
            {
                polled.push(false);
                i = i + 1;
            }
            self.cleanup.push(CleanupEntry { id: req.id, polled });
            proof {
                assert forall|j: int| 0 <= j < final(self).cleanup@.len() implies
                    final(self).resources.contents().dom().contains(
                        #[trigger] final(self).cleanup@[j].id,
                    ) && final(self).cleanup@[j].polled@.len() == final(self).resources.contents()[
                    final(self).cleanup@[j].id
                ].ops.spec_len() by {
                    if j < old(self).cleanup@.len() {
                        assert(final(self).cleanup@[j] == old(self).cleanup@[j]);
                    }
                }
            }
            WorkerEffect::PushedToCleanup { resource: req.id }
        } else {
            match self.resources.remove(req.id) {
                Some(wr) => WorkerEffect::Removed {
                    resource: req.id,
                    fd: wr.fd,
                    kernel_closed: wr.closing,
                },
                None => {
                    proof {
                        assert(false);
                    }
                    WorkerEffect::Ignored { resource: req.id }
                },
            }
        }
    }

    /// Poll every not-yet-polled slot of the pipeline resident `j`,
    /// consuming finished completions (the owning futures are gone). If a
    /// slot is still in flight the pass pauses, keeping its progress; once
    /// every slot was polled the flags reset and the pass reports whether
    /// the resource has come to rest.
    fn try_advance_polls(&mut self, j: usize) -> (r: AdvancePoll)
        requires
            old(self).wf(),
            j < old(self).cleanup@.len(),
        ensures
            final(self).wf(),
            final(self).stopped == old(self).stopped,
            final(self).cleanup@.len() == old(self).cleanup@.len(),
            forall|k: int|
                0 <= k < old(self).cleanup@.len() ==> final(self).cleanup@[k].id == old(
                    self,
                ).cleanup@[k].id,
            final(self).resources.contents().dom() == old(self).resources.contents().dom(),
            final(self).resources.free@ == old(self).resources.free@,
            forall|id: u32| #[trigger]
                old(self).resources.contents().dom().contains(id) ==> resource_rests(
                    old(self).resources.contents()[id],
                    final(self).resources.contents()[id],
                ),
            r matches AdvancePoll::Ready(b) ==> b == !final(self).resources.contents()[old(
                self,
            ).cleanup@[j as int].id].ops.spec_any_submitting(),
            // the pass touches no record but this resident's
            forall|id2: u32|
                old(self).resources.contents().dom().contains(id2) && id2 != old(
                    self,
                ).cleanup@[j as int].id ==> final(self).resources.contents()[id2] == old(
                    self,
                ).resources.contents()[id2],
            // the pass pauses only over a genuinely in-flight operation
            r is Pending ==> final(self).resources.contents()[old(
                self,
            ).cleanup@[j as int].id].ops.spec_any_submitting(),
    {
        let id = self.cleanup[j].id;
        let n = self.cleanup[j].polled.len();
        let mut i: usize = 0;
        while i < n
            invariant
                old(self).wf(),
                self.wf(),
                j < self.cleanup@.len(),
                i <= n,
                self.cleanup@[j as int].id == id,
                n == self.cleanup@[j as int].polled@.len(),
                self.stopped == old(self).stopped,
                self.cleanup@.len() == old(self).cleanup@.len(),
                forall|k: int|
                    0 <= k < old(self).cleanup@.len() ==> self.cleanup@[k].id == old(
                        self,
                    ).cleanup@[k].id,
                self.resources.contents().dom() == old(self).resources.contents().dom(),
                self.resources.free@ == old(self).resources.free@,
                forall|id2: u32| #[trigger]
                    old(self).resources.contents().dom().contains(id2) ==> resource_rests(
                        old(self).resources.contents()[id2],
                        self.resources.contents()[id2],
                    ),
                forall|id2: u32|
                    old(self).resources.contents().dom().contains(id2) && id2 != id ==> self
                        .resources.contents()[id2] == old(self).resources.contents()[id2],
            decreases n - i,
        {
            if !self.cleanup[j].polled[i] {
                self.cleanup[j].polled[i] = true;
                proof {
                    assert(self.resources.contents().dom().contains(id));
                }
                let ghost mid = *self;
                let wr = self.resources.get_mut(id);
                let outcome = wr.ops.poll_submit(i as u32);
                proof {
                    assert(self.resources.contents().dom() =~= mid.resources.contents().dom());
                    assert forall|id2: u32| #[trigger]
                        old(self).resources.contents().dom().contains(id2) implies resource_rests(
                        old(self).resources.contents()[id2],
                        self.resources.contents()[id2],
                    ) by {
                        if id2 != id {
                            assert(self.resources.contents()[id2]
                                == mid.resources.contents()[id2]);
                        }
                    }
                    assert forall|id2: u32|
                        old(self).resources.contents().dom().contains(id2) && id2 != id implies
                        self.resources.contents()[id2] == old(self).resources.contents()[id2] by {
                        assert(self.resources.contents()[id2] == mid.resources.contents()[id2]);
                    }
                }
                match outcome {
                    SubmitPoll::Pending => {
                        proof {
                            // the polled slot still awaits its completion:
                            // its shadow stands Submitting
                            assert(self.resources.contents()[id].ops.shadows@[(i as u32) as int]
                                is Submitting);
                        }
                        return AdvancePoll::Pending;
                    },
                    SubmitPoll::NotStarted => {},
                    SubmitPoll::Done(result) => {},
                }
            }
            i = i + 1;
        }
        let mut fresh: Vec<bool> = Vec::new();
        let mut k: usize = 0;
        while k < n
            invariant
                k <= n,
                fresh@.len() == k,
                forall|m: int| 0 <= m < k ==> !fresh@[m],
            decreases n - k,
        {
            fresh.push(false);
            k = k + 1;
        }
        proof {
            assert(self.resources.contents().dom().contains(id));
        }
        let ghost mid2 = *self;
        self.cleanup[j].polled = fresh;
        proof {
            assert forall|m: int| 0 <= m < final(self).cleanup@.len() implies
                final(self).resources.contents().dom().contains(
                    #[trigger] final(self).cleanup@[m].id,
                ) && final(self).cleanup@[m].polled@.len() == final(self).resources.contents()[
                final(self).cleanup@[m].id
            ].ops.spec_len() by {
                if m != j {
                    assert(final(self).cleanup@[m] == mid2.cleanup@[m]);
                }
            }
        }
        let rest = match self.resources.get(id) {
            Some(wr) => !wr.ops.any_submitting(),
            None => {
                proof {
                    assert(false);
                }
                false
            },
        };
        AdvancePoll::Ready(rest)
    }

    /// One pass of the cleanup pipeline: the residents are polled in turn;
    /// the first one whose operations have all come to rest leaves the
    /// pipeline and the table, its descriptor released — exactly once, for
    /// the table no longer holds it. A resident still in flight pauses the
    /// pass.
    pub fn advance_cleanup(&mut self) -> (r: CleanupPoll)
        requires
            old(self).wf(),
        ensures
            final(self).wf(),
            final(self).stopped == old(self).stopped,
            r matches CleanupPoll::Finished { resource, fd, kernel_closed } ==> ({
                &&& old(self).spec_in_cleanup(resource)
                &&& old(self).resources.contents().dom().contains(resource)
                &&& fd == old(self).resources.contents()[resource].fd
                &&& kernel_closed == old(self).resources.contents()[resource].closing
                &&& !final(self).resources.contents().dom().contains(resource)
                &&& final(self).resources.free@ == old(self).resources.free@.push(resource)
                &&& !final(self).spec_in_cleanup(resource)
                &&& forall|id: u32|
                    old(self).resources.contents().dom().contains(id) && id != resource
                        ==> final(self).resources.contents().dom().contains(id)
                // released only at rest: the record left the table in a
                // state reached from its old one by completions alone, with
                // no operation still in flight on any slot
                &&& exists|rec: WorkerResource|
                    #[trigger] resource_rests(old(self).resources.contents()[resource], rec)
                        && !rec.ops.spec_any_submitting()
            }),
            r is Pending ==> final(self).resources.contents().dom() == old(
                self,
            ).resources.contents().dom() && final(self).cleanup@.len() == old(
                self,
            ).cleanup@.len(),
            // the pass withholds a release only while some resident still
            // has an operation under a submitting shadow; an empty pipeline
            // aside, a pass over resting residents must emit
            r is Pending ==> final(self).cleanup@.len() == 0 || exists|j2: int|
                0 <= j2 < final(self).cleanup@.len() && final(self).resources.contents()[
                    final(self).cleanup@[j2].id
                ].ops.spec_any_submitting(),
            forall|id: u32| #[trigger]
                final(self).resources.contents().dom().contains(id) ==> old(
                    self,
                ).resources.contents().dom().contains(id) && resource_rests(
                    old(self).resources.contents()[id],
                    final(self).resources.contents()[id],
                ),
    {
        let mut j: usize = 0;
        while j < self.cleanup.len()
            invariant
                old(self).wf(),
                self.wf(),
                j <= self.cleanup@.len(),
                self.stopped == old(self).stopped,
                self.cleanup@.len() == old(self).cleanup@.len(),
                forall|k: int|
                    0 <= k < old(self).cleanup@.len() ==> self.cleanup@[k].id == old(
                        self,
                    ).cleanup@[k].id,
                self.resources.contents().dom() == old(self).resources.contents().dom(),
                self.resources.free@ == old(self).resources.free@,
                forall|id2: u32| #[trigger]
                    old(self).resources.contents().dom().contains(id2) ==> resource_rests(
                        old(self).resources.contents()[id2],
                        self.resources.contents()[id2],
                    ),
                forall|k: int|
                    0 <= k < j ==> self.resources.contents()[
                        #[trigger] self.cleanup@[k].id
                    ].ops.spec_any_submitting(),
            decreases self.cleanup@.len() - j,
        {
            let ghost pre = *self;
            match self.try_advance_polls(j) {
                AdvancePoll::Pending => {
                    proof {
                        assert(self.resources.contents()[
                            self.cleanup@[j as int].id
                        ].ops.spec_any_submitting());
                    }
                    return CleanupPoll::Pending;
                },
                AdvancePoll::Ready(true) => {
                    let entry = self.cleanup.remove(j);
                    let ghost mid = *self;
                    proof {
                        assert forall|m: int| 0 <= m < self.cleanup@.len() implies self.cleanup@[m]
                            != entry by {
                            if m < j {
                                assert(self.cleanup@[m].id == pre.cleanup@[m].id);
                            } else {
                                assert(self.cleanup@[m].id == pre.cleanup@[m + 1].id);
                            }
                        }
                    }
                    match self.resources.remove(entry.id) {
                        Some(wr) => {
                            proof {
                                assert(resource_rests(
                                    old(self).resources.contents()[entry.id],
                                    wr,
                                ));
                                assert(!wr.ops.spec_any_submitting());
                                assert forall|m: int| 0 <= m < final(self).cleanup@.len() implies
                                    final(self).resources.contents().dom().contains(
                                        #[trigger] final(self).cleanup@[m].id,
                                    ) && final(self).cleanup@[m].polled@.len()
                                    == final(self).resources.contents()[
                                    final(self).cleanup@[m].id
                                ].ops.spec_len() by {
                                    assert(final(self).cleanup@[m] != entry);
                                    assert(mid.resources.contents().dom().contains(
                                        final(self).cleanup@[m].id,
                                    ));
                                    if m < j {
                                        assert(final(self).cleanup@[m].id == pre.cleanup@[m].id);
                                    } else {
                                        assert(final(self).cleanup@[m].id == pre.cleanup@[m
                                            + 1].id);
                                    }
                                    assert(final(self).cleanup@[m].id != entry.id);
                                }
                            }
                            return CleanupPoll::Finished {
                                resource: entry.id,
                                fd: wr.fd,
                                kernel_closed: wr.closing,
                            };
                        },
                        None => {
                            proof {
                                assert(false);
                            }
                            return CleanupPoll::Pending;
                        },
                    }
                },
                AdvancePoll::Ready(false) => {
                    j = j + 1;
                },
            }
        }
        proof {
            if self.cleanup@.len() > 0 {
                assert(self.resources.contents()[
                    self.cleanup@[0].id
                ].ops.spec_any_submitting());
            }
        }
        CleanupPoll::Pending
    }

    /// Apply one message, as the event loop does: a completion is routed, a
    /// registration installs, a close request releases or stages, and a
    /// stop is recorded. The effect is what the loop performs outside.
    pub fn step(&mut self, msg: WorkerMessage) -> (e: WorkerEffect)
        requires
            old(self).wf(),
            msg matches WorkerMessage::RegisterResource { ops, .. } ==> ops.wf(),
        ensures
            final(self).wf(),
            match msg {
                WorkerMessage::Uring { info, result } => UringRuntimeWorker::completion_step(
                    *old(self),
                    *final(self),
                    info,
                    result,
                    e,
                ),
                WorkerMessage::RegisterResource { fd, ops } => UringRuntimeWorker::register_step(
                    *old(self),
                    *final(self),
                    fd,
                    ops,
                    e,
                ),
                WorkerMessage::CloseResource(req) => UringRuntimeWorker::close_step(
                    *old(self),
                    *final(self),
                    req,
                    e,
                ),
                WorkerMessage::Stop => final(self).stopped && final(self).resources.contents()
                    == old(self).resources.contents() && final(self).cleanup@ == old(self).cleanup@
                    && e == WorkerEffect::Stopped,
            },
    {
        match msg {
            WorkerMessage::Uring { info, result } => self.handle_completion(info, result),
            WorkerMessage::RegisterResource { fd, ops } => self.handle_register(fd, ops),
            WorkerMessage::CloseResource(req) => self.handle_close(&req),
            WorkerMessage::Stop => self.handle_stop(),
        }
    }

    /// Record the stop request; the loop winds down and the runtime's alive
    /// flag goes false, after which every user poll reports `NoRuntime`.
    pub fn handle_stop(&mut self) -> (e: WorkerEffect)
        requires
            old(self).wf(),
        ensures
            final(self).wf(),
            final(self).stopped,
            final(self).resources.contents() == old(self).resources.contents(),
            final(self).cleanup@ == old(self).cleanup@,
            e == WorkerEffect::Stopped,
    {
        self.stopped = true;
        WorkerEffect::Stopped
    }
}

/// Law: a released id is handed out anew: when a close released a resource,
/// the very next registration issues the same id (the table's freelist
/// reclaims it, most recently freed first).
pub proof fn lemma_close_then_register_reuses_id(
    before: UringRuntimeWorker,
    after: UringRuntimeWorker,
    req: CloseRequest,
)
    requires
        before.spec_close_effect(req) matches WorkerEffect::Removed { .. },
        // `after` is `before` with the close applied
        after.resources.free@ == before.resources.free@.push(req.id),
    ensures
        after.resources.spec_next_id() == req.id,
{
}

/// Law: a resource's descriptor is released at most once. A close step that
/// reports `Removed` takes the id out of the table; every later close of
/// that id finds nothing and reports `Ignored`, until a registration hands
/// the id out anew.
pub proof fn lemma_fd_released_once(
    before: UringRuntimeWorker,
    after: UringRuntimeWorker,
    req: CloseRequest,
)
    requires
        before.spec_close_effect(req) matches WorkerEffect::Removed { .. },
        // `after` is `before` with the close applied
        after.resources.contents() == before.resources.contents().remove(req.id),
        after.cleanup@ == before.cleanup@,
    ensures
        forall|req2: CloseRequest|
            req2.id == req.id ==> after.spec_close_effect(req2) == (WorkerEffect::Ignored {
                resource: req.id,
            }),
{
}

} // verus!
