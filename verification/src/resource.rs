//! Resource records: the user-facing handle and the worker's own record.
//!
//! A resource ties an id to its operation table and a closing flag. In the
//! running system the table and the flag are shared between the user handle
//! and the worker's record; duplicating a handle clones the sharing. The
//! sequential model has no sharing, so a duplicate is a value copy, equal to
//! the original view for view.

use vstd::prelude::*;

use crate::ops::{Operations, ops_equiv};

verus! {

/// The worker's record of one registered resource: the owned file
/// descriptor (kept alive until the close completion arrives; `None` for
/// resources without one, such as the nop stream), the operation table, and
/// whether shutdown of the resource has started.
pub struct WorkerResource {
    /// The underlying descriptor, if the resource has one.
    pub fd: Option<i32>,
    /// The resource's operation table.
    pub ops: Operations,
    /// Shutdown has started: a close was requested by the user.
    pub closing: bool,
}

impl WorkerResource {
    /// Whether shutdown of the resource has started.
    pub fn closing(&self) -> (r: bool)
        ensures
            r == self.closing,
    {
        self.closing
    }
}

/// The user-facing record of one registered resource.
pub struct Resource {
    /// The resource id issued by the worker.
    pub id: u32,
    /// The resource's operation table.
    pub ops: Operations,
    /// Shutdown has started: a close was requested on some handle to this
    /// resource.
    pub closing: bool,
}

impl Resource {
    /// A record under the given id.
    pub fn new(id: u32, ops: Operations, closing: bool) -> (r: Resource)
        ensures
            r.id == id,
            r.ops == ops,
            r.closing == closing,
    {
        Resource { id, ops, closing }
    }

    /// A duplicate of the record: same id, same flag, and a copy of the
    /// operation table equal to it view for view. In the running system the
    /// duplicate shares the table and the flag with the original.
    pub fn dup(&self) -> (r: Resource)
        requires
            self.ops.wf(),
        ensures
            r.id == self.id,
            r.closing == self.closing,
            r.ops.wf(),
            ops_equiv(self.ops, r.ops),
    {
        Resource { id: self.id, ops: self.ops.dup(), closing: self.closing }
    }

    /// Whether shutdown of the resource has started.
    pub fn closing(&self) -> (r: bool)
        ensures
            r == self.closing,
    {
        self.closing
    }

    /// Record that shutdown of the resource has started.
    pub fn set_closing(&mut self)
        ensures
            final(self).id == old(self).id,
            final(self).ops == old(self).ops,
            final(self).closing,
    {
        self.closing = true;
    }
}

} // verus!
