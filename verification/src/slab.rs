//! The worker's resource table: a dense slab indexed by 32-bit id, with a
//! freelist that reclaims slots.
//!
//! Ids are handed out densely from zero; removing a resource pushes its id
//! onto the freelist, and the next insertion pops the freelist before
//! growing the table. Capacity is bounded by the id width: an insertion
//! whose index would not fit in `u32` is refused.

use vstd::prelude::*;

use crate::Error;

verus! {

/// The worker-local table mapping resource id to the worker's record of the
/// resource.
pub struct WorkerResourceSlab<T> {
    /// The dense entry table; `None` marks a vacant slot.
    pub entries: Vec<Option<T>>,
    /// The vacant slots, reused last-freed-first.
    pub free: Vec<u32>,
}

impl<T> WorkerResourceSlab<T> {
    /// The table is well formed: every index fits the id width, the
    /// freelist lists vacant in-range slots, and no slot twice.
    pub open spec fn wf(self) -> bool {
        &&& self.entries@.len() <= u32::MAX as int + 1
        &&& forall|i: int|
            0 <= i < self.free@.len() ==> (self.free@[i] as int) < self.entries@.len()
                && self.entries@[self.free@[i] as int] is None
        &&& forall|i: int, j: int|
            0 <= i < j < self.free@.len() ==> self.free@[i] != self.free@[j]
    }

    /// The occupied slots: resource id to resource.
    pub open spec fn contents(self) -> Map<u32, T> {
        Map::new(
            |id: u32| (id as int) < self.entries@.len() && self.entries@[id as int] is Some,
            |id: u32| self.entries@[id as int].unwrap(),
        )
    }

    /// The id the next insertion will hand out: the most recently freed
    /// slot, or a fresh index past the table's end.
    pub open spec fn spec_next_id(self) -> u32 {
        if self.free@.len() > 0 {
            self.free@.last()
        } else {
            self.entries@.len() as u32
        }
    }

    /// An empty table.
    pub fn new() -> (r: WorkerResourceSlab<T>)
        ensures
            r.wf(),
            r.contents() == Map::<u32, T>::empty(),
            r.free@.len() == 0,
            r.entries@.len() == 0,
    {
        let r = WorkerResourceSlab { entries: Vec::new(), free: Vec::new() };
        proof {
            assert(r.contents() =~= Map::<u32, T>::empty());
        }
        r
    }

    /// Install a resource, handing out the lowest reclaimed id or a fresh
    /// one. Fails with `TooManyResources` exactly when no freed slot exists
    /// and a fresh index would no longer fit in `u32`.
    pub fn insert(&mut self, resource: T) -> (r: Result<u32, Error>)
        requires
            old(self).wf(),
        ensures
            final(self).wf(),
            r matches Ok(id) ==> id == old(self).spec_next_id()
                && !old(self).contents().dom().contains(id) && final(self).contents() == old(
                self,
            ).contents().insert(id, resource),
            r is Err ==> r == Err::<u32, Error>(Error::TooManyResources) && final(self).contents()
                == old(self).contents() && final(self).free@ == old(self).free@,
            r is Ok <==> old(self).free@.len() > 0 || old(self).entries@.len() <= u32::MAX as int,
    {
        match self.free.pop() {
            Some(id) => {
                let slot = &mut self.entries[id as usize];
                *slot = Some(resource);
                proof {
                    assert(final(self).wf());
                    assert(final(self).contents() =~= old(self).contents().insert(id, resource));
                }
                Ok(id)
            },
            None => {
                if self.entries.len() <= u32::MAX as usize {
                    let id = self.entries.len() as u32;
                    self.entries.push(Some(resource));
                    proof {
                        assert(final(self).contents() =~= old(self).contents().insert(
                            id,
                            resource,
                        ));
                    }
                    Ok(id)
                } else {
                    Err(Error::TooManyResources)
                }
            },
        }
    }

    /// The resource with the given id, if the id is occupied.
    pub fn get(&self, id: u32) -> (r: Option<&T>)
        requires
            self.wf(),
        ensures
            r is Some <==> self.contents().dom().contains(id),
            r matches Some(t) ==> *t == self.contents()[id],
    {
        match self.entries.get(id as usize) {
            Some(entry) => entry.as_ref(),
            None => None,
        }
    }

    /// Whether the id is occupied.
    pub fn contains(&self, id: u32) -> (r: bool)
        requires
            self.wf(),
        ensures
            r == self.contents().dom().contains(id),
    {
        match self.get(id) {
            Some(_) => true,
            None => false,
        }
    }

    /// The resource with the given id, to mutate in place. The table's
    /// shape — which ids are occupied — is untouched.
    pub fn get_mut(&mut self, id: u32) -> (r: &mut T)
        requires
            old(self).wf(),
            old(self).contents().dom().contains(id),
        ensures
            *r == old(self).contents()[id],
            final(self).wf(),
            final(self).entries@ == old(self).entries@.update(id as int, Some(*final(r))),
            final(self).free@ == old(self).free@,
    {
        let entry = &mut self.entries[id as usize];
        match entry {
            Some(t) => t,
            None => {
                proof {
                    assert(false);
                }
                unreached()
            },
        }
    }

    /// The occupied slots after one entry is overwritten in place: the
    /// resource under the id changes, the table's shape does not.
    pub proof fn lemma_contents_after_update(
        before: WorkerResourceSlab<T>,
        after: WorkerResourceSlab<T>,
        id: u32,
        t: T,
    )
        requires
            before.wf(),
            before.contents().dom().contains(id),
            after.entries@ == before.entries@.update(id as int, Some(t)),
        ensures
            after.contents() == before.contents().insert(id, t),
    {
        assert(after.contents() =~= before.contents().insert(id, t));
    }

    /// Uninstall a resource. Hands back the resource if the id was
    /// occupied — the id goes onto the freelist for reuse — and `None`
    /// otherwise, with nothing changed.
    pub fn remove(&mut self, id: u32) -> (r: Option<T>)
        requires
            old(self).wf(),
        ensures
            final(self).wf(),
            old(self).contents().dom().contains(id) ==> r == Some(old(self).contents()[id])
                && final(self).contents() == old(self).contents().remove(id) && final(self).free@
                == old(self).free@.push(id),
            !old(self).contents().dom().contains(id) ==> r is None && final(self).contents() == old(
                self,
            ).contents() && final(self).free@ == old(self).free@,
    {
        if (id as usize) < self.entries.len() {
            let slot = &mut self.entries[id as usize];
            let mut taken: Option<T> = None;
            core::mem::swap(slot, &mut taken);
            match taken {
                Some(t) => {
                    self.free.push(id);
                    proof {
                        assert(final(self).wf());
                        assert(final(self).contents() =~= old(self).contents().remove(id));
                    }
                    Some(t)
                },
                None => {
                    proof {
                        assert(final(self).contents() =~= old(self).contents());
                    }
                    None
                },
            }
        } else {
            None
        }
    }
}

/// Law: a freed id is reused. Removing the resource under an id pushes the
/// id onto the freelist; the very next insertion hands that id out again.
pub proof fn lemma_removed_id_reused<T>(before: WorkerResourceSlab<T>, after: WorkerResourceSlab<
    T,
>, id: u32)
    requires
        before.wf(),
        before.contents().dom().contains(id),
        // `after` is `before` with the id removed
        after.free@ == before.free@.push(id),
    ensures
        after.spec_next_id() == id,
{
}

} // verus!
