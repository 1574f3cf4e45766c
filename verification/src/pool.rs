//! A generational pool: the container that entity references point into.

use vstd::prelude::*;
use crate::handle::EntityRef;

verus! {

/// One slot of a pool. A reference resolves to the payload of the slot at its
/// index if the generations agree.
pub struct PoolRecord<T> {
    pub generation: u32,
    pub payload: Option<T>,
}

/// A pool of values addressed by [`EntityRef`].
pub struct Pool<T> {
    pub records: Vec<PoolRecord<T>>,
}

impl<T> Pool<T> {
    /// No occupied slot carries generation 0, the generation of the null
    /// reference.
    pub open spec fn wf(&self) -> bool {
        forall|i: int|
            0 <= i < self.records@.len() && (#[trigger] self.records@[i]).payload.is_some()
                ==> self.records@[i].generation != 0
    }

    /// Whether `handle` points at a slot of its own generation.
    pub open spec fn spec_matches(&self, handle: EntityRef) -> bool {
        handle.index < self.records@.len()
            && self.records@[handle.index as int].generation == handle.generation
    }

    /// What `handle` resolves to.
    pub open spec fn spec_try_get(&self, handle: EntityRef) -> Option<T> {
        if self.spec_matches(handle) {
            self.records@[handle.index as int].payload
        } else {
            None
        }
    }

    /// Whether `handle` resolves to a value.
    pub open spec fn spec_is_valid(&self, handle: EntityRef) -> bool {
        self.spec_try_get(handle).is_some()
    }

    /// An empty pool.
    pub fn new() -> (r: Pool<T>)
        ensures
            r.records@.len() == 0,
            r.wf(),
            forall|h: EntityRef| r.spec_try_get(h).is_none(),
    {
        Pool { records: Vec::new() }
    }

    /// The value that `handle` resolves to, if any.
    pub fn try_get(&self, handle: EntityRef) -> (r: Option<&T>)
        ensures
            r.is_some() == self.spec_try_get(handle).is_some(),
            r.is_some() ==> *r.unwrap() == self.spec_try_get(handle).unwrap(),
    {
        let index: usize = handle.index as usize;
        if index < self.records.len() {
            let record = &self.records[index];
            if record.generation == handle.generation {
                record.payload.as_ref()
            } else {
                None
            }
        } else {
            None
        }
    }

    /// Whether `handle` resolves to a value.
    pub fn is_valid_handle(&self, handle: EntityRef) -> (r: bool)
        ensures
            r == self.spec_is_valid(handle),
    {
        self.try_get(handle).is_some()
    }

    /// The null reference resolves to nothing in a well-formed pool.
    pub proof fn lemma_none_resolves_to_nothing(&self)
        requires
            self.wf(),
        ensures
            self.spec_try_get(EntityRef::spec_none()).is_none(),
    {
    }
}

} // verus!
