use std::sync::Arc;
use vstd::prelude::*;

use crate::quota::{MemoryQuota, MemoryQuotaExceeded};

verus! {

/// A handle's running total after one admission request: the request's
/// bytes are added only when the quota admitted them.
pub open spec fn handle_next(allocated: nat, bytes: nat, admitted: bool) -> nat {
    if admitted {
        allocated + bytes
    } else {
        allocated
    }
}

/// A per-owner account against one shared quota. It counts the bytes it has
/// admitted and hands them all back, once, when it is released or dropped.
pub struct OwnedAllocated {
    allocated: usize,
    from: Arc<MemoryQuota>,
}

impl OwnedAllocated {
    /// The bytes this handle has admitted and not yet released.
    pub closed spec fn spec_allocated(&self) -> nat {
        self.allocated as nat
    }

    /// The quota this handle is bound to.
    pub closed spec fn spec_source(&self) -> Arc<MemoryQuota> {
        self.from
    }

    pub fn new(target: Arc<MemoryQuota>) -> (r: OwnedAllocated)
        ensures
            r.spec_allocated() == 0,
            r.spec_source() == target,
    {
        OwnedAllocated { allocated: 0, from: target }
    }

    /// Asks the bound quota to admit `bytes`; the handle's total grows by
    /// `bytes` exactly when the quota admitted them.
    pub fn try_alloc(&mut self, bytes: usize) -> (r: Result<(), MemoryQuotaExceeded>)
        requires
            old(self).spec_allocated() + bytes <= usize::MAX,
        ensures
            final(self).spec_allocated() == handle_next(
                old(self).spec_allocated(),
                bytes as nat,
                r is Ok,
            ),
            final(self).spec_source() == old(self).spec_source(),
    {
        let r = self.from.try_alloc(bytes);
        match r {
            Ok(()) => {
                self.allocated = self.allocated + bytes;
                Ok(())
            },
            Err(e) => Err(e),
        }
    }

    pub fn allocated(&self) -> (r: usize)
        ensures
            r == self.spec_allocated(),
    {
        self.allocated
    }

    pub fn source(&self) -> (r: &MemoryQuota)
        ensures
            *r == *self.spec_source(),
    {
        &self.from
    }

    /// Hands the whole running total back to the bound quota and returns it;
    /// the total is then zero, so a second release hands back nothing.
    pub fn release(&mut self) -> (r: usize)
        ensures
            r == old(self).spec_allocated(),
            final(self).spec_allocated() == 0,
            final(self).spec_source() == old(self).spec_source(),
        opens_invariants none
        no_unwind
    {
        let bytes = self.allocated;
        self.from.free(bytes);
        self.allocated = 0;
        bytes
    }
}

impl Drop for OwnedAllocated {
    fn drop(&mut self)
        opens_invariants none
        no_unwind
    {
        self.release();
    }
}

} // verus!
