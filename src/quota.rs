use std::sync::atomic::{AtomicUsize, Ordering};
use vstd::prelude::*;

use crate::step::{admit_next, force_next, release_next, Step};

verus! {

/// Refusal of an admission: the request would take the counter past the
/// capacity sampled when the request began. The counter is left unchanged.
#[derive(Clone, Copy, Debug, PartialEq, Eq)]
pub struct MemoryQuotaExceeded;

/// The two counters of a quota as plain values: one consistent state of the
/// shared counters, and the sequential meaning of each of its operations.
#[derive(Clone, Copy, Debug, PartialEq, Eq)]
pub struct QuotaState {
    pub in_use: usize,
    pub capacity: usize,
}

impl QuotaState {
    pub fn new(capacity: usize) -> (r: QuotaState)
        ensures
            r.in_use == 0,
            r.capacity == capacity,
    {
        QuotaState { in_use: 0, capacity }
    }

    pub fn set_capacity(&mut self, capacity: usize)
        ensures
            final(self).capacity == capacity,
            final(self).in_use == old(self).in_use,
    {
        self.capacity = capacity;
    }

    pub fn try_alloc(&mut self, bytes: usize) -> (r: Result<(), MemoryQuotaExceeded>)
        ensures
            final(self).capacity == old(self).capacity,
            r is Ok <==> old(self).in_use + bytes <= old(self).capacity,
            r is Ok ==> final(self).in_use == old(self).in_use + bytes,
            r is Err ==> final(self).in_use == old(self).in_use,
            r is Ok ==> final(self).in_use == admit_next(
                old(self).in_use as nat,
                old(self).capacity as nat,
                bytes as nat,
            )->Some_0,
    {
        let step = Step::Admit { capacity: self.capacity, bytes };
        match step.next(self.in_use) {
            Some(n) => {
                self.in_use = n;
                Ok(())
            },
            None => Err(MemoryQuotaExceeded),
        }
    }

    pub fn alloc_force(&mut self, bytes: usize)
        ensures
            final(self).capacity == old(self).capacity,
            final(self).in_use == force_next(old(self).in_use as nat, bytes as nat),
            old(self).in_use + bytes <= usize::MAX ==> final(self).in_use == old(self).in_use
                + bytes,
    {
        let step = Step::Force { bytes };
        match step.next(self.in_use) {
            Some(n) => {
                self.in_use = n;
            },
            None => {},
        }
    }

    pub fn free(&mut self, bytes: usize)
        ensures
            final(self).capacity == old(self).capacity,
            final(self).in_use == release_next(old(self).in_use as nat, bytes as nat),
            final(self).in_use == if bytes >= old(self).in_use {
                0
            } else {
                old(self).in_use - bytes
            },
    {
        let step = Step::Release { bytes };
        match step.next(self.in_use) {
            Some(n) => {
                self.in_use = n;
            },
            None => {},
        }
    }
}

/// Relies on `AtomicUsize::fetch_update`: it retries a compare-and-swap until
/// the closure's value is installed over the value it was computed from, and
/// returns `Ok(previous)` when the closure gave `Some` on `previous`, or
/// `Err(previous)` when it gave `None` (nothing is written then).
#[verifier::external_body]
fn fetch_update(cell: &AtomicUsize, step: Step) -> (r: Result<usize, usize>)
    ensures
        match r {
            Ok(prev) => step.spec_next(prev) is Some,
            Err(prev) => step.spec_next(prev) is None,
        },
    opens_invariants none
    no_unwind
{
    cell.fetch_update(Ordering::Relaxed, Ordering::Relaxed, |v| step.next(v))
}

/// One atomic update of the in-use counter: the step, the value it found,
/// and whether it was applied. When applied, the counter went from `before`
/// to `step.spec_next(before)` at that instant; when not, it was not written.
#[derive(Clone, Copy, Debug, PartialEq, Eq)]
pub struct Update {
    pub step: Step,
    pub before: usize,
    pub applied: bool,
}

/// A shared budget: the bytes in use and the ceiling, each one atomic word,
/// updated without locks. Share it between owners behind an `Arc`.
pub struct MemoryQuota {
    in_use: AtomicUsize,
    capacity: AtomicUsize,
}

impl MemoryQuota {
    pub fn new(capacity: usize) -> (r: MemoryQuota) {
        MemoryQuota { in_use: AtomicUsize::new(0), capacity: AtomicUsize::new(capacity) }
    }

    /// A snapshot of the bytes in use.
    pub fn in_use(&self) -> usize {
        self.in_use.load(Ordering::Relaxed)
    }

    /// A snapshot of the ceiling; not read together with `in_use`.
    pub fn capacity(&self) -> usize {
        self.capacity.load(Ordering::Relaxed)
    }

    /// Replaces the ceiling for admissions that begin afterwards; nothing
    /// already admitted is taken back.
    pub fn set_capacity(&self, capacity: usize) {
        self.capacity.store(capacity, Ordering::Relaxed);
    }

    /// Applies `step` to the in-use counter in one atomic update, retrying
    /// while other updates intervene, and reports the value it was applied to.
    pub fn apply(&self, step: Step) -> (r: Update)
        ensures
            r.step == step,
            r.applied <==> step.spec_next(r.before) is Some,
        opens_invariants none
        no_unwind
    {
        match fetch_update(&self.in_use, step) {
            Ok(before) => Update { step, before, applied: true },
            Err(before) => Update { step, before, applied: false },
        }
    }

    /// Admits `bytes` if the counter plus `bytes` stays within the capacity
    /// read once when the call begins; otherwise leaves the counter as it is.
    pub fn try_alloc(&self, bytes: usize) -> (r: Result<(), MemoryQuotaExceeded>) {
        let capacity = self.capacity.load(Ordering::Relaxed);
        let update = self.apply(Step::Admit { capacity, bytes });
        if update.applied {
            Ok(())
        } else {
            Err(MemoryQuotaExceeded)
        }
    }

    /// Adds `bytes` whatever the ceiling, saturating at the largest `usize`.
    pub fn alloc_force(&self, bytes: usize) {
        let update = self.apply(Step::Force { bytes });
        assert(update.applied);
    }

    /// Takes `bytes` off the counter, saturating at zero.
    pub fn free(&self, bytes: usize)
        opens_invariants none
        no_unwind
    {
        let update = self.apply(Step::Release { bytes });
        assert(update.applied);
    }
}

} // verus!
