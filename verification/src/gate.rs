//! The bounded-concurrency gate in front of the key-derivation work.
//!
//! At most `capacity` hashing jobs may hold a permit at once; a permit taken
//! is given back on every exit path. The runtime that actually blocks excess
//! requests lives outside this crate; this type is the permit ledger those
//! callers must keep, with its bound proved.

use vstd::prelude::*;

verus! {

/// A counting gate: `in_use` permits are out, never more than `capacity`.
pub struct HashGate {
    capacity: u64,
    in_use: u64,
}

impl HashGate {
    pub closed spec fn spec_capacity(self) -> u64 {
        self.capacity
    }

    pub closed spec fn spec_in_use(self) -> u64 {
        self.in_use
    }

    /// Never are more permits out than the capacity allows.
    pub open spec fn wf(self) -> bool {
        self.spec_in_use() <= self.spec_capacity()
    }

    pub fn new(capacity: u64) -> (r: HashGate)
        requires
            capacity >= 1,
        ensures
            r.wf(),
            r.spec_capacity() == capacity,
            r.spec_in_use() == 0,
    {
        HashGate { capacity, in_use: 0 }
    }

    /// Take a permit if one is free. Succeeds exactly when a permit is free,
    /// and never pushes `in_use` past the capacity.
    pub fn try_acquire(&mut self) -> (r: bool)
        requires
            old(self).wf(),
        ensures
            final(self).wf(),
            final(self).spec_capacity() == old(self).spec_capacity(),
            r <==> old(self).spec_in_use() < old(self).spec_capacity(),
            r ==> final(self).spec_in_use() == old(self).spec_in_use() + 1,
            !r ==> final(self).spec_in_use() == old(self).spec_in_use(),
    {
        if self.in_use < self.capacity {
            self.in_use = self.in_use + 1;
            true
        } else {
            false
        }
    }

    /// Give a permit back. A release without a matching acquire is a design
    /// bug, so a positive `in_use` is required, not checked at run time.
    pub fn release(&mut self)
        requires
            old(self).wf(),
            old(self).spec_in_use() >= 1,
        ensures
            final(self).wf(),
            final(self).spec_capacity() == old(self).spec_capacity(),
            final(self).spec_in_use() == old(self).spec_in_use() - 1,
    {
        self.in_use = self.in_use - 1;
    }

    pub fn capacity(&self) -> (r: u64)
        ensures
            r == self.spec_capacity(),
    {
        self.capacity
    }

    pub fn in_use(&self) -> (r: u64)
        ensures
            r == self.spec_in_use(),
    {
        self.in_use
    }
}

/// A permit taken and then given back leaves the ledger exactly as it was:
/// no exit path may leak, and a waiter that never acquired (for example, one
/// cancelled while queued) has nothing to give back.
pub proof fn lemma_no_permit_leak(before: HashGate, held: HashGate, after: HashGate)
    requires
        before.wf(),
        held.spec_capacity() == before.spec_capacity(),
        held.spec_in_use() == before.spec_in_use() + 1,
        after.spec_capacity() == held.spec_capacity(),
        after.spec_in_use() == held.spec_in_use() - 1,
    ensures
        after.spec_in_use() == before.spec_in_use(),
        after.spec_capacity() == before.spec_capacity(),
{
}

} // verus!
