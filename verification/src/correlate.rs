//! Request correlation: a process-lifetime counter that hands each inbound
//! request a fresh identifier for log correlation.

use vstd::prelude::*;

verus! {

/// Hands out request identifiers in strictly increasing order. The caller
/// shares one manager per process (behind whatever synchronization its
/// runtime provides) so that identifiers are unique for the process lifetime.
pub struct RequestIdManager {
    counter: u64,
}

/// An identifier assigned to one inbound request at entry, immutable
/// afterwards, and discarded at request exit.
#[derive(Clone, Copy, PartialEq, Eq, Structural, Debug)]
pub struct RequestId {
    pub id: u64,
}

impl RequestIdManager {
    pub closed spec fn spec_counter(self) -> u64 {
        self.counter
    }

    pub fn new() -> (r: RequestIdManager)
        ensures
            r.spec_counter() == 0,
    {
        RequestIdManager { counter: 0 }
    }

    /// The next identifier: returns the current counter value and advances
    /// it, so no two calls on one manager return the same identifier.
    pub fn next(&mut self) -> (r: RequestId)
        requires
            old(self).spec_counter() < u64::MAX,
        ensures
            r.id == old(self).spec_counter(),
            final(self).spec_counter() == old(self).spec_counter() + 1,
    {
        let id = self.counter;
        self.counter = self.counter + 1;
        RequestId { id }
    }
}

/// Identifiers are unique: every identifier already handed out is strictly
/// below the counter, so the next one differs from all of them.
pub proof fn lemma_request_ids_unique(earlier: RequestId, counter: u64, later: RequestId)
    requires
        earlier.id < counter,
        later.id == counter,
    ensures
        earlier != later,
{
}

} // verus!
