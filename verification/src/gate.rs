//! Admission control for the fetch phase.
//!
//! A `ConcurrencyGate` is a bounded permit pool of capacity `capacity`.
//! A task acquires a permit before its network-fetch phase and releases it
//! as soon as that phase ends, before persistence begins. The invariant
//! verified here is that the number of simultaneously held permits never
//! exceeds the capacity.

use vstd::prelude::*;

verus! {

/// Bounded permit pool: at most `capacity` permits are held at any time.
pub struct ConcurrencyGate {
    /// Configured maximum number of simultaneously held permits.
    pub capacity: u32,
    /// Number of permits currently held.
    pub held: u32,
}

impl ConcurrencyGate {
    /// Permits in use never outnumber the configured capacity.
    pub open spec fn wf(self) -> bool {
        self.held <= self.capacity
    }

    /// A fresh gate with no permit held.
    pub fn new(capacity: u32) -> (g: ConcurrencyGate)
        ensures
            g.wf(),
            g.capacity == capacity,
            g.held == 0,
    {
        ConcurrencyGate { capacity, held: 0 }
    }

    /// Grant a permit exactly when a slot is free; otherwise leave the
    /// gate unchanged (the caller suspends and tries again later).
    pub fn try_acquire(&mut self) -> (granted: bool)
        requires
            old(self).wf(),
        ensures
            final(self).wf(),
            final(self).capacity == old(self).capacity,
            granted == (old(self).held < old(self).capacity),
            granted ==> final(self).held == old(self).held + 1,
            !granted ==> final(self).held == old(self).held,
    {
        if self.held < self.capacity {
            self.held = self.held + 1;
            true
        } else {
            false
        }
    }

    /// Return a held permit.
    pub fn release(&mut self)
        requires
            old(self).wf(),
            old(self).held > 0,
        ensures
            final(self).wf(),
            final(self).capacity == old(self).capacity,
            final(self).held == old(self).held - 1,
    {
        self.held = self.held - 1;
    }
}

/// Concurrency bound law: however many tasks contend, the count of
/// permits in use stays within the configured capacity. `try_acquire` and
/// `release` both preserve `wf`, so the bound holds across any sequence
/// of gate operations.
pub proof fn lemma_concurrency_bound(g: ConcurrencyGate)
    requires
        g.wf(),
    ensures
        g.held <= g.capacity,
{
}

} // verus!
