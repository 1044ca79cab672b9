//! The concurrency gate: a counting semaphore that bounds how many downloads
//! may be in flight at once.
//!
//! The executable program holds this counter behind its async runtime; the
//! type is the counting discipline itself, and proves that the number of permits
//! handed out never exceeds the configured capacity.

use vstd::prelude::*;

verus! {

/// The number of downloads the remote service tolerates from one client at a
/// time.
pub const GATE_CAPACITY: u32 = 8;

/// A counting semaphore. `available` permits remain; `capacity - available`
/// permits are held by in-flight downloads.
pub struct Gate {
    capacity: u32,
    available: u32,
}

impl Gate {
    /// A gate is well formed when it can never hand out more permits than its
    /// capacity and acquisition can always eventually succeed.
    pub open spec fn wf(self) -> bool {
        self.spec_available() <= self.spec_capacity() && self.spec_capacity() > 0
    }

    pub closed spec fn spec_capacity(self) -> u32 {
        self.capacity
    }

    pub closed spec fn spec_available(self) -> u32 {
        self.available
    }

    /// How many permits are currently held.
    pub open spec fn in_flight(self) -> int {
        self.spec_capacity() - self.spec_available()
    }

    /// A fresh gate with every permit free.
    pub fn new(capacity: u32) -> (g: Gate)
        requires
            capacity > 0,
        ensures
            g.wf(),
            g.spec_capacity() == capacity,
            g.in_flight() == 0,
    {
        Gate { capacity, available: capacity }
    }

    /// Take a permit if one is free. Returns whether a permit was granted;
    /// a caller that is refused must wait and try again.
    pub fn try_acquire(&mut self) -> (granted: bool)
        requires
            old(self).wf(),
        ensures
            final(self).wf(),
            final(self).spec_capacity() == old(self).spec_capacity(),
            granted == (old(self).spec_available() > 0),
            granted ==> final(self).in_flight() == old(self).in_flight() + 1,
            !granted ==> *final(self) == *old(self),
            final(self).in_flight() <= final(self).spec_capacity(),
    {
        if self.available > 0 {
            self.available = self.available - 1;
            true
        } else {
            false
        }
    }

    /// Return a permit. Only a held permit may be returned: a double release
    /// is a programming error, ruled out by the precondition.
    pub fn release(&mut self)
        requires
            old(self).wf(),
            old(self).in_flight() > 0,
        ensures
            final(self).wf(),
            final(self).spec_capacity() == old(self).spec_capacity(),
            final(self).in_flight() == old(self).in_flight() - 1,
    {
        self.available = self.available + 1;
    }

    pub fn capacity(&self) -> (c: u32)
        ensures
            c == self.spec_capacity(),
    {
        self.capacity
    }

    pub fn available(&self) -> (a: u32)
        ensures
            a == self.spec_available(),
    {
        self.available
    }
}

/// At no point do more downloads run than the configured capacity: any well-formed
/// gate, however it was driven, holds out at most `capacity` permits.
pub proof fn lemma_in_flight_bounded(g: Gate)
    requires
        g.wf(),
    ensures
        0 <= g.in_flight() <= g.spec_capacity(),
{
}

} // verus!
