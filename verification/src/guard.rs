//! The single-in-flight run guard. The signing identity's nonce sequence is
//! the one shared mutable resource, and reading the nonce immediately before
//! sending is only safe while at most one run is in flight; the guard makes
//! that ownership explicit rather than an implicit single-threaded
//! assumption. A trigger that fires while a prior run still polls for its
//! confirmation is skipped, not queued.

use vstd::prelude::*;

verus! {

/// Owns the right to run one submission at a time.
#[derive(Debug)]
pub struct RunGuard {
    pub in_flight: bool,
}

impl RunGuard {
    /// A fresh guard with no run in flight.
    pub fn new() -> (r: RunGuard)
        ensures
            !r.in_flight,
    {
        RunGuard { in_flight: false }
    }

    /// Claims the guard for a run: succeeds exactly when no run is in
    /// flight, and a run is in flight afterwards either way — so two
    /// overlapping claims can never both succeed.
    pub fn try_acquire(&mut self) -> (acquired: bool)
        ensures
            acquired == !old(self).in_flight,
            final(self).in_flight,
    {
        if self.in_flight {
            false
        } else {
            self.in_flight = true;
            true
        }
    }

    /// Returns the guard once the run reached a terminal outcome.
    pub fn release(&mut self)
        ensures
            !final(self).in_flight,
    {
        self.in_flight = false;
    }
}

} // verus!
