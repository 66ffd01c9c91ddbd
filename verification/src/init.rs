//! The guard of the process-wide registration: whoever claims it first
//! registers, every later claim is turned away.

use vstd::prelude::*;

verus! {

/// Whether the process-wide registration was claimed.
pub struct InitGuard {
    claimed: bool,
}

impl View for InitGuard {
    type V = bool;

    closed spec fn view(&self) -> bool {
        self.claimed
    }
}

impl InitGuard {
    /// A guard that nobody has claimed.
    pub fn new() -> (r: InitGuard)
        ensures
            !r@,
    {
        InitGuard { claimed: false }
    }

    /// Claims the guard. The first claim gets `true` and is to register; all
    /// later ones get `false` and are to do nothing.
    pub fn claim(&mut self) -> (first: bool)
        ensures
            first == !old(self)@,
            final(self)@,
    {
        let first = !self.claimed;
        self.claimed = true;
        first
    }

    /// Whether the guard was claimed.
    pub fn is_claimed(&self) -> (b: bool)
        ensures
            b == self@,
    {
        self.claimed
    }
}

} // verus!
