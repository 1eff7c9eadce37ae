//! Epoch guard: a version counter that retires stale background work.

use vstd::prelude::*;

verus! {

/// A counter attached to a piece of state. A background task records the
/// counter when it starts and compares at every wake; a bump in between
/// tells the task that its effect no longer applies.
pub struct EpochGuard {
    value: u64,
}

impl View for EpochGuard {
    type V = nat;

    closed spec fn view(&self) -> nat {
        self.value as nat
    }
}

impl EpochGuard {
    /// A guard at epoch zero.
    pub fn new() -> (guard: Self)
        ensures
            guard@ == 0,
    {
        EpochGuard { value: 0 }
    }

    /// The current epoch.
    pub fn current(&self) -> (epoch: u64)
        ensures
            epoch as nat == self@,
    {
        self.value
    }

    /// Whether an epoch recorded earlier is still the current one.
    pub fn is_current(&self, captured: u64) -> (fresh: bool)
        ensures
            fresh == (captured as nat == self@),
    {
        self.value == captured
    }

    /// Whether the counter has room for another bump.
    pub fn can_bump(&self) -> (room: bool)
        ensures
            room == (self@ < u64::MAX),
    {
        self.value < u64::MAX
    }

    /// Moves to the next epoch.
    pub fn bump(&mut self)
        requires
            old(self)@ < u64::MAX,
        ensures
            final(self)@ == old(self)@ + 1,
    {
        self.value = self.value + 1;
    }
}

/// An epoch that was recorded in the past and has since been left behind
/// is never current again, however the guard moves on.
pub proof fn lemma_stale_stays_stale(captured: nat, observed: nat, later: nat)
    requires
        captured <= observed,
        captured != observed,
        observed <= later,
    ensures
        captured != later,
{
}

} // verus!
