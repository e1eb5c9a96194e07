//! Cooldown timers: a duration since the last trigger that gates an action
//! until a threshold is reached.

use vstd::prelude::*;

verus! {

/// A repeating cooldown, counted in nanoseconds.
///
/// Time only moves forward through [`Cooldown::tick`]. A tick that brings the
/// accumulated time up to the threshold triggers, and the count starts again
/// from zero.
#[derive(Debug, Clone, Copy, PartialEq, Eq)]
pub struct Cooldown {
    elapsed: u64,
    threshold: u64,
}

impl Cooldown {
    /// Between triggers the accumulated time stays below the threshold.
    #[verifier::type_invariant]
    spec fn below_threshold(self) -> bool {
        self.elapsed == 0 || self.elapsed < self.threshold
    }

    /// Nanoseconds accumulated since the last trigger.
    pub closed spec fn elapsed_nanos(self) -> nat {
        self.elapsed as nat
    }

    /// Nanoseconds that have to accumulate for a trigger.
    pub closed spec fn threshold_nanos(self) -> nat {
        self.threshold as nat
    }

    /// Whether a tick of `delta` nanoseconds triggers.
    pub open spec fn triggers(self, delta: nat) -> bool {
        self.elapsed_nanos() + delta >= self.threshold_nanos()
    }

    /// Nanoseconds accumulated once a tick of `delta` nanoseconds is over: a
    /// tick that triggers starts the count again from zero.
    pub open spec fn elapsed_after(self, delta: nat) -> nat {
        if self.triggers(delta) {
            0
        } else {
            self.elapsed_nanos() + delta
        }
    }

    /// A cooldown that has just been triggered.
    pub fn from_nanos(threshold: u64) -> (timer: Cooldown)
        ensures
            timer.elapsed_nanos() == 0,
            timer.threshold_nanos() == threshold,
    {
        Cooldown { elapsed: 0, threshold }
    }

    /// Nanoseconds accumulated since the last trigger.
    pub fn elapsed(&self) -> (nanos: u64)
        ensures
            nanos == self.elapsed_nanos(),
            nanos == 0 || nanos < self.threshold_nanos(),
    {
        proof {
            use_type_invariant(self);
        }
        self.elapsed
    }

    /// Nanoseconds that have to accumulate for a trigger.
    pub fn threshold(&self) -> (nanos: u64)
        ensures
            nanos == self.threshold_nanos(),
    {
        self.threshold
    }

    /// Advances the cooldown by `delta` nanoseconds and reports whether that
    /// triggered it.
    pub fn tick(&mut self, delta: u64) -> (triggered: bool)
        ensures
            triggered == old(self).triggers(delta as nat),
            final(self).elapsed_nanos() == old(self).elapsed_after(delta as nat),
            final(self).threshold_nanos() == old(self).threshold_nanos(),
    {
        proof {
            use_type_invariant(&*self);
        }
        if self.elapsed >= self.threshold || delta >= self.threshold - self.elapsed {
            self.elapsed = 0;
            true
        } else {
            self.elapsed = self.elapsed + delta;
            false
        }
    }
}

} // verus!
