//! Liveness tracking: counts the pulses that went unanswered.

use crate::realtime::timing::duration_of_secs;
use std::time::Duration;
use vstd::prelude::*;

verus! {

/// Missed pulses at which a connection counts as dead.
pub const MAX_MISSED: u8 = 3;

/// Seconds between two heartbeats.
pub const HEARTBEAT_INTERVAL_SECS: u64 = 5;

/// Whether a connection that has missed `missed` pulses in a row counts as dead.
pub open spec fn dead_at(missed: nat) -> bool {
    missed >= MAX_MISSED
}

/// Heartbeat manager for a connection.
#[derive(Debug, Clone, Copy)]
pub struct HeartbeatManager {
    /// Number of missed heartbeats.
    missed_count: u8,
    /// Maximum allowed missed heartbeats before reconnect.
    max_missed: u8,
    /// Interval between heartbeats, in seconds.
    interval: u64,
}

impl HeartbeatManager {
    #[verifier::type_invariant]
    closed spec fn inv(self) -> bool {
        &&& self.max_missed == MAX_MISSED
        &&& self.interval == HEARTBEAT_INTERVAL_SECS
    }

    /// The number of pulses missed since the last reset.
    pub closed spec fn missed(&self) -> nat {
        self.missed_count as nat
    }

    /// Create a new heartbeat manager with nothing missed.
    pub fn new() -> (manager: Self)
        ensures
            manager.missed() == 0,
    {
        Self { missed_count: 0, max_missed: 3, interval: 5 }
    }

    /// The number of pulses missed since the last reset.
    pub fn missed_count(&self) -> (count: u8)
        ensures
            count == self.missed(),
    {
        self.missed_count
    }

    /// Reset the missed heartbeat counter (call when a heartbeat was received).
    pub fn reset(&mut self)
        ensures
            final(self).missed() == 0,
    {
        proof {
            use_type_invariant(&*self);
        }
        self.missed_count = 0;
    }

    /// Increment the missed heartbeat counter and return the new count.
    pub fn increment_missed(&mut self) -> (count: u8)
        requires
            old(self).missed() < u8::MAX,
        ensures
            final(self).missed() == old(self).missed() + 1,
            count == final(self).missed(),
    {
        proof {
            use_type_invariant(&*self);
        }
        self.missed_count = self.missed_count + 1;
        self.missed_count
    }

    /// Check whether the maximum of missed heartbeats is reached.
    pub fn is_dead(&self) -> (dead: bool)
        ensures
            dead == dead_at(self.missed()),
    {
        proof {
            use_type_invariant(self);
        }
        self.missed_count >= self.max_missed
    }

    /// Get the heartbeat interval.
    pub fn interval(&self) -> (span: Duration)
        ensures
            span == duration_of_secs(HEARTBEAT_INTERVAL_SECS),
    {
        proof {
            use_type_invariant(self);
        }
        Duration::from_secs(self.interval)
    }
}

/// A manager is alive after a reset whatever it had missed before, and counting up
/// from there it is dead from the third missed pulse on, and not before.
pub proof fn lemma_dead_from_third_miss(misses: nat)
    ensures
        !dead_at(0),
        dead_at(misses) <==> misses >= 3,
{
}

impl Default for HeartbeatManager {
    fn default() -> (manager: Self)
        ensures
            manager.missed() == 0,
    {
        Self::new()
    }
}

} // verus!
