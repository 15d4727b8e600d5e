//! Retry pacing for reconnection attempts: exponential backoff with a cap.

use crate::realtime::timing::duration_of_secs;
use std::time::Duration;
use vstd::prelude::*;

verus! {

/// Delay before the first retry, in seconds.
pub const INITIAL_DELAY_SECS: u64 = 2;

/// Largest delay between retries, in seconds.
pub const MAX_DELAY_SECS: u64 = 120;

/// The delay that follows `current` seconds: the initial delay after a rest (zero),
/// otherwise twice the previous delay, held at the cap.
pub open spec fn next_delay_secs(current: nat) -> nat {
    if current == 0 {
        INITIAL_DELAY_SECS as nat
    } else if current * 2 > MAX_DELAY_SECS {
        MAX_DELAY_SECS as nat
    } else {
        current * 2
    }
}

/// The delay handed out by the `n`-th call of `next_delay` since the last rest.
pub open spec fn nth_delay_secs(n: nat) -> nat
    decreases n,
{
    if n == 0 {
        0
    } else {
        next_delay_secs(nth_delay_secs((n - 1) as nat))
    }
}

/// Two to the power `n`.
pub open spec fn pow2(n: nat) -> nat
    decreases n,
{
    if n == 0 {
        1
    } else {
        2 * pow2((n - 1) as nat)
    }
}

/// Manages the reconnection backoff.
#[derive(Debug, Clone, Copy)]
pub struct ReconnectionStrategy {
    /// Current retry delay in seconds; zero while no attempt has been made.
    current_delay: u64,
    /// Delay for the first retry, in seconds.
    initial_delay: u64,
    /// Maximum delay between retries, in seconds.
    max_delay: u64,
}

impl ReconnectionStrategy {
    #[verifier::type_invariant]
    closed spec fn inv(self) -> bool {
        &&& self.initial_delay == INITIAL_DELAY_SECS
        &&& self.max_delay == MAX_DELAY_SECS
        &&& self.current_delay <= self.max_delay
    }

    /// The delay most recently handed out, in seconds; zero after a rest.
    pub closed spec fn current_secs(&self) -> nat {
        self.current_delay as nat
    }

    /// Create a strategy that has made no attempt yet.
    pub fn new() -> (strategy: Self)
        ensures
            strategy.current_secs() == 0,
    {
        Self { current_delay: 0, initial_delay: 2, max_delay: 120 }
    }

    /// Get the next delay and remember it.
    pub fn next_delay(&mut self) -> (delay: Duration)
        ensures
            final(self).current_secs() == next_delay_secs(old(self).current_secs()),
            delay == duration_of_secs(final(self).current_secs() as u64),
    {
        proof {
            use_type_invariant(&*self);
        }
        if self.current_delay == 0 {
            self.current_delay = self.initial_delay;
        } else {
            let doubled: u64 = self.current_delay * 2;
            if doubled > self.max_delay {
                self.current_delay = self.max_delay;
            } else {
                self.current_delay = doubled;
            }
        }
        Duration::from_secs(self.current_delay)
    }

    /// Forget the backoff; the next delay is the initial one again.
    pub fn reset(&mut self)
        ensures
            final(self).current_secs() == 0,
    {
        proof {
            use_type_invariant(&*self);
        }
        self.current_delay = 0;
    }
}

/// Successive delays never shrink and never pass the cap, and the first delay
/// after a rest is the initial one.
pub proof fn lemma_delays_monotone(current: nat)
    requires
        current <= MAX_DELAY_SECS,
    ensures
        current <= next_delay_secs(current) <= MAX_DELAY_SECS,
        next_delay_secs(current) >= INITIAL_DELAY_SECS,
        next_delay_secs(0) == INITIAL_DELAY_SECS,
{
}

/// The first eight delays since a rest are 2, 4, 8, 16, 32, 64, 120 and 120
/// seconds.
pub proof fn lemma_first_delays()
    ensures
        nth_delay_secs(1) == 2,
        nth_delay_secs(2) == 4,
        nth_delay_secs(3) == 8,
        nth_delay_secs(4) == 16,
        nth_delay_secs(5) == 32,
        nth_delay_secs(6) == 64,
        nth_delay_secs(7) == 120,
        nth_delay_secs(8) == 120,
{
    reveal_with_fuel(nth_delay_secs, 9);
}

/// The `n`-th delay since a rest is `2^n` seconds, held at the cap of 120.
pub proof fn lemma_nth_delay(n: nat)
    requires
        n >= 1,
    ensures
        nth_delay_secs(n) == if pow2(n) <= MAX_DELAY_SECS {
            pow2(n)
        } else {
            MAX_DELAY_SECS as nat
        },
    decreases n,
{
    if n > 1 {
        lemma_nth_delay((n - 1) as nat);
        lemma_pow2_grows((n - 1) as nat);
    } else {
        assert(pow2(1) == 2) by {
            reveal_with_fuel(pow2, 2);
        }
        assert(nth_delay_secs(1) == 2) by {
            reveal_with_fuel(nth_delay_secs, 2);
        }
    }
}

/// Powers of two are positive.
pub proof fn lemma_pow2_grows(n: nat)
    ensures
        pow2(n) >= 1,
    decreases n,
{
    if n > 0 {
        lemma_pow2_grows((n - 1) as nat);
    }
}

} // verus!
