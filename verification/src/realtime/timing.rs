//! Whole-second durations, as the connection logic hands them to timers.

use std::time::Duration;
use vstd::prelude::*;

verus! {

/// Names the value that `Duration::from_secs` returns for a number of whole seconds.
pub uninterp spec fn duration_of_secs(secs: u64) -> Duration;

/// `Duration::from_secs` builds a span of exactly `secs` whole seconds. It depends on
/// its argument alone, so the contract only ties the result to that name.
pub assume_specification[ Duration::from_secs ](secs: u64) -> (span: Duration)
    ensures
        span == duration_of_secs(secs),
;

} // verus!
