//! Pacing between rounds: how long the scheduler sleeps after a round so that
//! round starts are spaced by the configured interval, with no catch-up
//! accounting when a round overruns.
use vstd::prelude::*;

verus! {

/// How long the scheduler sleeps after a round that took `elapsed_ns`: the
/// remainder of the interval, or nothing when the round overran it.
pub open spec fn spec_remaining_sleep(interval_ns: int, elapsed_ns: int) -> int {
    if elapsed_ns < interval_ns {
        interval_ns - elapsed_ns
    } else {
        0
    }
}

/// The configured interval between round starts, converted from milliseconds
/// to nanoseconds.
pub fn interval_to_ns(interval_ms: u32) -> (r: u64)
    ensures
        r == interval_ms as int * 1_000_000,
{
    (interval_ms as u64) * 1_000_000
}

/// The sleep that ends a round: the remainder of the interval after the
/// round's own work, or zero when the work already exceeded the interval, in
/// which case the next round starts immediately with no backlog accumulated.
pub fn remaining_sleep_ns(interval_ns: u64, elapsed_ns: u64) -> (r: u64)
    ensures
        r == spec_remaining_sleep(interval_ns as int, elapsed_ns as int),
{
    if elapsed_ns < interval_ns {
        interval_ns - elapsed_ns
    } else {
        0
    }
}

/// Law of round spacing: a round's work plus the sleep that follows it spans
/// exactly the larger of the interval and the round's processing time, and so
/// at least the smaller of the two. No round starts before the prior round's
/// work-plus-sleep has fully elapsed, and consecutive round starts are spaced
/// by at least `min(interval, round_processing_time)`.
pub proof fn lemma_round_spacing(interval_ns: u64, elapsed_ns: u64)
    ensures
        elapsed_ns + spec_remaining_sleep(interval_ns as int, elapsed_ns as int) == (if interval_ns
            >= elapsed_ns {
            interval_ns as int
        } else {
            elapsed_ns as int
        }),
        elapsed_ns + spec_remaining_sleep(interval_ns as int, elapsed_ns as int) >= (if interval_ns
            <= elapsed_ns {
            interval_ns as int
        } else {
            elapsed_ns as int
        }),
{
}

} // verus!
