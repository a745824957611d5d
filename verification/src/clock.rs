//! Clock access for the worker: the wall-clock timestamp a round is tagged
//! with, and the high-resolution counter that times one connection attempt.
use vstd::prelude::*;

verus! {

/// Relies on `chrono::Local::now` and `chrono::DateTime::timestamp`: the
/// current wall-clock time as whole non-leap seconds since the Unix epoch.
/// Nothing is promised of the value: it depends on the machine's clock.
#[verifier::external_body]
fn now_unix_secs() -> i64 {
    chrono::Local::now().timestamp()
}

/// Relies on `time::precise_time_ns`: the current value of a high-resolution
/// performance counter in nanoseconds since an unspecified epoch. Nothing is
/// promised of the value: it is platform-dependent.
#[verifier::external_body]
fn precise_now_ns() -> u64 {
    time::precise_time_ns()
}

/// Reads the high-resolution counter. A caller times an action by reading the
/// counter before and after it and reducing the pair with [`elapsed_ns`].
pub fn monotonic_now_ns() -> u64 {
    precise_now_ns()
}

/// The nanoseconds from `start` to `end` on the high-resolution counter,
/// saturating at zero: the counter is not promised to be monotonic, and a
/// measured duration is never negative.
pub fn elapsed_ns(start: u64, end: u64) -> (r: u64)
    ensures
        r == if start <= end { end - start } else { 0 },
{
    if start <= end {
        end - start
    } else {
        0
    }
}

/// Truncates a seconds-since-epoch value to the signed 32-bit range used in a
/// result row, with the wrapping semantics of a narrowing cast. For every
/// timestamp that fits in 32 bits the value is kept exactly.
pub fn truncate_timestamp(ts: i64) -> (r: i32)
    ensures
        r == ts as i32,
        -2147483648 <= ts <= 2147483647 ==> r as int == ts as int,
{
    #[verifier::truncate]
    (ts as i32)
}

/// The wall-clock timestamp a round is tagged with: the current whole seconds
/// since the Unix epoch, truncated to the signed 32-bit range. The value
/// depends on the machine's clock, so nothing is promised of it.
pub fn round_timestamp() -> i32 {
    truncate_timestamp(now_unix_secs())
}

} // verus!
