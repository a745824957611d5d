//! The configuration snapshot a round works from, and the shared constants of
//! the measurement protocol.
use vstd::prelude::*;

verus! {

/// Reserved out-of-range value that marks "no successful measurement" for a
/// target in a result row. Every valid measured duration is strictly below it.
pub const SENTINEL_ERROR: i32 = 2147483647;

/// Fixed timeout for one connection attempt, in milliseconds.
pub const CONNECT_TIMEOUT_MS: u64 = 30_000;

/// The connection timeout in nanoseconds: the upper bound on one recorded
/// attempt duration.
pub const CONNECT_TIMEOUT_NS: u64 = 30_000_000_000;

/// One internally-consistent snapshot of the worker's configuration, read at a
/// single instant at the start of a round. A round never mixes fields from two
/// snapshots: its address list and its version tag always come from the same
/// `TargetOptions` value.
#[derive(Clone, Debug)]
pub struct TargetOptions {
    /// Milliseconds between round starts.
    pub interval: u32,
    /// Number of timed attempts averaged into one target's per-round outcome.
    pub avg_across: u32,
    /// Milliseconds slept between consecutive attempts on one target.
    pub pause: u32,
    /// Ordered list of target addresses probed each round.
    pub addrs: Vec<String>,
    /// Monotonic counter identifying the configuration version this snapshot
    /// was taken from.
    pub nonce: i32,
}

impl TargetOptions {
    /// The snapshot admits a result row: three header fields plus one value
    /// per address must fit in a vector.
    pub open spec fn wf(&self) -> bool {
        self.addrs@.len() <= usize::MAX - 3
    }
}

} // verus!
