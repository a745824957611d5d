//! The address prober's outcome reduction: a bounded number of timed
//! connection attempts against one target is reduced to a single latency
//! value, the truncated integer mean of the successful attempts in
//! microseconds, or to "no data" when every attempt failed.
use vstd::prelude::*;

use crate::options::CONNECT_TIMEOUT_NS;
use crate::options::SENTINEL_ERROR;
use crate::row::row_value;

verus! {

/// What one timed connection attempt against a target came to.
#[derive(Clone, Copy, PartialEq, Eq, Structural, Debug)]
pub enum AttemptResult {
    /// The address resolved and the connection was established within the
    /// timeout; the handshake took this many nanoseconds.
    Success { elapsed_ns: u64 },
    /// The address did not resolve to any socket address.
    NoResolution,
    /// The connection attempt failed or timed out.
    ConnectFailed,
}

/// Whether an attempt produced a measurement.
pub open spec fn is_success(a: AttemptResult) -> bool {
    a is Success
}

/// The duration an attempt measured: its elapsed nanoseconds on success,
/// nothing counted on failure.
pub open spec fn attempt_ns(a: AttemptResult) -> int {
    match a {
        AttemptResult::Success { elapsed_ns } => elapsed_ns as int,
        _ => 0,
    }
}

/// A recorded attempt never exceeds the connection timeout: the attempt is
/// bounded by the timeout, and [`success_attempt`] clamps the measured value
/// to it.
pub open spec fn attempt_within_timeout(a: AttemptResult) -> bool {
    is_success(a) ==> attempt_ns(a) <= CONNECT_TIMEOUT_NS
}

/// How many of the attempts succeeded.
pub open spec fn success_count(s: Seq<AttemptResult>) -> int
    decreases s.len(),
{
    if s.len() == 0 {
        0
    } else {
        success_count(s.drop_last()) + if is_success(s.last()) {
            1int
        } else {
            0int
        }
    }
}

/// The summed nanoseconds of the successful attempts.
pub open spec fn success_sum_ns(s: Seq<AttemptResult>) -> int
    decreases s.len(),
{
    if s.len() == 0 {
        0
    } else {
        success_sum_ns(s.drop_last()) + if is_success(s.last()) {
            attempt_ns(s.last())
        } else {
            0int
        }
    }
}

/// The single value a target's round reduces to when at least one attempt
/// succeeded: the truncated integer mean of the successful attempts'
/// durations, converted to whole microseconds.
pub open spec fn mean_micros(s: Seq<AttemptResult>) -> int {
    success_sum_ns(s) / success_count(s) / 1000
}

/// What a sequence of attempts reduces to: the truncated mean in microseconds
/// when any attempt succeeded, and nothing when all failed.
pub open spec fn spec_probe_outcome(s: Seq<AttemptResult>) -> Option<i32> {
    if success_count(s) > 0 {
        Some(mean_micros(s) as i32)
    } else {
        None
    }
}

/// Records a successful attempt. The measured duration is clamped to the
/// connection timeout, which bounds every attempt by design: a value above it
/// can only come from slack in reading the counter around a timed-out wait.
pub fn success_attempt(elapsed_ns: u64) -> (r: AttemptResult)
    ensures
        is_success(r),
        attempt_ns(r) == if elapsed_ns <= CONNECT_TIMEOUT_NS {
            elapsed_ns as int
        } else {
            CONNECT_TIMEOUT_NS as int
        },
        attempt_within_timeout(r),
{
    if elapsed_ns <= CONNECT_TIMEOUT_NS {
        AttemptResult::Success { elapsed_ns }
    } else {
        AttemptResult::Success { elapsed_ns: CONNECT_TIMEOUT_NS }
    }
}

/// Every attempt in the sequence respects the timeout bound.
pub open spec fn attempts_within_timeout(s: Seq<AttemptResult>) -> bool {
    forall|i: int| 0 <= i < s.len() ==> attempt_within_timeout(#[trigger] s[i])
}

/// The successful attempts number at most the attempts, and their summed
/// durations stay under that count times the timeout.
pub proof fn lemma_success_bounds(s: Seq<AttemptResult>)
    requires
        attempts_within_timeout(s),
    ensures
        0 <= success_count(s) <= s.len(),
        0 <= success_sum_ns(s) <= success_count(s) * (CONNECT_TIMEOUT_NS as int),
    decreases s.len(),
{
    if s.len() > 0 {
        assert(attempts_within_timeout(s.drop_last())) by {
            assert(forall|i: int|
                0 <= i < s.len() - 1 ==> s.drop_last()[i] == #[trigger] s[i]);
        }
        lemma_success_bounds(s.drop_last());
        assert(s[s.len() - 1] == s.last());
    }
}

/// Reduces one target's attempts for a round to its row value: the truncated
/// mean of the successful attempts in microseconds, or `None` when every
/// attempt failed. A returned value is always a valid duration, in
/// `[0, SENTINEL_ERROR)`.
pub fn probe_outcome(attempts: &Vec<AttemptResult>) -> (r: Option<i32>)
    requires
        attempts_within_timeout(attempts@),
    ensures
        r == spec_probe_outcome(attempts@),
        r is Some <==> success_count(attempts@) > 0,
        r matches Some(v) ==> 0 <= v < SENTINEL_ERROR && v as int == mean_micros(attempts@),
{
    let mut sum: u128 = 0;
    let mut count: usize = 0;
    let mut i: usize = 0;
    while i < attempts.len()
        invariant
            attempts_within_timeout(attempts@),
            0 <= i <= attempts@.len(),
            count == success_count(attempts@.take(i as int)),
            sum == success_sum_ns(attempts@.take(i as int)),
            count <= i,
            sum as int <= count as int * (CONNECT_TIMEOUT_NS as int),
        decreases attempts@.len() - i,
    {
        let ghost prefix = attempts@.take(i as int);
        let ghost next_prefix = attempts@.take(i as int + 1);
        proof {
            assert(next_prefix.drop_last() =~= prefix);
            assert(next_prefix.last() == attempts@[i as int]);
        }
        match attempts[i] {
            AttemptResult::Success { elapsed_ns } => {
                assert(elapsed_ns <= CONNECT_TIMEOUT_NS);
                sum = sum + elapsed_ns as u128;
                count = count + 1;
            },
            AttemptResult::NoResolution => {},
            AttemptResult::ConnectFailed => {},
        }
        i = i + 1;
    }
    proof {
        assert(attempts@.take(attempts@.len() as int) =~= attempts@);
    }
    if count > 0 {
        let mean_ns: u128 = sum / (count as u128);
        let micros: u128 = mean_ns / 1000;
        proof {
            lemma_mean_micros_in_range(sum as int, count as int);
            assert(micros == mean_micros(attempts@));
        }
        Some(micros as i32)
    } else {
        None
    }
}

/// Law of the unreachable target: when no attempt in a round succeeds — in
/// particular for a target whose address never resolves — the round reduces to
/// no measurement, and its place in the result row holds exactly the sentinel.
pub proof fn lemma_failed_target_yields_sentinel(s: Seq<AttemptResult>)
    requires
        forall|i: int| 0 <= i < s.len() ==> !is_success(#[trigger] s[i]),
    ensures
        spec_probe_outcome(s) is None,
        row_value(spec_probe_outcome(s)) == SENTINEL_ERROR,
    decreases s.len(),
{
    if s.len() > 0 {
        assert(forall|i: int|
            0 <= i < s.len() - 1 ==> s.drop_last()[i] == #[trigger] s[i]);
        lemma_failed_target_yields_sentinel(s.drop_last());
        assert(s[s.len() - 1] == s.last());
    }
}

/// Law of the reliable target: when every attempt in a non-empty round
/// succeeds within the timeout, the round reduces to a measurement — never the
/// sentinel — and that measurement is exactly the truncated mean of the
/// attempts' durations in microseconds.
pub proof fn lemma_reliable_target_yields_measurement(s: Seq<AttemptResult>)
    requires
        s.len() > 0,
        forall|i: int| 0 <= i < s.len() ==> is_success(#[trigger] s[i]),
        attempts_within_timeout(s),
    ensures
        spec_probe_outcome(s) matches Some(v) && 0 <= v < SENTINEL_ERROR && v as int == mean_micros(
            s,
        ),
        row_value(spec_probe_outcome(s)) != SENTINEL_ERROR,
{
    lemma_success_count_all(s);
    lemma_success_bounds(s);
    lemma_mean_micros_in_range(success_sum_ns(s), success_count(s));
}

/// The truncated mean of a round whose summed durations respect the timeout
/// bound is a valid duration: non-negative, at most the timeout in
/// microseconds, and strictly below the sentinel.
proof fn lemma_mean_micros_in_range(sum: int, count: int)
    requires
        0 < count,
        0 <= sum <= count * (CONNECT_TIMEOUT_NS as int),
    ensures
        0 <= sum / count / 1000 <= CONNECT_TIMEOUT_NS as int / 1000,
        sum / count / 1000 < SENTINEL_ERROR,
{
    let t: int = CONNECT_TIMEOUT_NS as int;
    assert(count * t == t * count) by (nonlinear_arith);
    vstd::arithmetic::div_mod::lemma_div_is_ordered(sum, t * count, count);
    vstd::arithmetic::div_mod::lemma_div_by_multiple(t, count);
    vstd::arithmetic::div_mod::lemma_div_basics_4(sum, count);
    vstd::arithmetic::div_mod::lemma_div_is_ordered(sum / count, t, 1000);
    vstd::arithmetic::div_mod::lemma_div_basics_4(sum / count, 1000);
}

/// When every attempt succeeds, the success count is the attempt count.
proof fn lemma_success_count_all(s: Seq<AttemptResult>)
    requires
        forall|i: int| 0 <= i < s.len() ==> is_success(#[trigger] s[i]),
    ensures
        success_count(s) == s.len(),
    decreases s.len(),
{
    if s.len() > 0 {
        assert(forall|i: int|
            0 <= i < s.len() - 1 ==> s.drop_last()[i] == #[trigger] s[i]);
        lemma_success_count_all(s.drop_last());
        assert(s[s.len() - 1] == s.last());
    }
}

} // verus!
