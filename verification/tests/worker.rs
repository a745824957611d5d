use tcpping::clock::elapsed_ns;
use tcpping::clock::monotonic_now_ns;
use tcpping::clock::round_timestamp;
use tcpping::clock::truncate_timestamp;
use tcpping::options::CONNECT_TIMEOUT_NS;
use tcpping::options::SENTINEL_ERROR;
use tcpping::options::TargetOptions;
use tcpping::pacing::interval_to_ns;
use tcpping::pacing::remaining_sleep_ns;
use tcpping::probe::probe_outcome;
use tcpping::probe::success_attempt;
use tcpping::probe::AttemptResult;
use tcpping::row::assemble_round_row;
use tcpping::row::assemble_row;

fn snapshot(addrs: Vec<String>, nonce: i32) -> TargetOptions {
    TargetOptions { interval: 1000, avg_across: 2, pause: 0, addrs, nonce }
}

#[test]
fn truncated_mean_of_three_fast_attempts() {
    // Three attempts of ~10ms each average to 10000 microseconds.
    let attempts = vec![
        AttemptResult::Success { elapsed_ns: 10_000_000 },
        AttemptResult::Success { elapsed_ns: 10_000_000 },
        AttemptResult::Success { elapsed_ns: 10_000_000 },
    ];
    assert_eq!(probe_outcome(&attempts), Some(10_000));
}

#[test]
fn mean_is_integer_truncated() {
    // (1500 + 1600) / 2 = 1550 ns, truncated to 1 microsecond.
    let attempts = vec![
        AttemptResult::Success { elapsed_ns: 1500 },
        AttemptResult::Success { elapsed_ns: 1600 },
    ];
    assert_eq!(probe_outcome(&attempts), Some(1));
}

#[test]
fn failures_excluded_from_mean() {
    // Only the two successes are averaged: (3000 + 4000) / 2 = 3500 ns -> 3 us.
    let attempts = vec![
        AttemptResult::Success { elapsed_ns: 3000 },
        AttemptResult::ConnectFailed,
        AttemptResult::Success { elapsed_ns: 4000 },
    ];
    assert_eq!(probe_outcome(&attempts), Some(3));
}

#[test]
fn no_attempts_yields_no_data() {
    let attempts: Vec<AttemptResult> = vec![];
    assert_eq!(probe_outcome(&attempts), None);
}

#[test]
fn unresolvable_target_yields_no_data() {
    let attempts = vec![AttemptResult::NoResolution, AttemptResult::NoResolution];
    assert_eq!(probe_outcome(&attempts), None);
}

#[test]
fn unresolvable_target_row_sentinel() {
    // A target that never resolves is encoded as the sentinel in every round.
    let opts = snapshot(vec!["nonexistent.invalid:9999".to_string()], 3);
    for ts in [1_700_000_000, 1_700_000_001] {
        let outcome = probe_outcome(&vec![AttemptResult::NoResolution, AttemptResult::NoResolution]);
        let row = assemble_round_row(2, &opts, ts, &vec![outcome]);
        assert_eq!(row.0, vec![2, 3, ts, SENTINEL_ERROR]);
    }
}

#[test]
fn reliable_target_never_sentinel() {
    // A target that always connects quickly yields the exact truncated mean,
    // never the sentinel, round after round.
    let opts = snapshot(vec!["127.0.0.1:80".to_string()], 9);
    for ts in [100, 101, 102] {
        let attempts = vec![
            AttemptResult::Success { elapsed_ns: 2_000_000 },
            AttemptResult::Success { elapsed_ns: 4_000_000 },
        ];
        let outcome = probe_outcome(&attempts);
        assert_eq!(outcome, Some(3_000));
        let row = assemble_round_row(1, &opts, ts, &vec![outcome]);
        assert_ne!(row.0[3], SENTINEL_ERROR);
        assert_eq!(row.0[3], 3_000);
    }
}

#[test]
fn mixed_round_row() {
    // One loopback target that accepts and one invalid host that never
    // resolves, probed twice each with no pause: the row is
    // [kind, version, timestamp, small value, sentinel].
    let opts = snapshot(
        vec!["127.0.0.1:7".to_string(), "nonexistent.invalid:9999".to_string()],
        1,
    );
    let fast = probe_outcome(&vec![
        AttemptResult::Success { elapsed_ns: 150_000 },
        AttemptResult::Success { elapsed_ns: 250_000 },
    ]);
    let failed = probe_outcome(&vec![AttemptResult::NoResolution, AttemptResult::NoResolution]);
    let ts = 1_700_000_000;
    let row = assemble_round_row(5, &opts, ts, &vec![fast, failed]);
    assert_eq!(row.0.len(), 3 + opts.addrs.len());
    assert_eq!(row.0, vec![5, 1, ts, 200, SENTINEL_ERROR]);
}

#[test]
fn row_length_is_three_plus_targets() {
    let empty = assemble_round_row(0, &snapshot(vec![], 0), 0, &vec![]);
    assert_eq!(empty.0.len(), 3);
    let three = assemble_row(0, 0, 0, &vec![Some(1), None, Some(2)]);
    assert_eq!(three.0.len(), 6);
}

#[test]
fn row_values_in_valid_range() {
    let outcomes = vec![Some(0), Some(30_000_000), None, Some(SENTINEL_ERROR - 1)];
    let row = assemble_row(7, 1, 0, &outcomes);
    for v in &row.0[3..] {
        assert!((0 <= *v && *v < SENTINEL_ERROR) || *v == SENTINEL_ERROR);
    }
    assert_eq!(row.0[5], SENTINEL_ERROR);
}

#[test]
fn row_version_matches_snapshot() {
    // The version tag in a row is the one captured with that round's address
    // list: two successive snapshots yield rows tagged with their own nonce.
    let first = snapshot(vec!["a:1".to_string()], 7);
    let second = snapshot(vec!["a:1".to_string(), "b:2".to_string()], 8);
    let row1 = assemble_round_row(1, &first, 10, &vec![None]);
    let row2 = assemble_round_row(1, &second, 11, &vec![None, None]);
    assert_eq!(row1.0[1], 7);
    assert_eq!(row2.0[1], 8);
}

#[test]
fn pacing_fills_interval() {
    // A fast round sleeps the remainder of the interval: work plus sleep
    // spans exactly the interval.
    let interval = interval_to_ns(1000);
    assert_eq!(interval, 1_000_000_000);
    let elapsed = 300_000_000;
    let sleep = remaining_sleep_ns(interval, elapsed);
    assert_eq!(sleep, 700_000_000);
    assert_eq!(elapsed + sleep, interval);
}

#[test]
fn overrun_round_sleeps_zero() {
    // A round that overran the interval starts the next round immediately.
    let sleep = remaining_sleep_ns(1_000_000_000, 2_500_000_000);
    assert_eq!(sleep, 0);
}

#[test]
fn timestamp_truncation() {
    assert_eq!(truncate_timestamp(1_700_000_000), 1_700_000_000);
    assert_eq!(truncate_timestamp(0), 0);
    assert_eq!(truncate_timestamp(-5), -5);
    // Out of the 32-bit range, the value wraps as a narrowing cast does.
    assert_eq!(truncate_timestamp(2_147_483_648), i32::MIN);
}

#[test]
fn elapsed_saturates() {
    assert_eq!(elapsed_ns(5, 12), 7);
    assert_eq!(elapsed_ns(12, 5), 0);
    assert_eq!(elapsed_ns(9, 9), 0);
}

#[test]
fn attempt_clamped_to_timeout() {
    match success_attempt(40_000_000_000) {
        AttemptResult::Success { elapsed_ns } => assert_eq!(elapsed_ns, CONNECT_TIMEOUT_NS),
        _ => panic!("expected a successful attempt"),
    }
    match success_attempt(5) {
        AttemptResult::Success { elapsed_ns } => assert_eq!(elapsed_ns, 5),
        _ => panic!("expected a successful attempt"),
    }
}

#[test]
fn clocks_run() {
    // The wall clock reads a positive epoch timestamp, and the
    // high-resolution counter pair reduces to a bounded duration.
    let ts = round_timestamp();
    assert!(ts > 0);
    let start = monotonic_now_ns();
    let end = monotonic_now_ns();
    let d = elapsed_ns(start, end);
    assert!(d < 10_000_000_000);
}
