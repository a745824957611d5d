//! Result-row assembly: one round's per-target outcomes, in snapshot order,
//! prefixed with the worker's kind identifier, the snapshot's version tag and
//! the round timestamp.
use vstd::prelude::*;

use crate::options::SENTINEL_ERROR;
use crate::options::TargetOptions;

verus! {

/// The single structured output of one round: an ordered sequence of signed
/// 32-bit integers `[kind id, version tag, timestamp, value per target]`. A
/// row is created once per round from a single immutable snapshot and never
/// mutated afterwards.
#[derive(Clone, Debug, PartialEq, Eq)]
pub struct TargetResults(pub Vec<i32>);

impl View for TargetResults {
    type V = Seq<i32>;

    open spec fn view(&self) -> Seq<i32> {
        self.0@
    }
}

/// How a target's outcome is encoded in its row slot: a measured value as
/// itself, "no data" as the reserved sentinel.
pub open spec fn row_value(o: Option<i32>) -> i32 {
    match o {
        Some(v) => v,
        None => SENTINEL_ERROR,
    }
}

/// A measured outcome is a valid duration: within `[0, SENTINEL_ERROR)`.
pub open spec fn outcome_in_range(o: Option<i32>) -> bool {
    o matches Some(v) ==> 0 <= v < SENTINEL_ERROR
}

/// A row value field is a valid duration within `[0, SENTINEL_ERROR)`, or
/// exactly the sentinel.
pub open spec fn value_in_range(v: i32) -> bool {
    (0 <= v < SENTINEL_ERROR) || v == SENTINEL_ERROR
}

/// Assembles one round's result row from the three header fields and the
/// per-target outcomes, in the order given: the row holds the header, then
/// each outcome's encoding in the same position, with "no data" encoded as
/// the sentinel. When every outcome is a valid duration, every value field of
/// the row is within `[0, SENTINEL_ERROR)` or exactly the sentinel.
pub fn assemble_row(kind_id: i32, nonce: i32, timestamp: i32, outcomes: &Vec<Option<i32>>) -> (r:
    TargetResults)
    requires
        outcomes@.len() <= usize::MAX - 3,
    ensures
        r@.len() == 3 + outcomes@.len(),
        r@[0] == kind_id,
        r@[1] == nonce,
        r@[2] == timestamp,
        forall|i: int| 0 <= i < outcomes@.len() ==> r@[3 + i] == row_value(#[trigger] outcomes@[i]),
        (forall|i: int| 0 <= i < outcomes@.len() ==> outcome_in_range(#[trigger] outcomes@[i]))
            ==> (forall|j: int| 3 <= j < r@.len() ==> value_in_range(#[trigger] r@[j])),
{
    let mut data: Vec<i32> = Vec::with_capacity(3 + outcomes.len());
    data.push(kind_id);
    data.push(nonce);
    data.push(timestamp);
    let mut i: usize = 0;
    while i < outcomes.len()
        invariant
            0 <= i <= outcomes@.len(),
            data@.len() == 3 + i,
            data@[0] == kind_id,
            data@[1] == nonce,
            data@[2] == timestamp,
            forall|k: int| 0 <= k < i ==> data@[3 + k] == row_value(#[trigger] outcomes@[k]),
        decreases outcomes@.len() - i,
    {
        match outcomes[i] {
            Some(v) => data.push(v),
            None => data.push(SENTINEL_ERROR),
        }
        i = i + 1;
    }
    proof {
        if forall|k: int| 0 <= k < outcomes@.len() ==> outcome_in_range(#[trigger] outcomes@[k]) {
            assert forall|j: int| 3 <= j < data@.len() implies value_in_range(data@[j]) by {
                let k: int = j - 3;
                assert(outcome_in_range(outcomes@[k]));
                assert(data@[3 + k] == row_value(outcomes@[k]));
            }
        }
    }
    TargetResults(data)
}

/// Assembles the result row of one round from the single snapshot that round
/// was started with: one value slot per snapshot address, in snapshot order,
/// and the snapshot's own version tag in the header. The row's length is
/// exactly three plus the number of addresses in that snapshot, and its
/// version tag is the one in effect when the address list was captured —
/// both come from the same snapshot value, so neither can be stale against
/// the other.
pub fn assemble_round_row(
    kind_id: i32,
    snapshot: &TargetOptions,
    timestamp: i32,
    outcomes: &Vec<Option<i32>>,
) -> (r: TargetResults)
    requires
        snapshot.wf(),
        outcomes@.len() == snapshot.addrs@.len(),
    ensures
        r@.len() == 3 + snapshot.addrs@.len(),
        r@[0] == kind_id,
        r@[1] == snapshot.nonce,
        r@[2] == timestamp,
        forall|i: int| 0 <= i < outcomes@.len() ==> r@[3 + i] == row_value(#[trigger] outcomes@[i]),
        (forall|i: int| 0 <= i < outcomes@.len() ==> outcome_in_range(#[trigger] outcomes@[i]))
            ==> (forall|j: int| 3 <= j < r@.len() ==> value_in_range(#[trigger] r@[j])),
{
    assemble_row(kind_id, snapshot.nonce, timestamp, outcomes)
}

} // verus!
