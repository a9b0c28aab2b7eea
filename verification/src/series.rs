//! Dense resampler: turns sparse per-day balance observations into a
//! gap-free daily series by a single left-to-right forward-fill pass.

use vstd::prelude::*;
use std::collections::HashMap;

verus! {

broadcast use vstd::std_specs::hash::group_hash_axioms;

/// The value a forward-fill pass holds after day index `i` of the range
/// starting at day-number `start`: the observation at `start + i` when one
/// exists, otherwise whatever was carried from the previous day (the
/// seed-before value when `i == 0`).
pub open spec fn resampled_at(
    obs: Map<i64, i64>,
    seed_before: Option<i64>,
    start: int,
    i: nat,
) -> Option<i64>
    decreases i,
{
    let day = (start + i) as i64;
    if obs.contains_key(day) {
        Some(obs[day])
    } else if i == 0 {
        seed_before
    } else {
        resampled_at(obs, seed_before, start, (i - 1) as nat)
    }
}

/// The full resampled series of `n` days starting at `start`.
pub open spec fn resampled_series(
    obs: Map<i64, i64>,
    seed_before: Option<i64>,
    start: int,
    n: nat,
) -> Seq<Option<i64>> {
    Seq::new(n, |i: int| resampled_at(obs, seed_before, start, i as nat))
}

/// Forward-fill the sparse observations `snapshots_by_date` (day-number to
/// balance in minor units) into a dense series of `points` days starting at
/// day `period_start`. The running value starts at `initial_before`; a day's
/// observation replaces it; each day appends the current running value, which
/// is `None` only while no seed and no observation at or before that day
/// exists. The result holds exactly `points` entries, so it is empty exactly
/// when no days were asked for.
pub fn filled_values_for_period(
    snapshots_by_date: &HashMap<i64, i64>,
    initial_before: Option<i64>,
    period_start: i64,
    points: usize,
) -> (r: Vec<Option<i64>>)
    requires
        points > 0 ==> period_start + points - 1 <= i64::MAX,
    ensures
        r@ == resampled_series(snapshots_by_date@, initial_before, period_start as int, points as nat),
        r@.len() == points,
        r@.len() == 0 <==> points == 0,
{
    let mut out: Vec<Option<i64>> = Vec::new();
    let mut last: Option<i64> = initial_before;
    for i in 0..points
        invariant
            points > 0 ==> period_start + points - 1 <= i64::MAX,
            out@.len() == i,
            forall|j: int| 0 <= j < i ==> out@[j]
                == resampled_at(snapshots_by_date@, initial_before, period_start as int, j as nat),
            i == 0 ==> last == initial_before,
            i > 0 ==> last
                == resampled_at(snapshots_by_date@, initial_before, period_start as int, (i - 1) as nat),
    {
        let day: i64 = (period_start as i128 + i as i128) as i64;
        if let Some(v) = snapshots_by_date.get(&day) {
            last = Some(*v);
        }
        out.push(last);
    }
    proof {
        assert(out@ =~= resampled_series(
            snapshots_by_date@, initial_before, period_start as int, points as nat,
        ));
    }
    out
}

/// Forward-fill never reverts to unknown: once the series is known at an
/// index, it is known at every later index. The unknown region, if any, is a
/// contiguous prefix before the first observation.
pub proof fn lemma_forward_fill_monotonic(
    obs: Map<i64, i64>,
    seed_before: Option<i64>,
    start: int,
    i: nat,
    j: nat,
)
    requires
        i <= j,
        resampled_at(obs, seed_before, start, i) is Some,
    ensures
        resampled_at(obs, seed_before, start, j) is Some,
    decreases j - i,
{
    if j > i {
        lemma_forward_fill_monotonic(obs, seed_before, start, i, (j - 1) as nat);
    }
}

/// Resampling is a pure function of observations, seed and range: any two
/// series that both satisfy the resampler's postcondition for the same
/// inputs are identical, so repeated calls yield identical output.
pub proof fn lemma_resample_deterministic(
    obs: Map<i64, i64>,
    seed_before: Option<i64>,
    start: int,
    n: nat,
    r1: Seq<Option<i64>>,
    r2: Seq<Option<i64>>,
)
    requires
        r1 == resampled_series(obs, seed_before, start, n),
        r2 == resampled_series(obs, seed_before, start, n),
    ensures
        r1 == r2,
{
}

} // verus!
