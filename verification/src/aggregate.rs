//! Portfolio aggregation: each account's sparse observations are resampled
//! independently over a shared range, and same-day values are summed across
//! accounts, an unknown day contributing 0 — an account with no data yet
//! simply does not take part in that day's total.

use vstd::prelude::*;
use std::collections::HashMap;
use crate::series::{filled_values_for_period, resampled_series};
use crate::types::DashboardBalancePointDto;

verus! {

/// A known value contributes itself, an unknown day contributes 0.
pub open spec fn known_or_zero(v: Option<i64>) -> int {
    match v {
        Some(x) => x as int,
        None => 0,
    }
}

/// The entry of `s` at `i`, counted as 0 outside the series.
pub open spec fn at_or_zero(s: Seq<Option<i64>>, i: int) -> int {
    if 0 <= i < s.len() {
        known_or_zero(s[i])
    } else {
        0
    }
}

/// The portfolio total at day index `i`: the sum over all series of their
/// day-`i` value, unknown days counting 0.
pub open spec fn column_total(series_list: Seq<Seq<Option<i64>>>, i: int) -> int
    decreases series_list.len(),
{
    if series_list.len() == 0 {
        0
    } else {
        column_total(series_list.drop_last(), i) + at_or_zero(series_list.last(), i)
    }
}

/// The views of a list of series vectors.
pub open spec fn views_of(l: Seq<Vec<Option<i64>>>) -> Seq<Seq<Option<i64>>> {
    l.map_values(|v: Vec<Option<i64>>| v@)
}

/// Every column total over `n` days lies within `i64`.
pub open spec fn totals_fit(series_list: Seq<Seq<Option<i64>>>, n: int) -> bool {
    forall|i: int| 0 <= i < n ==> i64::MIN <= #[trigger] column_total(series_list, i) <= i64::MAX
}

/// The magnitude of a column total is at most the number of series times
/// the largest `i64` magnitude.
proof fn lemma_column_total_bound(series_list: Seq<Seq<Option<i64>>>, i: int)
    ensures
        -(series_list.len() * 0x8000_0000_0000_0000) <= column_total(series_list, i)
            <= series_list.len() * 0x8000_0000_0000_0000,
    decreases series_list.len(),
{
    if series_list.len() > 0 {
        lemma_column_total_bound(series_list.drop_last(), i);
        assert((series_list.len() - 1) * 0x8000_0000_0000_0000 + 0x8000_0000_0000_0000
            == series_list.len() * 0x8000_0000_0000_0000) by (nonlinear_arith);
    }
}

proof fn lemma_column_total_push(series_list: Seq<Seq<Option<i64>>>, s: Seq<Option<i64>>, i: int)
    ensures
        column_total(series_list.push(s), i) == column_total(series_list, i) + at_or_zero(s, i),
{
    assert(series_list.push(s).drop_last() =~= series_list);
    assert(series_list.push(s).last() == s);
}

/// Sum a list of equal-length daily series elementwise, an unknown day
/// contributing 0. Returns `None` exactly when some day's total falls
/// outside the `i64` range.
pub fn sum_filled(series_list: &Vec<Vec<Option<i64>>>, points: usize) -> (r: Option<Vec<i64>>)
    requires
        forall|k: int| 0 <= k < series_list@.len() ==> #[trigger] series_list@[k]@.len() == points,
    ensures
        r is Some <==> totals_fit(views_of(series_list@), points as int),
        r is Some ==> {
            &&& r->Some_0@.len() == points
            &&& forall|i: int| 0 <= i < points
                ==> #[trigger] r->Some_0@[i] == column_total(views_of(series_list@), i)
        },
{
    let ghost all_views = views_of(series_list@);
    let mut totals: Vec<i128> = Vec::new();
    let mut i: usize = 0;
    while i < points
        invariant
            totals@.len() == i,
            i <= points,
            forall|j: int| 0 <= j < i ==> totals@[j] == 0,
        decreases points - i,
    {
        totals.push(0i128);
        i = i + 1;
    }

    let n = series_list.len();
    let mut k: usize = 0;
    while k < n
        invariant
            n == series_list@.len(),
            k <= n,
            totals@.len() == points,
            forall|kk: int| 0 <= kk < n ==> #[trigger] series_list@[kk]@.len() == points,
            all_views == views_of(series_list@),
            forall|i: int| 0 <= i < points
                ==> #[trigger] totals@[i] == column_total(all_views.take(k as int), i),
        decreases n - k,
    {
        let row = &series_list[k];
        let mut i: usize = 0;
        while i < points
            invariant
                n == series_list@.len(),
                k < n,
                row == series_list@[k as int],
                row@.len() == points,
                totals@.len() == points,
                all_views == views_of(series_list@),
                forall|j: int| i <= j < points
                    ==> #[trigger] totals@[j] == column_total(all_views.take(k as int), j),
                forall|j: int| 0 <= j < i
                    ==> #[trigger] totals@[j] == column_total(all_views.take(k as int + 1), j),
            decreases points - i,
        {
            proof {
                assert(all_views.take(k as int + 1).drop_last() =~= all_views.take(k as int));
                assert(all_views.take(k as int + 1).last() == all_views[k as int]);
                assert(all_views[k as int] == row@);
                lemma_column_total_bound(all_views.take(k as int), i as int);
                assert(all_views.take(k as int).len() * 0x8000_0000_0000_0000
                    <= 0xffff_ffff_ffff_ffff * 0x8000_0000_0000_0000) by (nonlinear_arith)
                    requires all_views.take(k as int).len() <= 0xffff_ffff_ffff_ffff;
            }
            let add_v: i128 = match row[i] {
                Some(v) => v as i128,
                None => 0,
            };
            let cur = totals[i];
            totals.set(i, cur + add_v);
            i = i + 1;
        }
        k = k + 1;
    }
    proof {
        assert(all_views.take(n as int) =~= all_views);
    }

    let mut out: Vec<i64> = Vec::new();
    let mut i: usize = 0;
    while i < points
        invariant
            totals@.len() == points,
            i <= points,
            out@.len() == i,
            forall|j: int| 0 <= j < points ==> #[trigger] totals@[j] == column_total(all_views, j),
            all_views == views_of(series_list@),
            forall|j: int| 0 <= j < i
                ==> i64::MIN <= #[trigger] column_total(all_views, j) <= i64::MAX,
            forall|j: int| 0 <= j < i ==> #[trigger] out@[j] == column_total(all_views, j),
        decreases points - i,
    {
        let t = totals[i];
        if t < i64::MIN as i128 || t > i64::MAX as i128 {
            return None;
        }
        out.push(t as i64);
        i = i + 1;
    }
    Some(out)
}

/// Portfolio additivity: the totals of the union of two disjoint account
/// collections equal the elementwise sum of each collection's totals.
/// Disjoint unions of account sets are modelled by list concatenation.
pub proof fn lemma_aggregate_additive(
    a: Seq<Seq<Option<i64>>>,
    b: Seq<Seq<Option<i64>>>,
    i: int,
)
    ensures
        column_total(a + b, i) == column_total(a, i) + column_total(b, i),
    decreases b.len(),
{
    if b.len() == 0 {
        assert(a + b =~= a);
    } else {
        assert((a + b).drop_last() =~= a + b.drop_last());
        assert((a + b).last() == b.last());
        lemma_aggregate_additive(a, b.drop_last(), i);
    }
}

/// Per-account input to the aggregator: the account's sparse observations
/// in the shared range, and its last known balance strictly before it.
pub struct AccountSeriesInput {
    pub observations: HashMap<i64, i64>,
    pub seed_before: Option<i64>,
}

/// The dense series an aggregator input resamples to.
pub open spec fn input_series(inp: AccountSeriesInput, start: int, n: nat) -> Seq<Option<i64>> {
    resampled_series(inp.observations@, inp.seed_before, start, n)
}

/// The dense series of every aggregator input.
pub open spec fn input_series_list(
    inputs: Seq<AccountSeriesInput>,
    start: int,
    n: nat,
) -> Seq<Seq<Option<i64>>> {
    inputs.map_values(|inp: AccountSeriesInput| input_series(inp, start, n))
}

/// Number of days in the inclusive range from `start` to `end`, 0 when the
/// range is reversed.
pub open spec fn range_points(start: int, end: int) -> int {
    if end < start {
        0
    } else {
        end - start + 1
    }
}

/// The portfolio balance series over the inclusive day range `start..=end`:
/// each account resampled independently with its own seed, then summed per
/// day with unknown days contributing 0. A reversed range yields an empty
/// result, not an error; `None` is returned exactly when some day's total
/// overflows the `i64` minor-unit range.
pub fn total_balance_over_time(
    inputs: &Vec<AccountSeriesInput>,
    start: i64,
    end: i64,
) -> (r: Option<Vec<DashboardBalancePointDto>>)
    requires
        range_points(start as int, end as int) <= usize::MAX,
    ensures
        r is Some <==> totals_fit(
            input_series_list(inputs@, start as int, range_points(start as int, end as int) as nat),
            range_points(start as int, end as int),
        ),
        r is Some ==> {
            &&& r->Some_0@.len() == range_points(start as int, end as int)
            &&& forall|i: int|
                #![trigger r->Some_0@[i]]
                0 <= i < range_points(start as int, end as int)
                    ==> r->Some_0@[i].date == start + i && r->Some_0@[i].balance_minor
                        == column_total(
                        input_series_list(
                            inputs@,
                            start as int,
                            range_points(start as int, end as int) as nat,
                        ),
                        i,
                    )
        },
{
    if end < start {
        let empty: Vec<DashboardBalancePointDto> = Vec::new();
        return Some(empty);
    }

    let points: usize = ((end as i128 - start as i128) as usize) + 1;
    let ghost n = points as nat;
    let ghost expected = input_series_list(inputs@, start as int, n);

    let mut series_list: Vec<Vec<Option<i64>>> = Vec::new();
    let cnt = inputs.len();
    let mut k: usize = 0;
    while k < cnt
        invariant
            cnt == inputs@.len(),
            k <= cnt,
            series_list@.len() == k,
            start + points - 1 <= i64::MAX,
            points == n,
            expected == input_series_list(inputs@, start as int, n),
            forall|j: int| 0 <= j < k ==> #[trigger] series_list@[j]@ == expected[j],
            forall|j: int| 0 <= j < k ==> #[trigger] series_list@[j]@.len() == points,
        decreases cnt - k,
    {
        let inp = &inputs[k];
        let s = filled_values_for_period(&inp.observations, inp.seed_before, start, points);
        series_list.push(s);
        k = k + 1;
    }

    proof {
        assert(views_of(series_list@) =~= expected);
    }

    let totals = match sum_filled(&series_list, points) {
        Some(t) => t,
        None => {
            return None;
        },
    };

    let mut out: Vec<DashboardBalancePointDto> = Vec::new();
    let mut i: usize = 0;
    while i < points
        invariant
            i <= points,
            out@.len() == i,
            totals@.len() == points,
            start + points - 1 <= i64::MAX,
            forall|j: int| 0 <= j < points ==> #[trigger] totals@[j] == column_total(expected, j),
            forall|j: int|
                #![trigger out@[j]]
                0 <= j < i ==> out@[j].date == start + j && out@[j].balance_minor
                    == column_total(expected, j),
        decreases points - i,
    {
        let date: i64 = (start as i128 + i as i128) as i64;
        out.push(DashboardBalancePointDto { date, balance_minor: totals[i] });
        i = i + 1;
    }
    Some(out)
}

} // verus!
