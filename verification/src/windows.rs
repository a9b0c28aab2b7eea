//! Activity windows: trailing slices of a dense daily series and their
//! first-known-to-last-known deltas. A window never re-queries storage; it
//! only slices a series that was already built, so overlapping windows agree
//! on the days they share.

use vstd::prelude::*;
use crate::types::{ActivityDataDto, ActivityPeriod};

verus! {

/// The first known (`Some`) value of a series, scanning forward.
pub open spec fn first_known(s: Seq<Option<i64>>) -> Option<i64>
    decreases s.len(),
{
    if s.len() == 0 {
        None
    } else if s[0] is Some {
        s[0]
    } else {
        first_known(s.drop_first())
    }
}

/// The last known (`Some`) value of a series, scanning backward.
pub open spec fn last_known(s: Seq<Option<i64>>) -> Option<i64>
    decreases s.len(),
{
    if s.len() == 0 {
        None
    } else if s.last() is Some {
        s.last()
    } else {
        last_known(s.drop_last())
    }
}

/// Index where the trailing window of `points` days starts in a series of
/// length `len`: the window is the whole series when it asks for more days
/// than exist.
pub open spec fn window_start(len: int, points: int) -> int {
    if points >= len {
        0
    } else {
        len - points
    }
}

/// The trailing `points` entries of `s` (all of `s` when `points` exceeds
/// its length).
pub open spec fn window_slice(s: Seq<Option<i64>>, points: int) -> Seq<Option<i64>> {
    s.subrange(window_start(s.len() as int, points), s.len() as int)
}

/// The delta a window reports: last known minus first known, or 0 when the
/// window holds no known value at all.
pub open spec fn window_delta_of(s: Seq<Option<i64>>) -> int {
    match (first_known(s), last_known(s)) {
        (Some(f), Some(l)) => l - f,
        _ => 0,
    }
}

/// `window_delta_of` always fits in `i64` arithmetic for this series.
pub open spec fn delta_fits(s: Seq<Option<i64>>) -> bool {
    i64::MIN <= window_delta_of(s) <= i64::MAX
}

/// The first known value of the series, scanning forward.
pub fn find_first_known(values: &Vec<Option<i64>>) -> (r: Option<i64>)
    ensures
        r == first_known(values@),
{
    let n = values.len();
    proof {
        assert(values@.subrange(0, n as int) =~= values@);
    }
    let mut i: usize = 0;
    while i < n
        invariant
            0 <= i <= n,
            n == values@.len(),
            first_known(values@) == first_known(values@.subrange(i as int, n as int)),
        decreases n - i,
    {
        let s = Ghost(values@.subrange(i as int, n as int));
        if let Some(v) = values[i] {
            assert(s@[0] == values@[i as int]);
            return Some(v);
        }
        proof {
            assert(s@[0] == values@[i as int]);
            assert(s@.drop_first() =~= values@.subrange(i + 1, n as int));
        }
        i = i + 1;
    }
    proof {
        assert(values@.subrange(n as int, n as int) =~= Seq::<Option<i64>>::empty());
    }
    None
}

/// The last known value of the series, scanning backward.
pub fn find_last_known(values: &Vec<Option<i64>>) -> (r: Option<i64>)
    ensures
        r == last_known(values@),
{
    let n = values.len();
    proof {
        assert(values@.subrange(0, n as int) =~= values@);
    }
    let mut i: usize = n;
    while i > 0
        invariant
            0 <= i <= n,
            n == values@.len(),
            last_known(values@) == last_known(values@.subrange(0, i as int)),
        decreases i,
    {
        let s = Ghost(values@.subrange(0, i as int));
        if let Some(v) = values[i - 1] {
            assert(s@.last() == values@[i - 1]);
            return Some(v);
        }
        proof {
            assert(s@.last() == values@[i - 1]);
            assert(s@.drop_last() =~= values@.subrange(0, i - 1));
        }
        i = i - 1;
    }
    proof {
        assert(values@.subrange(0, 0) =~= Seq::<Option<i64>>::empty());
    }
    None
}

/// The trailing `points` entries of `series`, unchanged (unknown days
/// preserved); the whole series when it is shorter than `points`.
pub fn window_values(series: &Vec<Option<i64>>, points: usize) -> (r: Vec<Option<i64>>)
    ensures
        r@ == window_slice(series@, points as int),
{
    let len = series.len();
    let start = if points >= len { 0 } else { len - points };
    let mut out: Vec<Option<i64>> = Vec::new();
    let mut i = start;
    while i < len
        invariant
            start <= i <= len,
            len == series@.len(),
            start == window_start(len as int, points as int),
            out@ =~= series@.subrange(start as int, i as int),
        decreases len - i,
    {
        out.push(series[i]);
        i = i + 1;
    }
    proof {
        assert(out@ =~= window_slice(series@, points as int));
    }
    out
}

/// Last known minus first known over the window, 0 when either is absent.
pub fn window_delta(values: &Vec<Option<i64>>) -> (r: i64)
    requires
        delta_fits(values@),
    ensures
        r == window_delta_of(values@),
{
    let first = find_first_known(values);
    let last = find_last_known(values);
    match (first, last) {
        (Some(f), Some(l)) => l - f,
        _ => 0,
    }
}

/// One activity window over a full series: its trailing slice of `points`
/// days and that slice's delta.
pub fn activity_data(series: &Vec<Option<i64>>, points: usize) -> (r: ActivityDataDto)
    requires
        delta_fits(window_slice(series@, points as int)),
    ensures
        r.values@ == window_slice(series@, points as int),
        r.delta_minor == window_delta_of(window_slice(series@, points as int)),
{
    let values = window_values(series, points);
    let delta_minor = window_delta(&values);
    ActivityDataDto { values, delta_minor }
}

/// The four named activity windows over a full series, shortest first.
pub fn activity_by_period(series: &Vec<Option<i64>>) -> (r: Vec<(ActivityPeriod, ActivityDataDto)>)
    requires
        delta_fits(window_slice(series@, 7)),
        delta_fits(window_slice(series@, 30)),
        delta_fits(window_slice(series@, 90)),
        delta_fits(window_slice(series@, 180)),
    ensures
        r@.len() == 4,
        r@[0].0 == ActivityPeriod::P1W && r@[0].1.values@ == window_slice(series@, 7)
            && r@[0].1.delta_minor == window_delta_of(window_slice(series@, 7)),
        r@[1].0 == ActivityPeriod::P1M && r@[1].1.values@ == window_slice(series@, 30)
            && r@[1].1.delta_minor == window_delta_of(window_slice(series@, 30)),
        r@[2].0 == ActivityPeriod::P3M && r@[2].1.values@ == window_slice(series@, 90)
            && r@[2].1.delta_minor == window_delta_of(window_slice(series@, 90)),
        r@[3].0 == ActivityPeriod::P6M && r@[3].1.values@ == window_slice(series@, 180)
            && r@[3].1.delta_minor == window_delta_of(window_slice(series@, 180)),
{
    let mut out: Vec<(ActivityPeriod, ActivityDataDto)> = Vec::new();
    out.push((ActivityPeriod::P1W, activity_data(series, 7)));
    out.push((ActivityPeriod::P1M, activity_data(series, 30)));
    out.push((ActivityPeriod::P3M, activity_data(series, 90)));
    out.push((ActivityPeriod::P6M, activity_data(series, 180)));
    out
}

/// Window containment: for any two window sizes `a <= b`, the shorter
/// window's values are exactly the trailing `a` entries of the longer
/// window's values, so overlapping windows report identical values for the
/// days they share.
pub proof fn lemma_window_containment(s: Seq<Option<i64>>, a: int, b: int)
    requires
        0 <= a <= b,
    ensures
        window_slice(s, a) == window_slice(window_slice(s, b), a),
{
    assert(window_slice(s, a) =~= window_slice(window_slice(s, b), a));
}

} // verus!
