//! Resampling, windowing and aggregation behaviour on concrete data.

use std::collections::HashMap;

use worth_core::aggregate::{sum_filled, total_balance_over_time, AccountSeriesInput};
use worth_core::series::filled_values_for_period;
use worth_core::windows::{
    activity_by_period, find_first_known, find_last_known, window_delta, window_values,
};

fn obs(pairs: &[(i64, i64)]) -> HashMap<i64, i64> {
    let mut m = HashMap::new();
    for &(d, v) in pairs {
        m.insert(d, v);
    }
    m
}

#[test]
fn resample_fills_forward_between_observations() {
    let m = obs(&[(0, 100), (3, 130)]);
    let r = filled_values_for_period(&m, None, 0, 5);
    assert_eq!(r, vec![Some(100), Some(100), Some(100), Some(130), Some(130)]);
}

#[test]
fn resample_with_seed_and_no_observations_repeats_seed() {
    let m = obs(&[]);
    let r = filled_values_for_period(&m, Some(50), 0, 3);
    assert_eq!(r, vec![Some(50), Some(50), Some(50)]);
}

#[test]
fn resample_without_seed_or_observations_is_all_unknown() {
    let m = obs(&[]);
    let r = filled_values_for_period(&m, None, 10, 4);
    assert_eq!(r, vec![None, None, None, None]);
}

#[test]
fn resample_output_length_equals_points() {
    let m = obs(&[(2, 7)]);
    for points in [0usize, 1, 2, 5, 40] {
        let r = filled_values_for_period(&m, None, 0, points);
        assert_eq!(r.len(), points);
    }
    assert!(filled_values_for_period(&m, Some(1), 0, 0).is_empty());
}

#[test]
fn resample_never_reverts_to_unknown() {
    let m = obs(&[(4, 9)]);
    let r = filled_values_for_period(&m, None, 0, 10);
    let mut seen_known = false;
    for v in &r {
        if seen_known {
            assert!(v.is_some());
        }
        if v.is_some() {
            seen_known = true;
        }
    }
    assert_eq!(r[3], None);
    assert_eq!(r[4], Some(9));
}

#[test]
fn resample_is_deterministic() {
    let m = obs(&[(1, 5), (7, -3), (9, 22)]);
    let a = filled_values_for_period(&m, Some(2), -3, 20);
    let b = filled_values_for_period(&m, Some(2), -3, 20);
    assert_eq!(a, b);
}

#[test]
fn resample_starting_after_last_observation_repeats_it() {
    let m = obs(&[(0, 100)]);
    let r = filled_values_for_period(&m, Some(100), 50, 3);
    assert_eq!(r, vec![Some(100), Some(100), Some(100)]);
}

#[test]
fn window_delta_spans_first_to_last_known() {
    let values = vec![None, None, Some(100), Some(130)];
    assert_eq!(find_first_known(&values), Some(100));
    assert_eq!(find_last_known(&values), Some(130));
    assert_eq!(window_delta(&values), 30);
}

#[test]
fn window_delta_is_zero_without_known_values() {
    let values: Vec<Option<i64>> = vec![None, None];
    assert_eq!(window_delta(&values), 0);
    let empty: Vec<Option<i64>> = Vec::new();
    assert_eq!(window_delta(&empty), 0);
}

#[test]
fn window_values_takes_the_trailing_entries() {
    let series = vec![Some(1), Some(2), Some(3), Some(4)];
    assert_eq!(window_values(&series, 2), vec![Some(3), Some(4)]);
    assert_eq!(window_values(&series, 4), series.clone());
    assert_eq!(window_values(&series, 9), series.clone());
    assert_eq!(window_values(&series, 0), Vec::<Option<i64>>::new());
}

#[test]
fn shorter_window_is_a_suffix_of_the_longer() {
    let series: Vec<Option<i64>> = (0..12).map(|i| Some(i * 10)).collect();
    let longer = window_values(&series, 6);
    let shorter = window_values(&series, 3);
    assert_eq!(shorter.as_slice(), &longer[3..]);
    let nested = window_values(&longer, 3);
    assert_eq!(shorter, nested);
}

#[test]
fn activity_windows_agree_on_shared_days() {
    let m = obs(&[(0, 1000), (100, 3000), (179, 5000)]);
    let series = filled_values_for_period(&m, None, 0, 180);
    let activity = activity_by_period(&series);
    assert_eq!(activity.len(), 4);
    let month = &activity[1].1;
    let half_year = &activity[3].1;
    assert_eq!(month.values.len(), 30);
    assert_eq!(half_year.values.len(), 180);
    assert_eq!(month.values.as_slice(), &half_year.values[150..]);
    assert_eq!(half_year.delta_minor, 5000 - 1000);
    assert_eq!(month.delta_minor, 5000 - 3000);
}

#[test]
fn aggregate_sums_columns_treating_unknown_as_zero() {
    let a = vec![Some(10), None, Some(20)];
    let b = vec![None, Some(5), Some(5)];
    let totals = sum_filled(&vec![a, b], 3).unwrap();
    assert_eq!(totals, vec![10, 5, 25]);
}

#[test]
fn aggregate_of_concatenated_lists_is_elementwise_sum() {
    let g1 = vec![vec![Some(1), Some(2)], vec![Some(10), None]];
    let g2 = vec![vec![None, Some(-4)], vec![Some(7), Some(7)]];
    let mut both = g1.clone();
    both.extend(g2.clone());
    let s1 = sum_filled(&g1, 2).unwrap();
    let s2 = sum_filled(&g2, 2).unwrap();
    let s = sum_filled(&both, 2).unwrap();
    assert_eq!(s[0], s1[0] + s2[0]);
    assert_eq!(s[1], s1[1] + s2[1]);
}

#[test]
fn aggregate_reports_overflowing_totals() {
    let a = vec![Some(i64::MAX)];
    let b = vec![Some(1)];
    assert_eq!(sum_filled(&vec![a, b], 1), None);
}

#[test]
fn total_balance_over_time_resamples_each_account() {
    let inputs = vec![
        AccountSeriesInput { observations: obs(&[(0, 10), (2, 20)]), seed_before: None },
        AccountSeriesInput { observations: obs(&[(1, 5)]), seed_before: None },
    ];
    let points = total_balance_over_time(&inputs, 0, 2).unwrap();
    assert_eq!(points.len(), 3);
    assert_eq!(points[0].date, 0);
    assert_eq!(points[0].balance_minor, 10);
    assert_eq!(points[1].balance_minor, 15);
    assert_eq!(points[2].balance_minor, 25);
}

#[test]
fn total_balance_over_time_uses_seed_before_the_range() {
    let inputs = vec![
        AccountSeriesInput { observations: obs(&[]), seed_before: Some(40) },
    ];
    let points = total_balance_over_time(&inputs, 5, 6).unwrap();
    assert_eq!(points.len(), 2);
    assert_eq!(points[0].date, 5);
    assert_eq!(points[0].balance_minor, 40);
    assert_eq!(points[1].balance_minor, 40);
}

#[test]
fn total_balance_over_time_reversed_range_is_empty() {
    let inputs = vec![
        AccountSeriesInput { observations: obs(&[(0, 1)]), seed_before: None },
    ];
    let points = total_balance_over_time(&inputs, 3, 2).unwrap();
    assert!(points.is_empty());
}
