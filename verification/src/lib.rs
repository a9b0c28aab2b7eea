//! Core engine of a personal-finance tracker: reconstruction of dense daily
//! balance series from sparse snapshots, windowed activity deltas, portfolio
//! aggregation, and a deterministic synthetic-history generator.
//!
//! Dates are represented throughout as day numbers: an `i64` count of days,
//! so that adding `n` days to a date is plain integer addition. Monetary
//! amounts are `i64` minor currency units (e.g. pennies).

use vstd::prelude::*;

pub mod aggregate;
pub mod api;
pub mod backup;
pub mod dashboard;
pub mod names;
pub mod series;
pub mod synth;
pub mod text;
pub mod types;
pub mod windows;

verus! {

/// The number of days in the longest activity window shown per account.
pub const FULL_ACTIVITY_DAYS: usize = 180;

/// Smallest day-number accepted as a date, guarding date arithmetic
/// against overflow far outside any calendar in use.
pub const MIN_DAY: i64 = -4_000_000_000;

/// Largest day-number accepted as a date.
pub const MAX_DAY: i64 = 4_000_000_000;

/// A day-number is a date when it lies in the supported calendar range.
pub open spec fn valid_day(d: i64) -> bool {
    MIN_DAY <= d <= MAX_DAY
}

} // verus!
