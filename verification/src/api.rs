//! Command-level computations: turning raw account and snapshot records
//! into the per-account activity view and the balance-over-time series.
//! These functions take plain values that the storage layer has already
//! fetched and return plain results; they perform no I/O themselves.

use vstd::prelude::*;
use crate::text::str_eq;
use std::collections::HashMap;
use crate::series::{filled_values_for_period, resampled_series, resampled_at};
use crate::windows::{activity_by_period, window_slice, window_delta_of, delta_fits};
use crate::aggregate::known_or_zero;
use crate::types::{
    AccountBalanceSnapshotDto, AccountDto, AccountListRow, AccountSnapshotRow, AccountTypeDto,
    AccountTypeName, ActivityDataDto, ActivityPeriod, ApiError, BalanceOverTimePeriod,
    BalancePointDto, InstitutionDto,
};
use crate::FULL_ACTIVITY_DAYS;

verus! {

/// The classification tag a stored type name denotes, if any.
pub open spec fn spec_account_type(name: Seq<char>) -> Option<AccountTypeName> {
    if name == "current"@ {
        Some(AccountTypeName::Current)
    } else if name == "savings"@ {
        Some(AccountTypeName::Savings)
    } else if name == "credit_card"@ {
        Some(AccountTypeName::CreditCard)
    } else if name == "isa"@ {
        Some(AccountTypeName::Isa)
    } else if name == "investment"@ {
        Some(AccountTypeName::Investment)
    } else if name == "pension"@ {
        Some(AccountTypeName::Pension)
    } else if name == "cash"@ {
        Some(AccountTypeName::Cash)
    } else if name == "loan"@ {
        Some(AccountTypeName::Loan)
    } else {
        None
    }
}

/// Decode a stored account type name into its tag; an unrecognised name is
/// rejected with a validation error carrying the offending value.
pub fn account_type_from_db(name: &str) -> (r: Result<AccountTypeName, ApiError>)
    ensures
        r is Ok <==> spec_account_type(name@) is Some,
        r is Ok ==> Some(r->Ok_0) == spec_account_type(name@),
        r is Err ==> r->Err_0 is Validation && r->Err_0->Validation_0@ == name@,
{
    if str_eq(name, "current") {
        Ok(AccountTypeName::Current)
    } else if str_eq(name, "savings") {
        Ok(AccountTypeName::Savings)
    } else if str_eq(name, "credit_card") {
        Ok(AccountTypeName::CreditCard)
    } else if str_eq(name, "isa") {
        Ok(AccountTypeName::Isa)
    } else if str_eq(name, "investment") {
        Ok(AccountTypeName::Investment)
    } else if str_eq(name, "pension") {
        Ok(AccountTypeName::Pension)
    } else if str_eq(name, "cash") {
        Ok(AccountTypeName::Cash)
    } else if str_eq(name, "loan") {
        Ok(AccountTypeName::Loan)
    } else {
        Err(ApiError::Validation(name.to_owned()))
    }
}

/// The observations of one account among fetched snapshot rows, keyed by
/// day; when rows repeat a day, the later row wins (storage guarantees at
/// most one snapshot per account and day, so repeats are upstream
/// misbehaviour with this documented fallback).
pub open spec fn obs_map_for(rows: Seq<AccountSnapshotRow>, id: i64) -> Map<i64, i64>
    decreases rows.len(),
{
    if rows.len() == 0 {
        Map::empty()
    } else {
        let m = obs_map_for(rows.drop_last(), id);
        let r = rows.last();
        if r.account_id == id {
            m.insert(r.balance_date, r.balance_minor)
        } else {
            m
        }
    }
}

/// The seed-before balance of one account among fetched (account id,
/// balance) pairs: the last matching entry, if any.
pub open spec fn seed_for(entries: Seq<(i64, i64)>, id: i64) -> Option<i64>
    decreases entries.len(),
{
    if entries.len() == 0 {
        None
    } else if entries.last().0 == id {
        Some(entries.last().1)
    } else {
        seed_for(entries.drop_last(), id)
    }
}

/// The dense 180-day series of one account, resampled from the fetched
/// rows with the account's own seed-before value.
pub open spec fn account_series(
    rows: Seq<AccountSnapshotRow>,
    entries: Seq<(i64, i64)>,
    id: i64,
    start: int,
) -> Seq<Option<i64>> {
    resampled_series(obs_map_for(rows, id), seed_for(entries, id), start, FULL_ACTIVITY_DAYS as nat)
}

/// All four window deltas of this series stay within `i64` arithmetic.
pub open spec fn activity_fits(s: Seq<Option<i64>>) -> bool {
    &&& delta_fits(window_slice(s, 7))
    &&& delta_fits(window_slice(s, 30))
    &&& delta_fits(window_slice(s, 90))
    &&& delta_fits(window_slice(s, 180))
}

/// The four activity entries are the windows of `s`, shortest first.
pub open spec fn activity_matches(
    entries: Seq<(ActivityPeriod, ActivityDataDto)>,
    s: Seq<Option<i64>>,
) -> bool {
    &&& entries.len() == 4
    &&& entries[0].0 == ActivityPeriod::P1W && entries[0].1.values@ == window_slice(s, 7)
        && entries[0].1.delta_minor == window_delta_of(window_slice(s, 7))
    &&& entries[1].0 == ActivityPeriod::P1M && entries[1].1.values@ == window_slice(s, 30)
        && entries[1].1.delta_minor == window_delta_of(window_slice(s, 30))
    &&& entries[2].0 == ActivityPeriod::P3M && entries[2].1.values@ == window_slice(s, 90)
        && entries[2].1.delta_minor == window_delta_of(window_slice(s, 90))
    &&& entries[3].0 == ActivityPeriod::P6M && entries[3].1.values@ == window_slice(s, 180)
        && entries[3].1.delta_minor == window_delta_of(window_slice(s, 180))
}

/// The assembled record reports the account's fields unchanged, the
/// fallback policy for missing snapshot dates (today) and balance (0), and
/// activity windows sliced from the account's resampled 180-day series.
pub open spec fn dto_matches(
    dto: AccountDto,
    a: AccountListRow,
    rows: Seq<AccountSnapshotRow>,
    entries: Seq<(i64, i64)>,
    today: i64,
) -> bool {
    &&& dto.id == a.id
    &&& dto.name@ == a.name@
    &&& dto.institution.id == a.institution_id
    &&& dto.institution.name@ == a.institution_name@
    &&& dto.account_type.id == a.type_id
    &&& Some(dto.account_type.name) == spec_account_type(a.account_type_name@)
    &&& dto.currency_code@ == a.currency_code@
    &&& dto.normal_balance_sign == a.normal_balance_sign
    &&& dto.opened_date == a.opened_date
    &&& dto.closed_date == a.closed_date
    &&& dto.first_snapshot_date == (match a.first_snapshot_date {
        Some(d) => d,
        None => today,
    })
    &&& dto.latest_snapshot_date == (match a.latest_snapshot_date {
        Some(d) => d,
        None => today,
    })
    &&& dto.latest_balance_minor == (match a.latest_balance_minor {
        Some(v) => v,
        None => 0,
    })
    &&& activity_matches(dto.activity_by_period@, account_series(rows, entries, a.id, today - 179))
}

/// Assemble one account's record: decode its type tag, resample its
/// snapshots over the trailing 180 days seeded by its last balance before
/// the range, and attach the four activity windows.
pub fn build_account_dto(
    a: &AccountListRow,
    snapshots: &Vec<AccountSnapshotRow>,
    last_before: &Vec<(i64, i64)>,
    today: i64,
) -> (r: Result<AccountDto, ApiError>)
    requires
        crate::valid_day(today),
        activity_fits(account_series(snapshots@, last_before@, a.id, today - 179)),
    ensures
        r is Ok <==> spec_account_type(a.account_type_name@) is Some,
        r is Ok ==> dto_matches(r->Ok_0, *a, snapshots@, last_before@, today),
        r is Err ==> r->Err_0 is Validation
            && r->Err_0->Validation_0@ == a.account_type_name@,
{
    let tag = match account_type_from_db(a.account_type_name.as_str()) {
        Ok(t) => t,
        Err(e) => {
            return Err(e);
        },
    };

    let n = snapshots.len();
    let mut date_map: HashMap<i64, i64> = HashMap::new();
    proof {
        assert(snapshots@.take(0) =~= Seq::<AccountSnapshotRow>::empty());
    }
    let mut k: usize = 0;
    while k < n
        invariant
            k <= n,
            n == snapshots@.len(),
            date_map@ == obs_map_for(snapshots@.take(k as int), a.id),
        decreases n - k,
    {
        proof {
            assert(snapshots@.take(k as int + 1).drop_last() =~= snapshots@.take(k as int));
            assert(snapshots@.take(k as int + 1).last() == snapshots@[k as int]);
        }
        let row = snapshots[k];
        if row.account_id == a.id {
            date_map.insert(row.balance_date, row.balance_minor);
        }
        k = k + 1;
    }
    proof {
        assert(snapshots@.take(n as int) =~= snapshots@);
    }

    let m = last_before.len();
    let mut seed_before: Option<i64> = None;
    proof {
        assert(last_before@.take(0) =~= Seq::<(i64, i64)>::empty());
    }
    let mut k: usize = 0;
    while k < m
        invariant
            k <= m,
            m == last_before@.len(),
            seed_before == seed_for(last_before@.take(k as int), a.id),
        decreases m - k,
    {
        proof {
            assert(last_before@.take(k as int + 1).drop_last() =~= last_before@.take(k as int));
            assert(last_before@.take(k as int + 1).last() == last_before@[k as int]);
        }
        let entry = last_before[k];
        if entry.0 == a.id {
            seed_before = Some(entry.1);
        }
        k = k + 1;
    }
    proof {
        assert(last_before@.take(m as int) =~= last_before@);
    }

    let full_start: i64 = today - 179;
    let series = filled_values_for_period(&date_map, seed_before, full_start, FULL_ACTIVITY_DAYS);
    let activity = activity_by_period(&series);

    Ok(AccountDto {
        id: a.id,
        name: a.name.clone(),
        institution: InstitutionDto { id: a.institution_id, name: a.institution_name.clone() },
        account_type: AccountTypeDto { id: a.type_id, name: tag },
        currency_code: a.currency_code.clone(),
        normal_balance_sign: a.normal_balance_sign,
        opened_date: match a.opened_date {
            Some(d) => Some(d),
            None => None,
        },
        closed_date: match a.closed_date {
            Some(d) => Some(d),
            None => None,
        },
        first_snapshot_date: match a.first_snapshot_date {
            Some(d) => d,
            None => today,
        },
        latest_snapshot_date: match a.latest_snapshot_date {
            Some(d) => d,
            None => today,
        },
        latest_balance_minor: match a.latest_balance_minor {
            Some(v) => v,
            None => 0,
        },
        activity_by_period: activity,
    })
}

/// Assemble the full account list with per-window activity. Every account
/// is resampled over the same trailing 180 days; the whole request fails
/// on the first account whose stored type name is unrecognised.
pub fn accounts_list(
    accounts: &Vec<AccountListRow>,
    snapshots: &Vec<AccountSnapshotRow>,
    last_before: &Vec<(i64, i64)>,
    today: i64,
) -> (r: Result<Vec<AccountDto>, ApiError>)
    requires
        crate::valid_day(today),
        forall|k: int| 0 <= k < accounts@.len() ==> activity_fits(
            #[trigger] account_series(snapshots@, last_before@, accounts@[k].id, today - 179),
        ),
    ensures
        r is Ok <==> (forall|k: int| 0 <= k < accounts@.len()
            ==> (#[trigger] spec_account_type(accounts@[k].account_type_name@)) is Some),
        r is Ok ==> r->Ok_0@.len() == accounts@.len() && (forall|k: int| 0 <= k < accounts@.len()
            ==> dto_matches(
                #[trigger] r->Ok_0@[k], accounts@[k], snapshots@, last_before@, today,
            )),
        r is Err ==> r->Err_0 is Validation && (exists|k: int| 0 <= k < accounts@.len()
            && (#[trigger] spec_account_type(accounts@[k].account_type_name@)) is None
            && r->Err_0->Validation_0@ == accounts@[k].account_type_name@),
{
    let n = accounts.len();
    let mut out: Vec<AccountDto> = Vec::new();
    let mut k: usize = 0;
    while k < n
        invariant
            k <= n,
            n == accounts@.len(),
            out@.len() == k,
            crate::valid_day(today),
            forall|j: int| 0 <= j < n ==> activity_fits(
                #[trigger] account_series(snapshots@, last_before@, accounts@[j].id, today - 179),
            ),
            forall|j: int| 0 <= j < k
                ==> (#[trigger] spec_account_type(accounts@[j].account_type_name@)) is Some,
            forall|j: int| 0 <= j < k ==> dto_matches(
                #[trigger] out@[j], accounts@[j], snapshots@, last_before@, today,
            ),
        decreases n - k,
    {
        match build_account_dto(&accounts[k], snapshots, last_before, today) {
            Ok(dto) => {
                out.push(dto);
            },
            Err(e) => {
                return Err(e);
            },
        }
        k = k + 1;
    }
    Ok(out)
}

/// The behaviour of `account_snapshots_list` once storage has answered:
/// an account that does not exist is reported as not found; otherwise the
/// account's snapshots are returned as fetched.
pub fn account_snapshots_list(
    account_exists: bool,
    rows: Vec<AccountBalanceSnapshotDto>,
) -> (r: Result<Vec<AccountBalanceSnapshotDto>, ApiError>)
    ensures
        r is Ok <==> account_exists,
        account_exists ==> r->Ok_0 == rows,
        !account_exists ==> r->Err_0 == ApiError::NotFound,
{
    if !account_exists {
        return Err(ApiError::NotFound);
    }
    Ok(rows)
}

/// The first day of a per-account balance-over-time query: the period's
/// nominal start (29, 182 or 364 days back, or the account's earliest
/// snapshot for the maximal period), never earlier than that earliest
/// snapshot.
pub open spec fn spec_balance_over_time_start(
    period: BalanceOverTimePeriod,
    today: i64,
    earliest: i64,
) -> int {
    let computed: int = match period {
        BalanceOverTimePeriod::P1M => today - 29,
        BalanceOverTimePeriod::P6M => today - 182,
        BalanceOverTimePeriod::P1Y => today - 364,
        BalanceOverTimePeriod::Max => earliest as int,
    };
    if computed < earliest {
        earliest as int
    } else {
        computed
    }
}

/// See [`spec_balance_over_time_start`].
pub fn balance_over_time_start(
    period: BalanceOverTimePeriod,
    today: i64,
    earliest: i64,
) -> (r: i64)
    requires
        crate::valid_day(today),
    ensures
        r == spec_balance_over_time_start(period, today, earliest),
        r >= earliest,
{
    let computed: i64 = match period {
        BalanceOverTimePeriod::P1M => today - 29,
        BalanceOverTimePeriod::P6M => today - 182,
        BalanceOverTimePeriod::P1Y => today - 364,
        BalanceOverTimePeriod::Max => earliest,
    };
    if computed < earliest {
        earliest
    } else {
        computed
    }
}

/// The first day of the portfolio balance-over-time query: a fixed
/// look-back for the named periods; for the maximal period, the earliest
/// snapshot anywhere, or today when there is none.
pub fn dashboard_balance_over_time_start(
    period: BalanceOverTimePeriod,
    today: i64,
    earliest: Option<i64>,
) -> (r: i64)
    requires
        crate::valid_day(today),
    ensures
        period == BalanceOverTimePeriod::P1M ==> r == today - 29,
        period == BalanceOverTimePeriod::P6M ==> r == today - 182,
        period == BalanceOverTimePeriod::P1Y ==> r == today - 364,
        period == BalanceOverTimePeriod::Max ==> r == (match earliest {
            Some(e) => e,
            None => today,
        }),
{
    match period {
        BalanceOverTimePeriod::P1M => today - 29,
        BalanceOverTimePeriod::P6M => today - 182,
        BalanceOverTimePeriod::P1Y => today - 364,
        BalanceOverTimePeriod::Max => match earliest {
            Some(e) => e,
            None => today,
        },
    }
}

/// One dated balance point per day from `start` through `today`, the
/// account's series forward-filled and unknown days reported as 0. A
/// start after today yields an empty result.
pub fn balance_points(
    observations: &HashMap<i64, i64>,
    seed_before: Option<i64>,
    start: i64,
    today: i64,
) -> (r: Vec<BalancePointDto>)
    requires
        today - start + 1 <= usize::MAX,
    ensures
        today < start ==> r@.len() == 0,
        start <= today ==> {
            &&& r@.len() == today - start + 1
            &&& forall|i: int|
                #![trigger r@[i]]
                0 <= i < r@.len() ==> r@[i].date == start + i && r@[i].balance_minor
                    == known_or_zero(resampled_at(observations@, seed_before, start as int, i as nat))
        },
{
    if today < start {
        return Vec::new();
    }
    let points: usize = ((today as i128 - start as i128) as usize) + 1;
    let series = filled_values_for_period(observations, seed_before, start, points);
    let mut out: Vec<BalancePointDto> = Vec::new();
    let mut i: usize = 0;
    while i < points
        invariant
            i <= points,
            out@.len() == i,
            series@.len() == points,
            start + points - 1 <= i64::MAX,
            series@ == resampled_series(observations@, seed_before, start as int, points as nat),
            forall|j: int|
                #![trigger out@[j]]
                0 <= j < i ==> out@[j].date == start + j && out@[j].balance_minor
                    == known_or_zero(resampled_at(observations@, seed_before, start as int, j as nat)),
        decreases points - i,
    {
        let date: i64 = (start as i128 + i as i128) as i64;
        let balance_minor: i64 = match series[i] {
            Some(v) => v,
            None => 0,
        };
        out.push(BalancePointDto { date, balance_minor });
        i = i + 1;
    }
    out
}

} // verus!
