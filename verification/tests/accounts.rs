//! Account assembly, balance-over-time starts and the dashboard on
//! concrete data.

use std::collections::HashMap;

use worth_core::api::{
    account_snapshots_list, account_type_from_db, accounts_list, balance_over_time_start,
    balance_points, build_account_dto, dashboard_balance_over_time_start,
};
use worth_core::dashboard::dashboard_get;
use worth_core::types::{
    AccountListRow, AccountSnapshotRow, AccountTypeName, ActivityPeriod, ApiError,
    BalanceOverTimePeriod, DashboardBalancePointDto,
};

fn row(id: i64, name: &str, kind: &str, latest: Option<i64>) -> AccountListRow {
    AccountListRow {
        id,
        name: name.to_string(),
        currency_code: "GBP".to_string(),
        normal_balance_sign: 1,
        opened_date: None,
        closed_date: None,
        institution_id: 7,
        institution_name: "Bank".to_string(),
        type_id: 1,
        account_type_name: kind.to_string(),
        first_snapshot_date: Some(100),
        latest_snapshot_date: Some(200),
        latest_balance_minor: latest,
    }
}

#[test]
fn every_known_account_type_name_decodes() {
    assert_eq!(account_type_from_db("current"), Ok(AccountTypeName::Current));
    assert_eq!(account_type_from_db("savings"), Ok(AccountTypeName::Savings));
    assert_eq!(account_type_from_db("credit_card"), Ok(AccountTypeName::CreditCard));
    assert_eq!(account_type_from_db("isa"), Ok(AccountTypeName::Isa));
    assert_eq!(account_type_from_db("investment"), Ok(AccountTypeName::Investment));
    assert_eq!(account_type_from_db("pension"), Ok(AccountTypeName::Pension));
    assert_eq!(account_type_from_db("cash"), Ok(AccountTypeName::Cash));
    assert_eq!(account_type_from_db("loan"), Ok(AccountTypeName::Loan));
}

#[test]
fn unknown_account_type_name_is_a_validation_error() {
    assert_eq!(
        account_type_from_db("mortgage"),
        Err(ApiError::Validation("mortgage".to_string()))
    );
    assert_eq!(
        account_type_from_db("Current"),
        Err(ApiError::Validation("Current".to_string()))
    );
}

#[test]
fn build_account_dto_carries_fields_and_windows() {
    let today = 1000i64;
    let a = row(1, "Everyday", "current", Some(12345));
    let snapshots = vec![
        AccountSnapshotRow { account_id: 1, balance_date: 999, balance_minor: 300 },
        AccountSnapshotRow { account_id: 1, balance_date: 995, balance_minor: 100 },
        AccountSnapshotRow { account_id: 2, balance_date: 999, balance_minor: 7777 },
    ];
    let last_before = vec![(1i64, 50i64), (2i64, 9i64)];
    let dto = build_account_dto(&a, &snapshots, &last_before, today).unwrap();
    assert_eq!(dto.id, 1);
    assert_eq!(dto.name, "Everyday");
    assert_eq!(dto.institution.name, "Bank");
    assert_eq!(dto.account_type.name, AccountTypeName::Current);
    assert_eq!(dto.latest_balance_minor, 12345);
    assert_eq!(dto.activity_by_period.len(), 4);
    let week = &dto.activity_by_period[0];
    assert_eq!(week.0, ActivityPeriod::P1W);
    assert_eq!(week.1.values.len(), 7);
    // Within the last week: seeded at 50, observed 100 on day 995 and 300
    // on day 999; the first value of the window (day 994) is 50.
    assert_eq!(week.1.values[0], Some(50));
    assert_eq!(week.1.values[6], Some(300));
    assert_eq!(week.1.delta_minor, 300 - 50);
}

#[test]
fn missing_snapshot_dates_fall_back_to_today_and_zero() {
    let today = 1000i64;
    let mut a = row(3, "Empty", "savings", None);
    a.first_snapshot_date = None;
    a.latest_snapshot_date = None;
    let dto = build_account_dto(&a, &Vec::new(), &Vec::new(), today).unwrap();
    assert_eq!(dto.first_snapshot_date, today);
    assert_eq!(dto.latest_snapshot_date, today);
    assert_eq!(dto.latest_balance_minor, 0);
    for (_, data) in &dto.activity_by_period {
        assert!(data.values.iter().all(|v| v.is_none()));
        assert_eq!(data.delta_minor, 0);
    }
}

#[test]
fn accounts_list_fails_whole_request_on_bad_type_name() {
    let rows = vec![row(1, "A", "current", Some(1)), row(2, "B", "unknown_kind", Some(2))];
    let r = accounts_list(&rows, &Vec::new(), &Vec::new(), 1000);
    assert_eq!(r, Err(ApiError::Validation("unknown_kind".to_string())));
}

#[test]
fn accounts_list_returns_one_dto_per_account() {
    let rows = vec![row(1, "A", "current", Some(1)), row(2, "B", "loan", Some(-2))];
    let r = accounts_list(&rows, &Vec::new(), &Vec::new(), 1000).unwrap();
    assert_eq!(r.len(), 2);
    assert_eq!(r[0].name, "A");
    assert_eq!(r[1].account_type.name, AccountTypeName::Loan);
}

#[test]
fn snapshots_list_requires_the_account_to_exist() {
    assert_eq!(account_snapshots_list(false, Vec::new()), Err(ApiError::NotFound));
    assert_eq!(account_snapshots_list(true, Vec::new()), Ok(Vec::new()));
}

#[test]
fn balance_over_time_start_clamps_to_earliest() {
    let today = 10_000i64;
    assert_eq!(balance_over_time_start(BalanceOverTimePeriod::P1M, today, 0), today - 29);
    assert_eq!(balance_over_time_start(BalanceOverTimePeriod::P6M, today, 0), today - 182);
    assert_eq!(balance_over_time_start(BalanceOverTimePeriod::P1Y, today, 0), today - 364);
    assert_eq!(balance_over_time_start(BalanceOverTimePeriod::Max, today, 123), 123);
    // An account younger than the period starts at its earliest snapshot.
    assert_eq!(balance_over_time_start(BalanceOverTimePeriod::P1Y, today, today - 10), today - 10);
}

#[test]
fn dashboard_start_for_max_falls_back_to_today() {
    let today = 10_000i64;
    assert_eq!(
        dashboard_balance_over_time_start(BalanceOverTimePeriod::Max, today, Some(55)),
        55
    );
    assert_eq!(dashboard_balance_over_time_start(BalanceOverTimePeriod::Max, today, None), today);
    assert_eq!(
        dashboard_balance_over_time_start(BalanceOverTimePeriod::P1M, today, Some(55)),
        today - 29
    );
}

#[test]
fn balance_points_report_unknown_days_as_zero() {
    let mut m = HashMap::new();
    m.insert(12i64, 700i64);
    let points = balance_points(&m, None, 10, 13);
    assert_eq!(points.len(), 4);
    assert_eq!((points[0].date, points[0].balance_minor), (10, 0));
    assert_eq!((points[1].date, points[1].balance_minor), (11, 0));
    assert_eq!((points[2].date, points[2].balance_minor), (12, 700));
    assert_eq!((points[3].date, points[3].balance_minor), (13, 700));
}

#[test]
fn balance_points_is_empty_for_a_future_start() {
    let m = HashMap::new();
    assert!(balance_points(&m, Some(5), 11, 10).is_empty());
}

#[test]
fn dashboard_totals_allocation_and_active_count() {
    let accounts = vec![
        row(1, "A", "current", Some(1_000)),
        row(2, "B", "savings", Some(0)),
        row(3, "C", "credit_card", Some(-400)),
        row(4, "D", "current", Some(250)),
    ];
    let series: Vec<DashboardBalancePointDto> = Vec::new();
    let d = dashboard_get(&accounts, &series).unwrap();
    assert_eq!(d.total_balance_minor, 850);
    assert_eq!(d.active_accounts, 3);
    // Only positive groups appear, in category order: current 1250 only
    // (savings is zero and the credit card is negative).
    assert_eq!(d.allocation_by_type.len(), 1);
    assert_eq!(d.allocation_by_type[0].account_type, AccountTypeName::Current);
    assert_eq!(d.allocation_by_type[0].balance_minor, 1_250);
    // With no series the monthly movement is zero.
    assert_eq!(d.month_ago_minor, 850);
    assert_eq!(d.monthly_yield_minor, 0);
}

#[test]
fn dashboard_monthly_yield_compares_against_31_points_back() {
    let accounts = vec![row(1, "A", "current", Some(5_000))];
    let mut series = Vec::new();
    for i in 0..31 {
        series.push(DashboardBalancePointDto { date: i, balance_minor: 4_000 + 10 * i });
    }
    let d = dashboard_get(&accounts, &series).unwrap();
    assert_eq!(d.month_ago_minor, 4_000);
    assert_eq!(d.monthly_yield_minor, 4_300 - 4_000);
}

#[test]
fn dashboard_rejects_unknown_type_names() {
    let accounts = vec![row(1, "A", "bitcoin", Some(5))];
    let r = dashboard_get(&accounts, &Vec::new());
    assert_eq!(r, Err(ApiError::Validation("bitcoin".to_string())));
}
