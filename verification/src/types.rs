//! Data types exchanged with callers: account and snapshot records as read
//! from storage, and the result shapes the commands produce.
//!
//! Calendar dates are day numbers (`i64`); timestamps that the engine never
//! computes with are carried as ISO-8601 strings.

use vstd::prelude::*;

verus! {

/// Failure taxonomy of the command layer: storage failure, a missing
/// account record, or invalid input (the offending value is carried).
#[derive(Debug, Clone, PartialEq, Eq)]
pub enum ApiError {
    Db,
    NotFound,
    Validation(String),
}

/// The closed set of account classification tags.
#[derive(Debug, Clone, Copy, PartialEq, Eq, Structural, PartialOrd, Ord, Hash)]
pub enum AccountTypeName {
    Current,
    Savings,
    CreditCard,
    Isa,
    Investment,
    Pension,
    Cash,
    Loan,
}

/// Named trailing activity windows, shortest to longest.
#[derive(Debug, Clone, Copy, PartialEq, Eq, Structural, PartialOrd, Ord, Hash)]
pub enum ActivityPeriod {
    P1W,
    P1M,
    P3M,
    P6M,
}

/// Periods selectable for a balance-over-time query.
#[derive(Debug, Clone, Copy, PartialEq, Eq, Structural, Hash)]
pub enum BalanceOverTimePeriod {
    P1M,
    P6M,
    P1Y,
    Max,
}

/// One activity window: the trailing slice of the dense series (unknown
/// days preserved) and its first-known-to-last-known delta in minor units.
#[derive(Debug, Clone, PartialEq)]
pub struct ActivityDataDto {
    pub values: Vec<Option<i64>>,
    pub delta_minor: i64,
}

#[derive(Debug, Clone, PartialEq)]
pub struct InstitutionDto {
    pub id: i64,
    pub name: String,
}

#[derive(Debug, Clone, PartialEq)]
pub struct AccountTypeDto {
    pub id: i64,
    pub name: AccountTypeName,
}

/// A full account record with its per-window activity data.
#[derive(Debug, Clone, PartialEq)]
pub struct AccountDto {
    pub id: i64,
    pub name: String,
    pub institution: InstitutionDto,
    pub account_type: AccountTypeDto,
    pub currency_code: String,
    /// `1` when a larger raw balance means more owed to the owner,
    /// `-1` when it means more owed by the owner.
    pub normal_balance_sign: i32,
    pub opened_date: Option<i64>,
    pub closed_date: Option<i64>,
    pub first_snapshot_date: i64,
    pub latest_snapshot_date: i64,
    pub latest_balance_minor: i64,
    pub activity_by_period: Vec<(ActivityPeriod, ActivityDataDto)>,
}

#[derive(Debug, Clone, PartialEq)]
pub struct DashboardAllocationDto {
    pub account_type: AccountTypeName,
    pub balance_minor: i64,
}

#[derive(Debug, Clone, PartialEq)]
pub struct DashboardBalancePointDto {
    pub date: i64,
    pub balance_minor: i64,
}

#[derive(Debug, Clone, PartialEq)]
pub struct AccountBalanceSnapshotDto {
    pub id: i64,
    pub date: i64,
    pub balance_minor: i64,
    pub created_at: String,
}

#[derive(Debug, Clone, PartialEq)]
pub struct BalancePointDto {
    pub date: i64,
    pub balance_minor: i64,
}

/// Portfolio-level summary. The caller derives the percentage change versus
/// last month from `monthly_yield_minor` and `month_ago_minor` (zero when
/// `month_ago_minor` is zero); the engine itself stays in integer arithmetic.
#[derive(Debug, Clone, PartialEq)]
pub struct DashboardDto {
    pub total_balance_minor: i64,
    pub monthly_yield_minor: i64,
    pub month_ago_minor: i64,
    pub active_accounts: u32,
    pub allocation_by_type: Vec<DashboardAllocationDto>,
}

/// An account as listed by storage, joined with its institution, its type,
/// and its first and latest snapshot.
#[derive(Debug, Clone, PartialEq)]
pub struct AccountListRow {
    pub id: i64,
    pub name: String,
    pub currency_code: String,
    pub normal_balance_sign: i32,
    pub opened_date: Option<i64>,
    pub closed_date: Option<i64>,
    pub institution_id: i64,
    pub institution_name: String,
    pub type_id: i64,
    pub account_type_name: String,
    pub first_snapshot_date: Option<i64>,
    pub latest_snapshot_date: Option<i64>,
    pub latest_balance_minor: Option<i64>,
}

/// One balance observation: which account, which day, what balance.
#[derive(Debug, Clone, Copy, PartialEq, Eq, Structural)]
pub struct AccountSnapshotRow {
    pub account_id: i64,
    pub balance_date: i64,
    pub balance_minor: i64,
}

#[derive(Debug, Clone, PartialEq)]
pub struct InstitutionRow {
    pub id: i64,
    pub name: String,
}

#[derive(Debug, Clone, PartialEq)]
pub struct AccountTypeRow {
    pub id: i64,
    pub name: String,
}

/// A raw account record as stored, dates kept in their ISO-8601 text form.
#[derive(Debug, Clone, PartialEq)]
pub struct AccountRow {
    pub id: i64,
    pub name: String,
    pub institution_id: i64,
    pub type_id: i64,
    pub currency_code: String,
    pub normal_balance_sign: i32,
    pub opened_date: Option<String>,
    pub closed_date: Option<String>,
    pub created_at: String,
    pub updated_at: String,
}

/// A raw snapshot record as stored, dates kept in their ISO-8601 text form.
#[derive(Debug, Clone, PartialEq)]
pub struct AccountBalanceSnapshotRow {
    pub id: i64,
    pub account_id: i64,
    pub balance_date: String,
    pub balance_minor: i64,
    pub created_at: String,
}

} // verus!
