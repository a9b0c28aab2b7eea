//! Portfolio dashboard: latest-balance totals, active-account count,
//! allocation by account category, and month-over-month movement derived
//! from an aggregated 30-day balance series.

use vstd::prelude::*;
use crate::api::spec_account_type;
use crate::types::{
    AccountListRow, AccountTypeName, ApiError, DashboardAllocationDto, DashboardBalancePointDto,
    DashboardDto,
};

verus! {

/// An account's latest balance, 0 when it has no snapshot at all.
pub open spec fn latest_of(a: AccountListRow) -> int {
    match a.latest_balance_minor {
        Some(v) => v as int,
        None => 0,
    }
}

/// The sum of every account's latest balance.
pub open spec fn latest_total(accounts: Seq<AccountListRow>) -> int
    decreases accounts.len(),
{
    if accounts.len() == 0 {
        0
    } else {
        latest_total(accounts.drop_last()) + latest_of(accounts.last())
    }
}

/// How many accounts have a nonzero latest balance. A zero-balance but
/// still-open account counts as inactive, exactly like a closed one.
pub open spec fn active_count(accounts: Seq<AccountListRow>) -> int
    decreases accounts.len(),
{
    if accounts.len() == 0 {
        0
    } else {
        active_count(accounts.drop_last()) + if latest_of(accounts.last()) != 0 { 1int } else { 0int }
    }
}

/// The sum of latest balances over the accounts of one category.
pub open spec fn type_total(accounts: Seq<AccountListRow>, t: AccountTypeName) -> int
    decreases accounts.len(),
{
    if accounts.len() == 0 {
        0
    } else {
        type_total(accounts.drop_last(), t) + if spec_account_type(
            accounts.last().account_type_name@,
        ) == Some(t) {
            latest_of(accounts.last())
        } else {
            0int
        }
    }
}

/// Every account's stored type name decodes to a known tag.
pub open spec fn all_types_valid(accounts: Seq<AccountListRow>) -> bool {
    forall|k: int| 0 <= k < accounts.len()
        ==> (#[trigger] spec_account_type(accounts[k].account_type_name@)) is Some
}

/// The position of a category in the fixed allocation order.
pub open spec fn spec_type_index(t: AccountTypeName) -> int {
    match t {
        AccountTypeName::Current => 0,
        AccountTypeName::Savings => 1,
        AccountTypeName::CreditCard => 2,
        AccountTypeName::Isa => 3,
        AccountTypeName::Investment => 4,
        AccountTypeName::Pension => 5,
        AccountTypeName::Cash => 6,
        AccountTypeName::Loan => 7,
    }
}

/// The allocation entry a category contributes: its total when positive,
/// nothing otherwise — net-negative or zero groups (typically credit
/// cards and loans) are left out of the allocation chart.
pub open spec fn entry_for(accounts: Seq<AccountListRow>, t: AccountTypeName)
    -> Seq<DashboardAllocationDto> {
    if type_total(accounts, t) > 0 {
        seq![
            DashboardAllocationDto {
                account_type: t,
                balance_minor: type_total(accounts, t) as i64,
            },
        ]
    } else {
        Seq::empty()
    }
}

/// The allocation list: each category's positive total, in the fixed
/// category order.
pub open spec fn allocation_expected(accounts: Seq<AccountListRow>) -> Seq<DashboardAllocationDto> {
    entry_for(accounts, AccountTypeName::Current) + entry_for(accounts, AccountTypeName::Savings)
        + entry_for(accounts, AccountTypeName::CreditCard)
        + entry_for(accounts, AccountTypeName::Isa)
        + entry_for(accounts, AccountTypeName::Investment)
        + entry_for(accounts, AccountTypeName::Pension)
        + entry_for(accounts, AccountTypeName::Cash)
        + entry_for(accounts, AccountTypeName::Loan)
}

/// The newest balance of the 30-day series, or the latest-balance total
/// when the series is empty.
pub open spec fn spec_last_minor(points: Seq<DashboardBalancePointDto>, total: int) -> int {
    if points.len() == 0 {
        total
    } else {
        points.last().balance_minor as int
    }
}

/// The balance 30 days back: the entry 31 places before the end of the
/// series (its first entry when shorter), or the newest balance when the
/// series is empty.
pub open spec fn spec_month_ago_minor(points: Seq<DashboardBalancePointDto>, total: int) -> int {
    if points.len() == 0 {
        spec_last_minor(points, total)
    } else {
        let idx = if points.len() >= 31 { points.len() - 31 } else { 0int };
        points[idx].balance_minor as int
    }
}

/// Month-over-month movement: newest balance minus the balance 30 days
/// back.
pub open spec fn spec_monthly_yield(points: Seq<DashboardBalancePointDto>, total: int) -> int {
    spec_last_minor(points, total) - spec_month_ago_minor(points, total)
}

/// All sums the dashboard reports stay within `i64` minor units.
pub open spec fn dashboard_fits(
    accounts: Seq<AccountListRow>,
    points: Seq<DashboardBalancePointDto>,
) -> bool {
    &&& i64::MIN <= latest_total(accounts) <= i64::MAX
    &&& forall|t: AccountTypeName|
        i64::MIN <= #[trigger] type_total(accounts, t) <= i64::MAX
    &&& i64::MIN <= spec_monthly_yield(points, latest_total(accounts)) <= i64::MAX
}

proof fn lemma_latest_total_bound(accounts: Seq<AccountListRow>)
    ensures
        -(accounts.len() * 0x8000_0000_0000_0000) <= latest_total(accounts)
            <= accounts.len() * 0x8000_0000_0000_0000,
    decreases accounts.len(),
{
    if accounts.len() > 0 {
        lemma_latest_total_bound(accounts.drop_last());
        assert((accounts.len() - 1) * 0x8000_0000_0000_0000 + 0x8000_0000_0000_0000
            == accounts.len() * 0x8000_0000_0000_0000) by (nonlinear_arith);
    }
}

proof fn lemma_type_total_bound(accounts: Seq<AccountListRow>, t: AccountTypeName)
    ensures
        -(accounts.len() * 0x8000_0000_0000_0000) <= type_total(accounts, t)
            <= accounts.len() * 0x8000_0000_0000_0000,
    decreases accounts.len(),
{
    if accounts.len() > 0 {
        lemma_type_total_bound(accounts.drop_last(), t);
        assert((accounts.len() - 1) * 0x8000_0000_0000_0000 + 0x8000_0000_0000_0000
            == accounts.len() * 0x8000_0000_0000_0000) by (nonlinear_arith);
    }
}

proof fn lemma_active_count_bound(accounts: Seq<AccountListRow>)
    ensures
        0 <= active_count(accounts) <= accounts.len(),
    decreases accounts.len(),
{
    if accounts.len() > 0 {
        lemma_active_count_bound(accounts.drop_last());
    }
}

/// The category index, executed.
fn type_index(t: AccountTypeName) -> (r: usize)
    ensures
        r == spec_type_index(t),
        r < 8,
{
    match t {
        AccountTypeName::Current => 0,
        AccountTypeName::Savings => 1,
        AccountTypeName::CreditCard => 2,
        AccountTypeName::Isa => 3,
        AccountTypeName::Investment => 4,
        AccountTypeName::Pension => 5,
        AccountTypeName::Cash => 6,
        AccountTypeName::Loan => 7,
    }
}

/// The allocation list built from the eight per-category totals, in
/// category order, keeping only positive groups.
#[verifier::rlimit(100)]
fn build_allocation(
    totals8: &Vec<i128>,
    Ghost(accounts): Ghost<Seq<AccountListRow>>,
) -> (r: Vec<DashboardAllocationDto>)
    requires
        totals8@.len() == 8,
        forall|t: AccountTypeName| #[trigger] totals8@[spec_type_index(t)]
            == type_total(accounts, t),
        forall|t: AccountTypeName| i64::MIN <= #[trigger] type_total(accounts, t) <= i64::MAX,
    ensures
        r@ == allocation_expected(accounts),
{
    proof {
        assert(totals8@[spec_type_index(AccountTypeName::Current)]
            == type_total(accounts, AccountTypeName::Current));
        assert(totals8@[spec_type_index(AccountTypeName::Savings)]
            == type_total(accounts, AccountTypeName::Savings));
        assert(totals8@[spec_type_index(AccountTypeName::CreditCard)]
            == type_total(accounts, AccountTypeName::CreditCard));
        assert(totals8@[spec_type_index(AccountTypeName::Isa)]
            == type_total(accounts, AccountTypeName::Isa));
        assert(totals8@[spec_type_index(AccountTypeName::Investment)]
            == type_total(accounts, AccountTypeName::Investment));
        assert(totals8@[spec_type_index(AccountTypeName::Pension)]
            == type_total(accounts, AccountTypeName::Pension));
        assert(totals8@[spec_type_index(AccountTypeName::Cash)]
            == type_total(accounts, AccountTypeName::Cash));
        assert(totals8@[spec_type_index(AccountTypeName::Loan)]
            == type_total(accounts, AccountTypeName::Loan));
    }
    let mut allocation: Vec<DashboardAllocationDto> = Vec::new();
    let t0 = totals8[0];
    if t0 > 0 {
        allocation.push(DashboardAllocationDto {
            account_type: AccountTypeName::Current,
            balance_minor: t0 as i64,
        });
    }
    proof {
        assert(allocation@ =~= entry_for(accounts, AccountTypeName::Current));
    }
    let t1 = totals8[1];
    if t1 > 0 {
        allocation.push(DashboardAllocationDto {
            account_type: AccountTypeName::Savings,
            balance_minor: t1 as i64,
        });
    }
    proof {
        assert(allocation@ =~= entry_for(accounts, AccountTypeName::Current)
            + entry_for(accounts, AccountTypeName::Savings));
    }
    let t2 = totals8[2];
    if t2 > 0 {
        allocation.push(DashboardAllocationDto {
            account_type: AccountTypeName::CreditCard,
            balance_minor: t2 as i64,
        });
    }
    proof {
        assert(allocation@ =~= entry_for(accounts, AccountTypeName::Current)
            + entry_for(accounts, AccountTypeName::Savings)
            + entry_for(accounts, AccountTypeName::CreditCard));
    }
    let t3 = totals8[3];
    if t3 > 0 {
        allocation.push(DashboardAllocationDto {
            account_type: AccountTypeName::Isa,
            balance_minor: t3 as i64,
        });
    }
    proof {
        assert(allocation@ =~= entry_for(accounts, AccountTypeName::Current)
            + entry_for(accounts, AccountTypeName::Savings)
            + entry_for(accounts, AccountTypeName::CreditCard)
            + entry_for(accounts, AccountTypeName::Isa));
    }
    let t4 = totals8[4];
    if t4 > 0 {
        allocation.push(DashboardAllocationDto {
            account_type: AccountTypeName::Investment,
            balance_minor: t4 as i64,
        });
    }
    proof {
        assert(allocation@ =~= entry_for(accounts, AccountTypeName::Current)
            + entry_for(accounts, AccountTypeName::Savings)
            + entry_for(accounts, AccountTypeName::CreditCard)
            + entry_for(accounts, AccountTypeName::Isa)
            + entry_for(accounts, AccountTypeName::Investment));
    }
    let t5 = totals8[5];
    if t5 > 0 {
        allocation.push(DashboardAllocationDto {
            account_type: AccountTypeName::Pension,
            balance_minor: t5 as i64,
        });
    }
    proof {
        assert(allocation@ =~= entry_for(accounts, AccountTypeName::Current)
            + entry_for(accounts, AccountTypeName::Savings)
            + entry_for(accounts, AccountTypeName::CreditCard)
            + entry_for(accounts, AccountTypeName::Isa)
            + entry_for(accounts, AccountTypeName::Investment)
            + entry_for(accounts, AccountTypeName::Pension));
    }
    let t6 = totals8[6];
    if t6 > 0 {
        allocation.push(DashboardAllocationDto {
            account_type: AccountTypeName::Cash,
            balance_minor: t6 as i64,
        });
    }
    proof {
        assert(allocation@ =~= entry_for(accounts, AccountTypeName::Current)
            + entry_for(accounts, AccountTypeName::Savings)
            + entry_for(accounts, AccountTypeName::CreditCard)
            + entry_for(accounts, AccountTypeName::Isa)
            + entry_for(accounts, AccountTypeName::Investment)
            + entry_for(accounts, AccountTypeName::Pension)
            + entry_for(accounts, AccountTypeName::Cash));
    }
    let t7 = totals8[7];
    if t7 > 0 {
        allocation.push(DashboardAllocationDto {
            account_type: AccountTypeName::Loan,
            balance_minor: t7 as i64,
        });
    }
    proof {
        assert(allocation@ =~= allocation_expected(accounts));
    }
    allocation
}

/// Assemble the dashboard from the account list and the aggregated
/// portfolio series of the last 30 days: the latest-balance total, the
/// count of accounts with a nonzero balance, the positive per-category
/// allocation in category order, and the month-over-month movement. The
/// request fails on the first account whose stored type name is
/// unrecognised.
#[verifier::rlimit(100)]
pub fn dashboard_get(
    accounts: &Vec<AccountListRow>,
    balance_30d: &Vec<DashboardBalancePointDto>,
) -> (r: Result<DashboardDto, ApiError>)
    requires
        accounts@.len() <= u32::MAX,
        dashboard_fits(accounts@, balance_30d@),
    ensures
        r is Ok <==> all_types_valid(accounts@),
        r is Ok ==> {
            let d = r->Ok_0;
            &&& d.total_balance_minor == latest_total(accounts@)
            &&& d.active_accounts == active_count(accounts@)
            &&& d.allocation_by_type@ == allocation_expected(accounts@)
            &&& d.month_ago_minor == spec_month_ago_minor(balance_30d@, latest_total(accounts@))
            &&& d.monthly_yield_minor == spec_monthly_yield(balance_30d@, latest_total(accounts@))
        },
        r is Err ==> r->Err_0 is Validation && (exists|k: int| 0 <= k < accounts@.len()
            && (#[trigger] spec_account_type(accounts@[k].account_type_name@)) is None
            && r->Err_0->Validation_0@ == accounts@[k].account_type_name@),
{
    let n = accounts.len();
    let mut totals8: Vec<i128> = Vec::new();
    let mut i: usize = 0;
    while i < 8
        invariant
            totals8@.len() == i,
            i <= 8,
            forall|j: int| 0 <= j < i ==> totals8@[j] == 0,
        decreases 8 - i,
    {
        totals8.push(0i128);
        i = i + 1;
    }

    let mut total: i128 = 0;
    let mut active: u32 = 0;
    proof {
        assert(accounts@.take(0) =~= Seq::<AccountListRow>::empty());
    }
    let mut k: usize = 0;
    while k < n
        invariant
            k <= n,
            n == accounts@.len(),
            n <= u32::MAX,
            totals8@.len() == 8,
            total == latest_total(accounts@.take(k as int)),
            active == active_count(accounts@.take(k as int)),
            forall|j: int| 0 <= j < k
                ==> (#[trigger] spec_account_type(accounts@[j].account_type_name@)) is Some,
            forall|t: AccountTypeName| #[trigger] totals8@[spec_type_index(t)]
                == type_total(accounts@.take(k as int), t),
        decreases n - k,
    {
        let ghost prefix = accounts@.take(k as int);
        let ghost prefix1 = accounts@.take(k as int + 1);
        proof {
            assert(prefix1.drop_last() =~= prefix);
            assert(prefix1.last() == accounts@[k as int]);
            lemma_latest_total_bound(prefix);
            lemma_active_count_bound(prefix);
            assert(prefix.len() * 0x8000_0000_0000_0000
                <= 0x1_0000_0000 * 0x8000_0000_0000_0000) by (nonlinear_arith)
                requires prefix.len() <= 0x1_0000_0000;
        }
        let a = &accounts[k];
        let tag = match crate::api::account_type_from_db(a.account_type_name.as_str()) {
            Ok(t) => t,
            Err(e) => {
                return Err(e);
            },
        };
        let latest: i64 = match a.latest_balance_minor {
            Some(v) => v,
            None => 0,
        };
        total = total + latest as i128;
        if latest != 0 {
            active = active + 1;
        }
        let idx = type_index(tag);
        proof {
            lemma_type_total_bound(prefix, tag);
        }
        let cur = totals8[idx];
        totals8.set(idx, cur + latest as i128);
        proof {
            assert forall|t: AccountTypeName| #[trigger] totals8@[spec_type_index(t)]
                == type_total(prefix1, t) by {
                if t == tag {
                    assert(totals8@[spec_type_index(t)] == cur + latest as i128);
                } else {
                    assert(spec_type_index(t) != spec_type_index(tag));
                }
            }
        }
        k = k + 1;
    }
    proof {
        assert(accounts@.take(n as int) =~= accounts@);
    }

    let total_balance_minor: i64 = total as i64;

    let allocation = build_allocation(&totals8, Ghost(accounts@));

    let m = balance_30d.len();
    let last_minor: i64 = if m == 0 {
        total_balance_minor
    } else {
        balance_30d[m - 1].balance_minor
    };
    let month_ago_minor: i64 = if m == 0 {
        last_minor
    } else {
        let idx = if m >= 31 { m - 31 } else { 0 };
        balance_30d[idx].balance_minor
    };
    let monthly_yield_minor: i64 = last_minor - month_ago_minor;

    Ok(DashboardDto {
        total_balance_minor,
        monthly_yield_minor,
        month_ago_minor,
        active_accounts: active,
        allocation_by_type: allocation,
    })
}

} // verus!
