//! Company allocation engine: period-capped, with overflow to Liquidity.
use vstd::prelude::*;

use crate::errors::TreasuryRouterError;
use crate::state::company::CompanyState;

verus! {

/// Result returned by the company allocation engine.
#[derive(Clone, Copy, Debug, PartialEq, Eq, Structural)]
pub struct CompanyAllocation {
    /// Amount actually credited to the company.
    pub company_amount: u64,
    /// Amount redirected to Liquidity because of the cap or because company
    /// allocations are disabled.
    pub liquidity_overflow_amount: u64,
}

/// The company state with its period restarted at `now` where the current
/// period has ended (`now >= period_started_at + period_duration`).
pub open spec fn company_rolled(c: CompanyState, now: i64) -> CompanyState {
    if now >= c.period_started_at + c.period_duration {
        CompanyState { period_started_at: now, spent_current_period: 0, ..c }
    } else {
        c
    }
}

/// What is left of the period cap, zero where the cap is already spent.
pub open spec fn company_remaining(c: CompanyState) -> int {
    if c.period_cap >= c.spent_current_period {
        c.period_cap - c.spent_current_period
    } else {
        0
    }
}

/// The result and final state of a company allocation request.
///
/// Disabled: everything overflows to Liquidity and nothing changes. An
/// overflowing period end fails without change. Otherwise, after the period
/// roll, the company receives the whole request where it fits under the cap
/// and only the remaining allowance otherwise (its period spend then equals
/// the cap), the rest overflowing. Where the lifetime total would overflow,
/// the error leaves the rolled state with the period spend already updated.
#[verifier::opaque]
pub open spec fn company_allocation_outcome(c: CompanyState, requested: u64, now: i64) -> (Result<
    CompanyAllocation,
    TreasuryRouterError,
>, CompanyState) {
    if !c.enabled {
        (Ok(CompanyAllocation { company_amount: 0, liquidity_overflow_amount: requested }), c)
    } else if c.period_started_at + c.period_duration > i64::MAX || c.period_started_at + c.period_duration
        < i64::MIN {
        (Err(TreasuryRouterError::ArithmeticOverflow), c)
    } else {
        let c1 = company_rolled(c, now);
        let remaining = company_remaining(c1);
        if requested <= remaining {
            let c2 = CompanyState { spent_current_period: (c1.spent_current_period + requested) as u64, ..c1 };
            if c1.lifetime_spent + requested > u64::MAX {
                (Err(TreasuryRouterError::ArithmeticOverflow), c2)
            } else {
                (
                    Ok(CompanyAllocation { company_amount: requested, liquidity_overflow_amount: 0 }),
                    CompanyState { lifetime_spent: (c1.lifetime_spent + requested) as u64, ..c2 },
                )
            }
        } else {
            let c2 = CompanyState { spent_current_period: c1.period_cap, ..c1 };
            if c1.lifetime_spent + remaining > u64::MAX {
                (Err(TreasuryRouterError::ArithmeticOverflow), c2)
            } else {
                (
                    Ok(
                        CompanyAllocation {
                            company_amount: remaining as u64,
                            liquidity_overflow_amount: (requested - remaining) as u64,
                        },
                    ),
                    CompanyState { lifetime_spent: (c1.lifetime_spent + remaining) as u64, ..c2 },
                )
            }
        }
    }
}

/// Company allocation engine: disabled allocations go wholly to Liquidity,
/// an expired period resets, and a request above the remaining cap is split
/// between the company (up to the cap) and Liquidity (the excess).
pub fn allocate(company: &mut CompanyState, requested: u64, now: i64) -> (r: Result<
    CompanyAllocation,
    TreasuryRouterError,
>)
    ensures
        (r, *final(company)) == company_allocation_outcome(*old(company), requested, now),
{
    proof {
        reveal(company_allocation_outcome);
    }
    if !company.enabled {
        return Ok(CompanyAllocation { company_amount: 0, liquidity_overflow_amount: requested });
    }
    let period_end = match company.period_started_at.checked_add(company.period_duration) {
        Some(value) => value,
        None => {
            return Err(TreasuryRouterError::ArithmeticOverflow);
        },
    };
    if now >= period_end {
        company.period_started_at = now;
        company.spent_current_period = 0;
    }
    let remaining = company.period_cap.saturating_sub(company.spent_current_period);
    if requested <= remaining {
        company.spent_current_period = company.spent_current_period + requested;
        company.lifetime_spent = match company.lifetime_spent.checked_add(requested) {
            Some(value) => value,
            None => {
                return Err(TreasuryRouterError::ArithmeticOverflow);
            },
        };
        return Ok(CompanyAllocation { company_amount: requested, liquidity_overflow_amount: 0 });
    }
    company.spent_current_period = company.period_cap;
    company.lifetime_spent = match company.lifetime_spent.checked_add(remaining) {
        Some(value) => value,
        None => {
            return Err(TreasuryRouterError::ArithmeticOverflow);
        },
    };
    let overflow = requested - remaining;
    Ok(CompanyAllocation { company_amount: remaining, liquidity_overflow_amount: overflow })
}

/// A successful allocation splits the request exactly between the company
/// and Liquidity, credits the company no more than the remaining cap, and
/// keeps a within-cap period spend within the cap.
pub proof fn lemma_company_allocation_conserves(c: CompanyState, requested: u64, now: i64)
    requires
        company_allocation_outcome(c, requested, now).0 is Ok,
    ensures
        ({
            let (r, c2) = company_allocation_outcome(c, requested, now);
            let a = r->Ok_0;
            &&& a.company_amount + a.liquidity_overflow_amount == requested
            &&& c.enabled ==> a.company_amount <= company_remaining(company_rolled(c, now))
            &&& c.enabled ==> c2.lifetime_spent == c.lifetime_spent + a.company_amount
            &&& !c.enabled ==> a.company_amount == 0 && c2 == c
            &&& c.spent_current_period <= c.period_cap ==> c2.spent_current_period <= c2.period_cap
        }),
{
    reveal(company_allocation_outcome);
}

/// The period rules of an enabled company whose period end and lifetime
/// total fit: the allocation succeeds and splits the request between the
/// company and Liquidity. Once the period has ended (`now >= started +
/// duration`) a new period starts at `now` with nothing spent, so the company
/// receives the request up to the whole cap, whatever was spent before;
/// within the period it receives the request up to what is left of the cap.
pub proof fn lemma_company_period_rules(c: CompanyState, requested: u64, now: i64)
    requires
        c.enabled,
        i64::MIN <= c.period_started_at + c.period_duration <= i64::MAX,
        c.lifetime_spent + requested <= u64::MAX,
    ensures
        ({
            let (r, c2) = company_allocation_outcome(c, requested, now);
            let expired = now >= c.period_started_at + c.period_duration;
            let spent_before: int = if expired { 0 } else { c.spent_current_period as int };
            let left: int = if c.period_cap >= spent_before { c.period_cap - spent_before } else { 0 };
            let granted: int = if requested <= left { requested as int } else { left };
            &&& r is Ok
            &&& r->Ok_0.company_amount == granted
            &&& r->Ok_0.liquidity_overflow_amount == requested - granted
            &&& c2.period_started_at == (if expired { now } else { c.period_started_at })
            &&& c2.spent_current_period == (if requested <= left { spent_before + requested } else {
                c.period_cap as int
            })
            &&& c2.lifetime_spent == c.lifetime_spent + granted
            &&& c2.period_cap == c.period_cap
            &&& c2.period_duration == c.period_duration
            &&& c2.enabled
            &&& expired && requested <= c.period_cap ==> r->Ok_0.company_amount == requested
                && r->Ok_0.liquidity_overflow_amount == 0 && c2.spent_current_period == requested
        }),
{
    reveal(company_allocation_outcome);
}

} // verus!
