//! Reserve Engine: credits the Reserve allocation.
use vstd::prelude::*;

use crate::errors::TreasuryRouterError;
use crate::state::treasury::TreasuryState;

verus! {

/// Breakdown of a reserve deposit.
#[derive(Clone, Copy, Debug, PartialEq, Eq, Structural)]
pub struct ReserveDeposit {
    /// Normal reserve allocation, including any rounding remainder.
    pub normal_amount: u64,
    /// Total amount credited to reserve.
    pub total_amount: u64,
}

/// Credits the Reserve allocation (its share plus any rounding remainder) to
/// pending and lifetime reserve.
///
/// Where the pending balance would overflow nothing changes; where only the
/// lifetime total would overflow, the pending balance has already been
/// credited when the error is returned.
pub fn deposit_fee_allocation(treasury: &mut TreasuryState, normal_amount: u64) -> (r: Result<
    ReserveDeposit,
    TreasuryRouterError,
>)
    ensures
        old(treasury).pending_reserve + normal_amount > u64::MAX ==> r == Err::<ReserveDeposit, _>(
            TreasuryRouterError::ArithmeticOverflow,
        ) && *final(treasury) == *old(treasury),
        old(treasury).pending_reserve + normal_amount <= u64::MAX && old(treasury).lifetime_reserve
            + normal_amount > u64::MAX ==> r == Err::<ReserveDeposit, _>(TreasuryRouterError::ArithmeticOverflow)
            && *final(treasury) == (TreasuryState {
                pending_reserve: (old(treasury).pending_reserve + normal_amount) as u64,
                ..*old(treasury)
            }),
        old(treasury).pending_reserve + normal_amount <= u64::MAX && old(treasury).lifetime_reserve
            + normal_amount <= u64::MAX ==> r == Ok::<ReserveDeposit, TreasuryRouterError>(
            ReserveDeposit { normal_amount, total_amount: normal_amount },
        ) && *final(treasury) == (TreasuryState {
            pending_reserve: (old(treasury).pending_reserve + normal_amount) as u64,
            lifetime_reserve: (old(treasury).lifetime_reserve + normal_amount) as u64,
            ..*old(treasury)
        }),
{
    treasury.pending_reserve = match treasury.pending_reserve.checked_add(normal_amount) {
        Some(value) => value,
        None => {
            return Err(TreasuryRouterError::ArithmeticOverflow);
        },
    };
    treasury.lifetime_reserve = match treasury.lifetime_reserve.checked_add(normal_amount) {
        Some(value) => value,
        None => {
            return Err(TreasuryRouterError::ArithmeticOverflow);
        },
    };
    Ok(ReserveDeposit { normal_amount, total_amount: normal_amount })
}

} // verus!
