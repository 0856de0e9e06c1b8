//! Buyback Engine: credits buyback-and-burn allocations.
use vstd::prelude::*;

use crate::errors::TreasuryRouterError;
use crate::state::treasury::TreasuryState;

verus! {

/// Result returned by the Buyback Engine.
#[derive(Clone, Copy, Debug, PartialEq, Eq, Structural)]
pub struct BuybackDeposit {
    /// Amount credited to the pending buyback-and-burn bucket.
    pub amount: u64,
    /// Updated pending buyback-and-burn balance.
    pub pending_balance: u64,
    /// Updated lifetime buyback-and-burn allocation.
    pub lifetime_total: u64,
}

/// Credits a buyback-and-burn allocation to pending and lifetime accounting.
///
/// Where the pending balance would overflow nothing changes; where only the
/// lifetime total would overflow, the pending balance has already been
/// credited when the error is returned.
pub fn deposit(treasury: &mut TreasuryState, amount: u64) -> (r: Result<BuybackDeposit, TreasuryRouterError>)
    ensures
        old(treasury).pending_buyback_burn + amount > u64::MAX ==> r == Err::<BuybackDeposit, _>(
            TreasuryRouterError::ArithmeticOverflow,
        ) && *final(treasury) == *old(treasury),
        old(treasury).pending_buyback_burn + amount <= u64::MAX && old(treasury).lifetime_buyback_burn + amount
            > u64::MAX ==> r == Err::<BuybackDeposit, _>(TreasuryRouterError::ArithmeticOverflow)
            && *final(treasury) == (TreasuryState {
                pending_buyback_burn: (old(treasury).pending_buyback_burn + amount) as u64,
                ..*old(treasury)
            }),
        old(treasury).pending_buyback_burn + amount <= u64::MAX && old(treasury).lifetime_buyback_burn + amount
            <= u64::MAX ==> *final(treasury) == (TreasuryState {
            pending_buyback_burn: (old(treasury).pending_buyback_burn + amount) as u64,
            lifetime_buyback_burn: (old(treasury).lifetime_buyback_burn + amount) as u64,
            ..*old(treasury)
        }) && r == Ok::<BuybackDeposit, TreasuryRouterError>(
            BuybackDeposit {
                amount,
                pending_balance: final(treasury).pending_buyback_burn,
                lifetime_total: final(treasury).lifetime_buyback_burn,
            },
        ),
{
    treasury.pending_buyback_burn = match treasury.pending_buyback_burn.checked_add(amount) {
        Some(value) => value,
        None => {
            return Err(TreasuryRouterError::ArithmeticOverflow);
        },
    };
    treasury.lifetime_buyback_burn = match treasury.lifetime_buyback_burn.checked_add(amount) {
        Some(value) => value,
        None => {
            return Err(TreasuryRouterError::ArithmeticOverflow);
        },
    };
    Ok(
        BuybackDeposit {
            amount,
            pending_balance: treasury.pending_buyback_burn,
            lifetime_total: treasury.lifetime_buyback_burn,
        },
    )
}

} // verus!
