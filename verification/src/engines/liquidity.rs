//! Liquidity Engine: credits Liquidity Growth allocations.
use vstd::prelude::*;

use crate::errors::TreasuryRouterError;
use crate::state::treasury::TreasuryState;

verus! {

/// Result returned by the Liquidity Engine.
#[derive(Clone, Copy, Debug, PartialEq, Eq, Structural)]
pub struct LiquidityDeposit {
    /// Amount credited to the pending liquidity bucket.
    pub amount: u64,
    /// Updated pending liquidity balance.
    pub pending_balance: u64,
    /// Updated lifetime liquidity allocation.
    pub lifetime_total: u64,
}

/// Credits a liquidity allocation to pending and lifetime accounting.
///
/// Where the pending balance would overflow nothing changes; where only the
/// lifetime total would overflow, the pending balance has already been
/// credited when the error is returned.
pub fn deposit(treasury: &mut TreasuryState, amount: u64) -> (r: Result<LiquidityDeposit, TreasuryRouterError>)
    ensures
        old(treasury).pending_liquidity + amount > u64::MAX ==> r == Err::<LiquidityDeposit, _>(
            TreasuryRouterError::ArithmeticOverflow,
        ) && *final(treasury) == *old(treasury),
        old(treasury).pending_liquidity + amount <= u64::MAX && old(treasury).lifetime_liquidity + amount
            > u64::MAX ==> r == Err::<LiquidityDeposit, _>(TreasuryRouterError::ArithmeticOverflow)
            && *final(treasury) == (TreasuryState {
                pending_liquidity: (old(treasury).pending_liquidity + amount) as u64,
                ..*old(treasury)
            }),
        old(treasury).pending_liquidity + amount <= u64::MAX && old(treasury).lifetime_liquidity + amount
            <= u64::MAX ==> *final(treasury) == (TreasuryState {
            pending_liquidity: (old(treasury).pending_liquidity + amount) as u64,
            lifetime_liquidity: (old(treasury).lifetime_liquidity + amount) as u64,
            ..*old(treasury)
        }) && r == Ok::<LiquidityDeposit, TreasuryRouterError>(
            LiquidityDeposit {
                amount,
                pending_balance: final(treasury).pending_liquidity,
                lifetime_total: final(treasury).lifetime_liquidity,
            },
        ),
{
    treasury.pending_liquidity = match treasury.pending_liquidity.checked_add(amount) {
        Some(value) => value,
        None => {
            return Err(TreasuryRouterError::ArithmeticOverflow);
        },
    };
    treasury.lifetime_liquidity = match treasury.lifetime_liquidity.checked_add(amount) {
        Some(value) => value,
        None => {
            return Err(TreasuryRouterError::ArithmeticOverflow);
        },
    };
    Ok(
        LiquidityDeposit {
            amount,
            pending_balance: treasury.pending_liquidity,
            lifetime_total: treasury.lifetime_liquidity,
        },
    )
}

} // verus!
