//! Progressive founder compensation by cumulative founder volume.
use vstd::prelude::*;

use crate::errors::TreasuryRouterError;
use crate::state::founder::FounderState;

verus! {

/// Progressive Founder compensation result.
#[derive(Clone, Copy, Debug, PartialEq, Eq, Structural)]
pub struct ProgressiveFounderAllocation {
    /// Founder amount after progressive rate calculation.
    pub founder_amount: u64,
    /// Excess redirected to liquidity growth.
    pub liquidity_overflow_amount: u64,
    /// Applied marginal rate.
    pub applied_rate_bps: u64,
    /// Current progressive tier.
    pub current_tier: u8,
}

/// The tier and rate that a cumulative founder volume reaches: 10% below 1B,
/// 7.5% below 10B, 5% below 100B, and 2.5% from there on.
pub open spec fn lifetime_tier(lifetime_volume: u64) -> (u8, u64) {
    if lifetime_volume < 1_000_000_000 {
        (0, 1000)
    } else if lifetime_volume < 10_000_000_000 {
        (1, 750)
    } else if lifetime_volume < 100_000_000_000 {
        (2, 500)
    } else {
        (3, 250)
    }
}

/// Progressive founder compensation engine: the rate decreases as the
/// cumulative founder volume increases, and whatever the rate does not grant
/// goes to Liquidity.
pub fn calculate(founder_state: &FounderState, requested_amount: u64, _now: i64) -> (r: Result<
    ProgressiveFounderAllocation,
    TreasuryRouterError,
>)
    ensures
        ({
            let (tier, rate) = lifetime_tier(founder_state.lifetime_earned);
            &&& requested_amount * rate > u64::MAX ==> r == Err::<ProgressiveFounderAllocation, _>(
                TreasuryRouterError::ArithmeticOverflow,
            )
            &&& requested_amount * rate <= u64::MAX ==> r == Ok::<
                ProgressiveFounderAllocation,
                TreasuryRouterError,
            >(
                ProgressiveFounderAllocation {
                    founder_amount: (requested_amount * rate / 10_000) as u64,
                    liquidity_overflow_amount: (requested_amount - requested_amount * rate / 10_000) as u64,
                    applied_rate_bps: rate,
                    current_tier: tier,
                },
            )
        }),
        r matches Ok(a) ==> a.founder_amount + a.liquidity_overflow_amount == requested_amount,
{
    let lifetime_volume = founder_state.lifetime_earned;
    let (tier, rate_bps): (u8, u64) = if lifetime_volume < 1_000_000_000 {
        (0u8, 1000u64)
    } else if lifetime_volume < 10_000_000_000 {
        (1u8, 750u64)
    } else if lifetime_volume < 100_000_000_000 {
        (2u8, 500u64)
    } else {
        (3u8, 250u64)
    };
    let scaled = match requested_amount.checked_mul(rate_bps) {
        Some(value) => value,
        None => {
            return Err(TreasuryRouterError::ArithmeticOverflow);
        },
    };
    let founder_amount = scaled / 10_000;
    assert(requested_amount * rate_bps / 10_000 <= requested_amount) by (nonlinear_arith)
        requires
            rate_bps <= 1000,
    ;
    let liquidity_overflow = requested_amount - founder_amount;
    Ok(
        ProgressiveFounderAllocation {
            founder_amount,
            liquidity_overflow_amount: liquidity_overflow,
            applied_rate_bps: rate_bps,
            current_tier: tier,
        },
    )
}

} // verus!
