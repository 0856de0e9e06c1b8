//! The central execution-security gate for treasury releases.
use vstd::prelude::*;

use crate::engines::beaver_score::{self, pre_dam_score_of};
use crate::engines::dam::{self, adaptive_evaluation, DamLevel};
use crate::engines::waterfall::{self, waterfall_of, WaterfallStage};
use crate::errors::TreasuryRouterError;
use crate::state::protocol::ProtocolState;
use crate::state::treasury::TreasuryState;

verus! {

/// Treasury bucket requesting permission to release funds.
#[derive(Clone, Copy, Debug, PartialEq, Eq, Structural)]
pub enum ReleaseBucket {
    Reserve,
    BuybackBurn,
    Liquidity,
    Company,
    Founder,
}

/// Result returned by the central execution-security gate.
#[derive(Clone, Copy, Debug, PartialEq, Eq, Structural)]
pub struct ExecutionAuthorization {
    pub bucket: ReleaseBucket,
    pub requested_amount: u64,
    pub pending_balance: u64,
    pub maximum_release: u64,
    pub waterfall_stage: WaterfallStage,
    pub dam_level: DamLevel,
    pub release_bps: u16,
    pub reserve_ratio_bps: u16,
}

/// Pending balance of a bucket.
pub open spec fn pending_of(t: TreasuryState, bucket: ReleaseBucket) -> u64 {
    match bucket {
        ReleaseBucket::Reserve => t.pending_reserve,
        ReleaseBucket::BuybackBurn => t.pending_buyback_burn,
        ReleaseBucket::Liquidity => t.pending_liquidity,
        ReleaseBucket::Company => t.pending_company,
        ReleaseBucket::Founder => t.pending_founder,
    }
}

/// Released balance of a bucket.
pub open spec fn released_of(t: TreasuryState, bucket: ReleaseBucket) -> u64 {
    match bucket {
        ReleaseBucket::Reserve => t.released_reserve,
        ReleaseBucket::BuybackBurn => t.released_buyback_burn,
        ReleaseBucket::Liquidity => t.released_liquidity,
        ReleaseBucket::Company => t.released_company,
        ReleaseBucket::Founder => t.released_founder,
    }
}

/// Lifetime allocation of a bucket.
pub open spec fn lifetime_of(t: TreasuryState, bucket: ReleaseBucket) -> u64 {
    match bucket {
        ReleaseBucket::Reserve => t.lifetime_reserve,
        ReleaseBucket::BuybackBurn => t.lifetime_buyback_burn,
        ReleaseBucket::Liquidity => t.lifetime_liquidity,
        ReleaseBucket::Company => t.lifetime_company,
        ReleaseBucket::Founder => t.lifetime_founder,
    }
}

/// The most that may be released from `pending` under a Dam rate, rounded
/// down.
pub open spec fn max_release(pending: u64, release_bps: u16) -> int {
    (pending * release_bps) / 10_000
}

/// The Dam evaluation that governs releases from a treasury, given its
/// Waterfall evaluation.
pub open spec fn governing_dam(t: TreasuryState, w: waterfall::WaterfallEvaluation) -> dam::DamEvaluation {
    adaptive_evaluation(w.stage, pre_dam_score_of(t, w.reserve_ratio_bps, w.stage))
}

/// The Execution Guard's decision on a release request; the first check that fails decides:
/// pause, zero amount, allocation above receipts, unsettled receipts,
/// unbalanced buckets, paused buybacks, Waterfall overflow, a closed Dam,
/// insufficient pending balance, and the Dam release limit.
pub open spec fn authorization_outcome(
    protocol: ProtocolState,
    t: TreasuryState,
    bucket: ReleaseBucket,
    amount: u64,
) -> Result<ExecutionAuthorization, TreasuryRouterError> {
    if protocol.paused {
        Err(TreasuryRouterError::ProtocolPaused)
    } else if amount == 0 {
        Err(TreasuryRouterError::InvalidReleaseAmount)
    } else if t.total_fees_allocated > t.total_fees_received {
        Err(TreasuryRouterError::AccountingInvariantViolation)
    } else if t.total_fees_allocated != t.total_fees_received {
        Err(TreasuryRouterError::AccountingNotSettled)
    } else if !t.all_balanced() {
        Err(TreasuryRouterError::AccountingInvariantViolation)
    } else if bucket == ReleaseBucket::BuybackBurn && t.buybacks_paused {
        Err(TreasuryRouterError::BuybacksPaused)
    } else {
        match waterfall_of(t) {
            Err(e) => Err(e),
            Ok(w) => {
                let d = governing_dam(t, w);
                let pending = pending_of(t, bucket);
                if d.level == DamLevel::Filling {
                    Err(TreasuryRouterError::DamClosed)
                } else if amount > pending {
                    Err(TreasuryRouterError::InsufficientPendingBalance)
                } else if amount > max_release(pending, d.release_bps) {
                    Err(TreasuryRouterError::ReleaseLimitExceeded)
                } else {
                    Ok(
                        ExecutionAuthorization {
                            bucket,
                            requested_amount: amount,
                            pending_balance: pending,
                            maximum_release: max_release(pending, d.release_bps) as u64,
                            waterfall_stage: w.stage,
                            dam_level: d.level,
                            release_bps: d.release_bps,
                            reserve_ratio_bps: w.reserve_ratio_bps,
                        },
                    )
                }
            },
        }
    }
}

/// A rate of at most 100% releases at most the whole pending balance.
pub proof fn lemma_max_release_bounded(pending: u64, release_bps: u16)
    requires
        release_bps <= 10_000,
    ensures
        0 <= max_release(pending, release_bps) <= pending,
        release_bps == 10_000 ==> max_release(pending, release_bps) == pending,
        release_bps == 0 ==> max_release(pending, release_bps) == 0,
{
    assert(0 <= pending * release_bps <= pending * 10_000) by (nonlinear_arith)
        requires
            release_bps <= 10_000,
    ;
    vstd::arithmetic::div_mod::lemma_div_is_ordered(pending * release_bps, pending * 10_000, 10_000);
    vstd::arithmetic::div_mod::lemma_div_multiples_vanish(pending as int, 10_000);
    assert(pending * 10_000 == 10_000 * pending) by (nonlinear_arith);
    vstd::arithmetic::div_mod::lemma_div_pos_is_pos(pending * release_bps, 10_000);
}

/// The Dam's release limit is the rate's share of the pending balance,
/// rounded down: `limit * 10_000 <= pending * rate < (limit + 1) * 10_000`.
pub proof fn lemma_max_release_is_rounded_share(pending: u64, release_bps: u16)
    ensures
        max_release(pending, release_bps) * 10_000 <= pending * release_bps < (max_release(pending, release_bps)
            + 1) * 10_000,
{
    let m = max_release(pending, release_bps);
    assert(m * 10_000 <= pending * release_bps < (m + 1) * 10_000) by (nonlinear_arith)
        requires
            m == (pending * release_bps) / 10_000,
    ;
}

/// An authorization never exceeds the Dam's limit or the pending balance:
/// the authorized amount is positive and at most the maximum release, which
/// is at most the bucket's pending balance, under an open Dam whose rate is
/// at most 100%.
pub proof fn lemma_authorization_within_limits(
    protocol: ProtocolState,
    t: TreasuryState,
    bucket: ReleaseBucket,
    amount: u64,
)
    requires
        authorization_outcome(protocol, t, bucket, amount) is Ok,
    ensures
        ({
            let a = authorization_outcome(protocol, t, bucket, amount)->Ok_0;
            &&& a.bucket == bucket
            &&& a.pending_balance == pending_of(t, bucket)
            &&& 0 < a.requested_amount == amount
            &&& a.requested_amount <= a.maximum_release <= a.pending_balance
            &&& a.dam_level != DamLevel::Filling
            &&& 0 < a.release_bps <= 10_000
        }),
{
    let w = waterfall_of(t)->Ok_0;
    let d = governing_dam(t, w);
    dam::lemma_rate_follows_code(d.level, d.level);
    dam::lemma_health_never_weakens_waterfall(w.stage, pre_dam_score_of(t, w.reserve_ratio_bps, w.stage));
    lemma_max_release_bounded(pending_of(t, bucket), d.release_bps);
}

/// Authorizes a treasury release through the mandatory security layer.
///
/// Account ownership, PDA seeds, signer authority, mint validation, and
/// protocol-to-treasury linkage are the caller's responsibility.
pub fn authorize_release(
    protocol: &ProtocolState,
    treasury: &TreasuryState,
    bucket: ReleaseBucket,
    requested_amount: u64,
) -> (r: Result<ExecutionAuthorization, TreasuryRouterError>)
    ensures
        r == authorization_outcome(*protocol, *treasury, bucket, requested_amount),
{
    if protocol.paused {
        return Err(TreasuryRouterError::ProtocolPaused);
    }
    if requested_amount == 0 {
        return Err(TreasuryRouterError::InvalidReleaseAmount);
    }
    validate_accounting_integrity(treasury)?;
    if !treasury.execution_accounting_is_valid() {
        return Err(TreasuryRouterError::AccountingInvariantViolation);
    }
    if bucket == ReleaseBucket::BuybackBurn {
        if treasury.buybacks_paused {
            return Err(TreasuryRouterError::BuybacksPaused);
        }
    }
    let waterfall_evaluation = waterfall::evaluate(treasury)?;
    let pre_dam_health_score = beaver_score::pre_dam_health_score(
        treasury,
        waterfall_evaluation.reserve_ratio_bps,
        waterfall_evaluation.stage,
    )?;
    let dam_evaluation = dam::evaluate_adaptive(waterfall_evaluation.stage, pre_dam_health_score);
    if dam_evaluation.release_bps > 10_000 {
        return Err(TreasuryRouterError::InvalidDamReleaseRate);
    }
    if dam_evaluation.level == DamLevel::Filling {
        return Err(TreasuryRouterError::DamClosed);
    }
    let pending_balance = pending_balance(treasury, bucket);
    if requested_amount > pending_balance {
        return Err(TreasuryRouterError::InsufficientPendingBalance);
    }
    let maximum_release = calculate_maximum_release(pending_balance, dam_evaluation.release_bps)?;
    if requested_amount > maximum_release {
        return Err(TreasuryRouterError::ReleaseLimitExceeded);
    }
    Ok(
        ExecutionAuthorization {
            bucket,
            requested_amount,
            pending_balance,
            maximum_release,
            waterfall_stage: waterfall_evaluation.stage,
            dam_level: dam_evaluation.level,
            release_bps: dam_evaluation.release_bps,
            reserve_ratio_bps: waterfall_evaluation.reserve_ratio_bps,
        },
    )
}

/// Requires exact equality of allocated and received fees before releases.
fn validate_accounting_integrity(treasury: &TreasuryState) -> (r: Result<(), TreasuryRouterError>)
    ensures
        treasury.total_fees_allocated > treasury.total_fees_received ==> r == Err::<(), _>(
            TreasuryRouterError::AccountingInvariantViolation,
        ),
        treasury.total_fees_allocated < treasury.total_fees_received ==> r == Err::<(), _>(
            TreasuryRouterError::AccountingNotSettled,
        ),
        treasury.total_fees_allocated == treasury.total_fees_received ==> r is Ok,
{
    if treasury.total_fees_allocated > treasury.total_fees_received {
        return Err(TreasuryRouterError::AccountingInvariantViolation);
    }
    if treasury.total_fees_allocated != treasury.total_fees_received {
        return Err(TreasuryRouterError::AccountingNotSettled);
    }
    Ok(())
}

/// Returns the current pending balance for a treasury bucket.
pub fn pending_balance(treasury: &TreasuryState, bucket: ReleaseBucket) -> (r: u64)
    ensures
        r == pending_of(*treasury, bucket),
{
    match bucket {
        ReleaseBucket::Reserve => treasury.pending_reserve,
        ReleaseBucket::BuybackBurn => treasury.pending_buyback_burn,
        ReleaseBucket::Liquidity => treasury.pending_liquidity,
        ReleaseBucket::Company => treasury.pending_company,
        ReleaseBucket::Founder => treasury.pending_founder,
    }
}

/// The maximum amount releasable under a Dam rate, rounded down so the limit
/// is never exceeded; rates above 100% are rejected.
pub fn calculate_maximum_release(pending_balance: u64, release_bps: u16) -> (r: Result<u64, TreasuryRouterError>)
    ensures
        release_bps > 10_000 ==> r == Err::<u64, _>(TreasuryRouterError::InvalidDamReleaseRate),
        release_bps <= 10_000 ==> r == Ok::<u64, TreasuryRouterError>(max_release(pending_balance, release_bps) as u64),
        release_bps <= 10_000 ==> max_release(pending_balance, release_bps) <= pending_balance,
{
    if release_bps > 10_000 {
        return Err(TreasuryRouterError::InvalidDamReleaseRate);
    }
    proof {
        lemma_max_release_bounded(pending_balance, release_bps);
    }
    assert((pending_balance as int) * (release_bps as int) <= u64::MAX * 10_000) by (nonlinear_arith)
        requires
            release_bps <= 10_000,
            pending_balance <= u64::MAX,
    ;
    let numerator = (pending_balance as u128) * (release_bps as u128);
    let maximum_release = numerator / 10_000;
    Ok(maximum_release as u64)
}

} // verus!
