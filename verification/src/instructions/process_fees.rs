//! Fee processing: one complete Beavernomics allocation cycle.
use vstd::prelude::*;

use crate::constants::BPS_DENOMINATOR;
use crate::engines::beaver_score::{beaver_score_of, pre_dam_score_of, BeaverScoreEvaluation};
use crate::engines::buyback::BuybackDeposit;
use crate::engines::company::company_allocation_outcome;
use crate::engines::dam::{adaptive_evaluation, dam_code, DamEvaluation};
use crate::engines::founder::{progressive_compensation, progressive_tier, progressive_tiers};
use crate::engines::founder_usd_cap::founder_cap_outcome;
use crate::engines::liquidity::LiquidityDeposit;
use crate::engines::reserve::ReserveDeposit;
use crate::engines::sentinel::{lifetime_total, linkage_failed, sentinel_failed, SentinelInvariant, SentinelLinkageInvariant};
use crate::engines::waterfall::{
    allocation_for_stage, allocation_table_is_sound, allocation_table_is_valid, lemma_sound_table_profiles, locked_split, profile_for, stage_code, waterfall_of, AdaptiveAllocation, AdaptiveAllocationTable,
    WaterfallEvaluation, WaterfallStage,
};
use crate::engines::{
    beaver_score, buyback, company, dam, founder, founder_usd_cap, liquidity, reserve, sentinel, waterfall,
};
use crate::errors::TreasuryRouterError;
use crate::pubkey::Pubkey;
use crate::state::protocol_config::ProtocolConfig;
use crate::state::company::CompanyState;
use crate::state::founder::FounderState;
use crate::state::founder_price::FounderPriceState;
use crate::state::founder_usd_cap::FounderUsdCapState;
use crate::state::protocol::ProtocolState;
use crate::state::treasury::TreasuryState;

verus! {

/// A basis-point share of an amount, rounded down.
pub open spec fn share_of(amount: u64, basis_points: u16) -> int {
    (amount * basis_points) / 10_000
}

/// Computes a basis-point share of an amount, rounded down; fails where the
/// share does not fit in `u64` (only possible above 10,000 basis points).
pub fn calculate_share(amount: u64, basis_points: u16) -> (r: Result<u64, TreasuryRouterError>)
    ensures
        share_of(amount, basis_points) <= u64::MAX ==> r == Ok::<u64, TreasuryRouterError>(
            share_of(amount, basis_points) as u64,
        ),
        share_of(amount, basis_points) > u64::MAX ==> r == Err::<u64, _>(TreasuryRouterError::ArithmeticOverflow),
{
    assert(amount * basis_points <= u64::MAX * u16::MAX) by (nonlinear_arith);
    let numerator = match (amount as u128).checked_mul(basis_points as u128) {
        Some(value) => value,
        None => {
            return Err(TreasuryRouterError::ArithmeticOverflow);
        },
    };
    let share = match numerator.checked_div(BPS_DENOMINATOR as u128) {
        Some(value) => value,
        None => {
            return Err(TreasuryRouterError::ArithmeticOverflow);
        },
    };
    match u64::try_from(share) {
        Ok(value) => Ok(value),
        Err(_) => Err(TreasuryRouterError::ArithmeticOverflow),
    }
}

/// Deterministic result of one successful fee-processing cycle.
#[derive(Clone, Copy, Debug)]
pub struct FeeCycleOutcome {
    pub pre_allocation_waterfall: WaterfallEvaluation,
    pub adaptive_allocation: AdaptiveAllocation,
    pub requested_company_amount: u64,
    pub requested_founder_amount: u64,
    pub company_amount: u64,
    pub founder_amount: u64,
    pub reserve_deposit: ReserveDeposit,
    pub liquidity_deposit: LiquidityDeposit,
    pub buyback_deposit: BuybackDeposit,
    pub previous_waterfall_stage: u8,
    pub waterfall_evaluation: WaterfallEvaluation,
    pub previous_dam_level: u8,
    pub pre_dam_health_score: u16,
    pub dam_evaluation: DamEvaluation,
    pub previous_beaver_score: u16,
    pub beaver_score_evaluation: BeaverScoreEvaluation,
}

/// The treasury after crediting one cycle: the fee totals, the five pending
/// and lifetime buckets, the epoch and the processing time; `None` where any
/// of these sums overflows `u64`.
pub open spec fn credited_treasury(
    t: TreasuryState,
    amount: u64,
    reserve: u64,
    buyback: u64,
    liquidity: u64,
    company: u64,
    founder: u64,
    now: i64,
) -> Option<TreasuryState> {
    if t.total_fees_received + amount > u64::MAX || t.total_fees_allocated + amount > u64::MAX
        || t.pending_reserve + reserve > u64::MAX || t.lifetime_reserve + reserve > u64::MAX
        || t.pending_liquidity + liquidity > u64::MAX || t.lifetime_liquidity + liquidity > u64::MAX
        || t.pending_buyback_burn + buyback > u64::MAX || t.lifetime_buyback_burn + buyback > u64::MAX
        || t.pending_company + company > u64::MAX || t.pending_founder + founder > u64::MAX
        || t.lifetime_company + company > u64::MAX || t.lifetime_founder + founder > u64::MAX
        || t.processing_epoch + 1 > u64::MAX {
        None
    } else {
        Some(
            TreasuryState {
                total_fees_received: (t.total_fees_received + amount) as u64,
                total_fees_allocated: (t.total_fees_allocated + amount) as u64,
                pending_reserve: (t.pending_reserve + reserve) as u64,
                lifetime_reserve: (t.lifetime_reserve + reserve) as u64,
                pending_liquidity: (t.pending_liquidity + liquidity) as u64,
                lifetime_liquidity: (t.lifetime_liquidity + liquidity) as u64,
                pending_buyback_burn: (t.pending_buyback_burn + buyback) as u64,
                lifetime_buyback_burn: (t.lifetime_buyback_burn + buyback) as u64,
                pending_company: (t.pending_company + company) as u64,
                pending_founder: (t.pending_founder + founder) as u64,
                lifetime_company: (t.lifetime_company + company) as u64,
                lifetime_founder: (t.lifetime_founder + founder) as u64,
                processing_epoch: (t.processing_epoch + 1) as u64,
                last_processed_at: now,
                ..t
            },
        )
    }
}

/// A share of at most 10,000 basis points is at most the amount.
proof fn lemma_share_bounded(amount: u64, basis_points: u16)
    requires
        basis_points <= 10_000,
    ensures
        0 <= share_of(amount, basis_points) <= amount,
{
    assert(0 <= (amount * basis_points) / 10_000 <= amount) by (nonlinear_arith)
        requires
            basis_points <= 10_000,
            amount >= 0,
    ;
}

/// The four capped shares of a fee under an allocation profile, and the
/// founder's progressive request.
fn split_fee(founder_state: &mut FounderState, amount: u64, allocation: &AdaptiveAllocation) -> (r: Result<
    (u64, u64, u64, u64, u64),
    TreasuryRouterError,
>)
    requires
        allocation.bps_sum() == 10_000,
    ensures
        progressive_tiers(amount as int).3 * 250 > u64::MAX ==> r == Err::<(u64, u64, u64, u64, u64), _>(
            TreasuryRouterError::ArithmeticOverflow,
        ),
        progressive_tiers(amount as int).3 * 250 <= u64::MAX ==> r == Ok::<_, TreasuryRouterError>(
            (
                share_of(amount, allocation.reserve_bps) as u64,
                share_of(amount, allocation.buyback_burn_bps) as u64,
                share_of(amount, allocation.liquidity_bps) as u64,
                share_of(amount, allocation.company_bps) as u64,
                progressive_compensation(amount as int) as u64,
            ),
        ) && *final(founder_state) == (FounderState { current_tier: progressive_tier(amount), ..*old(founder_state) }),
        share_of(amount, allocation.reserve_bps) <= amount,
        share_of(amount, allocation.buyback_burn_bps) <= amount,
        share_of(amount, allocation.liquidity_bps) <= amount,
        share_of(amount, allocation.company_bps) <= amount,
{
    proof {
        lemma_share_bounded(amount, allocation.reserve_bps);
        lemma_share_bounded(amount, allocation.buyback_burn_bps);
        lemma_share_bounded(amount, allocation.liquidity_bps);
        lemma_share_bounded(amount, allocation.company_bps);
    }
    let base_reserve_amount = calculate_share(amount, allocation.reserve_bps)?;
    let buyback_amount = calculate_share(amount, allocation.buyback_burn_bps)?;
    let liquidity_amount = calculate_share(amount, allocation.liquidity_bps)?;
    let requested_company_amount = calculate_share(amount, allocation.company_bps)?;
    let requested_founder_amount = founder::calculate_progressive_request(
        founder_state,
        amount,
        allocation.founder_bps,
    )?;
    Ok((base_reserve_amount, buyback_amount, liquidity_amount, requested_company_amount, requested_founder_amount))
}

/// Credits one cycle to a treasury: the fee totals, the Reserve, Liquidity
/// and Buyback deposits, the Company and Founder buckets, and the epoch.
fn credit_treasury(
    treasury: &mut TreasuryState,
    amount: u64,
    reserve_amount: u64,
    buyback_amount: u64,
    liquidity_amount: u64,
    company_amount: u64,
    founder_amount: u64,
    now: i64,
) -> (r: Result<(ReserveDeposit, LiquidityDeposit, BuybackDeposit), TreasuryRouterError>)
    ensures
        match credited_treasury(
            *old(treasury),
            amount,
            reserve_amount,
            buyback_amount,
            liquidity_amount,
            company_amount,
            founder_amount,
            now,
        ) {
            None => r == Err::<(ReserveDeposit, LiquidityDeposit, BuybackDeposit), _>(
                TreasuryRouterError::ArithmeticOverflow,
            ),
            Some(t) => *final(treasury) == t && r == Ok::<_, TreasuryRouterError>(
                (
                    ReserveDeposit { normal_amount: reserve_amount, total_amount: reserve_amount },
                    LiquidityDeposit {
                        amount: liquidity_amount,
                        pending_balance: t.pending_liquidity,
                        lifetime_total: t.lifetime_liquidity,
                    },
                    BuybackDeposit {
                        amount: buyback_amount,
                        pending_balance: t.pending_buyback_burn,
                        lifetime_total: t.lifetime_buyback_burn,
                    },
                ),
            ),
        },
{
    treasury.total_fees_received = match treasury.total_fees_received.checked_add(amount) {
        Some(value) => value,
        None => {
            return Err(TreasuryRouterError::ArithmeticOverflow);
        },
    };
    treasury.total_fees_allocated = match treasury.total_fees_allocated.checked_add(amount) {
        Some(value) => value,
        None => {
            return Err(TreasuryRouterError::ArithmeticOverflow);
        },
    };
    let reserve_deposit = reserve::deposit_fee_allocation(treasury, reserve_amount)?;
    let liquidity_deposit = liquidity::deposit(treasury, liquidity_amount)?;
    let buyback_deposit = buyback::deposit(treasury, buyback_amount)?;
    treasury.pending_company = match treasury.pending_company.checked_add(company_amount) {
        Some(value) => value,
        None => {
            return Err(TreasuryRouterError::ArithmeticOverflow);
        },
    };
    treasury.pending_founder = match treasury.pending_founder.checked_add(founder_amount) {
        Some(value) => value,
        None => {
            return Err(TreasuryRouterError::ArithmeticOverflow);
        },
    };
    treasury.lifetime_company = match treasury.lifetime_company.checked_add(company_amount) {
        Some(value) => value,
        None => {
            return Err(TreasuryRouterError::ArithmeticOverflow);
        },
    };
    treasury.lifetime_founder = match treasury.lifetime_founder.checked_add(founder_amount) {
        Some(value) => value,
        None => {
            return Err(TreasuryRouterError::ArithmeticOverflow);
        },
    };
    treasury.processing_epoch = match treasury.processing_epoch.checked_add(1) {
        Some(value) => value,
        None => {
            return Err(TreasuryRouterError::ArithmeticOverflow);
        },
    };
    treasury.last_processed_at = now;
    Ok((reserve_deposit, liquidity_deposit, buyback_deposit))
}

/// The health indicators after a cycle: the Waterfall stage written to the
/// treasury, the Adaptive Dam level and the Beaver Score written to the
/// protocol, with their previous values.
pub open spec fn health_outcome(t: TreasuryState, p: ProtocolState) -> Result<
    (TreasuryState, ProtocolState, WaterfallEvaluation, u16, DamEvaluation, BeaverScoreEvaluation),
    TreasuryRouterError,
> {
    match waterfall_of(t) {
        Err(e) => Err(e),
        Ok(w) => {
            let t2 = TreasuryState { waterfall_stage: stage_code(w.stage), ..t };
            let health = pre_dam_score_of(t2, w.reserve_ratio_bps, w.stage);
            let d = adaptive_evaluation(w.stage, health);
            let b = beaver_score_of(t2, w.reserve_ratio_bps, w.stage, d.level);
            Ok((t2, ProtocolState { dam_level: dam_code(d.level), beaver_score: b.total_score, ..p }, w, health, d, b))
        },
    }
}

/// Re-evaluates the Waterfall, the Adaptive Dam and the Beaver Score and
/// records them.
fn refresh_health(treasury: &mut TreasuryState, protocol_state: &mut ProtocolState) -> (r: Result<
    (WaterfallEvaluation, u16, DamEvaluation, BeaverScoreEvaluation),
    TreasuryRouterError,
>)
    ensures
        match health_outcome(*old(treasury), *old(protocol_state)) {
            Err(e) => r == Err::<(WaterfallEvaluation, u16, DamEvaluation, BeaverScoreEvaluation), _>(e),
            Ok((t, p, w, health, d, b)) => r == Ok::<_, TreasuryRouterError>((w, health, d, b)) && *final(treasury)
                == t && *final(protocol_state) == p,
        },
{
    let waterfall_evaluation = waterfall::evaluate(treasury)?;
    treasury.waterfall_stage = waterfall_evaluation.stage.as_u8();
    let pre_dam_health_score = beaver_score::pre_dam_health_score(
        treasury,
        waterfall_evaluation.reserve_ratio_bps,
        waterfall_evaluation.stage,
    )?;
    let dam_evaluation = dam::evaluate_adaptive(waterfall_evaluation.stage, pre_dam_health_score);
    protocol_state.dam_level = dam_evaluation.level.as_u8();
    let beaver_score_evaluation = beaver_score::evaluate(
        treasury,
        waterfall_evaluation.reserve_ratio_bps,
        waterfall_evaluation.stage,
        dam_evaluation.level,
    )?;
    protocol_state.beaver_score = beaver_score_evaluation.total_score;
    Ok((waterfall_evaluation, pre_dam_health_score, dam_evaluation, beaver_score_evaluation))
}

/// The states that a fee cycle updates: protocol, treasury, founder,
/// founder USD cap and company.
pub type FeeCycleStates = (ProtocolState, TreasuryState, FounderState, FounderUsdCapState, CompanyState);

/// The result of one fee-processing cycle: the outcome and the updated
/// states, or the error that aborts it.
///
/// The Waterfall stage before allocation selects the profile, which must
/// total 10,000 basis points. Reserve, Buyback/Burn, Liquidity and Company
/// get their rounded-down shares and the Founder the progressive request;
/// the rounding remainder goes to Reserve. After the oracle price and the
/// Founder cap configuration are checked, the Founder request is cut to the
/// annual USD cap and the Company request to its period cap, and both
/// overflows go to Liquidity. The treasury is credited, and the Waterfall
/// stage, Adaptive Dam level and Beaver Score are recomputed and recorded.
pub open spec fn fee_cycle_outcome(
    s: FeeCycleStates,
    founder_price: FounderPriceState,
    settlement_token_decimals: u8,
    allocation_table: AdaptiveAllocationTable,
    amount: u64,
    now: i64,
) -> Result<(FeeCycleOutcome, FeeCycleStates), TreasuryRouterError> {
    let (protocol, treasury, founder, founder_usd_cap, company) = s;
    if amount == 0 {
        Err(TreasuryRouterError::NoUnprocessedFees)
    } else {
        match waterfall_of(treasury) {
            Err(e) => Err(e),
            Ok(pre) => {
                let allocation = profile_for(allocation_table, pre.stage);
                if !allocation_table_is_sound(allocation_table) {
                    Err(TreasuryRouterError::InvalidAllocationConfiguration)
                } else if progressive_tiers(amount as int).3 * 250 > u64::MAX {
                    Err(TreasuryRouterError::ArithmeticOverflow)
                } else {
                    let base_reserve = share_of(amount, allocation.reserve_bps);
                    let buyback = share_of(amount, allocation.buyback_burn_bps);
                    let liquidity = share_of(amount, allocation.liquidity_bps);
                    let company_request = share_of(amount, allocation.company_bps);
                    let founder_request = progressive_compensation(amount as int);
                    let before_remainder = base_reserve + buyback + liquidity + company_request + founder_request;
                    if before_remainder > amount {
                        Err(TreasuryRouterError::ArithmeticOverflow)
                    } else {
                        let normal_reserve = base_reserve + (amount - before_remainder);
                        match founder_price.price_outcome(now) {
                            Err(e) => Err(e),
                            Ok(_) => match founder_usd_cap.configuration_outcome() {
                                Err(e) => Err(e),
                                Ok(_) => match founder_cap_outcome(
                                    founder_usd_cap,
                                    founder_request as u64,
                                    settlement_token_decimals,
                                    founder_price.price,
                                    founder_price.exponent,
                                    now,
                                ) {
                                    (Err(e), _) => Err(e),
                                    (Ok(fa), cap) => match company_allocation_outcome(
                                        company,
                                        company_request as u64,
                                        now,
                                    ) {
                                        (Err(e), _) => Err(e),
                                        (Ok(ca), company2) => {
                                            let final_liquidity = liquidity + fa.liquidity_overflow_token_amount
                                                + ca.liquidity_overflow_amount;
                                            match credited_treasury(
                                                treasury,
                                                amount,
                                                normal_reserve as u64,
                                                buyback as u64,
                                                final_liquidity as u64,
                                                ca.company_amount,
                                                fa.founder_token_amount,
                                                now,
                                            ) {
                                                None => Err(TreasuryRouterError::ArithmeticOverflow),
                                                Some(t1) => match health_outcome(t1, protocol) {
                                                    Err(e) => Err(e),
                                                    Ok((t2, p2, w, health, d, b)) => Ok(
                                                        (
                                                            FeeCycleOutcome {
                                                                pre_allocation_waterfall: pre,
                                                                adaptive_allocation: allocation,
                                                                requested_company_amount: company_request as u64,
                                                                requested_founder_amount: founder_request as u64,
                                                                company_amount: ca.company_amount,
                                                                founder_amount: fa.founder_token_amount,
                                                                reserve_deposit: ReserveDeposit {
                                                                    normal_amount: normal_reserve as u64,
                                                                    total_amount: normal_reserve as u64,
                                                                },
                                                                liquidity_deposit: LiquidityDeposit {
                                                                    amount: final_liquidity as u64,
                                                                    pending_balance: t1.pending_liquidity,
                                                                    lifetime_total: t1.lifetime_liquidity,
                                                                },
                                                                buyback_deposit: BuybackDeposit {
                                                                    amount: buyback as u64,
                                                                    pending_balance: t1.pending_buyback_burn,
                                                                    lifetime_total: t1.lifetime_buyback_burn,
                                                                },
                                                                previous_waterfall_stage: treasury.waterfall_stage,
                                                                waterfall_evaluation: w,
                                                                previous_dam_level: protocol.dam_level,
                                                                pre_dam_health_score: health,
                                                                dam_evaluation: d,
                                                                previous_beaver_score: protocol.beaver_score,
                                                                beaver_score_evaluation: b,
                                                            },
                                                            (
                                                                p2,
                                                                t2,
                                                                FounderState {
                                                                    current_tier: progressive_tier(amount),
                                                                    ..founder
                                                                },
                                                                cap,
                                                                company2,
                                                            ),
                                                        ),
                                                    ),
                                                },
                                            }
                                        },
                                    },
                                },
                            },
                        }
                    }
                }
            },
        }
    }
}

/// Applies one complete fee-allocation cycle (see `fee_cycle_outcome`).
///
/// All arithmetic is checked. Company and Founder cap overflow goes to
/// Liquidity Growth and the rounding remainder to Reserve, so the five
/// credited amounts always add up to the fee amount. On any error no state
/// changes.
#[allow(clippy::too_many_arguments)]
#[verifier::rlimit(40)]
pub fn process_fee_cycle_usd_cap(
    protocol_state: &mut ProtocolState,
    treasury: &mut TreasuryState,
    founder_state: &mut FounderState,
    founder_usd_cap: &mut FounderUsdCapState,
    founder_price: &FounderPriceState,
    settlement_token_decimals: u8,
    company_state: &mut CompanyState,
    allocation_table: &AdaptiveAllocationTable,
    amount: u64,
    now: i64,
) -> (r: Result<FeeCycleOutcome, TreasuryRouterError>)
    ensures
        match fee_cycle_outcome(
            (*old(protocol_state), *old(treasury), *old(founder_state), *old(founder_usd_cap), *old(company_state)),
            *founder_price,
            settlement_token_decimals,
            *allocation_table,
            amount,
            now,
        ) {
            Err(e) => r == Err::<FeeCycleOutcome, _>(e) && *final(protocol_state) == *old(protocol_state)
                && *final(treasury) == *old(treasury) && *final(founder_state) == *old(founder_state)
                && *final(founder_usd_cap) == *old(founder_usd_cap) && *final(company_state) == *old(company_state),
            Ok((o, (p, t, f, cap, c))) => r == Ok::<FeeCycleOutcome, TreasuryRouterError>(o) && *final(protocol_state)
                == p && *final(treasury) == t && *final(founder_state) == f && *final(founder_usd_cap) == cap
                && *final(company_state) == c,
        },
        r is Ok ==> {
            let o = r->Ok_0;
            &&& o.reserve_deposit.normal_amount + o.buyback_deposit.amount + o.liquidity_deposit.amount
                + o.company_amount + o.founder_amount == amount
            &&& o.company_amount <= o.requested_company_amount
            &&& o.founder_amount <= o.requested_founder_amount
            &&& o.liquidity_deposit.amount == share_of(amount, o.adaptive_allocation.liquidity_bps) + (
            o.requested_company_amount - o.company_amount) + (o.requested_founder_amount - o.founder_amount)
            &&& final(treasury).total_fees_received == old(treasury).total_fees_received + amount
            &&& final(treasury).total_fees_allocated == old(treasury).total_fees_allocated + amount
        },
{
    if amount == 0 {
        return Err(TreasuryRouterError::NoUnprocessedFees);
    }
    // Evaluate health before applying this cycle so that the cycle cannot
    // improve the stage used to allocate itself.
    let pre_allocation_waterfall = waterfall::evaluate(treasury)?;
    let adaptive_allocation = allocation_for_stage(allocation_table, pre_allocation_waterfall.stage);
    if !allocation_table_is_valid(allocation_table) {
        return Err(TreasuryRouterError::InvalidAllocationConfiguration);
    }
    proof {
        lemma_sound_table_profiles(*allocation_table, pre_allocation_waterfall.stage);
    }
    let mut founder = *founder_state;
    let (base_reserve_amount, buyback_amount, liquidity_amount, requested_company_amount, requested_founder_amount) =
        split_fee(&mut founder, amount, &adaptive_allocation)?;
    let allocated_before_remainder = match base_reserve_amount.checked_add(buyback_amount) {
        Some(v1) => match v1.checked_add(liquidity_amount) {
            Some(v2) => match v2.checked_add(requested_company_amount) {
                Some(v3) => match v3.checked_add(requested_founder_amount) {
                    Some(v4) => v4,
                    None => {
                        return Err(TreasuryRouterError::ArithmeticOverflow);
                    },
                },
                None => {
                    return Err(TreasuryRouterError::ArithmeticOverflow);
                },
            },
            None => {
                return Err(TreasuryRouterError::ArithmeticOverflow);
            },
        },
        None => {
            return Err(TreasuryRouterError::ArithmeticOverflow);
        },
    };
    let rounding_remainder = match amount.checked_sub(allocated_before_remainder) {
        Some(value) => value,
        None => {
            return Err(TreasuryRouterError::ArithmeticOverflow);
        },
    };
    let normal_reserve_amount = match base_reserve_amount.checked_add(rounding_remainder) {
        Some(value) => value,
        None => {
            return Err(TreasuryRouterError::ArithmeticOverflow);
        },
    };
    founder_price.validate_price(now)?;
    founder_usd_cap.validate_configuration()?;
    let mut cap = *founder_usd_cap;
    let founder_allocation = founder_usd_cap::apply_founder_usd_cap(
        &mut cap,
        requested_founder_amount,
        settlement_token_decimals,
        founder_price.price,
        founder_price.exponent,
        now,
    )?;
    let mut company_copy = *company_state;
    let company_allocation = company::allocate(&mut company_copy, requested_company_amount, now)?;
    proof {
        founder_usd_cap::lemma_founder_cap_respected(
            *founder_usd_cap,
            requested_founder_amount,
            settlement_token_decimals,
            founder_price.price,
            founder_price.exponent,
            now,
        );
        company::lemma_company_allocation_conserves(*company_state, requested_company_amount, now);
    }
    let founder_amount = founder_allocation.founder_token_amount;
    let company_amount = company_allocation.company_amount;
    // All Company and Founder cap overflow goes to Liquidity Growth.
    let final_liquidity_amount = match liquidity_amount.checked_add(
        founder_allocation.liquidity_overflow_token_amount,
    ) {
        Some(v1) => match v1.checked_add(company_allocation.liquidity_overflow_amount) {
            Some(v2) => v2,
            None => {
                return Err(TreasuryRouterError::ArithmeticOverflow);
            },
        },
        None => {
            return Err(TreasuryRouterError::ArithmeticOverflow);
        },
    };
    let final_allocated_amount = match normal_reserve_amount.checked_add(buyback_amount) {
        Some(v1) => match v1.checked_add(final_liquidity_amount) {
            Some(v2) => match v2.checked_add(company_amount) {
                Some(v3) => match v3.checked_add(founder_amount) {
                    Some(v4) => v4,
                    None => {
                        return Err(TreasuryRouterError::ArithmeticOverflow);
                    },
                },
                None => {
                    return Err(TreasuryRouterError::ArithmeticOverflow);
                },
            },
            None => {
                return Err(TreasuryRouterError::ArithmeticOverflow);
            },
        },
        None => {
            return Err(TreasuryRouterError::ArithmeticOverflow);
        },
    };
    if final_allocated_amount != amount {
        return Err(TreasuryRouterError::InvalidAllocationConfiguration);
    }
    let mut treasury_copy = *treasury;
    let (reserve_deposit, liquidity_deposit, buyback_deposit) = credit_treasury(
        &mut treasury_copy,
        amount,
        normal_reserve_amount,
        buyback_amount,
        final_liquidity_amount,
        company_amount,
        founder_amount,
        now,
    )?;
    let previous_waterfall_stage = treasury_copy.waterfall_stage;
    let mut protocol_copy = *protocol_state;
    let previous_dam_level = protocol_copy.dam_level;
    let previous_beaver_score = protocol_copy.beaver_score;
    let (waterfall_evaluation, pre_dam_health_score, dam_evaluation, beaver_score_evaluation) = refresh_health(
        &mut treasury_copy,
        &mut protocol_copy,
    )?;
    *protocol_state = protocol_copy;
    *treasury = treasury_copy;
    *founder_state = founder;
    *founder_usd_cap = cap;
    *company_state = company_copy;
    Ok(
        FeeCycleOutcome {
            pre_allocation_waterfall,
            adaptive_allocation,
            requested_company_amount,
            requested_founder_amount,
            company_amount,
            founder_amount,
            reserve_deposit,
            liquidity_deposit,
            buyback_deposit,
            previous_waterfall_stage,
            waterfall_evaluation,
            previous_dam_level,
            pre_dam_health_score,
            dam_evaluation,
            previous_beaver_score,
            beaver_score_evaluation,
        },
    )
}

/// A fee cycle moves every fee unit it allocates into exactly one bucket:
/// each lifetime total and the allocated total grow by the same amount, and
/// the treasury keeps its links, so every Sentinel verdict on the treasury
/// is the same after the cycle as before it.
pub proof fn lemma_fee_cycle_keeps_sentinel_verdicts(
    s: FeeCycleStates,
    founder_price: FounderPriceState,
    settlement_token_decimals: u8,
    allocation_table: AdaptiveAllocationTable,
    amount: u64,
    now: i64,
    protocol_key: Pubkey,
    config: ProtocolConfig,
)
    requires
        fee_cycle_outcome(s, founder_price, settlement_token_decimals, allocation_table, amount, now) is Ok,
    ensures
        ({
            let t = s.1;
            let t2 = fee_cycle_outcome(s, founder_price, settlement_token_decimals, allocation_table, amount, now)->Ok_0.1.1;
            &&& lifetime_total(t2) == lifetime_total(t) + amount
            &&& t2.total_fees_allocated == t.total_fees_allocated + amount
            &&& t2.total_fees_received == t.total_fees_received + amount
            &&& forall|check: SentinelInvariant| #[trigger] sentinel_failed(config, t2, check) == sentinel_failed(config, t, check)
            &&& forall|check: SentinelLinkageInvariant|
                #[trigger] linkage_failed(protocol_key, config, t2, check) == linkage_failed(protocol_key, config, t, check)
        }),
{
    let (protocol, treasury, founder, founder_usd_cap, company) = s;
    let pre = waterfall_of(treasury)->Ok_0;
    let allocation = profile_for(allocation_table, pre.stage);
    lemma_sound_table_profiles(allocation_table, pre.stage);
    let company_request = share_of(amount, allocation.company_bps);
    let founder_request = progressive_compensation(amount as int);
    lemma_share_bounded(amount, allocation.reserve_bps);
    lemma_share_bounded(amount, allocation.buyback_burn_bps);
    lemma_share_bounded(amount, allocation.liquidity_bps);
    lemma_share_bounded(amount, allocation.company_bps);
    founder_usd_cap::lemma_founder_cap_respected(
        founder_usd_cap,
        founder_request as u64,
        settlement_token_decimals,
        founder_price.price,
        founder_price.exponent,
        now,
    );
    company::lemma_company_allocation_conserves(company, company_request as u64, now);
}

/// What one successful fee cycle does to the accounts: the fee totals grow
/// by the amount, the epoch by one and the processing time becomes `now`;
/// each bucket's lifetime allocation grows by exactly its credited amount,
/// and the five amounts add up to the fee; balanced accounting stays
/// balanced; the Company and Founder receive no more than requested and
/// stay within their caps; and the recorded Waterfall stage, Dam level and
/// Beaver Score are the cycle's evaluations, within their ranges.
pub proof fn lemma_fee_cycle_accounting(
    s: FeeCycleStates,
    founder_price: FounderPriceState,
    settlement_token_decimals: u8,
    allocation_table: AdaptiveAllocationTable,
    amount: u64,
    now: i64,
)
    requires
        fee_cycle_outcome(s, founder_price, settlement_token_decimals, allocation_table, amount, now) is Ok,
    ensures
        ({
            let (o, (p2, t2, f2, cap2, c2)) = fee_cycle_outcome(
                s,
                founder_price,
                settlement_token_decimals,
                allocation_table,
                amount,
                now,
            )->Ok_0;
            let (p, t, f, cap, c) = s;
            &&& t2.total_fees_received == t.total_fees_received + amount
            &&& t2.total_fees_allocated == t.total_fees_allocated + amount
            &&& t2.processing_epoch == t.processing_epoch + 1
            &&& t2.last_processed_at == now
            &&& t2.lifetime_reserve == t.lifetime_reserve + o.reserve_deposit.total_amount
            &&& t2.lifetime_buyback_burn == t.lifetime_buyback_burn + o.buyback_deposit.amount
            &&& t2.lifetime_liquidity == t.lifetime_liquidity + o.liquidity_deposit.amount
            &&& t2.lifetime_company == t.lifetime_company + o.company_amount
            &&& t2.lifetime_founder == t.lifetime_founder + o.founder_amount
            &&& o.reserve_deposit.total_amount + o.buyback_deposit.amount + o.liquidity_deposit.amount
                + o.company_amount + o.founder_amount == amount
            &&& t.all_balanced() ==> t2.all_balanced()
            &&& o.adaptive_allocation.bps_sum() == 10_000
            &&& o.company_amount <= o.requested_company_amount
            &&& o.founder_amount <= o.requested_founder_amount
            &&& c.spent_current_period <= c.period_cap ==> c2.spent_current_period <= c2.period_cap
            &&& cap.earned_current_period_usd_e6 <= cap.annual_cap_usd_e6
                ==> cap2.earned_current_period_usd_e6 <= cap2.annual_cap_usd_e6
            &&& t2.waterfall_stage == stage_code(o.waterfall_evaluation.stage) && t2.waterfall_stage <= 4
            &&& p2.dam_level == dam_code(o.dam_evaluation.level) && p2.dam_level <= 4
            &&& p2.beaver_score == o.beaver_score_evaluation.total_score && p2.beaver_score <= 1_000
        }),
{
    let (protocol, treasury, founder, founder_usd_cap, company) = s;
    let pre = waterfall_of(treasury)->Ok_0;
    let allocation = profile_for(allocation_table, pre.stage);
    lemma_sound_table_profiles(allocation_table, pre.stage);
    let company_request = share_of(amount, allocation.company_bps);
    let founder_request = progressive_compensation(amount as int);
    lemma_share_bounded(amount, allocation.reserve_bps);
    lemma_share_bounded(amount, allocation.buyback_burn_bps);
    lemma_share_bounded(amount, allocation.liquidity_bps);
    lemma_share_bounded(amount, allocation.company_bps);
    founder_usd_cap::lemma_founder_cap_respected(
        founder_usd_cap,
        founder_request as u64,
        settlement_token_decimals,
        founder_price.price,
        founder_price.exponent,
        now,
    );
    company::lemma_company_allocation_conserves(company, company_request as u64, now);
    let (o, (p2, t2, f2, cap2, c2)) = fee_cycle_outcome(
        s,
        founder_price,
        settlement_token_decimals,
        allocation_table,
        amount,
        now,
    )->Ok_0;
    beaver_score::lemma_beaver_score_bounded(
        t2,
        o.waterfall_evaluation.reserve_ratio_bps,
        o.waterfall_evaluation.stage,
        o.dam_evaluation.level,
    );
}

/// A fee cycle allocates by the profile of the Waterfall stage evaluated
/// before it: in Normal that is the locked split, and in Survival and
/// Emergency the cycle credits nothing to Buyback/Burn and nothing to the
/// Company (the Founder's progressive request does not depend on the
/// profile).
pub proof fn lemma_fee_cycle_follows_stage_profile(
    s: FeeCycleStates,
    founder_price: FounderPriceState,
    settlement_token_decimals: u8,
    allocation_table: AdaptiveAllocationTable,
    amount: u64,
    now: i64,
)
    requires
        fee_cycle_outcome(s, founder_price, settlement_token_decimals, allocation_table, amount, now) is Ok,
    ensures
        ({
            let o = fee_cycle_outcome(s, founder_price, settlement_token_decimals, allocation_table, amount, now)->Ok_0.0;
            let stage = o.pre_allocation_waterfall.stage;
            &&& o.pre_allocation_waterfall == waterfall_of(s.1)->Ok_0
            &&& o.adaptive_allocation == profile_for(allocation_table, stage)
            &&& stage == WaterfallStage::Normal ==> o.adaptive_allocation == locked_split()
            &&& (stage == WaterfallStage::Survival || stage == WaterfallStage::Emergency) ==> {
                &&& o.buyback_deposit.amount == 0
                &&& o.requested_company_amount == 0
                &&& o.company_amount == 0
            }
        }),
{
    let (protocol, treasury, founder, founder_usd_cap, company) = s;
    let pre = waterfall_of(treasury)->Ok_0;
    let allocation = profile_for(allocation_table, pre.stage);
    lemma_sound_table_profiles(allocation_table, pre.stage);
    let company_request = share_of(amount, allocation.company_bps);
    company::lemma_company_allocation_conserves(company, company_request as u64, now);
}

/// The fee amount not yet processed: the vault balance plus everything
/// already released, less everything already allocated.
pub open spec fn unprocessed_amount(t: TreasuryState, vault_amount: u64) -> Result<u64, TreasuryRouterError> {
    let released = t.released_reserve + t.released_buyback_burn + t.released_liquidity + t.released_company
        + t.released_founder;
    if released > u64::MAX || vault_amount + released > u64::MAX {
        Err(TreasuryRouterError::ArithmeticOverflow)
    } else if vault_amount + released < t.total_fees_allocated {
        Err(TreasuryRouterError::AccountingInvariantViolation)
    } else {
        Ok((vault_amount + released - t.total_fees_allocated) as u64)
    }
}

/// Whether every Sentinel linkage check passes.
pub open spec fn linkage_healthy(protocol_key: Pubkey, config: ProtocolConfig, t: TreasuryState) -> bool {
    forall|check: SentinelLinkageInvariant| !#[trigger] linkage_failed(protocol_key, config, t, check)
}

/// Whether every Sentinel protocol-integrity check passes.
pub open spec fn sentinel_healthy(config: ProtocolConfig, t: TreasuryState) -> bool {
    forall|check: SentinelInvariant| !#[trigger] sentinel_failed(config, t, check)
}

/// The result of the fee-processing instruction: a paused protocol or a
/// failed Sentinel check refuses it, the unprocessed amount must be positive
/// and the configuration must total 10,000 basis points, and then one fee
/// cycle runs (see `fee_cycle_outcome`).
pub open spec fn process_fees_outcome(
    protocol_key: Pubkey,
    config: ProtocolConfig,
    s: FeeCycleStates,
    founder_price: FounderPriceState,
    settlement_token_decimals: u8,
    settlement_vault_amount: u64,
    allocation_table: AdaptiveAllocationTable,
    now: i64,
) -> Result<(FeeCycleOutcome, FeeCycleStates), TreasuryRouterError> {
    let t = s.1;
    if s.0.paused {
        Err(TreasuryRouterError::ProtocolPaused)
    } else if !linkage_healthy(protocol_key, config, t) {
        Err(TreasuryRouterError::IntegrityFirewallViolation)
    } else if waterfall_of(t) is Err {
        Err(waterfall_of(t)->Err_0)
    } else if !sentinel_healthy(config, t) {
        Err(TreasuryRouterError::IntegrityFirewallViolation)
    } else {
        match unprocessed_amount(t, settlement_vault_amount) {
            Err(e) => Err(e),
            Ok(amount) => if amount == 0 {
                Err(TreasuryRouterError::NoUnprocessedFees)
            } else if config.allocation_sum() != 10_000 {
                Err(TreasuryRouterError::InvalidAllocationConfiguration)
            } else {
                fee_cycle_outcome(s, founder_price, settlement_token_decimals, allocation_table, amount, now)
            },
        }
    }
}

/// Every token that reaches the settlement vault is allocated exactly once:
/// a successful fee processing allocates the vault balance plus everything
/// already released, less what was already allocated. Afterwards the
/// allocated total equals the vault balance plus the released total, the
/// released balances are unchanged, and the cycle's five credits add up to
/// the processed amount.
pub proof fn lemma_process_fees_allocates_every_vault_token(
    protocol_key: Pubkey,
    config: ProtocolConfig,
    s: FeeCycleStates,
    founder_price: FounderPriceState,
    settlement_token_decimals: u8,
    settlement_vault_amount: u64,
    allocation_table: AdaptiveAllocationTable,
    now: i64,
)
    requires
        process_fees_outcome(
            protocol_key,
            config,
            s,
            founder_price,
            settlement_token_decimals,
            settlement_vault_amount,
            allocation_table,
            now,
        ) is Ok,
    ensures
        ({
            let t = s.1;
            let (o, s2) = process_fees_outcome(
                protocol_key,
                config,
                s,
                founder_price,
                settlement_token_decimals,
                settlement_vault_amount,
                allocation_table,
                now,
            )->Ok_0;
            let t2 = s2.1;
            let released = t.released_reserve + t.released_buyback_burn + t.released_liquidity + t.released_company
                + t.released_founder;
            &&& t2.total_fees_allocated == settlement_vault_amount + released
            &&& t2.total_fees_received == t.total_fees_received + (settlement_vault_amount + released
                - t.total_fees_allocated)
            &&& o.reserve_deposit.total_amount + o.buyback_deposit.amount + o.liquidity_deposit.amount
                + o.company_amount + o.founder_amount == settlement_vault_amount + released - t.total_fees_allocated
            &&& t2.released_reserve == t.released_reserve
            &&& t2.released_buyback_burn == t.released_buyback_burn
            &&& t2.released_liquidity == t.released_liquidity
            &&& t2.released_company == t.released_company
            &&& t2.released_founder == t.released_founder
        }),
{
    let t = s.1;
    let amount = unprocessed_amount(t, settlement_vault_amount)->Ok_0;
    lemma_fee_cycle_accounting(s, founder_price, settlement_token_decimals, allocation_table, amount, now);
    lemma_fee_cycle_keeps_released(s, founder_price, settlement_token_decimals, allocation_table, amount, now);
}

/// A fee cycle releases nothing: every released balance stays as it was.
proof fn lemma_fee_cycle_keeps_released(
    s: FeeCycleStates,
    founder_price: FounderPriceState,
    settlement_token_decimals: u8,
    allocation_table: AdaptiveAllocationTable,
    amount: u64,
    now: i64,
)
    requires
        fee_cycle_outcome(s, founder_price, settlement_token_decimals, allocation_table, amount, now) is Ok,
    ensures
        ({
            let t = s.1;
            let t2 = fee_cycle_outcome(s, founder_price, settlement_token_decimals, allocation_table, amount, now)->Ok_0.1.1;
            &&& t2.released_reserve == t.released_reserve
            &&& t2.released_buyback_burn == t.released_buyback_burn
            &&& t2.released_liquidity == t.released_liquidity
            &&& t2.released_company == t.released_company
            &&& t2.released_founder == t.released_founder
        }),
{
}

/// Processes the fees that reached the settlement vault since the last
/// cycle (see `process_fees_outcome`).
///
/// Both Sentinel layers run before the cycle and again after it; the cycle
/// keeps every Sentinel verdict, so the second run always passes. On any
/// error no state changes.
#[allow(clippy::too_many_arguments)]
pub fn process_fees(
    protocol_key: Pubkey,
    protocol_state: &mut ProtocolState,
    protocol_config: &ProtocolConfig,
    treasury: &mut TreasuryState,
    founder_state: &mut FounderState,
    founder_usd_cap: &mut FounderUsdCapState,
    founder_price: &FounderPriceState,
    settlement_token_decimals: u8,
    company_state: &mut CompanyState,
    settlement_vault_amount: u64,
    allocation_table: &AdaptiveAllocationTable,
    now: i64,
) -> (r: Result<FeeCycleOutcome, TreasuryRouterError>)
    ensures
        match process_fees_outcome(
            protocol_key,
            *protocol_config,
            (*old(protocol_state), *old(treasury), *old(founder_state), *old(founder_usd_cap), *old(company_state)),
            *founder_price,
            settlement_token_decimals,
            settlement_vault_amount,
            *allocation_table,
            now,
        ) {
            Err(e) => r == Err::<FeeCycleOutcome, _>(e) && *final(protocol_state) == *old(protocol_state)
                && *final(treasury) == *old(treasury) && *final(founder_state) == *old(founder_state)
                && *final(founder_usd_cap) == *old(founder_usd_cap) && *final(company_state) == *old(company_state),
            Ok((o, (p, t, f, cap, c))) => r == Ok::<FeeCycleOutcome, TreasuryRouterError>(o) && *final(protocol_state)
                == p && *final(treasury) == t && *final(founder_state) == f && *final(founder_usd_cap) == cap
                && *final(company_state) == c,
        },
        r is Ok ==> linkage_healthy(protocol_key, *protocol_config, *final(treasury)) && sentinel_healthy(
            *protocol_config,
            *final(treasury),
        ),
{
    if protocol_state.paused {
        return Err(TreasuryRouterError::ProtocolPaused);
    }
    // Fail closed before any accounting mutation.
    let pre_linkage_report = sentinel::evaluate_linkage(protocol_key, protocol_config, treasury);
    if !pre_linkage_report.healthy {
        return Err(TreasuryRouterError::IntegrityFirewallViolation);
    }
    let pre_sentinel_report = sentinel::evaluate(protocol_config, treasury)?;
    if !pre_sentinel_report.healthy {
        return Err(TreasuryRouterError::IntegrityFirewallViolation);
    }
    let total_released = match treasury.released_reserve.checked_add(treasury.released_buyback_burn) {
        Some(v1) => match v1.checked_add(treasury.released_liquidity) {
            Some(v2) => match v2.checked_add(treasury.released_company) {
                Some(v3) => match v3.checked_add(treasury.released_founder) {
                    Some(v4) => v4,
                    None => {
                        return Err(TreasuryRouterError::ArithmeticOverflow);
                    },
                },
                None => {
                    return Err(TreasuryRouterError::ArithmeticOverflow);
                },
            },
            None => {
                return Err(TreasuryRouterError::ArithmeticOverflow);
            },
        },
        None => {
            return Err(TreasuryRouterError::ArithmeticOverflow);
        },
    };
    let total_received = match settlement_vault_amount.checked_add(total_released) {
        Some(value) => value,
        None => {
            return Err(TreasuryRouterError::ArithmeticOverflow);
        },
    };
    let amount = match total_received.checked_sub(treasury.total_fees_allocated) {
        Some(value) => value,
        None => {
            return Err(TreasuryRouterError::AccountingInvariantViolation);
        },
    };
    if amount == 0 {
        return Err(TreasuryRouterError::NoUnprocessedFees);
    }
    let total_bps = protocol_config.reserve_bps as u32 + protocol_config.buyback_burn_bps as u32
        + protocol_config.liquidity_bps as u32 + protocol_config.company_bps as u32
        + protocol_config.founder_bps as u32;
    if total_bps != BPS_DENOMINATOR as u32 {
        return Err(TreasuryRouterError::InvalidAllocationConfiguration);
    }
    let ghost before = (*protocol_state, *treasury, *founder_state, *founder_usd_cap, *company_state);
    let outcome = process_fee_cycle_usd_cap(
        protocol_state,
        treasury,
        founder_state,
        founder_usd_cap,
        founder_price,
        settlement_token_decimals,
        company_state,
        allocation_table,
        amount,
        now,
    )?;
    proof {
        lemma_fee_cycle_keeps_sentinel_verdicts(
            before,
            *founder_price,
            settlement_token_decimals,
            *allocation_table,
            amount,
            now,
            protocol_key,
            *protocol_config,
        );
    }
    // Re-run both Sentinel layers after the state change.
    let post_linkage_report = sentinel::evaluate_linkage(protocol_key, protocol_config, treasury);
    if !post_linkage_report.healthy {
        return Err(TreasuryRouterError::IntegrityFirewallViolation);
    }
    let post_sentinel_report = sentinel::evaluate(protocol_config, treasury)?;
    if !post_sentinel_report.healthy {
        return Err(TreasuryRouterError::IntegrityFirewallViolation);
    }
    Ok(outcome)
}

} // verus!
