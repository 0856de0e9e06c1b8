//! Survival Waterfall: classification of reserve strength.
use vstd::prelude::*;

use crate::errors::TreasuryRouterError;
use crate::state::treasury::TreasuryState;

verus! {

/// Survival Waterfall operating stages; lower codes are healthier.
///
/// The stored codes are part of the on-chain interface.
#[derive(Clone, Copy, Debug, PartialEq, Eq, Structural)]
pub enum WaterfallStage {
    /// Reserve represents at least 30% of pending treasury allocations.
    Normal,
    /// Reserve represents between 20% and 29.99%.
    Caution,
    /// Reserve represents between 12.5% and 19.99%.
    Defensive,
    /// Reserve represents between 5% and 12.49%.
    Survival,
    /// Reserve represents less than 5%.
    Emergency,
}

/// Stored code of a stage.
pub open spec fn stage_code(stage: WaterfallStage) -> u8 {
    match stage {
        WaterfallStage::Normal => 0,
        WaterfallStage::Caution => 1,
        WaterfallStage::Defensive => 2,
        WaterfallStage::Survival => 3,
        WaterfallStage::Emergency => 4,
    }
}

/// Display label of a stage.
pub open spec fn stage_label(stage: WaterfallStage) -> Seq<char> {
    match stage {
        WaterfallStage::Normal => "NORMAL"@,
        WaterfallStage::Caution => "CAUTION"@,
        WaterfallStage::Defensive => "DEFENSIVE"@,
        WaterfallStage::Survival => "SURVIVAL"@,
        WaterfallStage::Emergency => "EMERGENCY"@,
    }
}

impl WaterfallStage {
    pub fn as_u8(self) -> (r: u8)
        ensures
            r == stage_code(self),
    {
        match self {
            WaterfallStage::Normal => 0,
            WaterfallStage::Caution => 1,
            WaterfallStage::Defensive => 2,
            WaterfallStage::Survival => 3,
            WaterfallStage::Emergency => 4,
        }
    }

    pub fn label(self) -> (r: &'static str)
        ensures
            r@ == stage_label(self),
    {
        match self {
            WaterfallStage::Normal => "NORMAL",
            WaterfallStage::Caution => "CAUTION",
            WaterfallStage::Defensive => "DEFENSIVE",
            WaterfallStage::Survival => "SURVIVAL",
            WaterfallStage::Emergency => "EMERGENCY",
        }
    }
}

/// Result returned after evaluating protocol treasury health.
#[derive(Clone, Copy, Debug)]
pub struct WaterfallEvaluation {
    /// Stage selected by the Waterfall engine.
    pub stage: WaterfallStage,
    /// Reserve share of total pending allocations, in basis points.
    pub reserve_ratio_bps: u16,
    /// Combined amount currently pending across every treasury bucket.
    pub total_pending: u64,
    /// Current pending reserve balance used by the evaluation.
    pub pending_reserve: u64,
}

/// Normal operation requires reserve coverage of at least 30%.
pub const NORMAL_MIN_RESERVE_BPS: u16 = 3_000;

/// Caution operation requires reserve coverage of at least 20%.
pub const CAUTION_MIN_RESERVE_BPS: u16 = 2_000;

/// Defensive operation requires reserve coverage of at least 12.5%.
pub const DEFENSIVE_MIN_RESERVE_BPS: u16 = 1_250;

/// Survival operation requires reserve coverage of at least 5%.
pub const SURVIVAL_MIN_RESERVE_BPS: u16 = 500;

/// The stage of a reserve ratio.
pub open spec fn stage_for_ratio(reserve_ratio_bps: int) -> WaterfallStage {
    if reserve_ratio_bps >= 3_000 {
        WaterfallStage::Normal
    } else if reserve_ratio_bps >= 2_000 {
        WaterfallStage::Caution
    } else if reserve_ratio_bps >= 1_250 {
        WaterfallStage::Defensive
    } else if reserve_ratio_bps >= 500 {
        WaterfallStage::Survival
    } else {
        WaterfallStage::Emergency
    }
}

/// Sum of the five pending balances, computed without wrapping.
pub open spec fn pending_total(t: TreasuryState) -> int {
    t.pending_reserve + t.pending_buyback_burn + t.pending_liquidity + t.pending_company
        + t.pending_founder
}

/// Reserve share of the total in basis points, rounded down; a full 10,000
/// when nothing is pending.
pub open spec fn reserve_ratio(pending_reserve: int, total: int) -> int {
    if total == 0 {
        10_000
    } else {
        (pending_reserve * 10_000) / total
    }
}

/// The Waterfall evaluation of a treasury: an overflow error when the
/// pending total exceeds `u64`, otherwise the ratio and its stage.
pub open spec fn waterfall_of(t: TreasuryState) -> Result<WaterfallEvaluation, TreasuryRouterError> {
    if pending_total(t) > u64::MAX {
        Err(TreasuryRouterError::ArithmeticOverflow)
    } else {
        let ratio = reserve_ratio(t.pending_reserve as int, pending_total(t));
        Ok(
            WaterfallEvaluation {
                stage: stage_for_ratio(ratio),
                reserve_ratio_bps: ratio as u16,
                total_pending: pending_total(t) as u64,
                pending_reserve: t.pending_reserve,
            },
        )
    }
}

/// What a Waterfall evaluation reports: it fails exactly when the five
/// pending balances sum beyond `u64`; otherwise the total is that sum, the
/// ratio is the reserve's share of it in basis points rounded down (a full
/// 10,000 when nothing is pending), and the stage drops one step below each
/// threshold the ratio misses: 30%, 20%, 12.5% and 5%.
pub proof fn lemma_waterfall_evaluation_meaning(t: TreasuryState)
    ensures
        ({
            let sum = t.pending_reserve + t.pending_buyback_burn + t.pending_liquidity + t.pending_company
                + t.pending_founder;
            &&& (waterfall_of(t) is Err) == (sum > u64::MAX)
            &&& waterfall_of(t) is Ok ==> {
                let e = waterfall_of(t)->Ok_0;
                let ratio = e.reserve_ratio_bps as int;
                &&& e.total_pending == sum
                &&& e.pending_reserve == t.pending_reserve
                &&& sum == 0 ==> ratio == 10_000
                &&& sum > 0 ==> ratio * sum <= t.pending_reserve * 10_000 < (ratio + 1) * sum
                &&& (e.stage == WaterfallStage::Normal) == (ratio >= NORMAL_MIN_RESERVE_BPS)
                &&& (stage_code(e.stage) >= 2) == (ratio < CAUTION_MIN_RESERVE_BPS)
                &&& (stage_code(e.stage) >= 3) == (ratio < DEFENSIVE_MIN_RESERVE_BPS)
                &&& (e.stage == WaterfallStage::Emergency) == (ratio < SURVIVAL_MIN_RESERVE_BPS)
            }
        }),
{
    let sum = pending_total(t);
    if sum <= u64::MAX && sum > 0 {
        lemma_ratio_bounded(t.pending_reserve as int, sum);
        let ratio = (t.pending_reserve * 10_000) / sum;
        assert(ratio * sum <= t.pending_reserve * 10_000 < (ratio + 1) * sum) by (nonlinear_arith)
            requires
                ratio == (t.pending_reserve * 10_000) / sum,
                sum > 0,
        ;
    }
}

/// A higher reserve ratio never puts the Waterfall in a worse stage.
pub proof fn lemma_stage_monotone(low: int, high: int)
    requires
        low <= high,
    ensures
        stage_code(stage_for_ratio(high)) <= stage_code(stage_for_ratio(low)),
{
}

/// A part of a total is at most 10,000 basis points of it.
pub proof fn lemma_ratio_bounded(part: int, total: int)
    requires
        0 <= part <= total,
    ensures
        0 <= reserve_ratio(part, total) <= 10_000,
{
    if total > 0 {
        assert(part * 10_000 <= total * 10_000) by (nonlinear_arith)
            requires
                0 <= part <= total,
        ;
        vstd::arithmetic::div_mod::lemma_div_is_ordered(part * 10_000, total * 10_000, total);
        vstd::arithmetic::div_mod::lemma_div_multiples_vanish(10_000, total);
        assert(total * 10_000 == total * 10_000);
        assert((total * 10_000) / total == 10_000) by {
            vstd::arithmetic::mul::lemma_mul_is_commutative(total, 10_000);
        }
        vstd::arithmetic::div_mod::lemma_div_pos_is_pos(part * 10_000, total);
    }
}

/// Evaluates the treasury's reserve strength as the reserve share of all
/// pending allocations; with nothing pending the treasury is Normal.
pub fn evaluate(treasury: &TreasuryState) -> (r: Result<WaterfallEvaluation, TreasuryRouterError>)
    ensures
        r == waterfall_of(*treasury),
{
    let total_pending = match treasury.pending_reserve.checked_add(treasury.pending_buyback_burn) {
        Some(v1) => match v1.checked_add(treasury.pending_liquidity) {
            Some(v2) => match v2.checked_add(treasury.pending_company) {
                Some(v3) => match v3.checked_add(treasury.pending_founder) {
                    Some(v4) => v4,
                    None => {
                        return Err(TreasuryRouterError::ArithmeticOverflow);
                    },
                },
                None => {
                    return Err(TreasuryRouterError::ArithmeticOverflow);
                },
            },
            None => {
                return Err(TreasuryRouterError::ArithmeticOverflow);
            },
        },
        None => {
            return Err(TreasuryRouterError::ArithmeticOverflow);
        },
    };
    proof {
        lemma_ratio_bounded(treasury.pending_reserve as int, total_pending as int);
    }
    let reserve_ratio_bps = calculate_reserve_ratio_bps(treasury.pending_reserve, total_pending)?;
    let stage = classify(reserve_ratio_bps);
    Ok(WaterfallEvaluation { stage, reserve_ratio_bps, total_pending, pending_reserve: treasury.pending_reserve })
}

/// Classifies a reserve ratio into a Survival Waterfall stage.
pub fn classify(reserve_ratio_bps: u16) -> (r: WaterfallStage)
    ensures
        r == stage_for_ratio(reserve_ratio_bps as int),
{
    if reserve_ratio_bps >= NORMAL_MIN_RESERVE_BPS {
        WaterfallStage::Normal
    } else if reserve_ratio_bps >= CAUTION_MIN_RESERVE_BPS {
        WaterfallStage::Caution
    } else if reserve_ratio_bps >= DEFENSIVE_MIN_RESERVE_BPS {
        WaterfallStage::Defensive
    } else if reserve_ratio_bps >= SURVIVAL_MIN_RESERVE_BPS {
        WaterfallStage::Survival
    } else {
        WaterfallStage::Emergency
    }
}

/// The reserve ratio in basis points; an overflow error where it does not fit
/// in `u16`.
fn calculate_reserve_ratio_bps(pending_reserve: u64, total_pending: u64) -> (r: Result<u16, TreasuryRouterError>)
    ensures
        reserve_ratio(pending_reserve as int, total_pending as int) <= u16::MAX ==> r == Ok::<u16, TreasuryRouterError>(
            reserve_ratio(pending_reserve as int, total_pending as int) as u16,
        ),
        reserve_ratio(pending_reserve as int, total_pending as int) > u16::MAX ==> r == Err::<u16, _>(
            TreasuryRouterError::ArithmeticOverflow,
        ),
{
    if total_pending == 0 {
        return Ok(10_000);
    }
    assert((pending_reserve as int) * 10_000 <= u64::MAX * 10_000) by (nonlinear_arith)
        requires
            pending_reserve <= u64::MAX,
    ;
    let numerator = (pending_reserve as u128) * 10_000;
    let ratio = numerator / (total_pending as u128);
    if ratio > u16::MAX as u128 {
        return Err(TreasuryRouterError::ArithmeticOverflow);
    }
    Ok(ratio as u16)
}

/// Basis-point split of one fee amount across the five buckets.
#[derive(Clone, Copy, Debug, PartialEq, Eq, Structural)]
pub struct AdaptiveAllocation {
    pub reserve_bps: u16,
    pub buyback_burn_bps: u16,
    pub liquidity_bps: u16,
    pub company_bps: u16,
    pub founder_bps: u16,
}

impl AdaptiveAllocation {
    /// Sum of the five shares, without wrapping.
    pub open spec fn bps_sum(self) -> int {
        self.reserve_bps + self.buyback_burn_bps + self.liquidity_bps + self.company_bps + self.founder_bps
    }

    /// Sum of the five shares in basis points.
    pub fn total_bps(&self) -> (r: u32)
        ensures
            r == self.bps_sum(),
    {
        self.reserve_bps as u32 + self.buyback_burn_bps as u32 + self.liquidity_bps as u32
            + self.company_bps as u32 + self.founder_bps as u32
    }
}

/// The allocation profile of each Waterfall stage.
#[derive(Clone, Copy, Debug, PartialEq, Eq, Structural)]
pub struct AdaptiveAllocationTable {
    pub normal: AdaptiveAllocation,
    pub caution: AdaptiveAllocation,
    pub defensive: AdaptiveAllocation,
    pub survival: AdaptiveAllocation,
    pub emergency: AdaptiveAllocation,
}

/// The profile that a table assigns to a stage.
pub open spec fn profile_for(table: AdaptiveAllocationTable, stage: WaterfallStage) -> AdaptiveAllocation {
    match stage {
        WaterfallStage::Normal => table.normal,
        WaterfallStage::Caution => table.caution,
        WaterfallStage::Defensive => table.defensive,
        WaterfallStage::Survival => table.survival,
        WaterfallStage::Emergency => table.emergency,
    }
}

/// Selects the allocation profile of a Waterfall stage.
pub fn allocation_for_stage(table: &AdaptiveAllocationTable, stage: WaterfallStage) -> (r: AdaptiveAllocation)
    ensures
        r == profile_for(*table, stage),
{
    match stage {
        WaterfallStage::Normal => table.normal,
        WaterfallStage::Caution => table.caution,
        WaterfallStage::Defensive => table.defensive,
        WaterfallStage::Survival => table.survival,
        WaterfallStage::Emergency => table.emergency,
    }
}

/// The locked split: Reserve 30%, Buyback/Burn 20%, Liquidity 20%,
/// Company 20%, Founder 10%.
pub open spec fn locked_split() -> AdaptiveAllocation {
    AdaptiveAllocation {
        reserve_bps: 3_000,
        buyback_burn_bps: 2_000,
        liquidity_bps: 2_000,
        company_bps: 2_000,
        founder_bps: 1_000,
    }
}

/// The locked Normal profile, the locked split.
pub fn locked_normal_allocation() -> (r: AdaptiveAllocation)
    ensures
        r == locked_split(),
        r.bps_sum() == 10_000,
{
    AdaptiveAllocation {
        reserve_bps: 3_000,
        buyback_burn_bps: 2_000,
        liquidity_bps: 2_000,
        company_bps: 2_000,
        founder_bps: 1_000,
    }
}

/// Whether a profile routes nothing to Buyback/Burn, Company or Founder, so
/// that the whole fee goes to Reserve and Liquidity.
pub open spec fn routes_to_reserve_and_liquidity(p: AdaptiveAllocation) -> bool {
    p.buyback_burn_bps == 0 && p.company_bps == 0 && p.founder_bps == 0
}

/// The rules every allocation table obeys: each profile splits exactly
/// 10,000 basis points, Normal is the locked split, and Survival and
/// Emergency route nothing to Buyback/Burn, Company or Founder.
#[verifier::opaque]
pub open spec fn allocation_table_is_sound(t: AdaptiveAllocationTable) -> bool {
    &&& t.normal == locked_split()
    &&& t.caution.bps_sum() == 10_000
    &&& t.defensive.bps_sum() == 10_000
    &&& t.survival.bps_sum() == 10_000
    &&& t.emergency.bps_sum() == 10_000
    &&& routes_to_reserve_and_liquidity(t.survival)
    &&& routes_to_reserve_and_liquidity(t.emergency)
}

/// Checks an allocation table against the allocation rules.
pub fn allocation_table_is_valid(table: &AdaptiveAllocationTable) -> (r: bool)
    ensures
        r == allocation_table_is_sound(*table),
{
    let normal = table.normal;
    let locked = normal.reserve_bps == 3_000 && normal.buyback_burn_bps == 2_000 && normal.liquidity_bps == 2_000
        && normal.company_bps == 2_000 && normal.founder_bps == 1_000;
    let sums = table.caution.total_bps() == 10_000 && table.defensive.total_bps() == 10_000
        && table.survival.total_bps() == 10_000 && table.emergency.total_bps() == 10_000;
    let survival = table.survival;
    let emergency = table.emergency;
    let distressed = survival.buyback_burn_bps == 0 && survival.company_bps == 0 && survival.founder_bps == 0
        && emergency.buyback_burn_bps == 0 && emergency.company_bps == 0 && emergency.founder_bps == 0;
    proof {
        reveal(allocation_table_is_sound);
    }
    locked && sums && distressed
}

/// Under a sound table every profile splits exactly 10,000 basis points,
/// the Normal stage allocates by the locked split, and the Survival and
/// Emergency stages send the whole fee to Reserve and Liquidity.
pub proof fn lemma_sound_table_profiles(t: AdaptiveAllocationTable, stage: WaterfallStage)
    requires
        allocation_table_is_sound(t),
    ensures
        profile_for(t, stage).bps_sum() == 10_000,
        stage == WaterfallStage::Normal ==> profile_for(t, stage) == locked_split(),
        (stage == WaterfallStage::Survival || stage == WaterfallStage::Emergency) ==> {
            let p = profile_for(t, stage);
            &&& routes_to_reserve_and_liquidity(p)
            &&& p.reserve_bps + p.liquidity_bps == 10_000
        },
{
    reveal(allocation_table_is_sound);
}

} // verus!
