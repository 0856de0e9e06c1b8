//! Beaver Score: a 0 to 1,000 protocol health score.
use vstd::prelude::*;

use crate::engines::dam::{dam_code, dam_rate, DamLevel};
use crate::engines::waterfall::{stage_code, WaterfallStage};
use crate::errors::TreasuryRouterError;
use crate::state::treasury::TreasuryState;

verus! {

/// Maximum possible Beaver Score.
pub const MAX_BEAVER_SCORE: u16 = 1_000;

/// Maximum score contributed by the Survival Waterfall.
pub const WATERFALL_MAX_POINTS: u16 = 350;

/// Maximum score contributed by the Dam.
pub const DAM_MAX_POINTS: u16 = 250;

/// Maximum score contributed by reserve coverage.
pub const RESERVE_MAX_POINTS: u16 = 250;

/// Maximum score contributed by treasury accounting health.
pub const ACCOUNTING_MAX_POINTS: u16 = 150;

/// Maximum pre-Dam health score: every component except the Dam's.
pub const PRE_DAM_MAX_POINTS: u16 = 750;

/// Result returned by the Beaver Score Engine.
#[derive(Clone, Copy, Debug, PartialEq, Eq, Structural)]
pub struct BeaverScoreEvaluation {
    /// Final protocol health score from 0 to 1,000.
    pub total_score: u16,
    /// Score contributed by the Survival Waterfall.
    pub waterfall_points: u16,
    /// Score contributed by the Dam level.
    pub dam_points: u16,
    /// Score contributed by reserve coverage.
    pub reserve_points: u16,
    /// Score contributed by treasury accounting health.
    pub accounting_points: u16,
    /// Reserve ratio supplied to the score calculation.
    pub reserve_ratio_bps: u16,
}

/// Points for the Survival Waterfall condition.
pub open spec fn waterfall_points(stage: WaterfallStage) -> u16 {
    match stage {
        WaterfallStage::Normal => 350,
        WaterfallStage::Caution => 280,
        WaterfallStage::Defensive => 210,
        WaterfallStage::Survival => 105,
        WaterfallStage::Emergency => 0,
    }
}

/// Points for the Dam level.
pub open spec fn dam_points(level: DamLevel) -> u16 {
    match level {
        DamLevel::Overflow => 250,
        DamLevel::Normal => 188,
        DamLevel::Controlled => 125,
        DamLevel::Restricted => 63,
        DamLevel::Filling => 0,
    }
}

/// Points for reserve coverage: proportional up to 250 at 10,000 basis
/// points, capped above, rounded down.
pub open spec fn reserve_points(reserve_ratio_bps: u16) -> u16 {
    let capped = if reserve_ratio_bps > 10_000 { 10_000 } else { reserve_ratio_bps as int };
    (capped * 250 / 10_000) as u16
}

/// Points for accounting health: 100 when every received fee is allocated,
/// plus 50 once a processing epoch has completed.
pub open spec fn accounting_points(t: TreasuryState) -> u16 {
    ((if t.total_fees_received == t.total_fees_allocated { 100int } else { 0int }) + (if t.processing_epoch
        > 0 { 50int } else { 0int })) as u16
}

/// The Beaver Score evaluation of its four inputs.
pub open spec fn beaver_score_of(
    t: TreasuryState,
    reserve_ratio_bps: u16,
    stage: WaterfallStage,
    level: DamLevel,
) -> BeaverScoreEvaluation {
    BeaverScoreEvaluation {
        total_score: (waterfall_points(stage) + dam_points(level) + reserve_points(reserve_ratio_bps)
            + accounting_points(t)) as u16,
        waterfall_points: waterfall_points(stage),
        dam_points: dam_points(level),
        reserve_points: reserve_points(reserve_ratio_bps),
        accounting_points: accounting_points(t),
        reserve_ratio_bps,
    }
}

/// The pre-Dam health score: the Beaver Score without its Dam component,
/// so that it can decide the Dam without depending on it.
pub open spec fn pre_dam_score_of(t: TreasuryState, reserve_ratio_bps: u16, stage: WaterfallStage) -> u16 {
    (waterfall_points(stage) + reserve_points(reserve_ratio_bps) + accounting_points(t)) as u16
}

/// Reserve coverage earns at most 250 points.
pub proof fn lemma_reserve_points_bounded(reserve_ratio_bps: u16)
    ensures
        reserve_points(reserve_ratio_bps) <= 250,
{
    let capped = if reserve_ratio_bps > 10_000 { 10_000 } else { reserve_ratio_bps as int };
    assert(0 <= capped * 250 <= 2_500_000) by (nonlinear_arith)
        requires
            0 <= capped <= 10_000,
    ;
    vstd::arithmetic::div_mod::lemma_div_is_ordered(capped * 250, 2_500_000int, 10_000int);
    vstd::arithmetic::div_mod::lemma_div_pos_is_pos(capped * 250, 10_000);
}

/// Reserve points are one point per 40 basis points of coverage, rounded
/// down, for coverage up to 100%, and the full 250 above it; more coverage
/// never scores fewer points.
pub proof fn lemma_reserve_points_proportional(ratio: u16, higher: u16)
    ensures
        ratio <= 10_000 ==> reserve_points(ratio) * 40 <= ratio < (reserve_points(ratio) + 1) * 40,
        ratio >= 10_000 ==> reserve_points(ratio) == 250,
        ratio <= higher ==> reserve_points(ratio) <= reserve_points(higher),
{
    lemma_reserve_points_bounded(ratio);
    lemma_reserve_points_bounded(higher);
    let c = if ratio > 10_000 { 10_000 } else { ratio as int };
    let d = if higher > 10_000 { 10_000 } else { higher as int };
    assert(c * 250 / 10_000 == c / 40) by (nonlinear_arith)
        requires
            c >= 0,
    ;
    assert(d * 250 / 10_000 == d / 40) by (nonlinear_arith)
        requires
            d >= 0,
    ;
    assert((c / 40) * 40 <= c < (c / 40 + 1) * 40) by (nonlinear_arith)
        requires
            c >= 0,
    ;
    if ratio <= higher {
        vstd::arithmetic::div_mod::lemma_div_is_ordered(c, d, 40);
    }
}

/// Every Beaver Score is the sum of its four components and lies within
/// 0 to 1,000.
pub proof fn lemma_beaver_score_bounded(
    t: TreasuryState,
    reserve_ratio_bps: u16,
    stage: WaterfallStage,
    level: DamLevel,
)
    ensures
        beaver_score_of(t, reserve_ratio_bps, stage, level).total_score <= MAX_BEAVER_SCORE,
        beaver_score_of(t, reserve_ratio_bps, stage, level).total_score == waterfall_points(stage) + dam_points(level)
            + reserve_points(reserve_ratio_bps) + accounting_points(t),
{
    lemma_reserve_points_bounded(reserve_ratio_bps);
}

/// Calculates the current Beaver Score from internal protocol state.
pub fn evaluate(
    treasury: &TreasuryState,
    reserve_ratio_bps: u16,
    waterfall_stage: WaterfallStage,
    dam_level: DamLevel,
) -> (r: Result<BeaverScoreEvaluation, TreasuryRouterError>)
    ensures
        r == Ok::<BeaverScoreEvaluation, TreasuryRouterError>(
            beaver_score_of(*treasury, reserve_ratio_bps, waterfall_stage, dam_level),
        ),
        beaver_score_of(*treasury, reserve_ratio_bps, waterfall_stage, dam_level).total_score
            <= MAX_BEAVER_SCORE,
{
    let waterfall_points = score_waterfall(waterfall_stage);
    let dam_points = score_dam(dam_level);
    let reserve_points = score_reserve(reserve_ratio_bps)?;
    let accounting_points = score_accounting(treasury);
    let total_score = waterfall_points + dam_points + reserve_points + accounting_points;
    if total_score > MAX_BEAVER_SCORE {
        return Err(TreasuryRouterError::ArithmeticOverflow);
    }
    Ok(
        BeaverScoreEvaluation {
            total_score,
            waterfall_points,
            dam_points,
            reserve_points,
            accounting_points,
            reserve_ratio_bps,
        },
    )
}

/// Calculates the pre-Dam health score that decides the Adaptive Dam.
pub fn pre_dam_health_score(
    treasury: &TreasuryState,
    reserve_ratio_bps: u16,
    waterfall_stage: WaterfallStage,
) -> (r: Result<u16, TreasuryRouterError>)
    ensures
        r == Ok::<u16, TreasuryRouterError>(pre_dam_score_of(*treasury, reserve_ratio_bps, waterfall_stage)),
        pre_dam_score_of(*treasury, reserve_ratio_bps, waterfall_stage) <= PRE_DAM_MAX_POINTS,
{
    let waterfall_points = score_waterfall(waterfall_stage);
    let reserve_points = score_reserve(reserve_ratio_bps)?;
    let accounting_points = score_accounting(treasury);
    Ok(waterfall_points + reserve_points + accounting_points)
}

/// Scores the current Survival Waterfall condition.
fn score_waterfall(stage: WaterfallStage) -> (r: u16)
    ensures
        r == waterfall_points(stage),
{
    match stage {
        WaterfallStage::Normal => WATERFALL_MAX_POINTS,
        WaterfallStage::Caution => 280,
        WaterfallStage::Defensive => 210,
        WaterfallStage::Survival => 105,
        WaterfallStage::Emergency => 0,
    }
}

/// Scores the current Dam level.
fn score_dam(level: DamLevel) -> (r: u16)
    ensures
        r == dam_points(level),
{
    match level {
        DamLevel::Overflow => DAM_MAX_POINTS,
        DamLevel::Normal => 188,
        DamLevel::Controlled => 125,
        DamLevel::Restricted => 63,
        DamLevel::Filling => 0,
    }
}

/// Scores reserve coverage proportionally, capped at 10,000 basis points.
pub fn score_reserve(reserve_ratio_bps: u16) -> (r: Result<u16, TreasuryRouterError>)
    ensures
        r == Ok::<u16, TreasuryRouterError>(reserve_points(reserve_ratio_bps)),
        reserve_points(reserve_ratio_bps) <= RESERVE_MAX_POINTS,
{
    proof {
        lemma_reserve_points_bounded(reserve_ratio_bps);
    }
    let capped_ratio: u16 = if reserve_ratio_bps > 10_000 { 10_000 } else { reserve_ratio_bps };
    let numerator = (capped_ratio as u32) * (RESERVE_MAX_POINTS as u32);
    let points = numerator / 10_000;
    Ok(points as u16)
}

/// Scores treasury accounting health.
fn score_accounting(treasury: &TreasuryState) -> (r: u16)
    ensures
        r == accounting_points(*treasury),
{
    let integrity_points: u16 = if treasury.total_fees_received == treasury.total_fees_allocated {
        100
    } else {
        0
    };
    let activity_points: u16 = if treasury.processing_epoch > 0 { 50 } else { 0 };
    integrity_points + activity_points
}

/// Dam points are proportional to the Dam's release rate: 250 points at a
/// 100% rate, rounded half up (0, 63, 125, 188, 250), so a more permissive
/// Dam always scores more.
pub proof fn lemma_dam_points_follow_release_rate(a: DamLevel, b: DamLevel)
    ensures
        dam_points(a) == (dam_rate(a) * 250 + 5_000) / 10_000,
        dam_code(a) < dam_code(b) ==> dam_points(a) < dam_points(b),
{
}

/// Waterfall points fall as the stage worsens: the healthier of two stages
/// always scores more.
pub proof fn lemma_waterfall_points_follow_health(a: WaterfallStage, b: WaterfallStage)
    ensures
        stage_code(a) < stage_code(b) ==> waterfall_points(a) > waterfall_points(b),
{
}

} // verus!
