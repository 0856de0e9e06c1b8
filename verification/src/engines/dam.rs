//! The Dam: capital-release levels derived from the Waterfall and health.
use vstd::prelude::*;

use crate::engines::waterfall::WaterfallStage;

verus! {

/// Dam operating levels; lower codes are more restrictive.
///
/// The codes are stored in ProtocolState and form part of the on-chain
/// interface.
#[derive(Clone, Copy, Debug, PartialEq, Eq, Structural)]
pub enum DamLevel {
    /// The Dam is closed while protocol reserves are rebuilt.
    Filling,
    /// Only 25% of normal capital release is permitted.
    Restricted,
    /// Up to 50% of normal capital release is permitted.
    Controlled,
    /// Up to 75% of normal capital release is permitted.
    Normal,
    /// Full capital release is permitted.
    Overflow,
}

/// Stored code of a Dam level.
pub open spec fn dam_code(level: DamLevel) -> u8 {
    match level {
        DamLevel::Filling => 0,
        DamLevel::Restricted => 1,
        DamLevel::Controlled => 2,
        DamLevel::Normal => 3,
        DamLevel::Overflow => 4,
    }
}

/// Display label of a Dam level.
pub open spec fn dam_label(level: DamLevel) -> Seq<char> {
    match level {
        DamLevel::Filling => "FILLING"@,
        DamLevel::Restricted => "RESTRICTED"@,
        DamLevel::Controlled => "CONTROLLED"@,
        DamLevel::Normal => "NORMAL"@,
        DamLevel::Overflow => "OVERFLOW"@,
    }
}

/// Maximum capital-release rate of a Dam level, in basis points.
pub open spec fn dam_rate(level: DamLevel) -> u16 {
    match level {
        DamLevel::Filling => 0,
        DamLevel::Restricted => 2_500,
        DamLevel::Controlled => 5_000,
        DamLevel::Normal => 7_500,
        DamLevel::Overflow => 10_000,
    }
}

impl DamLevel {
    pub fn as_u8(self) -> (r: u8)
        ensures
            r == dam_code(self),
    {
        match self {
            DamLevel::Filling => 0,
            DamLevel::Restricted => 1,
            DamLevel::Controlled => 2,
            DamLevel::Normal => 3,
            DamLevel::Overflow => 4,
        }
    }

    pub fn label(self) -> (r: &'static str)
        ensures
            r@ == dam_label(self),
    {
        match self {
            DamLevel::Filling => "FILLING",
            DamLevel::Restricted => "RESTRICTED",
            DamLevel::Controlled => "CONTROLLED",
            DamLevel::Normal => "NORMAL",
            DamLevel::Overflow => "OVERFLOW",
        }
    }

    /// Maximum capital-release rate associated with this Dam level.
    pub fn release_bps(self) -> (r: u16)
        ensures
            r == dam_rate(self),
    {
        match self {
            DamLevel::Filling => 0,
            DamLevel::Restricted => 2_500,
            DamLevel::Controlled => 5_000,
            DamLevel::Normal => 7_500,
            DamLevel::Overflow => 10_000,
        }
    }
}

/// Result returned by the Dam Engine.
#[derive(Clone, Copy, Debug, PartialEq, Eq, Structural)]
pub struct DamEvaluation {
    /// Dam level selected from the current Waterfall condition.
    pub level: DamLevel,
    /// Maximum release rate associated with the selected level.
    pub release_bps: u16,
    /// Waterfall stage used to determine the Dam level.
    pub waterfall_stage: WaterfallStage,
}

/// The least-permissive Dam level that a Waterfall stage allows.
pub open spec fn waterfall_baseline(stage: WaterfallStage) -> DamLevel {
    match stage {
        WaterfallStage::Normal => DamLevel::Overflow,
        WaterfallStage::Caution => DamLevel::Normal,
        WaterfallStage::Defensive => DamLevel::Controlled,
        WaterfallStage::Survival => DamLevel::Restricted,
        WaterfallStage::Emergency => DamLevel::Filling,
    }
}

/// The Dam level that a pre-Dam health score supports.
pub open spec fn health_level(score: u16) -> DamLevel {
    if score >= 650 {
        DamLevel::Overflow
    } else if score >= 500 {
        DamLevel::Normal
    } else if score >= 350 {
        DamLevel::Controlled
    } else if score >= 200 {
        DamLevel::Restricted
    } else {
        DamLevel::Filling
    }
}

/// The more restrictive of two levels (the first on a tie).
pub open spec fn more_restrictive(left: DamLevel, right: DamLevel) -> DamLevel {
    if dam_code(left) <= dam_code(right) {
        left
    } else {
        right
    }
}

/// The Adaptive Dam evaluation of a stage and a health score.
pub open spec fn adaptive_evaluation(stage: WaterfallStage, score: u16) -> DamEvaluation {
    let level = more_restrictive(waterfall_baseline(stage), health_level(score));
    DamEvaluation { level, release_bps: dam_rate(level), waterfall_stage: stage }
}

/// Evaluates the Dam from the Waterfall stage alone, using the healthy
/// score 750: NORMAL to OVERFLOW, CAUTION to NORMAL, DEFENSIVE to CONTROLLED,
/// SURVIVAL to RESTRICTED, EMERGENCY to FILLING.
pub fn evaluate(waterfall_stage: WaterfallStage) -> (r: DamEvaluation)
    ensures
        r == adaptive_evaluation(waterfall_stage, 750),
        r.level == waterfall_baseline(waterfall_stage),
{
    evaluate_adaptive(waterfall_stage, 750)
}

/// Evaluates the Dam from the Waterfall stage and the pre-Dam health score.
///
/// The Waterfall sets the least-permissive baseline; the health score may
/// tighten it but never make the Dam more permissive.
pub fn evaluate_adaptive(waterfall_stage: WaterfallStage, pre_dam_health_score: u16) -> (r: DamEvaluation)
    ensures
        r == adaptive_evaluation(waterfall_stage, pre_dam_health_score),
{
    let waterfall_level = match waterfall_stage {
        WaterfallStage::Normal => DamLevel::Overflow,
        WaterfallStage::Caution => DamLevel::Normal,
        WaterfallStage::Defensive => DamLevel::Controlled,
        WaterfallStage::Survival => DamLevel::Restricted,
        WaterfallStage::Emergency => DamLevel::Filling,
    };
    let health_level = if pre_dam_health_score >= 650 {
        DamLevel::Overflow
    } else if pre_dam_health_score >= 500 {
        DamLevel::Normal
    } else if pre_dam_health_score >= 350 {
        DamLevel::Controlled
    } else if pre_dam_health_score >= 200 {
        DamLevel::Restricted
    } else {
        DamLevel::Filling
    };
    let level = if waterfall_level.as_u8() <= health_level.as_u8() {
        waterfall_level
    } else {
        health_level
    };
    DamEvaluation { level, release_bps: level.release_bps(), waterfall_stage }
}

/// A Dam level's release rate rises with its code, and never exceeds 100%.
pub proof fn lemma_rate_follows_code(a: DamLevel, b: DamLevel)
    ensures
        dam_rate(a) <= 10_000,
        dam_code(a) <= dam_code(b) <==> dam_rate(a) <= dam_rate(b),
        dam_code(a) == dam_code(b) <==> a == b,
{
}

/// The health score can only tighten the Waterfall baseline: the Adaptive
/// Dam is never more permissive than the baseline, and its reported rate is
/// the canonical rate of its level.
pub proof fn lemma_health_never_weakens_waterfall(stage: WaterfallStage, score: u16)
    ensures
        dam_code(adaptive_evaluation(stage, score).level) <= dam_code(waterfall_baseline(stage)),
        adaptive_evaluation(stage, score).release_bps <= dam_rate(waterfall_baseline(stage)),
        adaptive_evaluation(stage, score).release_bps == dam_rate(adaptive_evaluation(stage, score).level),
        adaptive_evaluation(stage, score).release_bps <= 10_000,
        adaptive_evaluation(stage, score).waterfall_stage == stage,
{
}

/// A healthier score never makes the Dam more restrictive.
pub proof fn lemma_healthier_score_never_tightens(stage: WaterfallStage, score: u16, healthier: u16)
    requires
        score <= healthier,
    ensures
        dam_code(adaptive_evaluation(stage, score).level) <= dam_code(adaptive_evaluation(stage, healthier).level),
        adaptive_evaluation(stage, score).release_bps <= adaptive_evaluation(stage, healthier).release_bps,
{
}

/// Maximum health leaves exactly the Waterfall baseline, and zero health
/// closes the Dam.
pub proof fn lemma_health_extremes(stage: WaterfallStage)
    ensures
        adaptive_evaluation(stage, u16::MAX).level == waterfall_baseline(stage),
        adaptive_evaluation(stage, 0).level == DamLevel::Filling,
        adaptive_evaluation(stage, 0).release_bps == 0,
{
}

/// The Emergency stage closes the Dam whatever the health score.
pub proof fn lemma_emergency_always_closes(score: u16)
    ensures
        adaptive_evaluation(WaterfallStage::Emergency, score).level == DamLevel::Filling,
        adaptive_evaluation(WaterfallStage::Emergency, score).release_bps == 0,
{
}

} // verus!
