use treasury_router::engines::dam::{evaluate, evaluate_adaptive, DamLevel};
use treasury_router::engines::waterfall::WaterfallStage;

#[test]
fn normal_waterfall_opens_dam_fully() {
    let result = evaluate(WaterfallStage::Normal);

    assert_eq!(result.level, DamLevel::Overflow);
    assert_eq!(result.release_bps, 10_000);
}

#[test]
fn caution_waterfall_uses_normal_dam_level() {
    let result = evaluate(WaterfallStage::Caution);

    assert_eq!(result.level, DamLevel::Normal);
    assert_eq!(result.release_bps, 7_500);
}

#[test]
fn defensive_waterfall_uses_controlled_dam_level() {
    let result = evaluate(WaterfallStage::Defensive);

    assert_eq!(result.level, DamLevel::Controlled);
    assert_eq!(result.release_bps, 5_000);
}

#[test]
fn survival_waterfall_restricts_dam() {
    let result = evaluate(WaterfallStage::Survival);

    assert_eq!(result.level, DamLevel::Restricted);
    assert_eq!(result.release_bps, 2_500);
}

#[test]
fn emergency_waterfall_closes_dam() {
    let result = evaluate(WaterfallStage::Emergency);

    assert_eq!(result.level, DamLevel::Filling);
    assert_eq!(result.release_bps, 0);
}


#[test]
fn healthy_normal_protocol_allows_full_release() {
    let result = evaluate_adaptive(WaterfallStage::Normal, 750);

    assert_eq!(result.level, DamLevel::Overflow);
    assert_eq!(result.release_bps, 10_000);
}

#[test]
fn weak_health_tightens_a_normal_waterfall() {
    let result = evaluate_adaptive(WaterfallStage::Normal, 420);

    assert_eq!(result.level, DamLevel::Controlled);
    assert_eq!(result.release_bps, 5_000);
}

#[test]
fn health_score_can_never_weaken_waterfall_protection() {
    let result = evaluate_adaptive(WaterfallStage::Survival, 750);

    assert_eq!(result.level, DamLevel::Restricted);
    assert_eq!(result.release_bps, 2_500);
}

#[test]
fn critically_low_health_closes_the_dam() {
    let result = evaluate_adaptive(WaterfallStage::Normal, 199);

    assert_eq!(result.level, DamLevel::Filling);
    assert_eq!(result.release_bps, 0);
}

#[test]
fn emergency_waterfall_always_closes_the_dam() {
    let result = evaluate_adaptive(WaterfallStage::Emergency, 750);

    assert_eq!(result.level, DamLevel::Filling);
    assert_eq!(result.release_bps, 0);
}

