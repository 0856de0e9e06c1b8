use treasury_router::engines::waterfall::{classify, WaterfallStage};

#[test]
fn classifies_normal_stage() {
    assert_eq!(classify(3_000), WaterfallStage::Normal);
    assert_eq!(classify(10_000), WaterfallStage::Normal);
}

#[test]
fn classifies_caution_stage() {
    assert_eq!(classify(2_000), WaterfallStage::Caution);
    assert_eq!(classify(2_999), WaterfallStage::Caution);
}

#[test]
fn classifies_defensive_stage() {
    assert_eq!(classify(1_250), WaterfallStage::Defensive);
    assert_eq!(classify(1_999), WaterfallStage::Defensive);
}

#[test]
fn classifies_survival_stage() {
    assert_eq!(classify(500), WaterfallStage::Survival);
    assert_eq!(classify(1_249), WaterfallStage::Survival);
}

#[test]
fn classifies_emergency_stage() {
    assert_eq!(classify(0), WaterfallStage::Emergency);
    assert_eq!(classify(499), WaterfallStage::Emergency);
}

