use treasury_router::engines::beaver_score::{evaluate, score_reserve};
use treasury_router::engines::dam::DamLevel;
use treasury_router::engines::waterfall::WaterfallStage;
use treasury_router::pubkey::Pubkey;
use treasury_router::state::treasury::TreasuryState;

fn test_treasury() -> TreasuryState {
    TreasuryState {
        version: 1,
        protocol: Pubkey::default(),
        settlement_mint: Pubkey::default(),
        settlement_vault: Pubkey::default(),
        total_fees_received: 1_000,
        total_fees_allocated: 1_000,
        pending_reserve: 300,
        pending_buyback_burn: 200,
        pending_liquidity: 200,
        pending_company: 200,
        pending_founder: 100,
        lifetime_reserve: 300,
        lifetime_buyback_burn: 200,
        lifetime_liquidity: 200,
        lifetime_company: 200,
        lifetime_founder: 100,
        released_reserve: 0,
        released_buyback_burn: 0,
        released_liquidity: 0,
        released_company: 0,
        released_founder: 0,
        last_processed_at: 1,
        processing_epoch: 1,
        waterfall_stage: 0,
        buybacks_paused: false,
        bump: 255,
        reserved: [0; 24],
    }
}

#[test]
fn ideal_protocol_scores_one_thousand() {
    let treasury = test_treasury();

    let result = evaluate(
        &treasury,
        10_000,
        WaterfallStage::Normal,
        DamLevel::Overflow,
    )
    .unwrap();

    assert_eq!(result.total_score, 1_000);
    assert_eq!(result.waterfall_points, 350);
    assert_eq!(result.dam_points, 250);
    assert_eq!(result.reserve_points, 250);
    assert_eq!(result.accounting_points, 150);
}

#[test]
fn current_initial_allocation_scores_correctly() {
    let treasury = test_treasury();

    let result =
        evaluate(&treasury, 3_000, WaterfallStage::Normal, DamLevel::Overflow).unwrap();

    assert_eq!(result.reserve_points, 75);
    assert_eq!(result.total_score, 825);
}

#[test]
fn emergency_protocol_scores_only_accounting_points() {
    let treasury = test_treasury();

    let result = evaluate(&treasury, 0, WaterfallStage::Emergency, DamLevel::Filling).unwrap();

    assert_eq!(result.waterfall_points, 0);
    assert_eq!(result.dam_points, 0);
    assert_eq!(result.reserve_points, 0);
    assert_eq!(result.accounting_points, 150);
    assert_eq!(result.total_score, 150);
}

#[test]
fn inconsistent_accounting_loses_integrity_points() {
    let mut treasury = test_treasury();
    treasury.total_fees_allocated = 900;

    let result =
        evaluate(&treasury, 3_000, WaterfallStage::Normal, DamLevel::Overflow).unwrap();

    assert_eq!(result.accounting_points, 50);
    assert_eq!(result.total_score, 725);
}

#[test]
fn reserve_score_is_capped() {
    assert_eq!(score_reserve(10_000).unwrap(), 250);
    assert_eq!(score_reserve(u16::MAX).unwrap(), 250);
}

