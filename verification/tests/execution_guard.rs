use treasury_router::engines::dam::DamLevel;
use treasury_router::engines::execution_guard::{
    authorize_release, calculate_maximum_release, pending_balance, ExecutionAuthorization, ReleaseBucket,
};
use treasury_router::engines::waterfall::WaterfallStage;
use treasury_router::errors::TreasuryRouterError;
use treasury_router::pubkey::Pubkey;
use treasury_router::state::protocol::ProtocolState;
use treasury_router::state::treasury::TreasuryState;

/// A fresh address, distinct from every other one the test creates.
fn unique_key() -> Pubkey {
    Pubkey::new_from_array(anchor_lang::prelude::Pubkey::new_unique().to_bytes())
}

fn valid_protocol() -> ProtocolState {
    ProtocolState {
        version: 1,
        authority: unique_key(),
        protocol_config: unique_key(),
        treasury_state: unique_key(),
        reserve_state: unique_key(),
        liquidity_state: unique_key(),
        founder_state: unique_key(),
        company_state: unique_key(),
        buyback_state: unique_key(),
        beaver_score: 10_000,
        dam_level: DamLevel::Overflow.as_u8(),
        paused: false,
        bump: 255,
        initialized_at: 1,
        reserved: [0; 64],
    }
}

/// Creates fully settled and internally consistent accounting.
///
/// Pending balances:
/// - Reserve: 1,000
/// - Buyback: 100
/// - Liquidity: 100
/// - Company: 100
/// - Founder: 100
///
/// Reserve ratio:
/// 1,000 / 1,400 = 71.42%, producing:
/// - WaterfallStage::Normal
/// - DamLevel::Overflow
/// - 100% release limit
fn valid_treasury() -> TreasuryState {
    TreasuryState {
        version: 1,
        protocol: unique_key(),
        settlement_mint: unique_key(),
        settlement_vault: unique_key(),

        total_fees_received: 1_400,
        total_fees_allocated: 1_400,

        pending_reserve: 1_000,
        pending_buyback_burn: 100,
        pending_liquidity: 100,
        pending_company: 100,
        pending_founder: 100,

        lifetime_reserve: 1_000,
        lifetime_buyback_burn: 100,
        lifetime_liquidity: 100,
        lifetime_company: 100,
        lifetime_founder: 100,

        released_reserve: 0,
        released_buyback_burn: 0,
        released_liquidity: 0,
        released_company: 0,
        released_founder: 0,

        last_processed_at: 1,
        processing_epoch: 1,
        waterfall_stage: WaterfallStage::Normal.as_u8(),
        buybacks_paused: false,
        bump: 254,
        reserved: [0; 24],
    }
}

fn assert_anchor_error<T: std::fmt::Debug>(result: Result<T, TreasuryRouterError>, expected_error_name: &str) {
    let error = match result {
        Ok(value) => {
            panic!("Expected error {expected_error_name}, but the call succeeded with {value:?}.")
        }
        Err(error) => error,
    };

    assert_eq!(format!("{error:?}"), expected_error_name, "Unexpected error: {error:?}");
}

#[test]
fn full_dam_allows_full_pending_balance() {
    assert_eq!(calculate_maximum_release(1_000, 10_000).unwrap(), 1_000);
}

#[test]
fn normal_dam_allows_seventy_five_percent() {
    assert_eq!(calculate_maximum_release(1_000, 7_500).unwrap(), 750);
}

#[test]
fn controlled_dam_allows_fifty_percent() {
    assert_eq!(calculate_maximum_release(1_000, 5_000).unwrap(), 500);
}

#[test]
fn restricted_dam_allows_twenty_five_percent() {
    assert_eq!(calculate_maximum_release(1_000, 2_500).unwrap(), 250);
}

#[test]
fn filling_dam_allows_nothing() {
    assert_eq!(calculate_maximum_release(1_000, 0).unwrap(), 0);
}

#[test]
fn release_calculation_rounds_down() {
    assert_eq!(calculate_maximum_release(3, 2_500).unwrap(), 0);

    assert_eq!(calculate_maximum_release(7, 5_000).unwrap(), 3);
}

#[test]
fn rejects_invalid_dam_release_rate() {
    assert_anchor_error(
        calculate_maximum_release(1_000, 10_001).map(|maximum_release| {
            ExecutionAuthorization {
                bucket: ReleaseBucket::Reserve,
                requested_amount: 1,
                pending_balance: 1_000,
                maximum_release,
                waterfall_stage: WaterfallStage::Normal,
                dam_level: DamLevel::Overflow,
                release_bps: 10_001,
                reserve_ratio_bps: 10_000,
            }
        }),
        "InvalidDamReleaseRate",
    );
}

#[test]
fn authorizes_valid_reserve_release() {
    let protocol = valid_protocol();
    let treasury = valid_treasury();

    let authorization =
        authorize_release(&protocol, &treasury, ReleaseBucket::Reserve, 750).unwrap();

    assert_eq!(authorization.bucket, ReleaseBucket::Reserve);
    assert_eq!(authorization.requested_amount, 750);
    assert_eq!(authorization.pending_balance, 1_000);
    assert_eq!(authorization.maximum_release, 1_000);
    assert_eq!(authorization.waterfall_stage, WaterfallStage::Normal);
    assert_eq!(authorization.dam_level, DamLevel::Overflow);
    assert_eq!(authorization.release_bps, 10_000);
    assert_eq!(authorization.reserve_ratio_bps, 7_142);
}

#[test]
fn authorizes_valid_buyback_release() {
    let protocol = valid_protocol();
    let treasury = valid_treasury();

    let authorization =
        authorize_release(&protocol, &treasury, ReleaseBucket::BuybackBurn, 100).unwrap();

    assert_eq!(authorization.bucket, ReleaseBucket::BuybackBurn);
    assert_eq!(authorization.requested_amount, 100);
    assert_eq!(authorization.pending_balance, 100);
    assert_eq!(authorization.maximum_release, 100);
}

#[test]
fn rejects_release_when_protocol_is_paused() {
    let mut protocol = valid_protocol();
    let treasury = valid_treasury();

    protocol.paused = true;

    assert_anchor_error(
        authorize_release(&protocol, &treasury, ReleaseBucket::Reserve, 1),
        "ProtocolPaused",
    );
}

#[test]
fn rejects_zero_release_amount() {
    let protocol = valid_protocol();
    let treasury = valid_treasury();

    assert_anchor_error(
        authorize_release(&protocol, &treasury, ReleaseBucket::Reserve, 0),
        "InvalidReleaseAmount",
    );
}

#[test]
fn rejects_buyback_when_buybacks_are_paused() {
    let protocol = valid_protocol();
    let mut treasury = valid_treasury();

    treasury.buybacks_paused = true;

    assert_anchor_error(
        authorize_release(&protocol, &treasury, ReleaseBucket::BuybackBurn, 1),
        "BuybacksPaused",
    );
}

#[test]
fn buyback_pause_does_not_block_other_buckets() {
    let protocol = valid_protocol();
    let mut treasury = valid_treasury();

    treasury.buybacks_paused = true;

    let authorization =
        authorize_release(&protocol, &treasury, ReleaseBucket::Liquidity, 50).unwrap();

    assert_eq!(authorization.bucket, ReleaseBucket::Liquidity);
    assert_eq!(authorization.requested_amount, 50);
}

#[test]
fn rejects_release_exceeding_pending_balance() {
    let protocol = valid_protocol();
    let treasury = valid_treasury();

    assert_anchor_error(
        authorize_release(&protocol, &treasury, ReleaseBucket::Company, 101),
        "InsufficientPendingBalance",
    );
}

#[test]
fn rejects_release_when_dam_is_closed() {
    let protocol = valid_protocol();
    let mut treasury = valid_treasury();

    treasury.pending_reserve = 40;
    treasury.pending_buyback_burn = 240;
    treasury.pending_liquidity = 240;
    treasury.pending_company = 240;
    treasury.pending_founder = 240;

    treasury.lifetime_reserve = 40;
    treasury.lifetime_buyback_burn = 240;
    treasury.lifetime_liquidity = 240;
    treasury.lifetime_company = 240;
    treasury.lifetime_founder = 240;

    treasury.total_fees_received = 1_000;
    treasury.total_fees_allocated = 1_000;

    assert_anchor_error(
        authorize_release(&protocol, &treasury, ReleaseBucket::Company, 1),
        "DamClosed",
    );
}

#[test]
fn rejects_release_exceeding_current_dam_limit() {
    let protocol = valid_protocol();
    let mut treasury = valid_treasury();

    // 200 / 1,000 = 20%, which is Caution.
    // Caution maps to a 75% release limit.
    treasury.pending_reserve = 200;
    treasury.pending_buyback_burn = 0;
    treasury.pending_liquidity = 0;
    treasury.pending_company = 800;
    treasury.pending_founder = 0;

    treasury.lifetime_reserve = 200;
    treasury.lifetime_buyback_burn = 0;
    treasury.lifetime_liquidity = 0;
    treasury.lifetime_company = 800;
    treasury.lifetime_founder = 0;

    treasury.total_fees_received = 1_000;
    treasury.total_fees_allocated = 1_000;

    // Company pending balance is 800.
    // 75% of 800 is 600.
    // A request of 601 is within pending but above the Dam limit.
    assert_anchor_error(
        authorize_release(&protocol, &treasury, ReleaseBucket::Company, 601),
        "ReleaseLimitExceeded",
    );
}

#[test]
fn authorizes_release_at_exact_dam_limit() {
    // The Adaptive Dam tightens this Caution-stage fixture to
    // Controlled: 5,000 BPS of 800 pending units equals 400.
    let protocol = valid_protocol();
    let mut treasury = valid_treasury();

    treasury.pending_reserve = 200;
    treasury.pending_buyback_burn = 0;
    treasury.pending_liquidity = 0;
    treasury.pending_company = 800;
    treasury.pending_founder = 0;

    treasury.lifetime_reserve = 200;
    treasury.lifetime_buyback_burn = 0;
    treasury.lifetime_liquidity = 0;
    treasury.lifetime_company = 800;
    treasury.lifetime_founder = 0;

    treasury.total_fees_received = 1_000;
    treasury.total_fees_allocated = 1_000;

    let authorization =
        authorize_release(&protocol, &treasury, ReleaseBucket::Company, 400).unwrap();

    assert_eq!(authorization.requested_amount, 400);
    assert_eq!(authorization.pending_balance, 800);
    assert_eq!(authorization.maximum_release, 400);
    assert_eq!(authorization.waterfall_stage, WaterfallStage::Caution);
    assert_eq!(authorization.dam_level, DamLevel::Controlled);
    assert_eq!(authorization.release_bps, 5_000);
    assert_eq!(authorization.reserve_ratio_bps, 2_000);
}

#[test]
fn rejects_when_allocated_fees_exceed_received_fees() {
    let protocol = valid_protocol();
    let mut treasury = valid_treasury();

    treasury.total_fees_received = 1_399;

    assert_anchor_error(
        authorize_release(&protocol, &treasury, ReleaseBucket::Reserve, 1),
        "AccountingInvariantViolation",
    );
}

#[test]
fn rejects_when_total_accounting_is_not_settled() {
    let protocol = valid_protocol();
    let mut treasury = valid_treasury();

    treasury.total_fees_received = 1_401;

    assert_anchor_error(
        authorize_release(&protocol, &treasury, ReleaseBucket::Reserve, 1),
        "AccountingNotSettled",
    );
}

#[test]
fn rejects_invalid_reserve_bucket_accounting() {
    let protocol = valid_protocol();
    let mut treasury = valid_treasury();

    // Lifetime must equal pending + released.
    treasury.lifetime_reserve = 999;

    assert_anchor_error(
        authorize_release(&protocol, &treasury, ReleaseBucket::Reserve, 1),
        "AccountingInvariantViolation",
    );
}

#[test]
fn rejects_invalid_non_requested_bucket_accounting() {
    let protocol = valid_protocol();
    let mut treasury = valid_treasury();

    // A corrupted founder bucket must block a reserve release.
    // The guard protects the entire treasury, not only the requested bucket.
    treasury.lifetime_founder = 99;

    assert_anchor_error(
        authorize_release(&protocol, &treasury, ReleaseBucket::Reserve, 1),
        "AccountingInvariantViolation",
    );
}

#[test]
fn pending_balance_returns_correct_bucket_amounts() {
    let treasury = valid_treasury();

    assert_eq!(pending_balance(&treasury, ReleaseBucket::Reserve), 1_000);
    assert_eq!(pending_balance(&treasury, ReleaseBucket::BuybackBurn), 100);
    assert_eq!(pending_balance(&treasury, ReleaseBucket::Liquidity), 100);
    assert_eq!(pending_balance(&treasury, ReleaseBucket::Company), 100);
    assert_eq!(pending_balance(&treasury, ReleaseBucket::Founder), 100);
}


