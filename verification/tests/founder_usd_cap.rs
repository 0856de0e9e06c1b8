use treasury_router::engines::founder_usd_cap::{apply_founder_usd_cap, token_amount_to_usd_e6, usd_e6_to_token_amount};
use treasury_router::pubkey::Pubkey;
use treasury_router::state::founder_usd_cap::{
    FounderUsdCapState, FOUNDER_ANNUAL_CAP_USD_E6, FOUNDER_ANNUAL_PERIOD_SECONDS, FOUNDER_USD_CAP_VERSION,
};

/// A fresh address, distinct from every other one the test creates.
fn unique_key() -> Pubkey {
    Pubkey::new_from_array(anchor_lang::prelude::Pubkey::new_unique().to_bytes())
}

fn state() -> FounderUsdCapState {
    FounderUsdCapState {
        version: FOUNDER_USD_CAP_VERSION,
        protocol: unique_key(),
        settlement_mint: unique_key(),
        price_feed_id: [7u8; 32],
        annual_cap_usd_e6: FOUNDER_ANNUAL_CAP_USD_E6,
        earned_current_period_usd_e6: 0,
        lifetime_earned_usd_e6: 0,
        period_started_at: 1_000,
        period_duration: FOUNDER_ANNUAL_PERIOD_SECONDS,
        max_price_age_seconds: 60,
        max_confidence_bps: 100,
        enabled: true,
        bump: 255,
        reserved: [0u8; 64],
    }
}

#[test]
fn one_token_at_one_dollar_equals_one_dollar() {
    assert_eq!(
        token_amount_to_usd_e6(1_000_000, 6, 100_000_000, -8,).unwrap(),
        1_000_000
    );
}

#[test]
fn fixed_founder_amount_below_cap_is_fully_allocated() {
    let mut cap = state();

    let result =
        apply_founder_usd_cap(&mut cap, 100_000_000, 6, 100_000_000, -8, 1_100).unwrap();

    assert_eq!(result.founder_token_amount, 100_000_000);
    assert_eq!(result.liquidity_overflow_token_amount, 0);
    assert_eq!(result.founder_usd_e6, 100_000_000);
}

#[test]
fn exact_cap_is_allowed() {
    let mut cap = state();

    let result =
        apply_founder_usd_cap(&mut cap, 3_000_000_000_000, 6, 100_000_000, -8, 1_100).unwrap();

    assert_eq!(result.founder_usd_e6, FOUNDER_ANNUAL_CAP_USD_E6);
    assert_eq!(result.liquidity_overflow_token_amount, 0);
}

#[test]
fn excess_is_redirected_to_liquidity() {
    let mut cap = state();
    cap.earned_current_period_usd_e6 = FOUNDER_ANNUAL_CAP_USD_E6 - 10_000_000;

    let result =
        apply_founder_usd_cap(&mut cap, 25_000_000, 6, 100_000_000, -8, 1_100).unwrap();

    assert_eq!(result.founder_token_amount, 10_000_000);
    assert_eq!(result.liquidity_overflow_token_amount, 15_000_000);
    assert_eq!(cap.earned_current_period_usd_e6, FOUNDER_ANNUAL_CAP_USD_E6);
}

#[test]
fn fully_capped_founder_receives_zero() {
    let mut cap = state();
    cap.earned_current_period_usd_e6 = FOUNDER_ANNUAL_CAP_USD_E6;

    let result =
        apply_founder_usd_cap(&mut cap, 25_000_000, 6, 100_000_000, -8, 1_100).unwrap();

    assert_eq!(result.founder_token_amount, 0);
    assert_eq!(result.liquidity_overflow_token_amount, 25_000_000);
}

#[test]
fn annual_period_resets_after_365_days() {
    let mut cap = state();
    cap.earned_current_period_usd_e6 = FOUNDER_ANNUAL_CAP_USD_E6;

    let now = cap.period_started_at + FOUNDER_ANNUAL_PERIOD_SECONDS;

    let result = apply_founder_usd_cap(&mut cap, 1_000_000, 6, 100_000_000, -8, now).unwrap();

    assert_eq!(result.founder_token_amount, 1_000_000);
    assert_eq!(cap.earned_current_period_usd_e6, 1_000_000);
    assert_eq!(cap.period_started_at, now);
}

#[test]
fn non_positive_oracle_price_fails_closed() {
    let mut cap = state();

    assert!(apply_founder_usd_cap(&mut cap, 1_000_000, 6, 0, -8, 1_100,).is_err());
}

#[test]
fn conversion_handles_non_one_dollar_price() {
    // One token at $2.50.
    assert_eq!(
        token_amount_to_usd_e6(1_000_000_000, 9, 250_000_000, -8,).unwrap(),
        2_500_000
    );
}



#[test]
fn converting_back_never_gains_usd() {
    // One dollar buys 666,666 raw units at $1.50 with 6 decimals; those are
    // worth $0.999999.
    let tokens = usd_e6_to_token_amount(1_000_000, 6, 150_000_000, -8).unwrap();
    assert_eq!(tokens, 666_666);
    assert_eq!(token_amount_to_usd_e6(tokens, 6, 150_000_000, -8).unwrap(), 999_999);

    // A positive exponent: $2.50 at 300 USD per token with 9 decimals.
    let tokens = usd_e6_to_token_amount(2_500_000, 9, 3, 2).unwrap();
    assert_eq!(tokens, 8_333_333);
    assert_eq!(token_amount_to_usd_e6(tokens, 9, 3, 2).unwrap(), 2_499_999);
}
