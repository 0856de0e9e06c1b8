use treasury_router::engines::execution_guard::ReleaseBucket;
use treasury_router::engines::integrity_firewall::{
    IntegrityAccountKeys, IntegrityDestinations, TokenAccountFacts,
};
use treasury_router::engines::reserve_deployment::ReserveDeploymentStage;
use treasury_router::errors::TreasuryRouterError;
use treasury_router::instructions::execution::{execute_liquidity_release, execute_reserve_release};
use treasury_router::instructions::founder_price::{
    migrate_founder_feed_id, submit_founder_price, FOUNDER_PLACEHOLDER_FEED_ID,
};
use treasury_router::instructions::initialize::{
    check_settlement_deposit, initial_protocol_state, initialize_company, initialize_execution_config,
    initialize_founder, initialize_founder_price, initialize_founder_usd_cap, initialize_protocol_config,
    initialize_reserve_policy, initialize_treasury,
};
use treasury_router::instructions::spillway_release::plan_spillway_release;
use treasury_router::oracle_adapter::{
    check_adapter_limits, check_verified_price, pyth_price_no_older_than, verified_founder_price, OracleAdapterError,
    PriceReadError, PriceUpdate, PythPriceError, VerificationLevel, VerifiedPrice,
};
use treasury_router::pubkey::{id, Pubkey};
use treasury_router::state::company::CompanyState;
use treasury_router::state::execution_config::ExecutionConfig;
use treasury_router::state::founder::FounderState;
use treasury_router::state::founder_price::{FounderPriceState, FOUNDER_PRICE_VERSION};
use treasury_router::state::founder_usd_cap::{
    FounderUsdCapState, FOUNDER_ANNUAL_CAP_USD_E6, FOUNDER_ANNUAL_PERIOD_SECONDS, FOUNDER_USD_CAP_VERSION,
};
use treasury_router::state::protocol::ProtocolState;
use treasury_router::state::protocol_config::ProtocolConfig;
use treasury_router::state::reserve_policy::ReservePolicy;
use treasury_router::state::treasury::TreasuryState;

fn key(byte: u8) -> Pubkey {
    Pubkey::new_from_array([byte; 32])
}

fn live_protocol() -> ProtocolState {
    let mut protocol = initial_protocol_state(key(1), 255, 100);
    protocol.beaver_score = 1_000;
    protocol
}

/// Settled accounting at a 71% reserve ratio: Normal Waterfall, open Dam.
fn settled_treasury() -> TreasuryState {
    let mut protocol = live_protocol();
    let mut treasury = initialize_treasury(&mut protocol, key(9), key(3), key(10), key(11), 254).unwrap();
    treasury.total_fees_received = 1_400;
    treasury.total_fees_allocated = 1_400;
    treasury.pending_reserve = 1_000;
    treasury.lifetime_reserve = 1_000;
    treasury.pending_buyback_burn = 100;
    treasury.lifetime_buyback_burn = 100;
    treasury.pending_liquidity = 100;
    treasury.lifetime_liquidity = 100;
    treasury.pending_company = 100;
    treasury.lifetime_company = 100;
    treasury.pending_founder = 100;
    treasury.lifetime_founder = 100;
    treasury.processing_epoch = 1;
    treasury
}

fn spillway_policy() -> ReservePolicy {
    initialize_reserve_policy(key(9), key(3), 1_000, 2_000, 2_500, 86_400, 255).unwrap()
}

fn price_state() -> FounderPriceState {
    FounderPriceState {
        version: FOUNDER_PRICE_VERSION,
        protocol: key(9),
        settlement_mint: key(10),
        price_feed_id: [9; 32],
        oracle_adapter_authority: key(13),
        price: 100_000_000,
        exponent: -8,
        confidence: 100_000,
        publish_time: 1_000,
        received_at: 1_001,
        sequence: 1,
        max_price_age_seconds: 60,
        max_confidence_bps: 100,
        enabled: true,
        bump: 255,
        reserved: [0; 64],
    }
}

fn placeholder_accounts() -> (FounderUsdCapState, FounderPriceState) {
    let cap = FounderUsdCapState {
        version: FOUNDER_USD_CAP_VERSION,
        protocol: key(9),
        settlement_mint: key(10),
        price_feed_id: FOUNDER_PLACEHOLDER_FEED_ID,
        annual_cap_usd_e6: FOUNDER_ANNUAL_CAP_USD_E6,
        earned_current_period_usd_e6: 0,
        lifetime_earned_usd_e6: 0,
        period_started_at: 1,
        period_duration: FOUNDER_ANNUAL_PERIOD_SECONDS,
        max_price_age_seconds: 60,
        max_confidence_bps: 100,
        enabled: true,
        bump: 255,
        reserved: [0; 64],
    };
    let mut price = price_state();
    price.price_feed_id = FOUNDER_PLACEHOLDER_FEED_ID;
    price.price = 0;
    price.confidence = 0;
    price.publish_time = 0;
    price.received_at = 0;
    price.sequence = 0;
    (cap, price)
}

#[test]
fn spillway_deploys_the_throttled_surplus_above_the_dynamic_floor() {
    // 20% of 10,000 raises the floor to 2,000; a quarter of the 2,000
    // surplus is deployable.
    let plan = plan_spillway_release(&spillway_policy(), 4_000, 10_000, 50).unwrap();

    assert_eq!(plan.stage, ReserveDeploymentStage::Surplus);
    assert_eq!(plan.reserve_floor, 2_000);
    assert_eq!(plan.gross_surplus, 2_000);
    assert_eq!(plan.deployable_amount, 500);
    assert_eq!(plan.remaining_reserve, 3_500);
}

#[test]
fn spillway_refuses_during_the_cooldown() {
    let mut policy = spillway_policy();
    policy.record_deployment(100, 1_000).unwrap();

    assert_eq!(
        plan_spillway_release(&policy, 4_000, 0, 1_000 + 86_399).unwrap_err(),
        TreasuryRouterError::ReserveDeploymentCooldownActive
    );
    assert!(plan_spillway_release(&policy, 4_000, 0, 1_000 + 86_400).is_ok());
}

#[test]
fn spillway_refuses_when_nothing_is_deployable() {
    assert_eq!(
        plan_spillway_release(&spillway_policy(), 1_000, 0, 50).unwrap_err(),
        TreasuryRouterError::NoDeployableReserveSurplus
    );
}

#[test]
fn spillway_refuses_an_unevaluable_policy() {
    let mut policy = spillway_policy();
    policy.surplus_deployment_bps = 10_001;

    assert_eq!(
        plan_spillway_release(&policy, 4_000, 0, 50).unwrap_err(),
        TreasuryRouterError::ReserveDeploymentEvaluationFailed
    );
}

#[test]
fn reserve_execution_moves_the_amount_from_pending_to_released() {
    let protocol = live_protocol();
    let mut treasury = settled_treasury();

    let (authorization, transition) = execute_reserve_release(&protocol, &mut treasury, 750).unwrap();

    assert_eq!(authorization.maximum_release, 1_000);
    assert_eq!(transition.bucket, ReleaseBucket::Reserve);
    assert_eq!(transition.remaining_pending_balance, 250);
    assert_eq!(treasury.pending_reserve, 250);
    assert_eq!(treasury.released_reserve, 750);
    assert_eq!(treasury.lifetime_reserve, 1_000);
    assert!(treasury.execution_accounting_is_valid());
}

#[test]
fn reserve_execution_refuses_unbalanced_accounting_without_change() {
    let protocol = live_protocol();
    let mut treasury = settled_treasury();
    treasury.lifetime_founder = 99;

    assert_eq!(
        execute_reserve_release(&protocol, &mut treasury, 0).unwrap_err(),
        TreasuryRouterError::AccountingInvariantViolation
    );
    assert_eq!(treasury.pending_reserve, 1_000);
}

#[test]
fn reserve_execution_refuses_a_paused_protocol() {
    let mut protocol = live_protocol();
    protocol.paused = true;
    let mut treasury = settled_treasury();

    assert_eq!(
        execute_reserve_release(&protocol, &mut treasury, 1).unwrap_err(),
        TreasuryRouterError::ProtocolPaused
    );
}

#[test]
fn liquidity_execution_requires_a_healthy_integrity_firewall() {
    let protocol = live_protocol();
    let config = ProtocolConfig {
        version: 1,
        protocol: key(9),
        reserve_bps: 3_000,
        buyback_burn_bps: 2_000,
        liquidity_bps: 2_000,
        company_bps: 2_000,
        founder_bps: 1_000,
        updates_enabled: false,
        bump: 255,
        updated_at: 1,
        reserved: [0; 64],
    };
    let mut treasury = settled_treasury();
    let founder = FounderState {
        version: 1,
        protocol: key(9),
        recipient: key(12),
        period_cap: 1,
        earned_current_period: 0,
        lifetime_earned: 0,
        period_started_at: 1,
        period_duration: 1,
        current_tier: 0,
        enabled: true,
        bump: 1,
        reserved: [0; 64],
    };
    let company = CompanyState {
        version: 1,
        protocol: key(9),
        recipient: key(14),
        period_cap: 1,
        spent_current_period: 0,
        lifetime_spent: 0,
        period_started_at: 1,
        period_duration: 1,
        enabled: true,
        bump: 1,
        reserved: [0; 64],
    };
    let execution_config = initialize_execution_config(
        key(9),
        key(10),
        key(11),
        key(20),
        key(21),
        key(22),
        key(23),
        key(24),
        1,
    )
    .unwrap();
    let facts = |k: u8, owner: Pubkey| TokenAccountFacts { key: key(k), mint: key(10), owner };
    let destinations = IntegrityDestinations {
        reserve: facts(20, key(30)),
        buyback: facts(21, key(31)),
        liquidity: facts(22, key(32)),
        company: facts(23, key(14)),
        founder: facts(24, key(12)),
    };
    let keys = IntegrityAccountKeys {
        protocol: key(9),
        protocol_config: key(2),
        treasury: key(3),
        founder: key(4),
        company: key(5),
        execution_config: key(6),
    };

    // These keys are not the program's derived addresses.
    let result = execute_liquidity_release(
        id(),
        keys,
        &protocol,
        &config,
        &mut treasury,
        facts(11, key(3)),
        &founder,
        &company,
        &execution_config,
        destinations,
        50,
    );

    assert_eq!(result.unwrap_err(), TreasuryRouterError::IntegrityFirewallViolation);
    assert_eq!(treasury.pending_liquidity, 100);
}

#[test]
fn submitted_price_must_be_newer_than_the_stored_one() {
    let protocol = live_protocol();
    let mut price = price_state();

    assert_eq!(
        submit_founder_price(&protocol, &mut price, [9; 32], 101_000_000, -8, 100_000, 1_000, 1_010).unwrap_err(),
        TreasuryRouterError::FounderOraclePriceNotNewer
    );
    assert_eq!(price.sequence, 1);

    submit_founder_price(&protocol, &mut price, [9; 32], 101_000_000, -8, 100_000, 1_005, 1_010).unwrap();

    assert_eq!(price.price, 101_000_000);
    assert_eq!(price.publish_time, 1_005);
    assert_eq!(price.received_at, 1_010);
    assert_eq!(price.sequence, 2);
    assert!(price.validate_price(1_010).is_ok());
}

#[test]
fn submitted_price_for_another_feed_is_refused() {
    let protocol = live_protocol();
    let mut price = price_state();

    assert_eq!(
        submit_founder_price(&protocol, &mut price, [8; 32], 101_000_000, -8, 100_000, 1_005, 1_010).unwrap_err(),
        TreasuryRouterError::InvalidFounderUsdPriceFeed
    );
}

#[test]
fn submitted_price_with_wide_confidence_is_refused() {
    let protocol = live_protocol();
    let mut price = price_state();

    assert_eq!(
        submit_founder_price(&protocol, &mut price, [9; 32], 100_000_000, -8, 2_000_000, 1_005, 1_010).unwrap_err(),
        TreasuryRouterError::FounderOracleConfidenceTooWide
    );
}

#[test]
fn stale_submitted_price_is_refused() {
    let protocol = live_protocol();
    let mut price = price_state();

    assert_eq!(
        submit_founder_price(&protocol, &mut price, [9; 32], 100_000_000, -8, 100_000, 1_005, 1_066).unwrap_err(),
        TreasuryRouterError::FounderOraclePriceStale
    );
}

#[test]
fn feed_migration_succeeds_once_and_then_locks() {
    let protocol = live_protocol();
    let (mut cap, mut price) = placeholder_accounts();

    let previous = migrate_founder_feed_id(&protocol, &mut cap, &mut price, [5; 32]).unwrap();

    assert_eq!(previous, FOUNDER_PLACEHOLDER_FEED_ID);
    assert_eq!(cap.price_feed_id, [5; 32]);
    assert_eq!(price.price_feed_id, [5; 32]);
    assert_eq!(
        migrate_founder_feed_id(&protocol, &mut cap, &mut price, [6; 32]).unwrap_err(),
        TreasuryRouterError::FounderFeedMigrationUnavailable
    );
    assert_eq!(cap.price_feed_id, [5; 32]);
}

#[test]
fn feed_migration_refuses_zero_placeholder_and_used_accounts() {
    let protocol = live_protocol();
    let (mut cap, mut price) = placeholder_accounts();

    assert_eq!(
        migrate_founder_feed_id(&protocol, &mut cap, &mut price, [0; 32]).unwrap_err(),
        TreasuryRouterError::InvalidFounderUsdPriceFeed
    );
    assert_eq!(
        migrate_founder_feed_id(&protocol, &mut cap, &mut price, FOUNDER_PLACEHOLDER_FEED_ID).unwrap_err(),
        TreasuryRouterError::InvalidFounderFeedMigrationTarget
    );
    price.sequence = 1;
    assert_eq!(
        migrate_founder_feed_id(&protocol, &mut cap, &mut price, [5; 32]).unwrap_err(),
        TreasuryRouterError::FounderFeedMigrationStateUsed
    );
    assert_eq!(price.price_feed_id, FOUNDER_PLACEHOLDER_FEED_ID);
}

#[test]
fn protocol_configuration_is_created_locked_once() {
    let mut protocol = live_protocol();

    let config = initialize_protocol_config(&mut protocol, key(9), key(2), 250, 77).unwrap();

    assert_eq!(config.reserve_bps, 3_000);
    assert_eq!(config.buyback_burn_bps, 2_000);
    assert_eq!(config.liquidity_bps, 2_000);
    assert_eq!(config.company_bps, 2_000);
    assert_eq!(config.founder_bps, 1_000);
    assert!(!config.updates_enabled);
    assert_eq!(config.total_allocation_bps(), 10_000);
    assert_eq!(protocol.protocol_config, key(2));
    assert_eq!(
        initialize_protocol_config(&mut protocol, key(9), key(7), 250, 78).unwrap_err(),
        TreasuryRouterError::ProtocolConfigAlreadyInitialized
    );
    assert_eq!(protocol.protocol_config, key(2));
}

#[test]
fn founder_and_company_setup_checks_their_parameters() {
    let mut protocol = live_protocol();

    assert_eq!(
        initialize_founder(&mut protocol, key(9), key(4), Pubkey::default(), 10, 10, 1, 5).unwrap_err(),
        TreasuryRouterError::InvalidFounderRecipient
    );
    assert_eq!(
        initialize_founder(&mut protocol, key(9), key(4), key(12), 0, 10, 1, 5).unwrap_err(),
        TreasuryRouterError::InvalidFounderPeriodCap
    );
    let founder = initialize_founder(&mut protocol, key(9), key(4), key(12), 10, 10, 1, 5).unwrap();
    assert_eq!(founder.period_started_at, 5);
    assert_eq!(protocol.founder_state, key(4));
    assert_eq!(
        initialize_founder(&mut protocol, key(9), key(4), key(12), 10, 10, 1, 5).unwrap_err(),
        TreasuryRouterError::FounderAlreadyInitialized
    );

    assert_eq!(
        initialize_company(&mut protocol, key(9), key(5), key(14), 10, 0, 1, 5).unwrap_err(),
        TreasuryRouterError::InvalidCompanyPeriodDuration
    );
    let company = initialize_company(&mut protocol, key(9), key(5), key(14), 10, 10, 1, 5).unwrap();
    assert_eq!(company.period_cap, 10);
    assert_eq!(protocol.company_state, key(5));
}

#[test]
fn treasury_is_created_empty_and_balanced_once() {
    let mut protocol = live_protocol();

    let treasury = initialize_treasury(&mut protocol, key(9), key(3), key(10), key(11), 254).unwrap();

    assert_eq!(treasury.total_fees_received, 0);
    assert!(treasury.execution_accounting_is_valid());
    assert_eq!(protocol.treasury_state, key(3));
    assert_eq!(
        initialize_treasury(&mut protocol, key(9), key(3), key(10), key(11), 254).unwrap_err(),
        TreasuryRouterError::TreasuryAlreadyInitialized
    );
}

#[test]
fn execution_destinations_must_be_isolated() {
    assert_eq!(
        initialize_execution_config(key(9), key(10), key(11), key(11), key(21), key(22), key(23), key(24), 1)
            .unwrap_err(),
        TreasuryRouterError::InvalidExecutionDestination
    );
    assert_eq!(
        initialize_execution_config(key(9), key(10), key(11), key(20), key(21), key(22), key(21), key(24), 1)
            .unwrap_err(),
        TreasuryRouterError::InvalidExecutionDestination
    );
    let config: ExecutionConfig =
        initialize_execution_config(key(9), key(10), key(11), key(20), key(21), key(22), key(23), key(24), 1)
            .unwrap();
    assert_eq!(config.liquidity_destination, key(22));
}

#[test]
fn oracle_accounts_are_created_with_validated_limits() {
    let protocol = live_protocol();

    assert_eq!(
        initialize_founder_usd_cap(&protocol, key(9), key(10), [7; 32], 0, 100, 1, 5).unwrap_err(),
        TreasuryRouterError::InvalidFounderOracleMaximumAge
    );
    let cap = initialize_founder_usd_cap(&protocol, key(9), key(10), [7; 32], 60, 100, 1, 5).unwrap();
    assert_eq!(cap.annual_cap_usd_e6, FOUNDER_ANNUAL_CAP_USD_E6);
    assert_eq!(cap.period_started_at, 5);
    assert!(cap.validate_configuration().is_ok());

    assert_eq!(
        initialize_founder_price(&protocol, key(9), key(10), [7; 32], Pubkey::default(), 60, 100, 1).unwrap_err(),
        TreasuryRouterError::InvalidFounderOracleAdapter
    );
    let price = initialize_founder_price(&protocol, key(9), key(10), [7; 32], key(13), 60, 10_001, 1);
    assert_eq!(price.unwrap_err(), TreasuryRouterError::InvalidFounderOracleConfidenceLimit);
    let price = initialize_founder_price(&protocol, key(9), key(10), [7; 32], key(13), 60, 100, 1).unwrap();
    assert_eq!(price.sequence, 0);
    assert!(price.validate_configuration().is_ok());
}

#[test]
fn deposits_need_a_positive_amount_and_an_unpaused_protocol() {
    let mut protocol = live_protocol();

    assert!(check_settlement_deposit(&protocol, 1).is_ok());
    assert_eq!(check_settlement_deposit(&protocol, 0).unwrap_err(), TreasuryRouterError::InvalidDepositAmount);
    protocol.paused = true;
    assert_eq!(check_settlement_deposit(&protocol, 1).unwrap_err(), TreasuryRouterError::ProtocolPaused);
}

#[test]
fn oracle_adapter_checks_limits_and_prices() {
    assert_eq!(check_adapter_limits([0; 32], 60, 100).unwrap_err(), OracleAdapterError::InvalidFeedId);
    assert_eq!(check_adapter_limits([7; 32], 0, 100).unwrap_err(), OracleAdapterError::InvalidMaximumAge);
    assert_eq!(check_adapter_limits([7; 32], 60, 0).unwrap_err(), OracleAdapterError::InvalidConfidenceLimit);
    assert!(check_adapter_limits([7; 32], 60, 10_000).is_ok());

    assert_eq!(check_verified_price(0, 1, 5, 10, 100).unwrap_err(), OracleAdapterError::InvalidPrice);
    assert_eq!(check_verified_price(100, 1, 11, 10, 100).unwrap_err(), OracleAdapterError::InvalidPublishTime);
    // 2 of 100 is 200 basis points, above a 100 basis-point limit.
    assert_eq!(check_verified_price(100, 2, 5, 10, 100).unwrap_err(), OracleAdapterError::ConfidenceTooWide);
    assert!(check_verified_price(100, 1, 5, 10, 100).is_ok());
}

fn price_update(level: VerificationLevel, feed: u8, price: i64, conf: u64, publish_time: i64) -> PriceUpdate {
    PriceUpdate { verification_level: level, feed_id: [feed; 32], price, conf, exponent: -8, publish_time }
}

#[test]
fn adapter_accepts_a_fresh_fully_verified_price() {
    let update = price_update(VerificationLevel::Full, 7, 100_000_000, 50_000, 990);
    assert_eq!(
        verified_founder_price(&update, 1_000, [7; 32], 60, 100),
        Ok(VerifiedPrice { price: 100_000_000, conf: 50_000, exponent: -8, publish_time: 990 })
    );
}

#[test]
fn adapter_checks_its_limits_before_reading_the_update() {
    let partial = price_update(VerificationLevel::Partial { num_signatures: 5 }, 7, 100, 1, 990);
    assert_eq!(
        verified_founder_price(&partial, 1_000, [0; 32], 60, 100),
        Err(PriceReadError::Adapter(OracleAdapterError::InvalidFeedId))
    );
    assert_eq!(
        verified_founder_price(&partial, 1_000, [7; 32], 60, 0),
        Err(PriceReadError::Adapter(OracleAdapterError::InvalidConfidenceLimit))
    );
}

#[test]
fn adapter_refuses_what_the_pyth_receiver_refuses() {
    let partial = price_update(VerificationLevel::Partial { num_signatures: 13 }, 7, 100, 1, 990);
    assert_eq!(
        verified_founder_price(&partial, 1_000, [7; 32], 60, 100),
        Err(PriceReadError::Pyth(PythPriceError::InsufficientVerificationLevel))
    );
    let other_feed = price_update(VerificationLevel::Full, 8, 100, 1, 990);
    assert_eq!(
        verified_founder_price(&other_feed, 1_000, [7; 32], 60, 100),
        Err(PriceReadError::Pyth(PythPriceError::MismatchedFeedId))
    );
    let stale = price_update(VerificationLevel::Full, 7, 100, 1, 939);
    assert_eq!(
        verified_founder_price(&stale, 1_000, [7; 32], 60, 100),
        Err(PriceReadError::Pyth(PythPriceError::PriceTooOld))
    );
    let just_fresh = price_update(VerificationLevel::Full, 7, 100, 1, 940);
    assert!(verified_founder_price(&just_fresh, 1_000, [7; 32], 60, 100).is_ok());
}

#[test]
fn adapter_checks_the_price_the_receiver_returns() {
    let negative = price_update(VerificationLevel::Full, 7, -5, 1, 990);
    assert_eq!(
        verified_founder_price(&negative, 1_000, [7; 32], 60, 100),
        Err(PriceReadError::Adapter(OracleAdapterError::InvalidPrice))
    );
    let future = price_update(VerificationLevel::Full, 7, 100, 1, 1_001);
    assert_eq!(
        verified_founder_price(&future, 1_000, [7; 32], 60, 100),
        Err(PriceReadError::Adapter(OracleAdapterError::InvalidPublishTime))
    );
    let wide = price_update(VerificationLevel::Full, 7, 100, 2, 990);
    assert_eq!(
        verified_founder_price(&wide, 1_000, [7; 32], 60, 100),
        Err(PriceReadError::Adapter(OracleAdapterError::ConfidenceTooWide))
    );
}

#[test]
fn pyth_freshness_saturates_at_the_largest_time() {
    let update = price_update(VerificationLevel::Full, 7, 100, 1, i64::MAX - 10);
    assert_eq!(
        pyth_price_no_older_than(&update, i64::MAX, 60, &[7; 32]),
        Ok(VerifiedPrice { price: 100, conf: 1, exponent: -8, publish_time: i64::MAX - 10 })
    );
}
