//! One-time initialization of the protocol accounts.
use vstd::prelude::*;

use crate::constants::{
    BPS_DENOMINATOR, COMPANY_STATE_VERSION, EXECUTION_CONFIG_VERSION, FOUNDER_STATE_VERSION, INITIAL_BUYBACK_BURN_BPS,
    INITIAL_COMPANY_BPS, INITIAL_DAM_LEVEL, INITIAL_FOUNDER_BPS, INITIAL_LIQUIDITY_BPS, INITIAL_RESERVE_BPS,
    INITIAL_WATERFALL_STAGE, PROTOCOL_CONFIG_VERSION, PROTOCOL_VERSION, RESERVE_POLICY_VERSION, TREASURY_VERSION,
};
use crate::errors::TreasuryRouterError;
use crate::pubkey::{bytes32_is_zero, zero_bytes, Pubkey};
use crate::state::company::CompanyState;
use crate::state::execution_config::ExecutionConfig;
use crate::state::founder::FounderState;
use crate::state::founder_price::{FounderPriceState, FOUNDER_PRICE_VERSION};
use crate::state::founder_usd_cap::{
    FounderUsdCapState, FOUNDER_ANNUAL_CAP_USD_E6, FOUNDER_ANNUAL_PERIOD_SECONDS, FOUNDER_USD_CAP_VERSION,
};
use crate::state::protocol::ProtocolState;
use crate::state::protocol_config::ProtocolConfig;
use crate::state::reserve_policy::{reserve_parameters_outcome, ReservePolicy};
use crate::state::treasury::TreasuryState;

verus! {

/// A new root protocol account: no module linked yet, score zero, the
/// initial Dam level, not paused.
pub fn initial_protocol_state(authority: Pubkey, bump: u8, now: i64) -> (r: ProtocolState)
    ensures
        r == (ProtocolState {
            version: PROTOCOL_VERSION,
            authority,
            protocol_config: r.protocol_config,
            treasury_state: r.treasury_state,
            reserve_state: r.reserve_state,
            liquidity_state: r.liquidity_state,
            founder_state: r.founder_state,
            company_state: r.company_state,
            buyback_state: r.buyback_state,
            beaver_score: 0,
            dam_level: INITIAL_DAM_LEVEL,
            paused: false,
            bump,
            initialized_at: now,
            reserved: r.reserved,
        }),
        r.protocol_config@ == zero_bytes(),
        r.treasury_state@ == zero_bytes(),
        r.reserve_state@ == zero_bytes(),
        r.liquidity_state@ == zero_bytes(),
        r.founder_state@ == zero_bytes(),
        r.company_state@ == zero_bytes(),
        r.buyback_state@ == zero_bytes(),
        r.reserved@ == Seq::new(64, |i: int| 0u8),
{
    let r = ProtocolState {
        version: PROTOCOL_VERSION,
        authority,
        protocol_config: Pubkey::zeroed(),
        treasury_state: Pubkey::zeroed(),
        reserve_state: Pubkey::zeroed(),
        liquidity_state: Pubkey::zeroed(),
        founder_state: Pubkey::zeroed(),
        company_state: Pubkey::zeroed(),
        buyback_state: Pubkey::zeroed(),
        beaver_score: 0,
        dam_level: INITIAL_DAM_LEVEL,
        paused: false,
        bump,
        initialized_at: now,
        reserved: [0u8; 64],
    };
    assert(r.reserved@ =~= Seq::new(64, |i: int| 0u8));
    r
}

/// Creates the locked 30/20/20/20/10 allocation configuration, updates
/// disabled, and links it from the protocol. Refused while paused or where a
/// configuration is already linked; on error nothing changes.
pub fn initialize_protocol_config(
    protocol_state: &mut ProtocolState,
    protocol_key: Pubkey,
    protocol_config_key: Pubkey,
    bump: u8,
    now: i64,
) -> (r: Result<ProtocolConfig, TreasuryRouterError>)
    ensures
        old(protocol_state).paused ==> r == Err::<ProtocolConfig, _>(TreasuryRouterError::ProtocolPaused),
        !old(protocol_state).paused && old(protocol_state).protocol_config@ != zero_bytes() ==> r == Err::<
            ProtocolConfig,
            _,
        >(TreasuryRouterError::ProtocolConfigAlreadyInitialized),
        r is Err ==> *final(protocol_state) == *old(protocol_state),
        !old(protocol_state).paused && old(protocol_state).protocol_config@ == zero_bytes() ==> (r matches Ok(c)
            && c == (ProtocolConfig {
            version: PROTOCOL_CONFIG_VERSION,
            protocol: protocol_key,
            reserve_bps: 3_000,
            buyback_burn_bps: 2_000,
            liquidity_bps: 2_000,
            company_bps: 2_000,
            founder_bps: 1_000,
            updates_enabled: false,
            bump,
            updated_at: now,
            reserved: c.reserved,
        }) && c.reserved@ == Seq::new(64, |i: int| 0u8) && *final(protocol_state) == (ProtocolState {
            protocol_config: protocol_config_key,
            ..*old(protocol_state)
        })),
{
    if protocol_state.paused {
        return Err(TreasuryRouterError::ProtocolPaused);
    }
    if !protocol_state.protocol_config.is_default() {
        return Err(TreasuryRouterError::ProtocolConfigAlreadyInitialized);
    }
    let total_bps = INITIAL_RESERVE_BPS + INITIAL_BUYBACK_BURN_BPS + INITIAL_LIQUIDITY_BPS + INITIAL_COMPANY_BPS
        + INITIAL_FOUNDER_BPS;
    if total_bps != BPS_DENOMINATOR {
        return Err(TreasuryRouterError::InvalidAllocationConfiguration);
    }
    let config = ProtocolConfig {
        version: PROTOCOL_CONFIG_VERSION,
        protocol: protocol_key,
        reserve_bps: INITIAL_RESERVE_BPS,
        buyback_burn_bps: INITIAL_BUYBACK_BURN_BPS,
        liquidity_bps: INITIAL_LIQUIDITY_BPS,
        company_bps: INITIAL_COMPANY_BPS,
        founder_bps: INITIAL_FOUNDER_BPS,
        updates_enabled: false,
        bump,
        updated_at: now,
        reserved: [0u8; 64],
    };
    assert(config.reserved@ =~= Seq::new(64, |i: int| 0u8));
    protocol_state.protocol_config = protocol_config_key;
    Ok(config)
}

/// The checks on a new period-capped recipient, first failing first.
pub open spec fn recipient_setup_outcome(
    protocol: ProtocolState,
    linked: Pubkey,
    recipient: Pubkey,
    period_cap: u64,
    period_duration: i64,
    already: TreasuryRouterError,
    bad_recipient: TreasuryRouterError,
    bad_cap: TreasuryRouterError,
    bad_duration: TreasuryRouterError,
) -> Result<(), TreasuryRouterError> {
    if protocol.paused {
        Err(TreasuryRouterError::ProtocolPaused)
    } else if linked@ != zero_bytes() {
        Err(already)
    } else if recipient@ == zero_bytes() {
        Err(bad_recipient)
    } else if period_cap == 0 {
        Err(bad_cap)
    } else if period_duration <= 0 {
        Err(bad_duration)
    } else {
        Ok(())
    }
}

/// Creates the founder account with its recipient and period cap, its
/// period starting now, and links it from the protocol. On error nothing
/// changes.
pub fn initialize_founder(
    protocol_state: &mut ProtocolState,
    protocol_key: Pubkey,
    founder_key: Pubkey,
    recipient: Pubkey,
    period_cap: u64,
    period_duration: i64,
    bump: u8,
    now: i64,
) -> (r: Result<FounderState, TreasuryRouterError>)
    ensures
        match recipient_setup_outcome(
            *old(protocol_state),
            old(protocol_state).founder_state,
            recipient,
            period_cap,
            period_duration,
            TreasuryRouterError::FounderAlreadyInitialized,
            TreasuryRouterError::InvalidFounderRecipient,
            TreasuryRouterError::InvalidFounderPeriodCap,
            TreasuryRouterError::InvalidFounderPeriodDuration,
        ) {
            Err(e) => r == Err::<FounderState, _>(e) && *final(protocol_state) == *old(protocol_state),
            Ok(_) => r matches Ok(f) && f == (FounderState {
                version: FOUNDER_STATE_VERSION,
                protocol: protocol_key,
                recipient,
                period_cap,
                earned_current_period: 0,
                lifetime_earned: 0,
                period_started_at: now,
                period_duration,
                current_tier: 0,
                enabled: true,
                bump,
                reserved: f.reserved,
            }) && f.reserved@ == Seq::new(64, |i: int| 0u8) && *final(protocol_state) == (ProtocolState {
                founder_state: founder_key,
                ..*old(protocol_state)
            }),
        },
{
    if protocol_state.paused {
        return Err(TreasuryRouterError::ProtocolPaused);
    }
    if !protocol_state.founder_state.is_default() {
        return Err(TreasuryRouterError::FounderAlreadyInitialized);
    }
    if recipient.is_default() {
        return Err(TreasuryRouterError::InvalidFounderRecipient);
    }
    if period_cap == 0 {
        return Err(TreasuryRouterError::InvalidFounderPeriodCap);
    }
    if period_duration <= 0 {
        return Err(TreasuryRouterError::InvalidFounderPeriodDuration);
    }
    let founder = FounderState {
        version: FOUNDER_STATE_VERSION,
        protocol: protocol_key,
        recipient,
        period_cap,
        earned_current_period: 0,
        lifetime_earned: 0,
        period_started_at: now,
        period_duration,
        current_tier: 0,
        enabled: true,
        bump,
        reserved: [0u8; 64],
    };
    assert(founder.reserved@ =~= Seq::new(64, |i: int| 0u8));
    protocol_state.founder_state = founder_key;
    Ok(founder)
}

/// Creates the company account with its recipient and period cap, its
/// period starting now, and links it from the protocol. On error nothing
/// changes.
pub fn initialize_company(
    protocol_state: &mut ProtocolState,
    protocol_key: Pubkey,
    company_key: Pubkey,
    recipient: Pubkey,
    period_cap: u64,
    period_duration: i64,
    bump: u8,
    now: i64,
) -> (r: Result<CompanyState, TreasuryRouterError>)
    ensures
        match recipient_setup_outcome(
            *old(protocol_state),
            old(protocol_state).company_state,
            recipient,
            period_cap,
            period_duration,
            TreasuryRouterError::CompanyAlreadyInitialized,
            TreasuryRouterError::InvalidCompanyRecipient,
            TreasuryRouterError::InvalidCompanyPeriodCap,
            TreasuryRouterError::InvalidCompanyPeriodDuration,
        ) {
            Err(e) => r == Err::<CompanyState, _>(e) && *final(protocol_state) == *old(protocol_state),
            Ok(_) => r matches Ok(c) && c == (CompanyState {
                version: COMPANY_STATE_VERSION,
                protocol: protocol_key,
                recipient,
                period_cap,
                spent_current_period: 0,
                lifetime_spent: 0,
                period_started_at: now,
                period_duration,
                enabled: true,
                bump,
                reserved: c.reserved,
            }) && c.reserved@ == Seq::new(64, |i: int| 0u8) && *final(protocol_state) == (ProtocolState {
                company_state: company_key,
                ..*old(protocol_state)
            }),
        },
{
    if protocol_state.paused {
        return Err(TreasuryRouterError::ProtocolPaused);
    }
    if !protocol_state.company_state.is_default() {
        return Err(TreasuryRouterError::CompanyAlreadyInitialized);
    }
    if recipient.is_default() {
        return Err(TreasuryRouterError::InvalidCompanyRecipient);
    }
    if period_cap == 0 {
        return Err(TreasuryRouterError::InvalidCompanyPeriodCap);
    }
    if period_duration <= 0 {
        return Err(TreasuryRouterError::InvalidCompanyPeriodDuration);
    }
    let company = CompanyState {
        version: COMPANY_STATE_VERSION,
        protocol: protocol_key,
        recipient,
        period_cap,
        spent_current_period: 0,
        lifetime_spent: 0,
        period_started_at: now,
        period_duration,
        enabled: true,
        bump,
        reserved: [0u8; 64],
    };
    assert(company.reserved@ =~= Seq::new(64, |i: int| 0u8));
    protocol_state.company_state = company_key;
    Ok(company)
}

/// Creates the treasury accounting account with every total zero and links
/// it from the protocol. Refused while paused or where a treasury is already
/// linked; on error nothing changes.
pub fn initialize_treasury(
    protocol_state: &mut ProtocolState,
    protocol_key: Pubkey,
    treasury_key: Pubkey,
    settlement_mint: Pubkey,
    settlement_vault: Pubkey,
    bump: u8,
) -> (r: Result<TreasuryState, TreasuryRouterError>)
    ensures
        old(protocol_state).paused ==> r == Err::<TreasuryState, _>(TreasuryRouterError::ProtocolPaused),
        !old(protocol_state).paused && old(protocol_state).treasury_state@ != zero_bytes() ==> r == Err::<
            TreasuryState,
            _,
        >(TreasuryRouterError::TreasuryAlreadyInitialized),
        r is Err ==> *final(protocol_state) == *old(protocol_state),
        !old(protocol_state).paused && old(protocol_state).treasury_state@ == zero_bytes() ==> (r matches Ok(t)
            && t == (TreasuryState {
            version: TREASURY_VERSION,
            protocol: protocol_key,
            settlement_mint,
            settlement_vault,
            total_fees_received: 0,
            total_fees_allocated: 0,
            pending_reserve: 0,
            pending_buyback_burn: 0,
            pending_liquidity: 0,
            pending_company: 0,
            pending_founder: 0,
            lifetime_reserve: 0,
            lifetime_buyback_burn: 0,
            lifetime_liquidity: 0,
            lifetime_company: 0,
            lifetime_founder: 0,
            released_reserve: 0,
            released_buyback_burn: 0,
            released_liquidity: 0,
            released_company: 0,
            released_founder: 0,
            last_processed_at: 0,
            processing_epoch: 0,
            waterfall_stage: INITIAL_WATERFALL_STAGE,
            buybacks_paused: false,
            bump,
            reserved: t.reserved,
        }) && t.reserved@ == Seq::new(24, |i: int| 0u8) && t.all_balanced() && *final(protocol_state) == (
        ProtocolState { treasury_state: treasury_key, ..*old(protocol_state) })),
{
    if protocol_state.paused {
        return Err(TreasuryRouterError::ProtocolPaused);
    }
    if !protocol_state.treasury_state.is_default() {
        return Err(TreasuryRouterError::TreasuryAlreadyInitialized);
    }
    let treasury = TreasuryState {
        version: TREASURY_VERSION,
        protocol: protocol_key,
        settlement_mint,
        settlement_vault,
        total_fees_received: 0,
        total_fees_allocated: 0,
        pending_reserve: 0,
        pending_buyback_burn: 0,
        pending_liquidity: 0,
        pending_company: 0,
        pending_founder: 0,
        lifetime_reserve: 0,
        lifetime_buyback_burn: 0,
        lifetime_liquidity: 0,
        lifetime_company: 0,
        lifetime_founder: 0,
        released_reserve: 0,
        released_buyback_burn: 0,
        released_liquidity: 0,
        released_company: 0,
        released_founder: 0,
        last_processed_at: 0,
        processing_epoch: 0,
        waterfall_stage: INITIAL_WATERFALL_STAGE,
        buybacks_paused: false,
        bump,
        reserved: [0u8; 24],
    };
    assert(treasury.reserved@ =~= Seq::new(24, |i: int| 0u8));
    if !treasury.execution_accounting_is_valid() {
        return Err(TreasuryRouterError::AccountingInvariantViolation);
    }
    protocol_state.treasury_state = treasury_key;
    Ok(treasury)
}

/// Whether the five destinations avoid the settlement vault and are
/// pairwise distinct.
pub open spec fn destinations_isolated(
    vault: Pubkey,
    reserve: Pubkey,
    buyback: Pubkey,
    liquidity: Pubkey,
    company: Pubkey,
    founder: Pubkey,
) -> bool {
    let d = seq![reserve@, buyback@, liquidity@, company@, founder@];
    &&& !d.contains(vault@)
    &&& forall|a: int, b: int| 0 <= a < b < 5 ==> #[trigger] d[a] != #[trigger] d[b]
}

/// Creates the immutable execution configuration: the settlement mint and
/// the five permanent destinations, none of which may be the settlement
/// vault or equal another.
#[allow(clippy::too_many_arguments)]
pub fn initialize_execution_config(
    protocol_key: Pubkey,
    settlement_mint: Pubkey,
    settlement_vault: Pubkey,
    reserve_destination: Pubkey,
    buyback_destination: Pubkey,
    liquidity_destination: Pubkey,
    company_destination: Pubkey,
    founder_destination: Pubkey,
    bump: u8,
) -> (r: Result<ExecutionConfig, TreasuryRouterError>)
    ensures
        !destinations_isolated(
            settlement_vault,
            reserve_destination,
            buyback_destination,
            liquidity_destination,
            company_destination,
            founder_destination,
        ) ==> r == Err::<ExecutionConfig, _>(TreasuryRouterError::InvalidExecutionDestination),
        destinations_isolated(
            settlement_vault,
            reserve_destination,
            buyback_destination,
            liquidity_destination,
            company_destination,
            founder_destination,
        ) ==> r == Ok::<ExecutionConfig, TreasuryRouterError>(
            ExecutionConfig {
                protocol_state: protocol_key,
                settlement_mint,
                reserve_destination,
                buyback_destination,
                liquidity_destination,
                company_destination,
                founder_destination,
                version: EXECUTION_CONFIG_VERSION,
                bump,
            },
        ),
{
    let ghost d = seq![
        reserve_destination@,
        buyback_destination@,
        liquidity_destination@,
        company_destination@,
        founder_destination@,
    ];
    // No allocation destination may point back to the treasury vault.
    if reserve_destination == settlement_vault || buyback_destination == settlement_vault || liquidity_destination
        == settlement_vault || company_destination == settlement_vault || founder_destination == settlement_vault {
        proof {
            if reserve_destination@ == settlement_vault@ {
                assert(d[0] == settlement_vault@);
            } else if buyback_destination@ == settlement_vault@ {
                assert(d[1] == settlement_vault@);
            } else if liquidity_destination@ == settlement_vault@ {
                assert(d[2] == settlement_vault@);
            } else if company_destination@ == settlement_vault@ {
                assert(d[3] == settlement_vault@);
            } else {
                assert(d[4] == settlement_vault@);
            }
        }
        return Err(TreasuryRouterError::InvalidExecutionDestination);
    }
    // Every allocation bucket must have its own permanently isolated account.
    if reserve_destination == buyback_destination || reserve_destination == liquidity_destination
        || reserve_destination == company_destination || reserve_destination == founder_destination
        || buyback_destination == liquidity_destination || buyback_destination == company_destination
        || buyback_destination == founder_destination || liquidity_destination == company_destination
        || liquidity_destination == founder_destination || company_destination == founder_destination {
        proof {
            assert(d[0] == reserve_destination@ && d[1] == buyback_destination@ && d[2] == liquidity_destination@
                && d[3] == company_destination@ && d[4] == founder_destination@);
        }
        return Err(TreasuryRouterError::InvalidExecutionDestination);
    }
    proof {
        assert(!d.contains(settlement_vault@)) by {
            if d.contains(settlement_vault@) {
                let k = choose|k: int| 0 <= k < d.len() && d[k] == settlement_vault@;
                assert(0 <= k < 5);
            }
        }
    }
    Ok(
        ExecutionConfig {
            protocol_state: protocol_key,
            settlement_mint,
            reserve_destination,
            buyback_destination,
            liquidity_destination,
            company_destination,
            founder_destination,
            version: EXECUTION_CONFIG_VERSION,
            bump,
        },
    )
}

/// Creates the immutable Reserve Spillway policy after checking its
/// parameters; no deployment has happened yet.
#[allow(clippy::too_many_arguments)]
pub fn initialize_reserve_policy(
    protocol_key: Pubkey,
    treasury_key: Pubkey,
    minimum_reserve_floor: u64,
    liquidity_floor_bps: u16,
    surplus_deployment_bps: u16,
    cooldown_seconds: i64,
    bump: u8,
) -> (r: Result<ReservePolicy, TreasuryRouterError>)
    ensures
        match reserve_parameters_outcome(
            minimum_reserve_floor,
            liquidity_floor_bps,
            surplus_deployment_bps,
            cooldown_seconds,
        ) {
            Err(e) => r == Err::<ReservePolicy, _>(e),
            Ok(_) => r matches Ok(p) && p == (ReservePolicy {
                version: RESERVE_POLICY_VERSION,
                protocol: protocol_key,
                treasury: treasury_key,
                minimum_reserve_floor,
                liquidity_floor_bps,
                surplus_deployment_bps,
                cooldown_seconds,
                last_deployed_at: 0,
                lifetime_deployed: 0,
                bump,
                reserved: p.reserved,
            }) && p.reserved@ == Seq::new(31, |i: int| 0u8),
        },
{
    ReservePolicy::validate_parameters(
        minimum_reserve_floor,
        liquidity_floor_bps,
        surplus_deployment_bps,
        cooldown_seconds,
    )?;
    let policy = ReservePolicy {
        version: RESERVE_POLICY_VERSION,
        protocol: protocol_key,
        treasury: treasury_key,
        minimum_reserve_floor,
        liquidity_floor_bps,
        surplus_deployment_bps,
        cooldown_seconds,
        last_deployed_at: 0,
        lifetime_deployed: 0,
        bump,
        reserved: [0u8; 31],
    };
    assert(policy.reserved@ =~= Seq::new(31, |i: int| 0u8));
    Ok(policy)
}

/// The checks on new oracle limits, first failing first.
pub open spec fn oracle_limits_outcome(
    protocol: ProtocolState,
    price_feed_id: [u8; 32],
    max_price_age_seconds: u64,
    max_confidence_bps: u16,
) -> Result<(), TreasuryRouterError> {
    if protocol.paused {
        Err(TreasuryRouterError::ProtocolPaused)
    } else if price_feed_id@ == zero_bytes() {
        Err(TreasuryRouterError::InvalidFounderUsdPriceFeed)
    } else if max_price_age_seconds == 0 {
        Err(TreasuryRouterError::InvalidFounderOracleMaximumAge)
    } else if max_confidence_bps == 0 || max_confidence_bps > 10_000 {
        Err(TreasuryRouterError::InvalidFounderOracleConfidenceLimit)
    } else {
        Ok(())
    }
}

/// Creates the Founder USD-cap account with the fixed US$3,000,000 annual
/// cap and one-year period starting now, and nothing earned yet.
#[allow(clippy::too_many_arguments)]
pub fn initialize_founder_usd_cap(
    protocol: &ProtocolState,
    protocol_key: Pubkey,
    settlement_mint: Pubkey,
    price_feed_id: [u8; 32],
    max_price_age_seconds: u64,
    max_confidence_bps: u16,
    bump: u8,
    now: i64,
) -> (r: Result<FounderUsdCapState, TreasuryRouterError>)
    ensures
        match oracle_limits_outcome(*protocol, price_feed_id, max_price_age_seconds, max_confidence_bps) {
            Err(e) => r == Err::<FounderUsdCapState, _>(e),
            Ok(_) => if protocol_key@ == zero_bytes() {
                r == Err::<FounderUsdCapState, _>(TreasuryRouterError::InvalidFounderUsdCapProtocol)
            } else if settlement_mint@ == zero_bytes() {
                r == Err::<FounderUsdCapState, _>(TreasuryRouterError::InvalidFounderUsdCapSettlementMint)
            } else {
                r matches Ok(s) && s == (FounderUsdCapState {
                    version: FOUNDER_USD_CAP_VERSION,
                    protocol: protocol_key,
                    settlement_mint,
                    price_feed_id,
                    annual_cap_usd_e6: FOUNDER_ANNUAL_CAP_USD_E6,
                    earned_current_period_usd_e6: 0,
                    lifetime_earned_usd_e6: 0,
                    period_started_at: now,
                    period_duration: FOUNDER_ANNUAL_PERIOD_SECONDS,
                    max_price_age_seconds,
                    max_confidence_bps,
                    enabled: true,
                    bump,
                    reserved: s.reserved,
                }) && s.reserved@ == Seq::new(64, |i: int| 0u8) && s.configuration_outcome() is Ok
            },
        },
{
    if protocol.paused {
        return Err(TreasuryRouterError::ProtocolPaused);
    }
    if bytes32_is_zero(&price_feed_id) {
        return Err(TreasuryRouterError::InvalidFounderUsdPriceFeed);
    }
    if max_price_age_seconds == 0 {
        return Err(TreasuryRouterError::InvalidFounderOracleMaximumAge);
    }
    if !(max_confidence_bps > 0 && max_confidence_bps <= 10_000) {
        return Err(TreasuryRouterError::InvalidFounderOracleConfidenceLimit);
    }
    let state = FounderUsdCapState {
        version: FOUNDER_USD_CAP_VERSION,
        protocol: protocol_key,
        settlement_mint,
        price_feed_id,
        // These policy values are compiled constants, not caller inputs.
        annual_cap_usd_e6: FOUNDER_ANNUAL_CAP_USD_E6,
        earned_current_period_usd_e6: 0,
        lifetime_earned_usd_e6: 0,
        period_started_at: now,
        period_duration: FOUNDER_ANNUAL_PERIOD_SECONDS,
        max_price_age_seconds,
        max_confidence_bps,
        enabled: true,
        bump,
        reserved: [0u8; 64],
    };
    assert(state.reserved@ =~= Seq::new(64, |i: int| 0u8));
    state.validate_configuration()?;
    Ok(state)
}

/// Creates the Founder price receipt: the feed and the adapter authority
/// that alone may post prices, the oracle limits, and no price yet.
#[allow(clippy::too_many_arguments)]
pub fn initialize_founder_price(
    protocol: &ProtocolState,
    protocol_key: Pubkey,
    settlement_mint: Pubkey,
    price_feed_id: [u8; 32],
    oracle_adapter_authority: Pubkey,
    max_price_age_seconds: u64,
    max_confidence_bps: u16,
    bump: u8,
) -> (r: Result<FounderPriceState, TreasuryRouterError>)
    ensures
        protocol.paused ==> r == Err::<FounderPriceState, _>(TreasuryRouterError::ProtocolPaused),
        !protocol.paused && price_feed_id@ == zero_bytes() ==> r == Err::<FounderPriceState, _>(
            TreasuryRouterError::InvalidFounderUsdPriceFeed,
        ),
        !protocol.paused && price_feed_id@ != zero_bytes() ==> if oracle_adapter_authority@ == zero_bytes() {
            r == Err::<FounderPriceState, _>(TreasuryRouterError::InvalidFounderOracleAdapter)
        } else if max_price_age_seconds == 0 {
            r == Err::<FounderPriceState, _>(TreasuryRouterError::InvalidFounderOracleMaximumAge)
        } else if max_confidence_bps == 0 || max_confidence_bps > 10_000 {
            r == Err::<FounderPriceState, _>(TreasuryRouterError::InvalidFounderOracleConfidenceLimit)
        } else if protocol_key@ == zero_bytes() {
            r == Err::<FounderPriceState, _>(TreasuryRouterError::InvalidFounderPriceProtocol)
        } else if settlement_mint@ == zero_bytes() {
            r == Err::<FounderPriceState, _>(TreasuryRouterError::InvalidFounderPriceSettlementMint)
        } else {
            r matches Ok(s) && s == (FounderPriceState {
                version: FOUNDER_PRICE_VERSION,
                protocol: protocol_key,
                settlement_mint,
                price_feed_id,
                oracle_adapter_authority,
                price: 0,
                exponent: 0,
                confidence: 0,
                publish_time: 0,
                received_at: 0,
                sequence: 0,
                max_price_age_seconds,
                max_confidence_bps,
                enabled: true,
                bump,
                reserved: s.reserved,
            }) && s.reserved@ == Seq::new(64, |i: int| 0u8) && s.configuration_outcome() is Ok
        },
{
    if protocol.paused {
        return Err(TreasuryRouterError::ProtocolPaused);
    }
    if bytes32_is_zero(&price_feed_id) {
        return Err(TreasuryRouterError::InvalidFounderUsdPriceFeed);
    }
    if oracle_adapter_authority.is_default() {
        return Err(TreasuryRouterError::InvalidFounderOracleAdapter);
    }
    if max_price_age_seconds == 0 {
        return Err(TreasuryRouterError::InvalidFounderOracleMaximumAge);
    }
    if !(max_confidence_bps > 0 && max_confidence_bps <= 10_000) {
        return Err(TreasuryRouterError::InvalidFounderOracleConfidenceLimit);
    }
    let state = FounderPriceState {
        version: FOUNDER_PRICE_VERSION,
        protocol: protocol_key,
        settlement_mint,
        price_feed_id,
        oracle_adapter_authority,
        price: 0,
        exponent: 0,
        confidence: 0,
        publish_time: 0,
        received_at: 0,
        sequence: 0,
        max_price_age_seconds,
        max_confidence_bps,
        enabled: true,
        bump,
        reserved: [0u8; 64],
    };
    assert(state.reserved@ =~= Seq::new(64, |i: int| 0u8));
    state.validate_configuration()?;
    Ok(state)
}

/// Checks a settlement-token deposit into the treasury vault: refused while
/// paused or for a zero amount.
pub fn check_settlement_deposit(protocol: &ProtocolState, amount: u64) -> (r: Result<(), TreasuryRouterError>)
    ensures
        protocol.paused ==> r == Err::<(), _>(TreasuryRouterError::ProtocolPaused),
        !protocol.paused && amount == 0 ==> r == Err::<(), _>(TreasuryRouterError::InvalidDepositAmount),
        !protocol.paused && amount > 0 ==> r == Ok::<(), TreasuryRouterError>(()),
{
    if protocol.paused {
        return Err(TreasuryRouterError::ProtocolPaused);
    }
    if amount == 0 {
        return Err(TreasuryRouterError::InvalidDepositAmount);
    }
    Ok(())
}

} // verus!
