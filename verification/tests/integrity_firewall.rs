use treasury_router::constants::{
    COMPANY_STATE_SEED, COMPANY_STATE_VERSION, EXECUTION_CONFIG_SEED, EXECUTION_CONFIG_VERSION, FOUNDER_STATE_SEED,
    FOUNDER_STATE_VERSION, PROTOCOL_CONFIG_SEED, PROTOCOL_CONFIG_VERSION, PROTOCOL_SEED, PROTOCOL_VERSION,
    TREASURY_SEED, TREASURY_VAULT_SEED, TREASURY_VERSION,
};
use treasury_router::engines::integrity_firewall::{
    evaluate_integrity, integrity_invariant_failed, IntegrityAccountKeys, IntegrityDestinations, IntegrityInvariant,
    IntegrityReport, TokenAccountFacts,
};
use treasury_router::pubkey::{id, Pubkey};
use treasury_router::state::company::CompanyState;
use treasury_router::state::execution_config::ExecutionConfig;
use treasury_router::state::founder::FounderState;
use treasury_router::state::protocol::ProtocolState;
use treasury_router::state::protocol_config::ProtocolConfig;
use treasury_router::state::treasury::TreasuryState;

/// The program-derived address and bump of `seeds` under `program_id`.
fn find_program_address(seeds: &[&[u8]], program_id: &Pubkey) -> (Pubkey, u8) {
    let program = anchor_lang::prelude::Pubkey::new_from_array(program_id.to_bytes());
    let (address, bump) = anchor_lang::prelude::Pubkey::find_program_address(seeds, &program);
    (Pubkey::new_from_array(address.to_bytes()), bump)
}

/// A fresh address, distinct from every other one the test creates.
fn unique_key() -> Pubkey {
    Pubkey::new_from_array(anchor_lang::prelude::Pubkey::new_unique().to_bytes())
}

struct Fixture {
    keys: IntegrityAccountKeys,
    protocol: ProtocolState,
    protocol_config: ProtocolConfig,
    treasury: TreasuryState,
    treasury_vault: TokenAccountFacts,
    founder: FounderState,
    company: CompanyState,
    execution_config: ExecutionConfig,
    destinations: IntegrityDestinations,
}

fn valid_fixture() -> Fixture {
    let program_id = id();

    let (protocol_key, protocol_bump) =
        find_program_address(&[PROTOCOL_SEED.as_bytes()], &program_id);

    let (protocol_config_key, protocol_config_bump) = find_program_address(
        &[PROTOCOL_CONFIG_SEED.as_bytes(), &protocol_key.to_bytes()],
        &program_id,
    );

    let (treasury_key, treasury_bump) =
        find_program_address(&[TREASURY_SEED.as_bytes(), &protocol_key.to_bytes()], &program_id);

    let (treasury_vault_key, _) = find_program_address(
        &[TREASURY_VAULT_SEED.as_bytes(), &treasury_key.to_bytes()],
        &program_id,
    );

    let (founder_key, founder_bump) =
        find_program_address(&[FOUNDER_STATE_SEED.as_bytes(), &protocol_key.to_bytes()], &program_id);

    let (company_key, company_bump) =
        find_program_address(&[COMPANY_STATE_SEED.as_bytes(), &protocol_key.to_bytes()], &program_id);

    let (execution_config_key, execution_config_bump) = find_program_address(
        &[EXECUTION_CONFIG_SEED.as_bytes(), &protocol_key.to_bytes()],
        &program_id,
    );

    let settlement_mint = unique_key();
    let founder_recipient = unique_key();
    let company_recipient = unique_key();

    let reserve_destination = unique_key();
    let buyback_destination = unique_key();
    let liquidity_destination = unique_key();
    let company_destination = unique_key();
    let founder_destination = unique_key();

    let protocol = ProtocolState {
        version: PROTOCOL_VERSION,
        authority: unique_key(),
        protocol_config: protocol_config_key,
        treasury_state: treasury_key,
        reserve_state: Pubkey::default(),
        liquidity_state: Pubkey::default(),
        founder_state: founder_key,
        company_state: company_key,
        buyback_state: Pubkey::default(),
        beaver_score: 0,
        dam_level: 0,
        paused: false,
        bump: protocol_bump,
        initialized_at: 1,
        reserved: [0; 64],
    };

    let protocol_config = ProtocolConfig {
        version: PROTOCOL_CONFIG_VERSION,
        protocol: protocol_key,
        reserve_bps: 3_000,
        buyback_burn_bps: 2_000,
        liquidity_bps: 2_000,
        company_bps: 2_000,
        founder_bps: 1_000,
        updates_enabled: false,
        bump: protocol_config_bump,
        updated_at: 1,
        reserved: [0; 64],
    };

    let treasury = TreasuryState {
        version: TREASURY_VERSION,
        protocol: protocol_key,
        settlement_mint,
        settlement_vault: treasury_vault_key,

        total_fees_received: 1_000,
        total_fees_allocated: 1_000,

        pending_reserve: 300,
        pending_buyback_burn: 200,
        pending_liquidity: 200,
        pending_company: 200,
        pending_founder: 100,

        lifetime_reserve: 300,
        lifetime_buyback_burn: 200,
        lifetime_liquidity: 200,
        lifetime_company: 200,
        lifetime_founder: 100,

        released_reserve: 0,
        released_buyback_burn: 0,
        released_liquidity: 0,
        released_company: 0,
        released_founder: 0,

        last_processed_at: 1,
        processing_epoch: 1,
        waterfall_stage: 0,
        buybacks_paused: false,
        bump: treasury_bump,
        reserved: [0; 24],
    };

    let founder = FounderState {
        version: FOUNDER_STATE_VERSION,
        protocol: protocol_key,
        recipient: founder_recipient,
        period_cap: 1_000,
        earned_current_period: 0,
        lifetime_earned: 0,
        period_started_at: 1,
        period_duration: 1,
        current_tier: 0,
        enabled: true,
        bump: founder_bump,
        reserved: [0; 64],
    };

    let company = CompanyState {
        version: COMPANY_STATE_VERSION,
        protocol: protocol_key,
        recipient: company_recipient,
        period_cap: 1_000,
        spent_current_period: 0,
        lifetime_spent: 0,
        period_started_at: 1,
        period_duration: 1,
        enabled: true,
        bump: company_bump,
        reserved: [0; 64],
    };

    let execution_config = ExecutionConfig {
        protocol_state: protocol_key,
        settlement_mint,
        reserve_destination,
        buyback_destination,
        liquidity_destination,
        company_destination,
        founder_destination,
        version: EXECUTION_CONFIG_VERSION,
        bump: execution_config_bump,
    };

    let treasury_vault = TokenAccountFacts {
        key: treasury_vault_key,
        mint: settlement_mint,
        owner: treasury_key,
    };

    let destinations = IntegrityDestinations {
        reserve: TokenAccountFacts {
            key: reserve_destination,
            mint: settlement_mint,
            owner: unique_key(),
        },
        buyback: TokenAccountFacts {
            key: buyback_destination,
            mint: settlement_mint,
            owner: unique_key(),
        },
        liquidity: TokenAccountFacts {
            key: liquidity_destination,
            mint: settlement_mint,
            owner: unique_key(),
        },
        company: TokenAccountFacts {
            key: company_destination,
            mint: settlement_mint,
            owner: company_recipient,
        },
        founder: TokenAccountFacts {
            key: founder_destination,
            mint: settlement_mint,
            owner: founder_recipient,
        },
    };

    Fixture {
        keys: IntegrityAccountKeys {
            protocol: protocol_key,
            protocol_config: protocol_config_key,
            treasury: treasury_key,
            founder: founder_key,
            company: company_key,
            execution_config: execution_config_key,
        },
        protocol,
        protocol_config,
        treasury,
        treasury_vault,
        founder,
        company,
        execution_config,
        destinations,
    }
}

fn evaluate_fixture(fixture: &Fixture) -> IntegrityReport {
    evaluate_integrity(
        id(),
        fixture.keys,
        &fixture.protocol,
        &fixture.protocol_config,
        &fixture.treasury,
        fixture.treasury_vault,
        &fixture.founder,
        &fixture.company,
        &fixture.execution_config,
        fixture.destinations,
    )
}

#[test]
fn valid_architecture_passes_every_integrity_check() {
    let fixture = valid_fixture();
    let report = evaluate_fixture(&fixture);

    assert!(report.healthy);
    assert_eq!(report.failure_mask, 0);
}

#[test]
fn wrong_program_id_fails_closed() {
    let fixture = valid_fixture();

    let report = evaluate_integrity(
        unique_key(),
        fixture.keys,
        &fixture.protocol,
        &fixture.protocol_config,
        &fixture.treasury,
        fixture.treasury_vault,
        &fixture.founder,
        &fixture.company,
        &fixture.execution_config,
        fixture.destinations,
    );

    assert!(!report.healthy);
    assert!(integrity_invariant_failed(
        report.failure_mask,
        IntegrityInvariant::ProgramId
    ));
}

#[test]
fn corrupted_treasury_bump_is_detected() {
    let mut fixture = valid_fixture();
    fixture.treasury.bump = fixture.treasury.bump.wrapping_add(1);

    let report = evaluate_fixture(&fixture);

    assert!(integrity_invariant_failed(
        report.failure_mask,
        IntegrityInvariant::TreasuryBump
    ));
}

#[test]
fn wrong_treasury_vault_owner_is_detected() {
    let mut fixture = valid_fixture();
    fixture.treasury_vault.owner = unique_key();

    let report = evaluate_fixture(&fixture);

    assert!(integrity_invariant_failed(
        report.failure_mask,
        IntegrityInvariant::TreasuryVaultOwner
    ));
}

#[test]
fn wrong_destination_mint_is_detected() {
    let mut fixture = valid_fixture();
    fixture.destinations.liquidity.mint = unique_key();

    let report = evaluate_fixture(&fixture);

    assert!(integrity_invariant_failed(
        report.failure_mask,
        IntegrityInvariant::DestinationMints
    ));
}

#[test]
fn wrong_founder_destination_owner_is_detected() {
    let mut fixture = valid_fixture();
    fixture.destinations.founder.owner = unique_key();

    let report = evaluate_fixture(&fixture);

    assert!(integrity_invariant_failed(
        report.failure_mask,
        IntegrityInvariant::FounderDestinationOwner
    ));
}

#[test]
fn duplicate_destinations_are_detected() {
    let mut fixture = valid_fixture();

    fixture.destinations.buyback.key = fixture.destinations.reserve.key;

    let report = evaluate_fixture(&fixture);

    assert!(integrity_invariant_failed(
        report.failure_mask,
        IntegrityInvariant::DestinationIsolation
    ));
}

#[test]
fn destination_pointing_to_treasury_vault_is_detected() {
    let mut fixture = valid_fixture();

    fixture.destinations.reserve.key = fixture.treasury_vault.key;

    let report = evaluate_fixture(&fixture);

    assert!(integrity_invariant_failed(
        report.failure_mask,
        IntegrityInvariant::DestinationIsolation
    ));
}

#[test]
fn integrity_firewall_invariant_masks_are_unique_and_single_bit() {
    let invariants = [
        IntegrityInvariant::ProgramId,
        IntegrityInvariant::ProtocolPda,
        IntegrityInvariant::ProtocolBump,
        IntegrityInvariant::ProtocolVersion,
        IntegrityInvariant::ProtocolAuthority,
        IntegrityInvariant::ProtocolConfigPda,
        IntegrityInvariant::ProtocolConfigBump,
        IntegrityInvariant::ProtocolConfigVersion,
        IntegrityInvariant::ProtocolConfigLink,
        IntegrityInvariant::TreasuryPda,
        IntegrityInvariant::TreasuryBump,
        IntegrityInvariant::TreasuryVersion,
        IntegrityInvariant::TreasuryLink,
        IntegrityInvariant::TreasuryVaultPda,
        IntegrityInvariant::TreasuryVaultLink,
        IntegrityInvariant::TreasuryVaultMint,
        IntegrityInvariant::TreasuryVaultOwner,
        IntegrityInvariant::FounderPda,
        IntegrityInvariant::FounderBump,
        IntegrityInvariant::FounderVersion,
        IntegrityInvariant::FounderLink,
        IntegrityInvariant::CompanyPda,
        IntegrityInvariant::CompanyBump,
        IntegrityInvariant::CompanyVersion,
        IntegrityInvariant::CompanyLink,
        IntegrityInvariant::ExecutionConfigPda,
        IntegrityInvariant::ExecutionConfigBump,
        IntegrityInvariant::ExecutionConfigVersion,
        IntegrityInvariant::ExecutionConfigLink,
        IntegrityInvariant::SettlementMintLink,
        IntegrityInvariant::DestinationMints,
        IntegrityInvariant::FounderDestinationOwner,
        IntegrityInvariant::CompanyDestinationOwner,
        IntegrityInvariant::DestinationIsolation,
    ];

    let mut combined = 0_u64;

    for invariant in invariants {
        let mask = invariant.mask();

        assert_ne!(mask, 0);
        assert_eq!(mask.count_ones(), 1);
        assert_eq!(combined & mask, 0);

        combined |= mask;
    }
}


