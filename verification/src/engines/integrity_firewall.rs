//! Integrity Firewall: verifies the live account architecture before
//! execution.
use vstd::prelude::*;

use crate::constants::{
    COMPANY_STATE_SEED, COMPANY_STATE_VERSION, EXECUTION_CONFIG_SEED, EXECUTION_CONFIG_VERSION,
    FOUNDER_STATE_SEED, FOUNDER_STATE_VERSION, PROTOCOL_CONFIG_SEED, PROTOCOL_CONFIG_VERSION, PROTOCOL_SEED,
    PROTOCOL_VERSION, TREASURY_SEED, TREASURY_VAULT_SEED, TREASURY_VERSION,
};
use crate::engines::failure_mask::{
    append_flags, bit, bit_set, code_mask, lemma_empty_mask, lemma_masks_distinct, mask_bit_set, pack_flags4,
    pack_flags5, with_flag,
};
use crate::pubkey::{find_program_address, id, key_seed_view, program_address, program_id_bytes, zero_bytes, Pubkey};
use crate::state::company::CompanyState;
use crate::state::execution_config::ExecutionConfig;
use crate::state::founder::FounderState;
use crate::state::protocol::ProtocolState;
use crate::state::protocol_config::ProtocolConfig;
use crate::state::treasury::TreasuryState;

verus! {

/// Stable identifiers of Integrity Firewall failures; the codes index the
/// failure mask and must never be reordered.
#[derive(Clone, Copy, Debug, PartialEq, Eq, Structural)]
pub enum IntegrityInvariant {
    ProgramId,
    ProtocolPda,
    ProtocolBump,
    ProtocolVersion,
    ProtocolAuthority,
    ProtocolConfigPda,
    ProtocolConfigBump,
    ProtocolConfigVersion,
    ProtocolConfigLink,
    TreasuryPda,
    TreasuryBump,
    TreasuryVersion,
    TreasuryLink,
    TreasuryVaultPda,
    TreasuryVaultLink,
    TreasuryVaultMint,
    TreasuryVaultOwner,
    FounderPda,
    FounderBump,
    FounderVersion,
    FounderLink,
    CompanyPda,
    CompanyBump,
    CompanyVersion,
    CompanyLink,
    ExecutionConfigPda,
    ExecutionConfigBump,
    ExecutionConfigVersion,
    ExecutionConfigLink,
    SettlementMintLink,
    DestinationMints,
    FounderDestinationOwner,
    CompanyDestinationOwner,
    DestinationIsolation,
}

/// Mask code of an Integrity Firewall check.
pub open spec fn integrity_code(check: IntegrityInvariant) -> u64 {
    match check {
        IntegrityInvariant::ProgramId => 0,
        IntegrityInvariant::ProtocolPda => 1,
        IntegrityInvariant::ProtocolBump => 2,
        IntegrityInvariant::ProtocolVersion => 3,
        IntegrityInvariant::ProtocolAuthority => 4,
        IntegrityInvariant::ProtocolConfigPda => 5,
        IntegrityInvariant::ProtocolConfigBump => 6,
        IntegrityInvariant::ProtocolConfigVersion => 7,
        IntegrityInvariant::ProtocolConfigLink => 8,
        IntegrityInvariant::TreasuryPda => 9,
        IntegrityInvariant::TreasuryBump => 10,
        IntegrityInvariant::TreasuryVersion => 11,
        IntegrityInvariant::TreasuryLink => 12,
        IntegrityInvariant::TreasuryVaultPda => 13,
        IntegrityInvariant::TreasuryVaultLink => 14,
        IntegrityInvariant::TreasuryVaultMint => 15,
        IntegrityInvariant::TreasuryVaultOwner => 16,
        IntegrityInvariant::FounderPda => 17,
        IntegrityInvariant::FounderBump => 18,
        IntegrityInvariant::FounderVersion => 19,
        IntegrityInvariant::FounderLink => 20,
        IntegrityInvariant::CompanyPda => 21,
        IntegrityInvariant::CompanyBump => 22,
        IntegrityInvariant::CompanyVersion => 23,
        IntegrityInvariant::CompanyLink => 24,
        IntegrityInvariant::ExecutionConfigPda => 25,
        IntegrityInvariant::ExecutionConfigBump => 26,
        IntegrityInvariant::ExecutionConfigVersion => 27,
        IntegrityInvariant::ExecutionConfigLink => 28,
        IntegrityInvariant::SettlementMintLink => 29,
        IntegrityInvariant::DestinationMints => 30,
        IntegrityInvariant::FounderDestinationOwner => 31,
        IntegrityInvariant::CompanyDestinationOwner => 32,
        IntegrityInvariant::DestinationIsolation => 33,
    }
}

impl IntegrityInvariant {
    fn code(self) -> (r: u8)
        ensures
            r == integrity_code(self),
    {
        match self {
            IntegrityInvariant::ProgramId => 0,
            IntegrityInvariant::ProtocolPda => 1,
            IntegrityInvariant::ProtocolBump => 2,
            IntegrityInvariant::ProtocolVersion => 3,
            IntegrityInvariant::ProtocolAuthority => 4,
            IntegrityInvariant::ProtocolConfigPda => 5,
            IntegrityInvariant::ProtocolConfigBump => 6,
            IntegrityInvariant::ProtocolConfigVersion => 7,
            IntegrityInvariant::ProtocolConfigLink => 8,
            IntegrityInvariant::TreasuryPda => 9,
            IntegrityInvariant::TreasuryBump => 10,
            IntegrityInvariant::TreasuryVersion => 11,
            IntegrityInvariant::TreasuryLink => 12,
            IntegrityInvariant::TreasuryVaultPda => 13,
            IntegrityInvariant::TreasuryVaultLink => 14,
            IntegrityInvariant::TreasuryVaultMint => 15,
            IntegrityInvariant::TreasuryVaultOwner => 16,
            IntegrityInvariant::FounderPda => 17,
            IntegrityInvariant::FounderBump => 18,
            IntegrityInvariant::FounderVersion => 19,
            IntegrityInvariant::FounderLink => 20,
            IntegrityInvariant::CompanyPda => 21,
            IntegrityInvariant::CompanyBump => 22,
            IntegrityInvariant::CompanyVersion => 23,
            IntegrityInvariant::CompanyLink => 24,
            IntegrityInvariant::ExecutionConfigPda => 25,
            IntegrityInvariant::ExecutionConfigBump => 26,
            IntegrityInvariant::ExecutionConfigVersion => 27,
            IntegrityInvariant::ExecutionConfigLink => 28,
            IntegrityInvariant::SettlementMintLink => 29,
            IntegrityInvariant::DestinationMints => 30,
            IntegrityInvariant::FounderDestinationOwner => 31,
            IntegrityInvariant::CompanyDestinationOwner => 32,
            IntegrityInvariant::DestinationIsolation => 33,
        }
    }

    /// The single mask bit of this check.
    pub fn mask(self) -> (r: u64)
        ensures
            r == bit(integrity_code(self)),
    {
        code_mask(self.code())
    }
}

/// Read-only token-account facts supplied to the firewall.
#[derive(Clone, Copy, Debug)]
pub struct TokenAccountFacts {
    pub key: Pubkey,
    pub mint: Pubkey,
    pub owner: Pubkey,
}

/// Canonical account keys supplied to the firewall.
#[derive(Clone, Copy, Debug)]
pub struct IntegrityAccountKeys {
    pub protocol: Pubkey,
    pub protocol_config: Pubkey,
    pub treasury: Pubkey,
    pub founder: Pubkey,
    pub company: Pubkey,
    pub execution_config: Pubkey,
}

/// Permanent execution destinations supplied to the firewall.
#[derive(Clone, Copy, Debug)]
pub struct IntegrityDestinations {
    pub reserve: TokenAccountFacts,
    pub buyback: TokenAccountFacts,
    pub liquidity: TokenAccountFacts,
    pub company: TokenAccountFacts,
    pub founder: TokenAccountFacts,
}

/// Read-only Integrity Firewall report; a zero failure mask means every
/// check passed.
#[derive(Clone, Copy, Debug, PartialEq, Eq, Structural)]
pub struct IntegrityReport {
    pub healthy: bool,
    pub failure_mask: u64,
}

/// Everything the firewall reads.
#[derive(Clone, Copy, Debug)]
pub struct IntegrityInputs {
    pub program_id: Pubkey,
    pub keys: IntegrityAccountKeys,
    pub protocol: ProtocolState,
    pub protocol_config: ProtocolConfig,
    pub treasury: TreasuryState,
    pub treasury_vault: TokenAccountFacts,
    pub founder: FounderState,
    pub company: CompanyState,
    pub execution_config: ExecutionConfig,
    pub destinations: IntegrityDestinations,
}

/// Whether `key` differs from a derived address; a failed derivation counts
/// as a mismatch.
pub open spec fn pda_mismatch(key: Pubkey, derived: Option<(Seq<u8>, u8)>) -> bool {
    match derived {
        Some((address, _)) => key@ != address,
        None => true,
    }
}

/// Whether `bump` differs from a derived bump; a failed derivation counts as
/// a mismatch.
pub open spec fn bump_mismatch(bump: u8, derived: Option<(Seq<u8>, u8)>) -> bool {
    match derived {
        Some((_, b)) => bump != b,
        None => true,
    }
}

/// The five destination keys in order reserve, buyback, liquidity, company,
/// founder.
pub open spec fn destination_keys(d: IntegrityDestinations) -> Seq<Seq<u8>> {
    seq![d.reserve.key@, d.buyback.key@, d.liquidity.key@, d.company.key@, d.founder.key@]
}

/// Whether a destination key equals the treasury vault, or two destination
/// keys coincide.
pub open spec fn isolation_broken(keys: Seq<Seq<u8>>, vault: Seq<u8>) -> bool {
    keys.contains(vault) || exists|a: int, b: int| 0 <= a < b < keys.len() && #[trigger] keys[a] == #[trigger] keys[b]
}

/// Whether an Integrity Firewall check fails.
#[verifier::opaque]
pub open spec fn integrity_failed(i: IntegrityInputs, check: IntegrityInvariant) -> bool {
    let k = i.keys;
    let program = i.program_id@;
    let mint = i.treasury.settlement_mint@;
    let d = i.destinations;
    let e = i.execution_config;
    match check {
        IntegrityInvariant::ProgramId => program != program_id_bytes(),
        IntegrityInvariant::ProtocolPda => pda_mismatch(k.protocol, program_address(PROTOCOL_SEED@, None, program)),
        IntegrityInvariant::ProtocolBump => bump_mismatch(
            i.protocol.bump,
            program_address(PROTOCOL_SEED@, None, program),
        ),
        IntegrityInvariant::ProtocolVersion => i.protocol.version != PROTOCOL_VERSION,
        IntegrityInvariant::ProtocolAuthority => i.protocol.authority@ == zero_bytes(),
        IntegrityInvariant::ProtocolConfigPda => pda_mismatch(
            k.protocol_config,
            program_address(PROTOCOL_CONFIG_SEED@, Some(k.protocol@), program),
        ),
        IntegrityInvariant::ProtocolConfigBump => bump_mismatch(
            i.protocol_config.bump,
            program_address(PROTOCOL_CONFIG_SEED@, Some(k.protocol@), program),
        ),
        IntegrityInvariant::ProtocolConfigVersion => i.protocol_config.version != PROTOCOL_CONFIG_VERSION,
        IntegrityInvariant::ProtocolConfigLink => i.protocol.protocol_config@ != k.protocol_config@
            || i.protocol_config.protocol@ != k.protocol@,
        IntegrityInvariant::TreasuryPda => pda_mismatch(
            k.treasury,
            program_address(TREASURY_SEED@, Some(k.protocol@), program),
        ),
        IntegrityInvariant::TreasuryBump => bump_mismatch(
            i.treasury.bump,
            program_address(TREASURY_SEED@, Some(k.protocol@), program),
        ),
        IntegrityInvariant::TreasuryVersion => i.treasury.version != TREASURY_VERSION,
        IntegrityInvariant::TreasuryLink => i.protocol.treasury_state@ != k.treasury@ || i.treasury.protocol@
            != k.protocol@,
        IntegrityInvariant::TreasuryVaultPda => pda_mismatch(
            i.treasury_vault.key,
            program_address(TREASURY_VAULT_SEED@, Some(k.treasury@), program),
        ),
        IntegrityInvariant::TreasuryVaultLink => i.treasury.settlement_vault@ != i.treasury_vault.key@,
        IntegrityInvariant::TreasuryVaultMint => i.treasury_vault.mint@ != mint,
        IntegrityInvariant::TreasuryVaultOwner => i.treasury_vault.owner@ != k.treasury@,
        IntegrityInvariant::FounderPda => pda_mismatch(
            k.founder,
            program_address(FOUNDER_STATE_SEED@, Some(k.protocol@), program),
        ),
        IntegrityInvariant::FounderBump => bump_mismatch(
            i.founder.bump,
            program_address(FOUNDER_STATE_SEED@, Some(k.protocol@), program),
        ),
        IntegrityInvariant::FounderVersion => i.founder.version != FOUNDER_STATE_VERSION,
        IntegrityInvariant::FounderLink => i.protocol.founder_state@ != k.founder@ || i.founder.protocol@
            != k.protocol@,
        IntegrityInvariant::CompanyPda => pda_mismatch(
            k.company,
            program_address(COMPANY_STATE_SEED@, Some(k.protocol@), program),
        ),
        IntegrityInvariant::CompanyBump => bump_mismatch(
            i.company.bump,
            program_address(COMPANY_STATE_SEED@, Some(k.protocol@), program),
        ),
        IntegrityInvariant::CompanyVersion => i.company.version != COMPANY_STATE_VERSION,
        IntegrityInvariant::CompanyLink => i.protocol.company_state@ != k.company@ || i.company.protocol@
            != k.protocol@,
        IntegrityInvariant::ExecutionConfigPda => pda_mismatch(
            k.execution_config,
            program_address(EXECUTION_CONFIG_SEED@, Some(k.protocol@), program),
        ),
        IntegrityInvariant::ExecutionConfigBump => bump_mismatch(
            e.bump,
            program_address(EXECUTION_CONFIG_SEED@, Some(k.protocol@), program),
        ),
        IntegrityInvariant::ExecutionConfigVersion => e.version != EXECUTION_CONFIG_VERSION,
        IntegrityInvariant::ExecutionConfigLink => e.protocol_state@ != k.protocol@ || d.reserve.key@
            != e.reserve_destination@ || d.buyback.key@ != e.buyback_destination@ || d.liquidity.key@
            != e.liquidity_destination@ || d.company.key@ != e.company_destination@ || d.founder.key@
            != e.founder_destination@,
        IntegrityInvariant::SettlementMintLink => e.settlement_mint@ != mint,
        IntegrityInvariant::DestinationMints => d.reserve.mint@ != mint || d.buyback.mint@ != mint
            || d.liquidity.mint@ != mint || d.company.mint@ != mint || d.founder.mint@ != mint,
        IntegrityInvariant::FounderDestinationOwner => d.founder.owner@ != i.founder.recipient@,
        IntegrityInvariant::CompanyDestinationOwner => d.company.owner@ != i.company.recipient@,
        IntegrityInvariant::DestinationIsolation => isolation_broken(destination_keys(d), i.treasury_vault.key@),
    }
}

/// The view of a lookup result.
pub open spec fn derived_view(derived: Option<(Pubkey, u8)>) -> Option<(Seq<u8>, u8)> {
    match derived {
        Some((k, b)) => Some((k@, b)),
        None => None,
    }
}

/// Looks up a derived address, as its view.
fn derive(seed: &str, key_seed: Option<&Pubkey>, program_id: &Pubkey) -> (r: Option<(Pubkey, u8)>)
    ensures
        derived_view(r) == program_address(seed@, key_seed_view(key_seed), program_id@),
{
    find_program_address(seed, key_seed, program_id)
}

/// Whether the key differs from the derived address of a lookup.
fn differs_from_derived(key: &Pubkey, derived: &Option<(Pubkey, u8)>) -> (r: bool)
    ensures
        r == pda_mismatch(*key, derived_view(*derived)),
{
    match derived {
        Some((address, _)) => *key != *address,
        None => true,
    }
}

/// Whether the bump differs from the derived bump of a lookup.
fn bump_differs(bump: u8, derived: &Option<(Pubkey, u8)>) -> (r: bool)
    ensures
        r == bump_mismatch(bump, derived_view(*derived)),
{
    match derived {
        Some((_, b)) => bump != *b,
        None => true,
    }
}

/// The program identity, ProtocolState and ProtocolConfig checks.
fn protocol_checks(i: &IntegrityInputs) -> (r: (bool, bool, bool, bool, bool, bool, bool, bool, bool))
    ensures
        r.0 == integrity_failed(*i, IntegrityInvariant::ProgramId),
        r.1 == integrity_failed(*i, IntegrityInvariant::ProtocolPda),
        r.2 == integrity_failed(*i, IntegrityInvariant::ProtocolBump),
        r.3 == integrity_failed(*i, IntegrityInvariant::ProtocolVersion),
        r.4 == integrity_failed(*i, IntegrityInvariant::ProtocolAuthority),
        r.5 == integrity_failed(*i, IntegrityInvariant::ProtocolConfigPda),
        r.6 == integrity_failed(*i, IntegrityInvariant::ProtocolConfigBump),
        r.7 == integrity_failed(*i, IntegrityInvariant::ProtocolConfigVersion),
        r.8 == integrity_failed(*i, IntegrityInvariant::ProtocolConfigLink),
{
    proof {
        reveal(integrity_failed);
    }
    let keys = &i.keys;
    let protocol = &i.protocol;
    let protocol_config = &i.protocol_config;
    // Program identity.
    let program_id_wrong = i.program_id != id();
    // ProtocolState.
    let protocol_pda = derive(PROTOCOL_SEED, None, &i.program_id);
    let protocol_pda_wrong = differs_from_derived(&keys.protocol, &protocol_pda);
    let protocol_bump_wrong = bump_differs(protocol.bump, &protocol_pda);
    let protocol_version_wrong = protocol.version != PROTOCOL_VERSION;
    let protocol_authority_unset = protocol.authority.is_default();
    // ProtocolConfig.
    let config_pda = derive(PROTOCOL_CONFIG_SEED, Some(&keys.protocol), &i.program_id);
    let config_pda_wrong = differs_from_derived(&keys.protocol_config, &config_pda);
    let config_bump_wrong = bump_differs(protocol_config.bump, &config_pda);
    let config_version_wrong = protocol_config.version != PROTOCOL_CONFIG_VERSION;
    let config_link_wrong = protocol.protocol_config != keys.protocol_config || protocol_config.protocol
        != keys.protocol;
    (
        program_id_wrong,
        protocol_pda_wrong,
        protocol_bump_wrong,
        protocol_version_wrong,
        protocol_authority_unset,
        config_pda_wrong,
        config_bump_wrong,
        config_version_wrong,
        config_link_wrong,
    )
}

/// The TreasuryState and settlement vault checks.
fn treasury_checks(i: &IntegrityInputs) -> (r: (bool, bool, bool, bool, bool, bool, bool, bool))
    ensures
        r.0 == integrity_failed(*i, IntegrityInvariant::TreasuryPda),
        r.1 == integrity_failed(*i, IntegrityInvariant::TreasuryBump),
        r.2 == integrity_failed(*i, IntegrityInvariant::TreasuryVersion),
        r.3 == integrity_failed(*i, IntegrityInvariant::TreasuryLink),
        r.4 == integrity_failed(*i, IntegrityInvariant::TreasuryVaultPda),
        r.5 == integrity_failed(*i, IntegrityInvariant::TreasuryVaultLink),
        r.6 == integrity_failed(*i, IntegrityInvariant::TreasuryVaultMint),
        r.7 == integrity_failed(*i, IntegrityInvariant::TreasuryVaultOwner),
{
    proof {
        reveal(integrity_failed);
    }
    let keys = &i.keys;
    let protocol = &i.protocol;
    let treasury = &i.treasury;
    let treasury_vault = &i.treasury_vault;
    // TreasuryState.
    let treasury_pda = derive(TREASURY_SEED, Some(&keys.protocol), &i.program_id);
    let treasury_pda_wrong = differs_from_derived(&keys.treasury, &treasury_pda);
    let treasury_bump_wrong = bump_differs(treasury.bump, &treasury_pda);
    let treasury_version_wrong = treasury.version != TREASURY_VERSION;
    let treasury_link_wrong = protocol.treasury_state != keys.treasury || treasury.protocol != keys.protocol;
    // Treasury settlement vault.
    let vault_pda = derive(TREASURY_VAULT_SEED, Some(&keys.treasury), &i.program_id);
    let vault_pda_wrong = differs_from_derived(&treasury_vault.key, &vault_pda);
    let vault_link_wrong = treasury.settlement_vault != treasury_vault.key;
    let vault_mint_wrong = treasury_vault.mint != treasury.settlement_mint;
    let vault_owner_wrong = treasury_vault.owner != keys.treasury;
    (
        treasury_pda_wrong,
        treasury_bump_wrong,
        treasury_version_wrong,
        treasury_link_wrong,
        vault_pda_wrong,
        vault_link_wrong,
        vault_mint_wrong,
        vault_owner_wrong,
    )
}

/// The FounderState and CompanyState checks.
fn founder_company_checks(i: &IntegrityInputs) -> (r: (bool, bool, bool, bool, bool, bool, bool, bool))
    ensures
        r.0 == integrity_failed(*i, IntegrityInvariant::FounderPda),
        r.1 == integrity_failed(*i, IntegrityInvariant::FounderBump),
        r.2 == integrity_failed(*i, IntegrityInvariant::FounderVersion),
        r.3 == integrity_failed(*i, IntegrityInvariant::FounderLink),
        r.4 == integrity_failed(*i, IntegrityInvariant::CompanyPda),
        r.5 == integrity_failed(*i, IntegrityInvariant::CompanyBump),
        r.6 == integrity_failed(*i, IntegrityInvariant::CompanyVersion),
        r.7 == integrity_failed(*i, IntegrityInvariant::CompanyLink),
{
    proof {
        reveal(integrity_failed);
    }
    let keys = &i.keys;
    let protocol = &i.protocol;
    let founder = &i.founder;
    let company = &i.company;
    // FounderState.
    let founder_pda = derive(FOUNDER_STATE_SEED, Some(&keys.protocol), &i.program_id);
    let founder_pda_wrong = differs_from_derived(&keys.founder, &founder_pda);
    let founder_bump_wrong = bump_differs(founder.bump, &founder_pda);
    let founder_version_wrong = founder.version != FOUNDER_STATE_VERSION;
    let founder_link_wrong = protocol.founder_state != keys.founder || founder.protocol != keys.protocol;
    // CompanyState.
    let company_pda = derive(COMPANY_STATE_SEED, Some(&keys.protocol), &i.program_id);
    let company_pda_wrong = differs_from_derived(&keys.company, &company_pda);
    let company_bump_wrong = bump_differs(company.bump, &company_pda);
    let company_version_wrong = company.version != COMPANY_STATE_VERSION;
    let company_link_wrong = protocol.company_state != keys.company || company.protocol != keys.protocol;
    (
        founder_pda_wrong,
        founder_bump_wrong,
        founder_version_wrong,
        founder_link_wrong,
        company_pda_wrong,
        company_bump_wrong,
        company_version_wrong,
        company_link_wrong,
    )
}

/// The ExecutionConfig, settlement mint, destination and isolation checks.
fn execution_checks(i: &IntegrityInputs) -> (r: (bool, bool, bool, bool, bool, bool, bool, bool, bool))
    ensures
        r.0 == integrity_failed(*i, IntegrityInvariant::ExecutionConfigPda),
        r.1 == integrity_failed(*i, IntegrityInvariant::ExecutionConfigBump),
        r.2 == integrity_failed(*i, IntegrityInvariant::ExecutionConfigVersion),
        r.3 == integrity_failed(*i, IntegrityInvariant::ExecutionConfigLink),
        r.4 == integrity_failed(*i, IntegrityInvariant::SettlementMintLink),
        r.5 == integrity_failed(*i, IntegrityInvariant::DestinationMints),
        r.6 == integrity_failed(*i, IntegrityInvariant::FounderDestinationOwner),
        r.7 == integrity_failed(*i, IntegrityInvariant::CompanyDestinationOwner),
        r.8 == integrity_failed(*i, IntegrityInvariant::DestinationIsolation),
{
    proof {
        reveal(integrity_failed);
    }
    let keys = &i.keys;
    let treasury = &i.treasury;
    let execution_config = &i.execution_config;
    let destinations = &i.destinations;
    // Immutable ExecutionConfig, including the permanent destination keys.
    let exec_pda = derive(EXECUTION_CONFIG_SEED, Some(&keys.protocol), &i.program_id);
    let exec_pda_wrong = differs_from_derived(&keys.execution_config, &exec_pda);
    let exec_bump_wrong = bump_differs(execution_config.bump, &exec_pda);
    let exec_version_wrong = execution_config.version != EXECUTION_CONFIG_VERSION;
    let exec_link_wrong = execution_config.protocol_state != keys.protocol || destinations.reserve.key
        != execution_config.reserve_destination || destinations.buyback.key
        != execution_config.buyback_destination || destinations.liquidity.key
        != execution_config.liquidity_destination || destinations.company.key
        != execution_config.company_destination || destinations.founder.key
        != execution_config.founder_destination;
    // Settlement mint linkage.
    let settlement_mint_wrong = execution_config.settlement_mint != treasury.settlement_mint;
    // Every destination uses the settlement mint.
    let settlement_mint = treasury.settlement_mint;
    let destination_mints_wrong = destinations.reserve.mint != settlement_mint || destinations.buyback.mint
        != settlement_mint || destinations.liquidity.mint != settlement_mint || destinations.company.mint
        != settlement_mint || destinations.founder.mint != settlement_mint;
    // Recipient ownership.
    let founder_owner_wrong = destinations.founder.owner != i.founder.recipient;
    let company_owner_wrong = destinations.company.owner != i.company.recipient;
    // Destination isolation: none equals the vault and all are distinct.
    let isolation_wrong = isolation_violated(destinations, &i.treasury_vault.key);
    (
        exec_pda_wrong,
        exec_bump_wrong,
        exec_version_wrong,
        exec_link_wrong,
        settlement_mint_wrong,
        destination_mints_wrong,
        founder_owner_wrong,
        company_owner_wrong,
        isolation_wrong,
    )
}

/// A property that holds of each check holds of every check.
proof fn lemma_every_check(p: spec_fn(IntegrityInvariant) -> bool)
    requires
        p(IntegrityInvariant::ProgramId),
        p(IntegrityInvariant::ProtocolPda),
        p(IntegrityInvariant::ProtocolBump),
        p(IntegrityInvariant::ProtocolVersion),
        p(IntegrityInvariant::ProtocolAuthority),
        p(IntegrityInvariant::ProtocolConfigPda),
        p(IntegrityInvariant::ProtocolConfigBump),
        p(IntegrityInvariant::ProtocolConfigVersion),
        p(IntegrityInvariant::ProtocolConfigLink),
        p(IntegrityInvariant::TreasuryPda),
        p(IntegrityInvariant::TreasuryBump),
        p(IntegrityInvariant::TreasuryVersion),
        p(IntegrityInvariant::TreasuryLink),
        p(IntegrityInvariant::TreasuryVaultPda),
        p(IntegrityInvariant::TreasuryVaultLink),
        p(IntegrityInvariant::TreasuryVaultMint),
        p(IntegrityInvariant::TreasuryVaultOwner),
        p(IntegrityInvariant::FounderPda),
        p(IntegrityInvariant::FounderBump),
        p(IntegrityInvariant::FounderVersion),
        p(IntegrityInvariant::FounderLink),
        p(IntegrityInvariant::CompanyPda),
        p(IntegrityInvariant::CompanyBump),
        p(IntegrityInvariant::CompanyVersion),
        p(IntegrityInvariant::CompanyLink),
        p(IntegrityInvariant::ExecutionConfigPda),
        p(IntegrityInvariant::ExecutionConfigBump),
        p(IntegrityInvariant::ExecutionConfigVersion),
        p(IntegrityInvariant::ExecutionConfigLink),
        p(IntegrityInvariant::SettlementMintLink),
        p(IntegrityInvariant::DestinationMints),
        p(IntegrityInvariant::FounderDestinationOwner),
        p(IntegrityInvariant::CompanyDestinationOwner),
        p(IntegrityInvariant::DestinationIsolation),
    ensures
        forall|check: IntegrityInvariant| #[trigger] p(check),
{
    assert forall|check: IntegrityInvariant| #[trigger] p(check) by {
        match check {
            IntegrityInvariant::ProgramId => {},
            IntegrityInvariant::ProtocolPda => {},
            IntegrityInvariant::ProtocolBump => {},
            IntegrityInvariant::ProtocolVersion => {},
            IntegrityInvariant::ProtocolAuthority => {},
            IntegrityInvariant::ProtocolConfigPda => {},
            IntegrityInvariant::ProtocolConfigBump => {},
            IntegrityInvariant::ProtocolConfigVersion => {},
            IntegrityInvariant::ProtocolConfigLink => {},
            IntegrityInvariant::TreasuryPda => {},
            IntegrityInvariant::TreasuryBump => {},
            IntegrityInvariant::TreasuryVersion => {},
            IntegrityInvariant::TreasuryLink => {},
            IntegrityInvariant::TreasuryVaultPda => {},
            IntegrityInvariant::TreasuryVaultLink => {},
            IntegrityInvariant::TreasuryVaultMint => {},
            IntegrityInvariant::TreasuryVaultOwner => {},
            IntegrityInvariant::FounderPda => {},
            IntegrityInvariant::FounderBump => {},
            IntegrityInvariant::FounderVersion => {},
            IntegrityInvariant::FounderLink => {},
            IntegrityInvariant::CompanyPda => {},
            IntegrityInvariant::CompanyBump => {},
            IntegrityInvariant::CompanyVersion => {},
            IntegrityInvariant::CompanyLink => {},
            IntegrityInvariant::ExecutionConfigPda => {},
            IntegrityInvariant::ExecutionConfigBump => {},
            IntegrityInvariant::ExecutionConfigVersion => {},
            IntegrityInvariant::ExecutionConfigLink => {},
            IntegrityInvariant::SettlementMintLink => {},
            IntegrityInvariant::DestinationMints => {},
            IntegrityInvariant::FounderDestinationOwner => {},
            IntegrityInvariant::CompanyDestinationOwner => {},
            IntegrityInvariant::DestinationIsolation => {},
        }
    }
}

/// Evaluates account identity and wiring before execution.
///
/// Read-only: it mutates nothing, moves no tokens, authorizes nothing, and
/// does not replace the Execution Guard. It checks that the supplied
/// accounts still match the canonical account architecture: program id,
/// derived addresses and bumps, layout versions, mutual links, vault
/// ownership and mint, the permanent destinations, their mints and owners,
/// and that no two destinations coincide or point at the treasury vault.
#[allow(clippy::too_many_arguments)]
pub fn evaluate_integrity(
    program_id: Pubkey,
    keys: IntegrityAccountKeys,
    protocol: &ProtocolState,
    protocol_config: &ProtocolConfig,
    treasury: &TreasuryState,
    treasury_vault: TokenAccountFacts,
    founder: &FounderState,
    company: &CompanyState,
    execution_config: &ExecutionConfig,
    destinations: IntegrityDestinations,
) -> (r: IntegrityReport)
    ensures
        ({
            let inputs = IntegrityInputs {
                program_id,
                keys,
                protocol: *protocol,
                protocol_config: *protocol_config,
                treasury: *treasury,
                treasury_vault,
                founder: *founder,
                company: *company,
                execution_config: *execution_config,
                destinations,
            };
            &&& forall|check: IntegrityInvariant|
                #[trigger] integrity_failed(inputs, check) == bit_set(r.failure_mask, integrity_code(check))
            &&& r.healthy == (forall|check: IntegrityInvariant| !#[trigger] integrity_failed(inputs, check))
        }),
        r.failure_mask < bit(34),
        r.healthy == (r.failure_mask == 0),
{
    let inputs = IntegrityInputs {
        program_id,
        keys,
        protocol: *protocol,
        protocol_config: *protocol_config,
        treasury: *treasury,
        treasury_vault,
        founder: *founder,
        company: *company,
        execution_config: *execution_config,
        destinations,
    };
    let group0 = protocol_checks(&inputs);
    let group1 = treasury_checks(&inputs);
    let group2 = founder_company_checks(&inputs);
    let group3 = execution_checks(&inputs);
    let results = CheckResults {
        program_id: group0.0,
        protocol_pda: group0.1,
        protocol_bump: group0.2,
        protocol_version: group0.3,
        protocol_authority: group0.4,
        protocol_config_pda: group0.5,
        protocol_config_bump: group0.6,
        protocol_config_version: group0.7,
        protocol_config_link: group0.8,
        treasury_pda: group1.0,
        treasury_bump: group1.1,
        treasury_version: group1.2,
        treasury_link: group1.3,
        treasury_vault_pda: group1.4,
        treasury_vault_link: group1.5,
        treasury_vault_mint: group1.6,
        treasury_vault_owner: group1.7,
        founder_pda: group2.0,
        founder_bump: group2.1,
        founder_version: group2.2,
        founder_link: group2.3,
        company_pda: group2.4,
        company_bump: group2.5,
        company_version: group2.6,
        company_link: group2.7,
        execution_config_pda: group3.0,
        execution_config_bump: group3.1,
        execution_config_version: group3.2,
        execution_config_link: group3.3,
        settlement_mint_link: group3.4,
        destination_mints: group3.5,
        founder_destination_owner: group3.6,
        company_destination_owner: group3.7,
        destination_isolation: group3.8,
    };
    let failure_mask = mask_of_results(&results);
    proof {
        assert(integrity_failed(inputs, IntegrityInvariant::ProgramId) == bit_set(failure_mask, integrity_code(IntegrityInvariant::ProgramId)));
        assert(integrity_failed(inputs, IntegrityInvariant::ProtocolPda) == bit_set(failure_mask, integrity_code(IntegrityInvariant::ProtocolPda)));
        assert(integrity_failed(inputs, IntegrityInvariant::ProtocolBump) == bit_set(failure_mask, integrity_code(IntegrityInvariant::ProtocolBump)));
        assert(integrity_failed(inputs, IntegrityInvariant::ProtocolVersion) == bit_set(failure_mask, integrity_code(IntegrityInvariant::ProtocolVersion)));
        assert(integrity_failed(inputs, IntegrityInvariant::ProtocolAuthority) == bit_set(failure_mask, integrity_code(IntegrityInvariant::ProtocolAuthority)));
        assert(integrity_failed(inputs, IntegrityInvariant::ProtocolConfigPda) == bit_set(failure_mask, integrity_code(IntegrityInvariant::ProtocolConfigPda)));
        assert(integrity_failed(inputs, IntegrityInvariant::ProtocolConfigBump) == bit_set(failure_mask, integrity_code(IntegrityInvariant::ProtocolConfigBump)));
        assert(integrity_failed(inputs, IntegrityInvariant::ProtocolConfigVersion) == bit_set(failure_mask, integrity_code(IntegrityInvariant::ProtocolConfigVersion)));
        assert(integrity_failed(inputs, IntegrityInvariant::ProtocolConfigLink) == bit_set(failure_mask, integrity_code(IntegrityInvariant::ProtocolConfigLink)));
        assert(integrity_failed(inputs, IntegrityInvariant::TreasuryPda) == bit_set(failure_mask, integrity_code(IntegrityInvariant::TreasuryPda)));
        assert(integrity_failed(inputs, IntegrityInvariant::TreasuryBump) == bit_set(failure_mask, integrity_code(IntegrityInvariant::TreasuryBump)));
        assert(integrity_failed(inputs, IntegrityInvariant::TreasuryVersion) == bit_set(failure_mask, integrity_code(IntegrityInvariant::TreasuryVersion)));
        assert(integrity_failed(inputs, IntegrityInvariant::TreasuryLink) == bit_set(failure_mask, integrity_code(IntegrityInvariant::TreasuryLink)));
        assert(integrity_failed(inputs, IntegrityInvariant::TreasuryVaultPda) == bit_set(failure_mask, integrity_code(IntegrityInvariant::TreasuryVaultPda)));
        assert(integrity_failed(inputs, IntegrityInvariant::TreasuryVaultLink) == bit_set(failure_mask, integrity_code(IntegrityInvariant::TreasuryVaultLink)));
        assert(integrity_failed(inputs, IntegrityInvariant::TreasuryVaultMint) == bit_set(failure_mask, integrity_code(IntegrityInvariant::TreasuryVaultMint)));
        assert(integrity_failed(inputs, IntegrityInvariant::TreasuryVaultOwner) == bit_set(failure_mask, integrity_code(IntegrityInvariant::TreasuryVaultOwner)));
        assert(integrity_failed(inputs, IntegrityInvariant::FounderPda) == bit_set(failure_mask, integrity_code(IntegrityInvariant::FounderPda)));
        assert(integrity_failed(inputs, IntegrityInvariant::FounderBump) == bit_set(failure_mask, integrity_code(IntegrityInvariant::FounderBump)));
        assert(integrity_failed(inputs, IntegrityInvariant::FounderVersion) == bit_set(failure_mask, integrity_code(IntegrityInvariant::FounderVersion)));
        assert(integrity_failed(inputs, IntegrityInvariant::FounderLink) == bit_set(failure_mask, integrity_code(IntegrityInvariant::FounderLink)));
        assert(integrity_failed(inputs, IntegrityInvariant::CompanyPda) == bit_set(failure_mask, integrity_code(IntegrityInvariant::CompanyPda)));
        assert(integrity_failed(inputs, IntegrityInvariant::CompanyBump) == bit_set(failure_mask, integrity_code(IntegrityInvariant::CompanyBump)));
        assert(integrity_failed(inputs, IntegrityInvariant::CompanyVersion) == bit_set(failure_mask, integrity_code(IntegrityInvariant::CompanyVersion)));
        assert(integrity_failed(inputs, IntegrityInvariant::CompanyLink) == bit_set(failure_mask, integrity_code(IntegrityInvariant::CompanyLink)));
        assert(integrity_failed(inputs, IntegrityInvariant::ExecutionConfigPda) == bit_set(failure_mask, integrity_code(IntegrityInvariant::ExecutionConfigPda)));
        assert(integrity_failed(inputs, IntegrityInvariant::ExecutionConfigBump) == bit_set(failure_mask, integrity_code(IntegrityInvariant::ExecutionConfigBump)));
        assert(integrity_failed(inputs, IntegrityInvariant::ExecutionConfigVersion) == bit_set(failure_mask, integrity_code(IntegrityInvariant::ExecutionConfigVersion)));
        assert(integrity_failed(inputs, IntegrityInvariant::ExecutionConfigLink) == bit_set(failure_mask, integrity_code(IntegrityInvariant::ExecutionConfigLink)));
        assert(integrity_failed(inputs, IntegrityInvariant::SettlementMintLink) == bit_set(failure_mask, integrity_code(IntegrityInvariant::SettlementMintLink)));
        assert(integrity_failed(inputs, IntegrityInvariant::DestinationMints) == bit_set(failure_mask, integrity_code(IntegrityInvariant::DestinationMints)));
        assert(integrity_failed(inputs, IntegrityInvariant::FounderDestinationOwner) == bit_set(failure_mask, integrity_code(IntegrityInvariant::FounderDestinationOwner)));
        assert(integrity_failed(inputs, IntegrityInvariant::CompanyDestinationOwner) == bit_set(failure_mask, integrity_code(IntegrityInvariant::CompanyDestinationOwner)));
        assert(integrity_failed(inputs, IntegrityInvariant::DestinationIsolation) == bit_set(failure_mask, integrity_code(IntegrityInvariant::DestinationIsolation)));
        let agrees = |check: IntegrityInvariant| integrity_failed(inputs, check) == bit_set(failure_mask, integrity_code(check));
        lemma_every_check(agrees);
        assert forall|check: IntegrityInvariant|
            #[trigger] integrity_failed(inputs, check) == bit_set(failure_mask, integrity_code(check)) by {
            assert(agrees(check));
        }
        if failure_mask == 0 {
            let clean = |check: IntegrityInvariant| !integrity_failed(inputs, check);
            lemma_every_check(clean);
            assert forall|check: IntegrityInvariant| !#[trigger] integrity_failed(inputs, check) by {
                assert(clean(check));
            }
        } else {
            assert(exists|check: IntegrityInvariant| #[trigger] integrity_failed(inputs, check)) by {
                if results.program_id {
                    assert(integrity_failed(inputs, IntegrityInvariant::ProgramId));
                } else if results.protocol_pda {
                    assert(integrity_failed(inputs, IntegrityInvariant::ProtocolPda));
                } else if results.protocol_bump {
                    assert(integrity_failed(inputs, IntegrityInvariant::ProtocolBump));
                } else if results.protocol_version {
                    assert(integrity_failed(inputs, IntegrityInvariant::ProtocolVersion));
                } else if results.protocol_authority {
                    assert(integrity_failed(inputs, IntegrityInvariant::ProtocolAuthority));
                } else if results.protocol_config_pda {
                    assert(integrity_failed(inputs, IntegrityInvariant::ProtocolConfigPda));
                } else if results.protocol_config_bump {
                    assert(integrity_failed(inputs, IntegrityInvariant::ProtocolConfigBump));
                } else if results.protocol_config_version {
                    assert(integrity_failed(inputs, IntegrityInvariant::ProtocolConfigVersion));
                } else if results.protocol_config_link {
                    assert(integrity_failed(inputs, IntegrityInvariant::ProtocolConfigLink));
                } else if results.treasury_pda {
                    assert(integrity_failed(inputs, IntegrityInvariant::TreasuryPda));
                } else if results.treasury_bump {
                    assert(integrity_failed(inputs, IntegrityInvariant::TreasuryBump));
                } else if results.treasury_version {
                    assert(integrity_failed(inputs, IntegrityInvariant::TreasuryVersion));
                } else if results.treasury_link {
                    assert(integrity_failed(inputs, IntegrityInvariant::TreasuryLink));
                } else if results.treasury_vault_pda {
                    assert(integrity_failed(inputs, IntegrityInvariant::TreasuryVaultPda));
                } else if results.treasury_vault_link {
                    assert(integrity_failed(inputs, IntegrityInvariant::TreasuryVaultLink));
                } else if results.treasury_vault_mint {
                    assert(integrity_failed(inputs, IntegrityInvariant::TreasuryVaultMint));
                } else if results.treasury_vault_owner {
                    assert(integrity_failed(inputs, IntegrityInvariant::TreasuryVaultOwner));
                } else if results.founder_pda {
                    assert(integrity_failed(inputs, IntegrityInvariant::FounderPda));
                } else if results.founder_bump {
                    assert(integrity_failed(inputs, IntegrityInvariant::FounderBump));
                } else if results.founder_version {
                    assert(integrity_failed(inputs, IntegrityInvariant::FounderVersion));
                } else if results.founder_link {
                    assert(integrity_failed(inputs, IntegrityInvariant::FounderLink));
                } else if results.company_pda {
                    assert(integrity_failed(inputs, IntegrityInvariant::CompanyPda));
                } else if results.company_bump {
                    assert(integrity_failed(inputs, IntegrityInvariant::CompanyBump));
                } else if results.company_version {
                    assert(integrity_failed(inputs, IntegrityInvariant::CompanyVersion));
                } else if results.company_link {
                    assert(integrity_failed(inputs, IntegrityInvariant::CompanyLink));
                } else if results.execution_config_pda {
                    assert(integrity_failed(inputs, IntegrityInvariant::ExecutionConfigPda));
                } else if results.execution_config_bump {
                    assert(integrity_failed(inputs, IntegrityInvariant::ExecutionConfigBump));
                } else if results.execution_config_version {
                    assert(integrity_failed(inputs, IntegrityInvariant::ExecutionConfigVersion));
                } else if results.execution_config_link {
                    assert(integrity_failed(inputs, IntegrityInvariant::ExecutionConfigLink));
                } else if results.settlement_mint_link {
                    assert(integrity_failed(inputs, IntegrityInvariant::SettlementMintLink));
                } else if results.destination_mints {
                    assert(integrity_failed(inputs, IntegrityInvariant::DestinationMints));
                } else if results.founder_destination_owner {
                    assert(integrity_failed(inputs, IntegrityInvariant::FounderDestinationOwner));
                } else if results.company_destination_owner {
                    assert(integrity_failed(inputs, IntegrityInvariant::CompanyDestinationOwner));
                } else if results.destination_isolation {
                    assert(integrity_failed(inputs, IntegrityInvariant::DestinationIsolation));
                }
            }
        }
    }
    IntegrityReport { healthy: failure_mask == 0, failure_mask }
}

/// The outcome of every Integrity Firewall check, one flag per check.
struct CheckResults {
    program_id: bool,
    protocol_pda: bool,
    protocol_bump: bool,
    protocol_version: bool,
    protocol_authority: bool,
    protocol_config_pda: bool,
    protocol_config_bump: bool,
    protocol_config_version: bool,
    protocol_config_link: bool,
    treasury_pda: bool,
    treasury_bump: bool,
    treasury_version: bool,
    treasury_link: bool,
    treasury_vault_pda: bool,
    treasury_vault_link: bool,
    treasury_vault_mint: bool,
    treasury_vault_owner: bool,
    founder_pda: bool,
    founder_bump: bool,
    founder_version: bool,
    founder_link: bool,
    company_pda: bool,
    company_bump: bool,
    company_version: bool,
    company_link: bool,
    execution_config_pda: bool,
    execution_config_bump: bool,
    execution_config_version: bool,
    execution_config_link: bool,
    settlement_mint_link: bool,
    destination_mints: bool,
    founder_destination_owner: bool,
    company_destination_owner: bool,
    destination_isolation: bool,
}

/// The failure mask of a set of check results.
fn mask_of_results(r: &CheckResults) -> (m: u64)
    ensures
        bit_set(m, 0) == r.program_id,
        bit_set(m, 1) == r.protocol_pda,
        bit_set(m, 2) == r.protocol_bump,
        bit_set(m, 3) == r.protocol_version,
        bit_set(m, 4) == r.protocol_authority,
        bit_set(m, 5) == r.protocol_config_pda,
        bit_set(m, 6) == r.protocol_config_bump,
        bit_set(m, 7) == r.protocol_config_version,
        bit_set(m, 8) == r.protocol_config_link,
        bit_set(m, 9) == r.treasury_pda,
        bit_set(m, 10) == r.treasury_bump,
        bit_set(m, 11) == r.treasury_version,
        bit_set(m, 12) == r.treasury_link,
        bit_set(m, 13) == r.treasury_vault_pda,
        bit_set(m, 14) == r.treasury_vault_link,
        bit_set(m, 15) == r.treasury_vault_mint,
        bit_set(m, 16) == r.treasury_vault_owner,
        bit_set(m, 17) == r.founder_pda,
        bit_set(m, 18) == r.founder_bump,
        bit_set(m, 19) == r.founder_version,
        bit_set(m, 20) == r.founder_link,
        bit_set(m, 21) == r.company_pda,
        bit_set(m, 22) == r.company_bump,
        bit_set(m, 23) == r.company_version,
        bit_set(m, 24) == r.company_link,
        bit_set(m, 25) == r.execution_config_pda,
        bit_set(m, 26) == r.execution_config_bump,
        bit_set(m, 27) == r.execution_config_version,
        bit_set(m, 28) == r.execution_config_link,
        bit_set(m, 29) == r.settlement_mint_link,
        bit_set(m, 30) == r.destination_mints,
        bit_set(m, 31) == r.founder_destination_owner,
        bit_set(m, 32) == r.company_destination_owner,
        bit_set(m, 33) == r.destination_isolation,
        (m == 0) == (!r.program_id && !r.protocol_pda && !r.protocol_bump && !r.protocol_version && !r.protocol_authority && !r.protocol_config_pda && !r.protocol_config_bump && !r.protocol_config_version && !r.protocol_config_link && !r.treasury_pda && !r.treasury_bump && !r.treasury_version && !r.treasury_link && !r.treasury_vault_pda && !r.treasury_vault_link && !r.treasury_vault_mint && !r.treasury_vault_owner && !r.founder_pda && !r.founder_bump && !r.founder_version && !r.founder_link && !r.company_pda && !r.company_bump && !r.company_version && !r.company_link && !r.execution_config_pda && !r.execution_config_bump && !r.execution_config_version && !r.execution_config_link && !r.settlement_mint_link && !r.destination_mints && !r.founder_destination_owner && !r.company_destination_owner && !r.destination_isolation),
        m < bit(34),
{
    proof {
        lemma_empty_mask();
    }
    let g0 = with_flag(0, 0, r.program_id);
    let g1 = pack_flags4(r.protocol_pda, r.protocol_bump, r.protocol_version, r.protocol_authority);
    let g2 = pack_flags4(r.protocol_config_pda, r.protocol_config_bump, r.protocol_config_version, r.protocol_config_link);
    let g3 = pack_flags4(r.treasury_pda, r.treasury_bump, r.treasury_version, r.treasury_link);
    let g4 = pack_flags4(r.treasury_vault_pda, r.treasury_vault_link, r.treasury_vault_mint, r.treasury_vault_owner);
    let g5 = pack_flags4(r.founder_pda, r.founder_bump, r.founder_version, r.founder_link);
    let g6 = pack_flags4(r.company_pda, r.company_bump, r.company_version, r.company_link);
    let g7 = pack_flags4(r.execution_config_pda, r.execution_config_bump, r.execution_config_version, r.execution_config_link);
    let g8 = pack_flags5(r.settlement_mint_link, r.destination_mints, r.founder_destination_owner, r.company_destination_owner, r.destination_isolation);
    let m = g0;
    let m = append_flags(m, 1, g1, 4);
    let m = append_flags(m, 5, g2, 4);
    let m = append_flags(m, 9, g3, 4);
    let m = append_flags(m, 13, g4, 4);
    let m = append_flags(m, 17, g5, 4);
    let m = append_flags(m, 21, g6, 4);
    let m = append_flags(m, 25, g7, 4);
    let m = append_flags(m, 29, g8, 5);
    m
}

/// The check with code `j`.
spec fn code_check(j: int) -> IntegrityInvariant {
    if j == 0 {
        IntegrityInvariant::ProgramId
    } else if j == 1 {
        IntegrityInvariant::ProtocolPda
    } else if j == 2 {
        IntegrityInvariant::ProtocolBump
    } else if j == 3 {
        IntegrityInvariant::ProtocolVersion
    } else if j == 4 {
        IntegrityInvariant::ProtocolAuthority
    } else if j == 5 {
        IntegrityInvariant::ProtocolConfigPda
    } else if j == 6 {
        IntegrityInvariant::ProtocolConfigBump
    } else if j == 7 {
        IntegrityInvariant::ProtocolConfigVersion
    } else if j == 8 {
        IntegrityInvariant::ProtocolConfigLink
    } else if j == 9 {
        IntegrityInvariant::TreasuryPda
    } else if j == 10 {
        IntegrityInvariant::TreasuryBump
    } else if j == 11 {
        IntegrityInvariant::TreasuryVersion
    } else if j == 12 {
        IntegrityInvariant::TreasuryLink
    } else if j == 13 {
        IntegrityInvariant::TreasuryVaultPda
    } else if j == 14 {
        IntegrityInvariant::TreasuryVaultLink
    } else if j == 15 {
        IntegrityInvariant::TreasuryVaultMint
    } else if j == 16 {
        IntegrityInvariant::TreasuryVaultOwner
    } else if j == 17 {
        IntegrityInvariant::FounderPda
    } else if j == 18 {
        IntegrityInvariant::FounderBump
    } else if j == 19 {
        IntegrityInvariant::FounderVersion
    } else if j == 20 {
        IntegrityInvariant::FounderLink
    } else if j == 21 {
        IntegrityInvariant::CompanyPda
    } else if j == 22 {
        IntegrityInvariant::CompanyBump
    } else if j == 23 {
        IntegrityInvariant::CompanyVersion
    } else if j == 24 {
        IntegrityInvariant::CompanyLink
    } else if j == 25 {
        IntegrityInvariant::ExecutionConfigPda
    } else if j == 26 {
        IntegrityInvariant::ExecutionConfigBump
    } else if j == 27 {
        IntegrityInvariant::ExecutionConfigVersion
    } else if j == 28 {
        IntegrityInvariant::ExecutionConfigLink
    } else if j == 29 {
        IntegrityInvariant::SettlementMintLink
    } else if j == 30 {
        IntegrityInvariant::DestinationMints
    } else if j == 31 {
        IntegrityInvariant::FounderDestinationOwner
    } else if j == 32 {
        IntegrityInvariant::CompanyDestinationOwner
    } else {
        IntegrityInvariant::DestinationIsolation
    }
}

/// Whether any destination key equals the vault key or two destination keys
/// coincide.
fn isolation_violated(destinations: &IntegrityDestinations, vault: &Pubkey) -> (r: bool)
    ensures
        r == isolation_broken(destination_keys(*destinations), vault@),
{
    let mut keys: Vec<Pubkey> = Vec::new();
    keys.push(destinations.reserve.key);
    keys.push(destinations.buyback.key);
    keys.push(destinations.liquidity.key);
    keys.push(destinations.company.key);
    keys.push(destinations.founder.key);
    let ghost v = destination_keys(*destinations);
    assert forall|a: int| 0 <= a < 5 implies #[trigger] v[a] == keys@[a]@ by {}
    let mut points_to_vault = false;
    let mut i: usize = 0;
    while i < keys.len()
        invariant
            i <= keys.len() == 5,
            v.len() == 5,
            forall|a: int| 0 <= a < 5 ==> #[trigger] v[a] == keys@[a]@,
            points_to_vault == exists|a: int| 0 <= a < i && #[trigger] v[a] == vault@,
        decreases keys.len() - i,
    {
        if keys[i] == *vault {
            points_to_vault = true;
            assert(v[i as int] == vault@);
        } else {
            assert(v[i as int] != vault@);
        }
        i = i + 1;
    }
    let mut duplicate_found = false;
    let mut left: usize = 0;
    while left < keys.len()
        invariant
            left <= keys.len() == 5,
            v.len() == 5,
            forall|a: int| 0 <= a < 5 ==> #[trigger] v[a] == keys@[a]@,
            duplicate_found == exists|a: int, b: int|
                0 <= a < b < 5 && a < left && #[trigger] v[a] == #[trigger] v[b],
        decreases keys.len() - left,
    {
        let mut right: usize = left + 1;
        while right < keys.len()
            invariant
                left < keys.len() == 5,
                left + 1 <= right <= 5,
                v.len() == 5,
                forall|a: int| 0 <= a < 5 ==> #[trigger] v[a] == keys@[a]@,
                duplicate_found == exists|a: int, b: int|
                    0 <= a < b < 5 && (a < left || (a == left && b < right)) && #[trigger] v[a] == #[trigger] v[b],
            decreases keys.len() - right,
        {
            if keys[left] == keys[right] {
                duplicate_found = true;
                assert(v[left as int] == v[right as int]);
            } else {
                assert(v[left as int] != v[right as int]);
            }
            right = right + 1;
        }
        left = left + 1;
    }
    proof {
        if points_to_vault {
            let a = choose|a: int| 0 <= a < 5 && #[trigger] v[a] == vault@;
            assert(v.contains(vault@));
        } else {
            assert(!v.contains(vault@));
        }
    }
    points_to_vault || duplicate_found
}

/// The code of every check leads back to that check.
proof fn lemma_code_identifies_check(check: IntegrityInvariant)
    ensures
        code_check(integrity_code(check) as int) == check,
        integrity_code(check) < 34,
{
}

/// Every Integrity Firewall check has a single-bit mask, and no two checks
/// share one.
pub proof fn lemma_integrity_masks_unique(a: IntegrityInvariant, b: IntegrityInvariant)
    ensures
        bit(integrity_code(a)) != 0,
        a != b ==> bit(integrity_code(a)) & bit(integrity_code(b)) == 0,
{
    lemma_code_identifies_check(a);
    lemma_code_identifies_check(b);
    if a != b {
        lemma_masks_distinct(integrity_code(a), integrity_code(b));
    } else {
        lemma_masks_distinct(integrity_code(a), (integrity_code(a) + 1) as u64);
    }
}

/// Returns true when a specific Integrity Firewall check failed.
pub fn integrity_invariant_failed(failure_mask: u64, check: IntegrityInvariant) -> (r: bool)
    ensures
        r == bit_set(failure_mask, integrity_code(check)),
{
    mask_bit_set(failure_mask, check.code())
}

} // verus!
