//! Sentinel: read-only protocol integrity reports.
use vstd::prelude::*;

use crate::engines::beaver_score;
use crate::engines::dam::{self, dam_rate, DamLevel};
use crate::engines::execution_guard::governing_dam;
use crate::engines::failure_mask::{bit, bit_set, code_mask, lemma_masks_distinct, mask_bit_set, mask_of_flags};
use crate::engines::waterfall::{self, waterfall_of, WaterfallStage};
use crate::errors::TreasuryRouterError;
use crate::pubkey::{zero_bytes, Pubkey};
use crate::state::protocol_config::ProtocolConfig;
use crate::state::treasury::TreasuryState;

verus! {

/// Stable identifiers of the Sentinel v1 invariants; the codes index the
/// failure mask and must never be reordered.
#[derive(Clone, Copy, Debug, PartialEq, Eq, Structural)]
pub enum SentinelInvariant {
    AllocationTotal,
    TreasuryAccounting,
    WaterfallStageRange,
    DamReleaseRate,
    DamWaterfallLink,
}

/// Mask code of a Sentinel v1 check.
pub open spec fn sentinel_code(check: SentinelInvariant) -> u64 {
    match check {
        SentinelInvariant::AllocationTotal => 0,
        SentinelInvariant::TreasuryAccounting => 1,
        SentinelInvariant::WaterfallStageRange => 2,
        SentinelInvariant::DamReleaseRate => 3,
        SentinelInvariant::DamWaterfallLink => 4,
    }
}

impl SentinelInvariant {
    fn code(self) -> (r: u8)
        ensures
            r == sentinel_code(self),
    {
        match self {
            SentinelInvariant::AllocationTotal => 0,
            SentinelInvariant::TreasuryAccounting => 1,
            SentinelInvariant::WaterfallStageRange => 2,
            SentinelInvariant::DamReleaseRate => 3,
            SentinelInvariant::DamWaterfallLink => 4,
        }
    }

    /// The single mask bit of this check.
    pub fn mask(self) -> (r: u64)
        ensures
            r == bit(sentinel_code(self)),
    {
        code_mask(self.code())
    }
}

/// Read-only protocol integrity report; a zero failure mask means that
/// every Sentinel v1 check passed.
///
/// Sentinel moves no funds, authorizes nothing, modifies no account and
/// does not pause the protocol.
#[derive(Clone, Copy, Debug, PartialEq, Eq, Structural)]
pub struct SentinelReport {
    pub healthy: bool,
    pub failure_mask: u64,
    pub allocation_total_bps: u16,
    pub allocation_total_valid: bool,
    pub accounting_valid: bool,
    pub waterfall_stage: WaterfallStage,
    pub waterfall_stage_valid: bool,
    pub dam_level: DamLevel,
    pub release_bps: u16,
    pub dam_release_rate_valid: bool,
    pub dam_waterfall_link_valid: bool,
    pub reserve_ratio_bps: u16,
    pub total_pending: u64,
}

/// The allocation total as the configuration reports it, saturating.
pub open spec fn saturated_allocation(config: ProtocolConfig) -> int {
    if config.allocation_sum() > u16::MAX { u16::MAX as int } else { config.allocation_sum() }
}

/// Whether a Sentinel v1 check fails. The stage, Dam-rate and Dam-link
/// checks are computed from the engines, which always satisfy them.
pub open spec fn sentinel_failed(config: ProtocolConfig, t: TreasuryState, check: SentinelInvariant) -> bool {
    match check {
        SentinelInvariant::AllocationTotal => saturated_allocation(config) != 10_000,
        SentinelInvariant::TreasuryAccounting => !t.all_balanced(),
        _ => false,
    }
}

/// Evaluates protocol integrity without modifying state: the allocation
/// total must be exactly 100%, every bucket must balance, and the Waterfall
/// and Adaptive Dam derived from the treasury must be consistent.
pub fn evaluate(protocol_config: &ProtocolConfig, treasury: &TreasuryState) -> (r: Result<
    SentinelReport,
    TreasuryRouterError,
>)
    ensures
        match waterfall_of(*treasury) {
            Err(e) => r == Err::<SentinelReport, _>(e),
            Ok(w) => r matches Ok(rep) && {
                let d = governing_dam(*treasury, w);
                &&& forall|inv: SentinelInvariant|
                    #[trigger] sentinel_failed(*protocol_config, *treasury, inv) == bit_set(
                        rep.failure_mask,
                        sentinel_code(inv),
                    )
                &&& rep.failure_mask < bit(5)
                &&& rep.healthy == (rep.failure_mask == 0)
                &&& rep.healthy == (forall|inv: SentinelInvariant|
                    !#[trigger] sentinel_failed(*protocol_config, *treasury, inv))
                &&& rep.allocation_total_bps == saturated_allocation(*protocol_config)
                &&& rep.allocation_total_valid == (saturated_allocation(*protocol_config) == 10_000)
                &&& rep.accounting_valid == treasury.all_balanced()
                &&& rep.waterfall_stage == w.stage
                &&& rep.waterfall_stage_valid
                &&& rep.dam_level == d.level
                &&& rep.release_bps == d.release_bps
                &&& rep.dam_release_rate_valid
                &&& rep.dam_waterfall_link_valid
                &&& rep.reserve_ratio_bps == w.reserve_ratio_bps
                &&& rep.total_pending == w.total_pending
            },
        },
{
    let allocation_total_bps = protocol_config.total_allocation_bps();
    let allocation_total_valid = allocation_total_bps == 10_000;
    let accounting_valid = treasury.execution_accounting_is_valid();
    let waterfall_evaluation = waterfall::evaluate(treasury)?;
    let waterfall_stage = waterfall_evaluation.stage;
    let waterfall_stage_valid = match waterfall_stage {
        WaterfallStage::Normal | WaterfallStage::Caution | WaterfallStage::Defensive | WaterfallStage::Survival
        | WaterfallStage::Emergency => true,
    };
    let pre_dam_health_score = beaver_score::pre_dam_health_score(
        treasury,
        waterfall_evaluation.reserve_ratio_bps,
        waterfall_stage,
    )?;
    let dam_evaluation = dam::evaluate_adaptive(waterfall_stage, pre_dam_health_score);
    let dam_level = dam_evaluation.level;
    let release_bps = dam_evaluation.release_bps;
    let dam_release_rate_valid = release_bps <= 10_000 && release_bps == dam_level.release_bps();
    let dam_waterfall_link_valid = dam_evaluation.waterfall_stage == waterfall_stage;
    let flags: [bool; 5] = [
        !allocation_total_valid,
        !accounting_valid,
        !waterfall_stage_valid,
        !dam_release_rate_valid,
        !dam_waterfall_link_valid,
    ];
    let failure_mask = mask_of_flags(&flags);
    proof {
        assert forall|inv: SentinelInvariant|
            #[trigger] sentinel_failed(*protocol_config, *treasury, inv) == bit_set(
                failure_mask,
                sentinel_code(inv),
            ) by {
            assert(flags@[sentinel_code(inv) as int] == sentinel_failed(*protocol_config, *treasury, inv));
        }
        if failure_mask == 0 {
            assert forall|inv: SentinelInvariant| !#[trigger] sentinel_failed(*protocol_config, *treasury, inv) by {
                assert(flags@[sentinel_code(inv) as int] == sentinel_failed(*protocol_config, *treasury, inv));
            }
        } else {
            let j = choose|j: int| 0 <= j < 5 && flags@[j];
            if j == 0 {
                assert(sentinel_failed(*protocol_config, *treasury, SentinelInvariant::AllocationTotal));
            } else {
                assert(sentinel_failed(*protocol_config, *treasury, SentinelInvariant::TreasuryAccounting));
            }
        }
    }
    Ok(
        SentinelReport {
            healthy: failure_mask == 0,
            failure_mask,
            allocation_total_bps,
            allocation_total_valid,
            accounting_valid,
            waterfall_stage,
            waterfall_stage_valid,
            dam_level,
            release_bps,
            dam_release_rate_valid,
            dam_waterfall_link_valid,
            reserve_ratio_bps: waterfall_evaluation.reserve_ratio_bps,
            total_pending: waterfall_evaluation.total_pending,
        },
    )
}

/// Returns true when a specific Sentinel check failed.
pub fn invariant_failed(failure_mask: u64, check: SentinelInvariant) -> (r: bool)
    ensures
        r == bit_set(failure_mask, sentinel_code(check)),
{
    mask_bit_set(failure_mask, check.code())
}

/// Exact locked Beavernomics allocation.
pub const LOCKED_RESERVE_BPS: u16 = 3_000;

pub const LOCKED_BUYBACK_BURN_BPS: u16 = 2_000;

pub const LOCKED_LIQUIDITY_BPS: u16 = 2_000;

pub const LOCKED_COMPANY_BPS: u16 = 2_000;

pub const LOCKED_FOUNDER_BPS: u16 = 1_000;

/// Stable identifiers of the Sentinel v2 linkage invariants, separate from
/// the v1 codes.
#[derive(Clone, Copy, Debug, PartialEq, Eq, Structural)]
pub enum SentinelLinkageInvariant {
    ProtocolConfigLink,
    TreasuryProtocolLink,
    LockedBeavernomics,
    ConfigurationLocked,
    SettlementMintPresent,
    SettlementVaultPresent,
    LifetimeAllocationConservation,
    ReceivedAllocationRelationship,
}

/// Mask code of a Sentinel v2 check.
pub open spec fn linkage_code(check: SentinelLinkageInvariant) -> u64 {
    match check {
        SentinelLinkageInvariant::ProtocolConfigLink => 0,
        SentinelLinkageInvariant::TreasuryProtocolLink => 1,
        SentinelLinkageInvariant::LockedBeavernomics => 2,
        SentinelLinkageInvariant::ConfigurationLocked => 3,
        SentinelLinkageInvariant::SettlementMintPresent => 4,
        SentinelLinkageInvariant::SettlementVaultPresent => 5,
        SentinelLinkageInvariant::LifetimeAllocationConservation => 6,
        SentinelLinkageInvariant::ReceivedAllocationRelationship => 7,
    }
}

impl SentinelLinkageInvariant {
    fn code(self) -> (r: u8)
        ensures
            r == linkage_code(self),
    {
        match self {
            SentinelLinkageInvariant::ProtocolConfigLink => 0,
            SentinelLinkageInvariant::TreasuryProtocolLink => 1,
            SentinelLinkageInvariant::LockedBeavernomics => 2,
            SentinelLinkageInvariant::ConfigurationLocked => 3,
            SentinelLinkageInvariant::SettlementMintPresent => 4,
            SentinelLinkageInvariant::SettlementVaultPresent => 5,
            SentinelLinkageInvariant::LifetimeAllocationConservation => 6,
            SentinelLinkageInvariant::ReceivedAllocationRelationship => 7,
        }
    }

    /// The single mask bit of this check.
    pub fn mask(self) -> (r: u64)
        ensures
            r == bit(linkage_code(self)),
    {
        code_mask(self.code())
    }
}

/// Read-only Sentinel v2 report; a zero failure mask means that every
/// linkage and immutable-configuration check passed.
#[derive(Clone, Copy, Debug, PartialEq, Eq, Structural)]
pub struct SentinelLinkageReport {
    pub healthy: bool,
    pub failure_mask: u64,
    pub protocol_config_link_valid: bool,
    pub treasury_protocol_link_valid: bool,
    pub locked_beavernomics_valid: bool,
    pub configuration_locked: bool,
    pub settlement_mint_present: bool,
    pub settlement_vault_present: bool,
    pub lifetime_allocation_sum: Option<u64>,
    pub lifetime_allocation_conserved: bool,
    pub received_allocation_relationship_valid: bool,
}

/// Sum of the five lifetime allocations, computed without wrapping.
pub open spec fn lifetime_total(t: TreasuryState) -> int {
    t.lifetime_reserve + t.lifetime_buyback_burn + t.lifetime_liquidity + t.lifetime_company + t.lifetime_founder
}

/// Whether the configuration holds exactly the locked 30/20/20/20/10 split.
pub open spec fn is_locked_split(config: ProtocolConfig) -> bool {
    &&& config.reserve_bps == 3_000
    &&& config.buyback_burn_bps == 2_000
    &&& config.liquidity_bps == 2_000
    &&& config.company_bps == 2_000
    &&& config.founder_bps == 1_000
}

/// Whether a Sentinel v2 check fails.
pub open spec fn linkage_failed(
    expected_protocol: Pubkey,
    config: ProtocolConfig,
    t: TreasuryState,
    check: SentinelLinkageInvariant,
) -> bool {
    match check {
        SentinelLinkageInvariant::ProtocolConfigLink => config.protocol@ != expected_protocol@,
        SentinelLinkageInvariant::TreasuryProtocolLink => t.protocol@ != expected_protocol@,
        SentinelLinkageInvariant::LockedBeavernomics => !is_locked_split(config),
        SentinelLinkageInvariant::ConfigurationLocked => config.updates_enabled,
        SentinelLinkageInvariant::SettlementMintPresent => t.settlement_mint@ == zero_bytes(),
        SentinelLinkageInvariant::SettlementVaultPresent => t.settlement_vault@ == zero_bytes(),
        SentinelLinkageInvariant::LifetimeAllocationConservation => lifetime_total(t) != t.total_fees_allocated,
        SentinelLinkageInvariant::ReceivedAllocationRelationship => t.total_fees_allocated > t.total_fees_received,
    }
}

/// Evaluates immutable configuration and protocol-account linkage against
/// the canonical protocol key: both links, the exact locked split, a locked
/// configuration, present settlement references, lifetime conservation, and
/// allocation not above receipts.
pub fn evaluate_linkage(expected_protocol: Pubkey, protocol_config: &ProtocolConfig, treasury: &TreasuryState) -> (r:
    SentinelLinkageReport)
    ensures
        forall|inv: SentinelLinkageInvariant|
            #[trigger] linkage_failed(expected_protocol, *protocol_config, *treasury, inv) == bit_set(
                r.failure_mask,
                linkage_code(inv),
            ),
        r.failure_mask < bit(8),
        r.healthy == (r.failure_mask == 0),
        r.healthy == (forall|inv: SentinelLinkageInvariant|
            !#[trigger] linkage_failed(expected_protocol, *protocol_config, *treasury, inv)),
        r.protocol_config_link_valid == (protocol_config.protocol@ == expected_protocol@),
        r.treasury_protocol_link_valid == (treasury.protocol@ == expected_protocol@),
        r.locked_beavernomics_valid == is_locked_split(*protocol_config),
        r.configuration_locked == !protocol_config.updates_enabled,
        r.settlement_mint_present == (treasury.settlement_mint@ != zero_bytes()),
        r.settlement_vault_present == (treasury.settlement_vault@ != zero_bytes()),
        r.lifetime_allocation_sum == (if lifetime_total(*treasury) <= u64::MAX {
            Some(lifetime_total(*treasury) as u64)
        } else {
            None
        }),
        r.lifetime_allocation_conserved == (lifetime_total(*treasury) == treasury.total_fees_allocated),
        r.received_allocation_relationship_valid == (treasury.total_fees_allocated
            <= treasury.total_fees_received),
{
    let protocol_config_link_valid = protocol_config.protocol == expected_protocol;
    let treasury_protocol_link_valid = treasury.protocol == expected_protocol;
    let locked_beavernomics_valid = protocol_config.reserve_bps == LOCKED_RESERVE_BPS
        && protocol_config.buyback_burn_bps == LOCKED_BUYBACK_BURN_BPS && protocol_config.liquidity_bps
        == LOCKED_LIQUIDITY_BPS && protocol_config.company_bps == LOCKED_COMPANY_BPS
        && protocol_config.founder_bps == LOCKED_FOUNDER_BPS;
    let configuration_locked = !protocol_config.updates_enabled;
    let settlement_mint_present = !treasury.settlement_mint.is_default();
    let settlement_vault_present = !treasury.settlement_vault.is_default();
    let lifetime_allocation_sum = match treasury.lifetime_reserve.checked_add(treasury.lifetime_buyback_burn) {
        Some(v1) => match v1.checked_add(treasury.lifetime_liquidity) {
            Some(v2) => match v2.checked_add(treasury.lifetime_company) {
                Some(v3) => v3.checked_add(treasury.lifetime_founder),
                None => None,
            },
            None => None,
        },
        None => None,
    };
    let lifetime_allocation_conserved = match lifetime_allocation_sum {
        Some(sum) => sum == treasury.total_fees_allocated,
        None => false,
    };
    let received_allocation_relationship_valid = treasury.total_fees_allocated <= treasury.total_fees_received;
    let flags: [bool; 8] = [
        !protocol_config_link_valid,
        !treasury_protocol_link_valid,
        !locked_beavernomics_valid,
        !configuration_locked,
        !settlement_mint_present,
        !settlement_vault_present,
        !lifetime_allocation_conserved,
        !received_allocation_relationship_valid,
    ];
    let failure_mask = mask_of_flags(&flags);
    proof {
        assert forall|inv: SentinelLinkageInvariant|
            #[trigger] linkage_failed(expected_protocol, *protocol_config, *treasury, inv) == bit_set(
                failure_mask,
                linkage_code(inv),
            ) by {
            assert(flags@[linkage_code(inv) as int] == linkage_failed(
                expected_protocol,
                *protocol_config,
                *treasury,
                inv,
            ));
        }
        if failure_mask == 0 {
            assert forall|inv: SentinelLinkageInvariant|
                !#[trigger] linkage_failed(expected_protocol, *protocol_config, *treasury, inv) by {
                assert(flags@[linkage_code(inv) as int] == linkage_failed(
                    expected_protocol,
                    *protocol_config,
                    *treasury,
                    inv,
                ));
            }
        } else {
            let j = choose|j: int| 0 <= j < 8 && flags@[j];
            let inv = if j == 0 {
                SentinelLinkageInvariant::ProtocolConfigLink
            } else if j == 1 {
                SentinelLinkageInvariant::TreasuryProtocolLink
            } else if j == 2 {
                SentinelLinkageInvariant::LockedBeavernomics
            } else if j == 3 {
                SentinelLinkageInvariant::ConfigurationLocked
            } else if j == 4 {
                SentinelLinkageInvariant::SettlementMintPresent
            } else if j == 5 {
                SentinelLinkageInvariant::SettlementVaultPresent
            } else if j == 6 {
                SentinelLinkageInvariant::LifetimeAllocationConservation
            } else {
                SentinelLinkageInvariant::ReceivedAllocationRelationship
            };
            assert(linkage_failed(expected_protocol, *protocol_config, *treasury, inv));
        }
    }
    SentinelLinkageReport {
        healthy: failure_mask == 0,
        failure_mask,
        protocol_config_link_valid,
        treasury_protocol_link_valid,
        locked_beavernomics_valid,
        configuration_locked,
        settlement_mint_present,
        settlement_vault_present,
        lifetime_allocation_sum,
        lifetime_allocation_conserved,
        received_allocation_relationship_valid,
    }
}

/// Returns true when a Sentinel v2 check failed.
pub fn linkage_invariant_failed(failure_mask: u64, check: SentinelLinkageInvariant) -> (r: bool)
    ensures
        r == bit_set(failure_mask, linkage_code(check)),
{
    mask_bit_set(failure_mask, check.code())
}

/// Every Sentinel v1 check has a single-bit mask, and no two checks share
/// one.
pub proof fn lemma_sentinel_masks_unique(a: SentinelInvariant, b: SentinelInvariant)
    ensures
        bit(sentinel_code(a)) != 0,
        a != b ==> bit(sentinel_code(a)) & bit(sentinel_code(b)) == 0,
{
    if a != b {
        lemma_masks_distinct(sentinel_code(a), sentinel_code(b));
    } else {
        lemma_masks_distinct(sentinel_code(a), (sentinel_code(a) + 1) as u64);
    }
}

/// Every Sentinel v2 check has a single-bit mask, and no two checks share
/// one.
pub proof fn lemma_linkage_masks_unique(a: SentinelLinkageInvariant, b: SentinelLinkageInvariant)
    ensures
        bit(linkage_code(a)) != 0,
        a != b ==> bit(linkage_code(a)) & bit(linkage_code(b)) == 0,
{
    if a != b {
        lemma_masks_distinct(linkage_code(a), linkage_code(b));
    } else {
        lemma_masks_distinct(linkage_code(a), (linkage_code(a) + 1) as u64);
    }
}

} // verus!
