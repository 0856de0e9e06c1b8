//! Beavernomics allocation configuration.
use vstd::prelude::*;

use crate::pubkey::Pubkey;

verus! {

/// On-chain allocation configuration of collected fee proceeds.
#[derive(Clone, Copy, Debug)]
pub struct ProtocolConfig {
    /// State layout version.
    pub version: u16,
    /// Root ProtocolState that owns this configuration.
    pub protocol: Pubkey,
    /// Allocation of collected fee proceeds, in basis points.
    pub reserve_bps: u16,
    pub buyback_burn_bps: u16,
    pub liquidity_bps: u16,
    pub company_bps: u16,
    pub founder_bps: u16,
    /// Whether configuration changes are currently permitted.
    pub updates_enabled: bool,
    /// Canonical PDA bump.
    pub bump: u8,
    /// Timestamp of the most recent configuration update.
    pub updated_at: i64,
    /// Reserved space for future compatible fields.
    pub reserved: [u8; 64],
}

impl ProtocolConfig {
    /// Serialized account size including the eight-byte discriminator.
    pub const SPACE: usize = 8 + 2 + 32 + 5 * 2 + 1 + 1 + 8 + 64;

    /// Sum of the five allocation rates, computed without wrapping.
    pub open spec fn allocation_sum(self) -> int {
        self.reserve_bps + self.buyback_burn_bps + self.liquidity_bps + self.company_bps
            + self.founder_bps
    }

    /// Sum of the five allocation rates, saturating at `u16::MAX`.
    pub fn total_allocation_bps(&self) -> (r: u16)
        ensures
            r == (if self.allocation_sum() > u16::MAX { u16::MAX as int } else { self.allocation_sum() }),
    {
        self.reserve_bps.saturating_add(self.buyback_burn_bps).saturating_add(
            self.liquidity_bps,
        ).saturating_add(self.company_bps).saturating_add(self.founder_bps)
    }
}

} // verus!
