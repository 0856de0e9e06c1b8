//! Immutable routing configuration for protocol-controlled executions.
use vstd::prelude::*;

use crate::pubkey::Pubkey;

verus! {

/// Routing configuration created once; no operation modifies its destinations.
#[derive(Clone, Copy, Debug)]
pub struct ExecutionConfig {
    /// Protocol instance to which this configuration belongs.
    pub protocol_state: Pubkey,
    /// Settlement-token mint accepted by every configured destination.
    pub settlement_mint: Pubkey,
    /// Permanent destination for Protocol Reserve releases.
    pub reserve_destination: Pubkey,
    /// Permanent destination for Automatic Buyback & Burn funding.
    pub buyback_destination: Pubkey,
    /// Permanent destination for Liquidity Growth funding.
    pub liquidity_destination: Pubkey,
    /// Permanent destination for Company/Operations funding.
    pub company_destination: Pubkey,
    /// Permanent destination for Founder Compensation funding.
    pub founder_destination: Pubkey,
    /// Account layout version.
    pub version: u16,
    /// PDA bump.
    pub bump: u8,
}

impl ExecutionConfig {
    pub const VERSION: u16 = 1;

    /// Serialized account data length, excluding the discriminator.
    pub const LEN: usize = 32 * 7 + 2 + 1;
}

} // verus!
