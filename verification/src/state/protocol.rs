//! Root protocol state.
use vstd::prelude::*;

use crate::pubkey::Pubkey;

verus! {

/// Root protocol account.
#[derive(Clone, Copy, Debug)]
pub struct ProtocolState {
    /// State layout version for future migrations.
    pub version: u16,
    /// Current protocol administration authority.
    pub authority: Pubkey,
    /// Module account references; all-zero until each module is initialized.
    pub protocol_config: Pubkey,
    pub treasury_state: Pubkey,
    pub reserve_state: Pubkey,
    pub liquidity_state: Pubkey,
    pub founder_state: Pubkey,
    pub company_state: Pubkey,
    pub buyback_state: Pubkey,
    /// Protocol health indicators.
    pub beaver_score: u16,
    pub dam_level: u8,
    /// Emergency protocol pause.
    pub paused: bool,
    /// Canonical PDA bump.
    pub bump: u8,
    /// Unix timestamp when the protocol was initialized.
    pub initialized_at: i64,
    /// Reserved account space for compatible future fields.
    pub reserved: [u8; 64],
}

impl ProtocolState {
    /// Serialized account size including the eight-byte discriminator.
    pub const SPACE: usize = 8 + 2 + 32 * 8 + 2 + 1 + 1 + 1 + 8 + 64;
}

} // verus!
