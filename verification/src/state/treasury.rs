//! Treasury accounting state.
use vstd::prelude::*;

use crate::pubkey::Pubkey;

verus! {

/// Treasury accounting account.
#[derive(Clone, Copy, Debug)]
pub struct TreasuryState {
    /// State layout version for future migrations.
    pub version: u16,
    /// Root ProtocolState controlling this treasury.
    pub protocol: Pubkey,
    /// Mint in which fees are accounted.
    pub settlement_mint: Pubkey,
    /// SPL Token vault holding the treasury's settlement tokens.
    pub settlement_vault: Pubkey,
    /// Total fee units received by the treasury engine.
    pub total_fees_received: u64,
    /// Total fee units assigned to protocol buckets.
    pub total_fees_allocated: u64,
    /// Amounts assigned but not yet transferred or spent.
    pub pending_reserve: u64,
    pub pending_buyback_burn: u64,
    pub pending_liquidity: u64,
    pub pending_company: u64,
    pub pending_founder: u64,
    /// Lifetime allocations for transparent protocol accounting.
    pub lifetime_reserve: u64,
    pub lifetime_buyback_burn: u64,
    pub lifetime_liquidity: u64,
    pub lifetime_company: u64,
    pub lifetime_founder: u64,
    /// Lifetime settlement-token amounts actually released from the treasury.
    pub released_reserve: u64,
    pub released_buyback_burn: u64,
    pub released_liquidity: u64,
    pub released_company: u64,
    pub released_founder: u64,
    /// Last successful fee-processing timestamp.
    pub last_processed_at: i64,
    /// Increments after every successful accounting cycle.
    pub processing_epoch: u64,
    /// Current Survival Waterfall operating stage.
    pub waterfall_stage: u8,
    /// Buyback execution can be paused independently.
    pub buybacks_paused: bool,
    /// Canonical treasury PDA bump.
    pub bump: u8,
    /// Reserved account space for compatible future fields.
    pub reserved: [u8; 24],
}

/// One accounting bucket balances when `lifetime == pending + released`,
/// computed without wrapping.
pub open spec fn bucket_balanced(pending: u64, released: u64, lifetime: u64) -> bool {
    pending + released == lifetime
}

impl TreasuryState {
    /// Serialized account size including the eight-byte discriminator.
    pub const SPACE: usize = 8 + 2 + 32 + 32 + 32 + 19 * 8 + 1 + 1 + 1 + 24;

    pub open spec fn reserve_balanced(self) -> bool {
        bucket_balanced(self.pending_reserve, self.released_reserve, self.lifetime_reserve)
    }

    pub open spec fn buyback_balanced(self) -> bool {
        bucket_balanced(self.pending_buyback_burn, self.released_buyback_burn, self.lifetime_buyback_burn)
    }

    pub open spec fn liquidity_balanced(self) -> bool {
        bucket_balanced(self.pending_liquidity, self.released_liquidity, self.lifetime_liquidity)
    }

    pub open spec fn company_balanced(self) -> bool {
        bucket_balanced(self.pending_company, self.released_company, self.lifetime_company)
    }

    pub open spec fn founder_balanced(self) -> bool {
        bucket_balanced(self.pending_founder, self.released_founder, self.lifetime_founder)
    }

    /// Every bucket balances.
    pub open spec fn all_balanced(self) -> bool {
        &&& self.reserve_balanced()
        &&& self.buyback_balanced()
        &&& self.liquidity_balanced()
        &&& self.company_balanced()
        &&& self.founder_balanced()
    }

    /// Validates one accounting bucket: `lifetime == pending + released`,
    /// where an overflowing sum is invalid rather than saturated.
    fn accounting_bucket_is_valid(pending: u64, released: u64, lifetime: u64) -> (r: bool)
        ensures
            r == bucket_balanced(pending, released, lifetime),
    {
        match pending.checked_add(released) {
            Some(total) => total == lifetime,
            None => false,
        }
    }

    pub fn reserve_accounting_is_valid(&self) -> (r: bool)
        ensures
            r == self.reserve_balanced(),
    {
        Self::accounting_bucket_is_valid(self.pending_reserve, self.released_reserve, self.lifetime_reserve)
    }

    pub fn buyback_accounting_is_valid(&self) -> (r: bool)
        ensures
            r == self.buyback_balanced(),
    {
        Self::accounting_bucket_is_valid(
            self.pending_buyback_burn,
            self.released_buyback_burn,
            self.lifetime_buyback_burn,
        )
    }

    pub fn liquidity_accounting_is_valid(&self) -> (r: bool)
        ensures
            r == self.liquidity_balanced(),
    {
        Self::accounting_bucket_is_valid(
            self.pending_liquidity,
            self.released_liquidity,
            self.lifetime_liquidity,
        )
    }

    pub fn company_accounting_is_valid(&self) -> (r: bool)
        ensures
            r == self.company_balanced(),
    {
        Self::accounting_bucket_is_valid(self.pending_company, self.released_company, self.lifetime_company)
    }

    pub fn founder_accounting_is_valid(&self) -> (r: bool)
        ensures
            r == self.founder_balanced(),
    {
        Self::accounting_bucket_is_valid(self.pending_founder, self.released_founder, self.lifetime_founder)
    }

    /// Every bucket satisfies `lifetime == pending + released`.
    pub fn execution_accounting_is_valid(&self) -> (r: bool)
        ensures
            r == self.all_balanced(),
    {
        self.reserve_accounting_is_valid() && self.buyback_accounting_is_valid()
            && self.liquidity_accounting_is_valid() && self.company_accounting_is_valid()
            && self.founder_accounting_is_valid()
    }
}

} // verus!
