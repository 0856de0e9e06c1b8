//! Founder annual USD compensation cap state.
use vstd::prelude::*;

use crate::errors::TreasuryRouterError;
use crate::pubkey::{bytes32_is_zero, zero_bytes, Pubkey};

verus! {

/// One year using the protocol's fixed 365-day policy.
pub const FOUNDER_ANNUAL_PERIOD_SECONDS: i64 = 31_536_000;

/// Founder compensation is capped at US$3,000,000 per annual period, in USD
/// micro-units (1 USD = 1_000_000 micro-units).
pub const FOUNDER_ANNUAL_CAP_USD_E6: u64 = 3_000_000_000_000;

/// Version for the migration-safe Founder USD-cap account.
pub const FOUNDER_USD_CAP_VERSION: u8 = 1;

/// Canonical PDA seed: `["founder-usd-cap", protocol_state]`.
pub const FOUNDER_USD_CAP_SEED: &'static str = "founder-usd-cap";

/// Maximum denominator for confidence-width validation.
pub const CONFIDENCE_BPS_DENOMINATOR: u128 = 10_000;

/// Annual USD accounting of Founder compensation.
#[derive(Clone, Copy, Debug)]
pub struct FounderUsdCapState {
    /// Account-layout version.
    pub version: u8,
    /// Canonical ProtocolState account.
    pub protocol: Pubkey,
    /// Settlement token whose USD price must be supplied.
    pub settlement_mint: Pubkey,
    /// Price feed identifier for settlement-token/USD.
    pub price_feed_id: [u8; 32],
    /// Fixed annual cap in USD micro-units.
    pub annual_cap_usd_e6: u64,
    /// USD micro-units earned during the current annual period.
    pub earned_current_period_usd_e6: u64,
    /// Lifetime USD micro-units attributed to Founder compensation.
    pub lifetime_earned_usd_e6: u128,
    /// Beginning of the current fixed 365-day period.
    pub period_started_at: i64,
    /// Must equal 31,536,000.
    pub period_duration: i64,
    /// Maximum accepted oracle age in seconds.
    pub max_price_age_seconds: u64,
    /// Maximum confidence interval as basis points of absolute price.
    pub max_confidence_bps: u16,
    /// Feature gate.
    pub enabled: bool,
    /// Canonical PDA bump.
    pub bump: u8,
    /// Reserved for forward-compatible additions.
    pub reserved: [u8; 64],
}

/// Absolute value of an integer.
pub open spec fn abs(x: int) -> int {
    if x < 0 { -x } else { x }
}

impl FounderUsdCapState {
    /// Serialized length excluding the discriminator.
    pub const LEN: usize = 1 + 32 + 32 + 32 + 8 + 8 + 16 + 8 + 8 + 8 + 2 + 1 + 1 + 64;

    /// The outcome of validating the configuration, first failing check first.
    pub open spec fn configuration_outcome(self) -> Result<(), TreasuryRouterError> {
        if self.version != FOUNDER_USD_CAP_VERSION {
            Err(TreasuryRouterError::InvalidFounderUsdCapVersion)
        } else if self.protocol@ == zero_bytes() {
            Err(TreasuryRouterError::InvalidFounderUsdCapProtocol)
        } else if self.settlement_mint@ == zero_bytes() {
            Err(TreasuryRouterError::InvalidFounderUsdCapSettlementMint)
        } else if self.price_feed_id@ == zero_bytes() {
            Err(TreasuryRouterError::InvalidFounderUsdPriceFeed)
        } else if self.annual_cap_usd_e6 != FOUNDER_ANNUAL_CAP_USD_E6 {
            Err(TreasuryRouterError::InvalidFounderAnnualUsdCap)
        } else if self.period_duration != FOUNDER_ANNUAL_PERIOD_SECONDS {
            Err(TreasuryRouterError::InvalidFounderAnnualPeriod)
        } else if self.max_price_age_seconds == 0 {
            Err(TreasuryRouterError::InvalidFounderOracleMaximumAge)
        } else if self.max_confidence_bps == 0 || self.max_confidence_bps > 10_000 {
            Err(TreasuryRouterError::InvalidFounderOracleConfidenceLimit)
        } else if !self.enabled {
            Err(TreasuryRouterError::FounderUsdCapDisabled)
        } else {
            Ok(())
        }
    }

    /// The state after rolling the annual period forward at `now`.
    ///
    /// Once at least one whole period has elapsed, the period start advances
    /// by the largest whole number of periods that fits into the elapsed time
    /// and the current-period earnings restart at zero.
    pub open spec fn rolled(self, now: i64) -> Result<FounderUsdCapState, TreasuryRouterError> {
        let elapsed = now - self.period_started_at;
        if now < self.period_started_at {
            Err(TreasuryRouterError::InvalidFounderAnnualPeriodTimestamp)
        } else if elapsed > i64::MAX {
            Err(TreasuryRouterError::ArithmeticUnderflow)
        } else if elapsed < self.period_duration {
            Ok(self)
        } else if self.period_duration == 0 {
            Err(TreasuryRouterError::ArithmeticOverflow)
        } else {
            let d = abs(self.period_duration as int);
            Ok(
                FounderUsdCapState {
                    period_started_at: (self.period_started_at + (elapsed / d) * d) as i64,
                    earned_current_period_usd_e6: 0,
                    ..self
                },
            )
        }
    }

    /// Checks the configuration: version, links, feed, the fixed cap and
    /// period, oracle limits, and the feature gate.
    pub fn validate_configuration(&self) -> (r: Result<(), TreasuryRouterError>)
        ensures
            r == self.configuration_outcome(),
    {
        if self.version != FOUNDER_USD_CAP_VERSION {
            return Err(TreasuryRouterError::InvalidFounderUsdCapVersion);
        }
        if self.protocol.is_default() {
            return Err(TreasuryRouterError::InvalidFounderUsdCapProtocol);
        }
        if self.settlement_mint.is_default() {
            return Err(TreasuryRouterError::InvalidFounderUsdCapSettlementMint);
        }
        if bytes32_is_zero(&self.price_feed_id) {
            return Err(TreasuryRouterError::InvalidFounderUsdPriceFeed);
        }
        if self.annual_cap_usd_e6 != FOUNDER_ANNUAL_CAP_USD_E6 {
            return Err(TreasuryRouterError::InvalidFounderAnnualUsdCap);
        }
        if self.period_duration != FOUNDER_ANNUAL_PERIOD_SECONDS {
            return Err(TreasuryRouterError::InvalidFounderAnnualPeriod);
        }
        if self.max_price_age_seconds == 0 {
            return Err(TreasuryRouterError::InvalidFounderOracleMaximumAge);
        }
        if !(self.max_confidence_bps > 0 && self.max_confidence_bps <= 10_000) {
            return Err(TreasuryRouterError::InvalidFounderOracleConfidenceLimit);
        }
        if !self.enabled {
            return Err(TreasuryRouterError::FounderUsdCapDisabled);
        }
        Ok(())
    }

    /// Rolls the annual period forward deterministically: multiple elapsed
    /// periods are skipped without granting overlapping periods, and the new
    /// period begins at the nearest period boundary.
    pub fn roll_period_if_elapsed(&mut self, now: i64) -> (r: Result<(), TreasuryRouterError>)
        ensures
            match old(self).rolled(now) {
                Ok(s) => r is Ok && *final(self) == s,
                Err(e) => r == Err::<(), _>(e) && *final(self) == *old(self),
            },
    {
        if now < self.period_started_at {
            return Err(TreasuryRouterError::InvalidFounderAnnualPeriodTimestamp);
        }
        let elapsed = match now.checked_sub(self.period_started_at) {
            Some(value) => value,
            None => {
                return Err(TreasuryRouterError::ArithmeticUnderflow);
            },
        };
        if elapsed < self.period_duration {
            return Ok(());
        }
        let periods_elapsed = match elapsed.checked_div(self.period_duration) {
            Some(value) => value,
            None => {
                return Err(TreasuryRouterError::ArithmeticOverflow);
            },
        };
        proof {
            lemma_whole_periods(elapsed as int, self.period_duration as int);
        }
        let period_advance = match periods_elapsed.checked_mul(self.period_duration) {
            Some(value) => value,
            None => {
                return Err(TreasuryRouterError::ArithmeticOverflow);
            },
        };
        let new_start = match self.period_started_at.checked_add(period_advance) {
            Some(value) => value,
            None => {
                return Err(TreasuryRouterError::ArithmeticOverflow);
            },
        };
        self.period_started_at = new_start;
        self.earned_current_period_usd_e6 = 0;
        Ok(())
    }

    /// The USD micro-units still available in the current annual period.
    pub fn remaining_usd_e6(&self) -> (r: Result<u64, TreasuryRouterError>)
        ensures
            self.earned_current_period_usd_e6 <= self.annual_cap_usd_e6 ==> r == Ok::<u64, TreasuryRouterError>(
                (self.annual_cap_usd_e6 - self.earned_current_period_usd_e6) as u64,
            ),
            self.earned_current_period_usd_e6 > self.annual_cap_usd_e6 ==> r == Err::<u64, _>(
                TreasuryRouterError::FounderAnnualUsdAccountingViolation,
            ),
    {
        match self.annual_cap_usd_e6.checked_sub(self.earned_current_period_usd_e6) {
            Some(value) => Ok(value),
            None => Err(TreasuryRouterError::FounderAnnualUsdAccountingViolation),
        }
    }
}

/// Truncating division of a non-negative elapsed time by a non-zero
/// duration, multiplied back, is the largest multiple of `|d|` not above it.
proof fn lemma_whole_periods(e: int, d: int)
    requires
        e >= 0,
        d != 0,
    ensures
        d > 0 ==> (e / d) * d == (e / abs(d)) * abs(d),
        d < 0 ==> ((e / (d * -1)) * -1) * d == (e / abs(d)) * abs(d),
        0 <= (e / abs(d)) * abs(d) <= e,
        0 <= e / abs(d) <= e,
{
    let a = abs(d);
    assert(a > 0);
    vstd::arithmetic::div_mod::lemma_fundamental_div_mod(e, a);
    vstd::arithmetic::div_mod::lemma_div_pos_is_pos(e, a);
    vstd::arithmetic::div_mod::lemma_mod_pos_bound(e, a);
    vstd::arithmetic::div_mod::lemma_div_is_ordered_by_denominator(e, 1, a);
    assert(e / 1 == e);
    if d < 0 {
        assert(d * -1 == a);
        assert(((e / a) * -1) * d == (e / a) * a) by (nonlinear_arith)
            requires
                d == -a,
        ;
    }
    assert((e / a) * a == a * (e / a)) by (nonlinear_arith);
}

} // verus!
