//! Verified settlement-token price submitted by the oracle adapter.
use vstd::prelude::*;

use crate::errors::TreasuryRouterError;
use crate::pubkey::{bytes32_is_zero, zero_bytes, Pubkey};

verus! {

pub const FOUNDER_PRICE_SEED: &'static str = "founder-price";

pub const FOUNDER_PRICE_VERSION: u8 = 1;

/// Latest verified settlement-token/USD price.
#[derive(Clone, Copy, Debug)]
pub struct FounderPriceState {
    /// Layout version.
    pub version: u8,
    /// Canonical ProtocolState.
    pub protocol: Pubkey,
    /// Settlement token being priced in USD.
    pub settlement_mint: Pubkey,
    /// Feed identifier verified by the adapter.
    pub price_feed_id: [u8; 32],
    /// Only this CPI signer may post verified prices.
    pub oracle_adapter_authority: Pubkey,
    /// Integer price.
    pub price: i64,
    /// Decimal exponent of the price.
    pub exponent: i32,
    /// Confidence interval.
    pub confidence: u64,
    /// Publication timestamp.
    pub publish_time: i64,
    /// Timestamp when the update was accepted.
    pub received_at: i64,
    /// Monotonic update sequence.
    pub sequence: u64,
    /// Maximum accepted price age during fee processing.
    pub max_price_age_seconds: u64,
    /// Maximum confidence width relative to absolute price.
    pub max_confidence_bps: u16,
    pub enabled: bool,
    pub bump: u8,
    pub reserved: [u8; 64],
}

/// Confidence width in basis points of a positive price, rounded down.
pub open spec fn confidence_width_bps(confidence: u64, price: i64) -> int {
    (confidence * 10_000) / (price as int)
}

impl FounderPriceState {
    /// Serialized length excluding the discriminator.
    pub const LEN: usize = 1 + 32 + 32 + 32 + 32 + 8 + 4 + 8 + 8 + 8 + 8 + 8 + 2 + 1 + 1 + 64;

    /// The outcome of validating the configuration, first failing check first.
    pub open spec fn configuration_outcome(self) -> Result<(), TreasuryRouterError> {
        if self.version != FOUNDER_PRICE_VERSION {
            Err(TreasuryRouterError::InvalidFounderPriceVersion)
        } else if self.protocol@ == zero_bytes() {
            Err(TreasuryRouterError::InvalidFounderPriceProtocol)
        } else if self.settlement_mint@ == zero_bytes() {
            Err(TreasuryRouterError::InvalidFounderPriceSettlementMint)
        } else if self.price_feed_id@ == zero_bytes() {
            Err(TreasuryRouterError::InvalidFounderUsdPriceFeed)
        } else if self.oracle_adapter_authority@ == zero_bytes() {
            Err(TreasuryRouterError::InvalidFounderOracleAdapter)
        } else if self.max_price_age_seconds == 0 {
            Err(TreasuryRouterError::InvalidFounderOracleMaximumAge)
        } else if self.max_confidence_bps == 0 || self.max_confidence_bps > 10_000 {
            Err(TreasuryRouterError::InvalidFounderOracleConfidenceLimit)
        } else if !self.enabled {
            Err(TreasuryRouterError::FounderPriceDisabled)
        } else {
            Ok(())
        }
    }

    /// The outcome of validating the stored price at `now`: configuration,
    /// a positive price, a publication time in `(0, now]`, an age within the
    /// maximum, and a confidence width within the limit.
    pub open spec fn price_outcome(self, now: i64) -> Result<(), TreasuryRouterError> {
        match self.configuration_outcome() {
            Err(e) => Err(e),
            Ok(_) => if self.price <= 0 {
                Err(TreasuryRouterError::InvalidFounderOraclePrice)
            } else if !(self.publish_time > 0 && self.publish_time <= now) {
                Err(TreasuryRouterError::InvalidFounderOraclePublishTime)
            } else if self.max_price_age_seconds > i64::MAX {
                Err(TreasuryRouterError::ArithmeticOverflow)
            } else if now - self.publish_time > self.max_price_age_seconds {
                Err(TreasuryRouterError::FounderOraclePriceStale)
            } else if confidence_width_bps(self.confidence, self.price) > self.max_confidence_bps {
                Err(TreasuryRouterError::FounderOracleConfidenceTooWide)
            } else {
                Ok(())
            },
        }
    }

    /// Checks the configuration: version, links, feed, adapter authority,
    /// oracle limits, and the feature gate.
    pub fn validate_configuration(&self) -> (r: Result<(), TreasuryRouterError>)
        ensures
            r == self.configuration_outcome(),
    {
        if self.version != FOUNDER_PRICE_VERSION {
            return Err(TreasuryRouterError::InvalidFounderPriceVersion);
        }
        if self.protocol.is_default() {
            return Err(TreasuryRouterError::InvalidFounderPriceProtocol);
        }
        if self.settlement_mint.is_default() {
            return Err(TreasuryRouterError::InvalidFounderPriceSettlementMint);
        }
        if bytes32_is_zero(&self.price_feed_id) {
            return Err(TreasuryRouterError::InvalidFounderUsdPriceFeed);
        }
        if self.oracle_adapter_authority.is_default() {
            return Err(TreasuryRouterError::InvalidFounderOracleAdapter);
        }
        if self.max_price_age_seconds == 0 {
            return Err(TreasuryRouterError::InvalidFounderOracleMaximumAge);
        }
        if !(self.max_confidence_bps > 0 && self.max_confidence_bps <= 10_000) {
            return Err(TreasuryRouterError::InvalidFounderOracleConfidenceLimit);
        }
        if !self.enabled {
            return Err(TreasuryRouterError::FounderPriceDisabled);
        }
        Ok(())
    }

    /// Checks that the stored price may be used at `now`.
    pub fn validate_price(&self, now: i64) -> (r: Result<(), TreasuryRouterError>)
        ensures
            r == self.price_outcome(now),
    {
        self.validate_configuration()?;
        if self.price <= 0 {
            return Err(TreasuryRouterError::InvalidFounderOraclePrice);
        }
        if !(self.publish_time > 0 && self.publish_time <= now) {
            return Err(TreasuryRouterError::InvalidFounderOraclePublishTime);
        }
        let age = now - self.publish_time;
        if self.max_price_age_seconds > i64::MAX as u64 {
            return Err(TreasuryRouterError::ArithmeticOverflow);
        }
        let maximum_age = self.max_price_age_seconds as i64;
        if age > maximum_age {
            return Err(TreasuryRouterError::FounderOraclePriceStale);
        }
        let absolute_price = self.price as u128;
        let confidence_bps = (self.confidence as u128) * 10_000 / absolute_price;
        if confidence_bps > self.max_confidence_bps as u128 {
            return Err(TreasuryRouterError::FounderOracleConfidenceTooWide);
        }
        Ok(())
    }
}

} // verus!
