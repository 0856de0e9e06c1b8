//! Oracle price submission and the one-time Founder price feed migration.
use vstd::prelude::*;

use crate::errors::TreasuryRouterError;
use crate::pubkey::{bytes32_equal, bytes32_is_zero, zero_bytes};
use crate::state::founder_price::{confidence_width_bps, FounderPriceState};
use crate::state::founder_usd_cap::FounderUsdCapState;
use crate::state::protocol::ProtocolState;

verus! {

/// The price accepted by a submission, first failing check first: a paused
/// protocol, the stored configuration, the feed, a positive price, a
/// publication time in `(0, now]` and strictly newer than the stored one, an
/// age within the maximum, a confidence width within the limit, and the
/// update sequence.
pub open spec fn submission_outcome(
    protocol: ProtocolState,
    s: FounderPriceState,
    price_feed_id: [u8; 32],
    price: i64,
    exponent: i32,
    confidence: u64,
    publish_time: i64,
    now: i64,
) -> Result<FounderPriceState, TreasuryRouterError> {
    if protocol.paused {
        Err(TreasuryRouterError::ProtocolPaused)
    } else if s.configuration_outcome() is Err {
        Err(s.configuration_outcome()->Err_0)
    } else if price_feed_id@ != s.price_feed_id@ {
        Err(TreasuryRouterError::InvalidFounderUsdPriceFeed)
    } else if price <= 0 {
        Err(TreasuryRouterError::InvalidFounderOraclePrice)
    } else if !(publish_time > 0 && publish_time <= now) {
        Err(TreasuryRouterError::InvalidFounderOraclePublishTime)
    } else if publish_time <= s.publish_time {
        Err(TreasuryRouterError::FounderOraclePriceNotNewer)
    } else if s.max_price_age_seconds > i64::MAX {
        Err(TreasuryRouterError::ArithmeticOverflow)
    } else if now - publish_time > s.max_price_age_seconds {
        Err(TreasuryRouterError::FounderOraclePriceStale)
    } else if confidence_width_bps(confidence, price) > s.max_confidence_bps {
        Err(TreasuryRouterError::FounderOracleConfidenceTooWide)
    } else if s.sequence + 1 > u64::MAX {
        Err(TreasuryRouterError::ArithmeticOverflow)
    } else {
        Ok(
            FounderPriceState {
                price,
                exponent,
                confidence,
                publish_time,
                received_at: now,
                sequence: (s.sequence + 1) as u64,
                ..s
            },
        )
    }
}

/// Accepts a verified price from the oracle adapter: it must be for the
/// configured feed, positive, fresh, strictly newer than the stored price
/// (so a publication cannot be replayed) and within the confidence limit.
/// The accepted price always passes the stored-price validation. On error
/// nothing changes.
pub fn submit_founder_price(
    protocol: &ProtocolState,
    founder_price: &mut FounderPriceState,
    price_feed_id: [u8; 32],
    price: i64,
    exponent: i32,
    confidence: u64,
    publish_time: i64,
    now: i64,
) -> (r: Result<(), TreasuryRouterError>)
    ensures
        match submission_outcome(
            *protocol,
            *old(founder_price),
            price_feed_id,
            price,
            exponent,
            confidence,
            publish_time,
            now,
        ) {
            Err(e) => r == Err::<(), _>(e) && *final(founder_price) == *old(founder_price),
            Ok(s) => r == Ok::<(), TreasuryRouterError>(()) && *final(founder_price) == s,
        },
        r is Ok ==> final(founder_price).price_outcome(now) is Ok,
{
    if protocol.paused {
        return Err(TreasuryRouterError::ProtocolPaused);
    }
    founder_price.validate_configuration()?;
    if !bytes32_equal(&price_feed_id, &founder_price.price_feed_id) {
        return Err(TreasuryRouterError::InvalidFounderUsdPriceFeed);
    }
    if price <= 0 {
        return Err(TreasuryRouterError::InvalidFounderOraclePrice);
    }
    if !(publish_time > 0 && publish_time <= now) {
        return Err(TreasuryRouterError::InvalidFounderOraclePublishTime);
    }
    // Price updates must move forward: this blocks replaying a publication
    // and replacing the current price with an older one.
    if publish_time <= founder_price.publish_time {
        return Err(TreasuryRouterError::FounderOraclePriceNotNewer);
    }
    let age = now - publish_time;
    if founder_price.max_price_age_seconds > i64::MAX as u64 {
        return Err(TreasuryRouterError::ArithmeticOverflow);
    }
    let maximum_age = founder_price.max_price_age_seconds as i64;
    if age > maximum_age {
        return Err(TreasuryRouterError::FounderOraclePriceStale);
    }
    let absolute_price = price as u128;
    assert(confidence * 10_000 <= u64::MAX * 10_000) by (nonlinear_arith);
    let confidence_bps = (confidence as u128) * 10_000 / absolute_price;
    if confidence_bps > founder_price.max_confidence_bps as u128 {
        return Err(TreasuryRouterError::FounderOracleConfidenceTooWide);
    }
    let sequence = match founder_price.sequence.checked_add(1) {
        Some(value) => value,
        None => {
            return Err(TreasuryRouterError::ArithmeticOverflow);
        },
    };
    let mut updated = *founder_price;
    updated.price = price;
    updated.exponent = exponent;
    updated.confidence = confidence;
    updated.publish_time = publish_time;
    updated.received_at = now;
    updated.sequence = sequence;
    // Re-run the stored-price validation on the updated state.
    updated.validate_price(now)?;
    *founder_price = updated;
    Ok(())
}

/// Feed identifier used when the Founder USD oracle accounts were first
/// initialized; the migration works only while both accounts still hold it.
pub const FOUNDER_PLACEHOLDER_FEED_ID: [u8; 32] = [
    7, 7, 7, 7, 7, 7, 7, 7, 7, 7, 7, 7, 7, 7, 7, 7, 7, 7, 7, 7, 7, 7, 7, 7, 7, 7, 7, 7, 7, 7, 7, 7,
];

/// The placeholder feed identifier as bytes.
pub open spec fn placeholder_feed() -> Seq<u8> {
    Seq::new(32, |i: int| 7u8)
}

/// Whether a byte array holds the placeholder feed identifier.
fn is_placeholder_feed(feed: &[u8; 32]) -> (r: bool)
    ensures
        r == (feed@ == placeholder_feed()),
{
    let placeholder = FOUNDER_PLACEHOLDER_FEED_ID;
    assert(placeholder@ =~= placeholder_feed());
    bytes32_equal(feed, &placeholder)
}

/// The feed migration decision, first failing check first: a paused
/// protocol, a zero or placeholder target, either account already migrated,
/// and either account already used.
pub open spec fn migration_outcome(
    protocol: ProtocolState,
    cap: FounderUsdCapState,
    price: FounderPriceState,
    new_feed_id: [u8; 32],
) -> Result<(), TreasuryRouterError> {
    if protocol.paused {
        Err(TreasuryRouterError::ProtocolPaused)
    } else if new_feed_id@ == zero_bytes() {
        Err(TreasuryRouterError::InvalidFounderUsdPriceFeed)
    } else if new_feed_id@ == placeholder_feed() {
        Err(TreasuryRouterError::InvalidFounderFeedMigrationTarget)
    } else if cap.price_feed_id@ != placeholder_feed() || price.price_feed_id@ != placeholder_feed() {
        Err(TreasuryRouterError::FounderFeedMigrationUnavailable)
    } else if price.sequence != 0 || price.price != 0 || price.confidence != 0 || price.publish_time != 0
        || price.received_at != 0 || cap.earned_current_period_usd_e6 != 0 || cap.lifetime_earned_usd_e6 != 0 {
        Err(TreasuryRouterError::FounderFeedMigrationStateUsed)
    } else {
        Ok(())
    }
}

/// Replaces the placeholder feed identifier in both Founder oracle accounts
/// with the real one, returning the previous identifier. It only works while
/// both accounts hold the placeholder and have never been used, so it
/// succeeds at most once. On error nothing changes.
pub fn migrate_founder_feed_id(
    protocol: &ProtocolState,
    founder_usd_cap: &mut FounderUsdCapState,
    founder_price: &mut FounderPriceState,
    new_feed_id: [u8; 32],
) -> (r: Result<[u8; 32], TreasuryRouterError>)
    ensures
        match migration_outcome(*protocol, *old(founder_usd_cap), *old(founder_price), new_feed_id) {
            Err(e) => r == Err::<[u8; 32], _>(e) && *final(founder_usd_cap) == *old(founder_usd_cap)
                && *final(founder_price) == *old(founder_price),
            Ok(_) => r == Ok::<[u8; 32], TreasuryRouterError>(old(founder_price).price_feed_id)
                && *final(founder_usd_cap) == (FounderUsdCapState {
                price_feed_id: new_feed_id,
                ..*old(founder_usd_cap)
            }) && *final(founder_price) == (FounderPriceState { price_feed_id: new_feed_id, ..*old(founder_price) }),
        },
{
    if protocol.paused {
        return Err(TreasuryRouterError::ProtocolPaused);
    }
    if bytes32_is_zero(&new_feed_id) {
        return Err(TreasuryRouterError::InvalidFounderUsdPriceFeed);
    }
    if is_placeholder_feed(&new_feed_id) {
        return Err(TreasuryRouterError::InvalidFounderFeedMigrationTarget);
    }
    // These checks make the migration self-locking: once either stored feed
    // changes, it can never succeed again.
    if !is_placeholder_feed(&founder_usd_cap.price_feed_id) {
        return Err(TreasuryRouterError::FounderFeedMigrationUnavailable);
    }
    if !is_placeholder_feed(&founder_price.price_feed_id) {
        return Err(TreasuryRouterError::FounderFeedMigrationUnavailable);
    }
    // The accounts must still be entirely unused.
    if founder_price.sequence != 0 || founder_price.price != 0 || founder_price.confidence != 0
        || founder_price.publish_time != 0 || founder_price.received_at != 0
        || founder_usd_cap.earned_current_period_usd_e6 != 0 || founder_usd_cap.lifetime_earned_usd_e6 != 0 {
        return Err(TreasuryRouterError::FounderFeedMigrationStateUsed);
    }
    let previous_feed_id = founder_price.price_feed_id;
    founder_usd_cap.price_feed_id = new_feed_id;
    founder_price.price_feed_id = new_feed_id;
    Ok(previous_feed_id)
}

/// The feed migration locks itself: after one successful migration, any
/// further migration of the same accounts is refused.
pub proof fn lemma_migration_locks_itself(
    protocol: ProtocolState,
    cap: FounderUsdCapState,
    price: FounderPriceState,
    first: [u8; 32],
    second: [u8; 32],
)
    requires
        migration_outcome(protocol, cap, price, first) is Ok,
    ensures
        migration_outcome(
            protocol,
            FounderUsdCapState { price_feed_id: first, ..cap },
            FounderPriceState { price_feed_id: first, ..price },
            second,
        ) is Err,
{
}

} // verus!
