//! Checks of the oracle adapter that verifies a Pyth price and submits it to
//! the treasury router.
use vstd::prelude::*;

use crate::pubkey::{bytes32_equal, bytes32_is_zero, zero_bytes};
use crate::state::founder_price::confidence_width_bps;

verus! {

/// Seed of the adapter's canonical signer for price submissions.
pub const ORACLE_AUTHORITY_SEED: &'static str = "rbvr-oracle-authority";

/// Errors of the oracle adapter.
#[derive(Clone, Copy, Debug, PartialEq, Eq, Structural)]
pub enum OracleAdapterError {
    InvalidFeedId,
    InvalidMaximumAge,
    InvalidConfidenceLimit,
    InvalidPrice,
    InvalidPublishTime,
    ConfidenceTooWide,
    ArithmeticOverflow,
}

/// The outcome of checking the limits a caller asks the adapter to enforce,
/// first failing check first.
pub open spec fn adapter_limits_outcome(
    expected_feed_id: Seq<u8>,
    maximum_age_seconds: u64,
    maximum_confidence_bps: u16,
) -> Result<(), OracleAdapterError> {
    if expected_feed_id == zero_bytes() {
        Err(OracleAdapterError::InvalidFeedId)
    } else if maximum_age_seconds == 0 {
        Err(OracleAdapterError::InvalidMaximumAge)
    } else if !(0 < maximum_confidence_bps <= 10_000) {
        Err(OracleAdapterError::InvalidConfidenceLimit)
    } else {
        Ok(())
    }
}

/// Checks the limits a caller asks the adapter to enforce: a non-zero feed
/// identifier, a positive maximum age, and a confidence limit in
/// `(0, 10_000]` basis points.
pub fn check_adapter_limits(
    expected_feed_id: [u8; 32],
    maximum_age_seconds: u64,
    maximum_confidence_bps: u16,
) -> (r: Result<(), OracleAdapterError>)
    ensures
        expected_feed_id@ == zero_bytes() ==> r == Err::<(), _>(OracleAdapterError::InvalidFeedId),
        expected_feed_id@ != zero_bytes() && maximum_age_seconds == 0 ==> r == Err::<(), _>(
            OracleAdapterError::InvalidMaximumAge,
        ),
        expected_feed_id@ != zero_bytes() && maximum_age_seconds > 0 && (maximum_confidence_bps == 0
            || maximum_confidence_bps > 10_000) ==> r == Err::<(), _>(OracleAdapterError::InvalidConfidenceLimit),
        expected_feed_id@ != zero_bytes() && maximum_age_seconds > 0 && 0 < maximum_confidence_bps <= 10_000 ==> r
            == Ok::<(), OracleAdapterError>(()),
        r == adapter_limits_outcome(expected_feed_id@, maximum_age_seconds, maximum_confidence_bps),
{
    if bytes32_is_zero(&expected_feed_id) {
        return Err(OracleAdapterError::InvalidFeedId);
    }
    if maximum_age_seconds == 0 {
        return Err(OracleAdapterError::InvalidMaximumAge);
    }
    if !(maximum_confidence_bps > 0 && maximum_confidence_bps <= 10_000) {
        return Err(OracleAdapterError::InvalidConfidenceLimit);
    }
    Ok(())
}

/// The outcome of checking a verified price, first failing check first.
pub open spec fn verified_price_check(
    price: i64,
    confidence: u64,
    publish_time: i64,
    now: i64,
    maximum_confidence_bps: u16,
) -> Result<(), OracleAdapterError> {
    if price <= 0 {
        Err(OracleAdapterError::InvalidPrice)
    } else if !(0 < publish_time <= now) {
        Err(OracleAdapterError::InvalidPublishTime)
    } else if confidence_width_bps(confidence, price) > maximum_confidence_bps {
        Err(OracleAdapterError::ConfidenceTooWide)
    } else {
        Ok(())
    }
}

/// Checks a price that the Pyth receiver has verified for the feed and age:
/// it must be positive, published in `(0, now]`, and have a confidence width
/// within the limit.
pub fn check_verified_price(
    price: i64,
    confidence: u64,
    publish_time: i64,
    now: i64,
    maximum_confidence_bps: u16,
) -> (r: Result<(), OracleAdapterError>)
    ensures
        price <= 0 ==> r == Err::<(), _>(OracleAdapterError::InvalidPrice),
        price > 0 && !(0 < publish_time <= now) ==> r == Err::<(), _>(OracleAdapterError::InvalidPublishTime),
        price > 0 && 0 < publish_time <= now ==> if confidence_width_bps(confidence, price) > maximum_confidence_bps {
            r == Err::<(), _>(OracleAdapterError::ConfidenceTooWide)
        } else {
            r == Ok::<(), OracleAdapterError>(())
        },
        r == verified_price_check(price, confidence, publish_time, now, maximum_confidence_bps),
{
    if price <= 0 {
        return Err(OracleAdapterError::InvalidPrice);
    }
    if !(publish_time > 0 && publish_time <= now) {
        return Err(OracleAdapterError::InvalidPublishTime);
    }
    let absolute_price = price as u128;
    let scaled = match (confidence as u128).checked_mul(10_000) {
        Some(value) => value,
        None => {
            return Err(OracleAdapterError::ArithmeticOverflow);
        },
    };
    let confidence_bps = match scaled.checked_div(absolute_price) {
        Some(value) => value,
        None => {
            return Err(OracleAdapterError::ArithmeticOverflow);
        },
    };
    if confidence_bps > maximum_confidence_bps as u128 {
        return Err(OracleAdapterError::ConfidenceTooWide);
    }
    Ok(())
}

/// How many Wormhole guardian signatures of a Pyth price update were checked.
#[derive(Clone, Copy, Debug, PartialEq, Eq, Structural)]
pub enum VerificationLevel {
    Partial { num_signatures: u8 },
    Full,
}

/// The values of a Pyth receiver price-update account that the adapter
/// reads.
#[derive(Clone, Copy, Debug)]
pub struct PriceUpdate {
    pub verification_level: VerificationLevel,
    pub feed_id: [u8; 32],
    pub price: i64,
    pub conf: u64,
    pub exponent: i32,
    pub publish_time: i64,
}

/// A Pyth price: `(price ± conf) * 10^exponent`, published at
/// `publish_time`.
#[derive(Clone, Copy, Debug, PartialEq, Eq, Structural)]
pub struct VerifiedPrice {
    pub price: i64,
    pub conf: u64,
    pub exponent: i32,
    pub publish_time: i64,
}

/// Why the Pyth receiver refuses to read a price.
#[derive(Clone, Copy, Debug, PartialEq, Eq, Structural)]
pub enum PythPriceError {
    PriceTooOld,
    MismatchedFeedId,
    InsufficientVerificationLevel,
}

/// Why the adapter refuses a price: one of its own checks, or the Pyth
/// receiver's read.
#[derive(Clone, Copy, Debug, PartialEq, Eq, Structural)]
pub enum PriceReadError {
    Adapter(OracleAdapterError),
    Pyth(PythPriceError),
}

/// The time up to which a price published at `publish_time` is fresh for
/// `maximum_age` seconds; the sum saturates at `i64::MAX`.
pub open spec fn fresh_until(publish_time: i64, maximum_age: u64) -> int {
    if publish_time + maximum_age > i64::MAX {
        i64::MAX as int
    } else {
        publish_time + maximum_age
    }
}

/// Whether reading the price panics: the receiver converts the maximum age
/// to `i64` once the level and the feed have passed.
pub open spec fn pyth_read_panics(update: PriceUpdate, maximum_age: u64, feed_id: Seq<u8>) -> bool {
    update.verification_level == VerificationLevel::Full && update.feed_id@ == feed_id && maximum_age > i64::MAX
}

/// What `PriceUpdateV2::get_price_no_older_than` of the Pyth receiver SDK
/// returns: the update must be fully verified, carry the requested feed,
/// and be fresh at `now`; the price is then the update's.
pub open spec fn pyth_price_outcome(update: PriceUpdate, now: i64, maximum_age: u64, feed_id: Seq<u8>) -> Result<
    VerifiedPrice,
    PythPriceError,
> {
    if update.verification_level != VerificationLevel::Full {
        Err(PythPriceError::InsufficientVerificationLevel)
    } else if update.feed_id@ != feed_id {
        Err(PythPriceError::MismatchedFeedId)
    } else if fresh_until(update.publish_time, maximum_age) < now {
        Err(PythPriceError::PriceTooOld)
    } else {
        Ok(
            VerifiedPrice {
                price: update.price,
                conf: update.conf,
                exponent: update.exponent,
                publish_time: update.publish_time,
            },
        )
    }
}

/// Reads a price from a Pyth price update as the receiver SDK's
/// `get_price_no_older_than` does, with full verification required.
pub fn pyth_price_no_older_than(update: &PriceUpdate, now: i64, maximum_age: u64, feed_id: &[u8; 32]) -> (r: Result<
    VerifiedPrice,
    PythPriceError,
>)
    requires
        !pyth_read_panics(*update, maximum_age, feed_id@),
    ensures
        r == pyth_price_outcome(*update, now, maximum_age, feed_id@),
{
    match update.verification_level {
        VerificationLevel::Full => {},
        VerificationLevel::Partial { .. } => {
            return Err(PythPriceError::InsufficientVerificationLevel);
        },
    }
    if !bytes32_equal(&update.feed_id, feed_id) {
        return Err(PythPriceError::MismatchedFeedId);
    }
    let fresh_until = match update.publish_time.checked_add_unsigned(maximum_age) {
        Some(value) => value,
        None => i64::MAX,
    };
    if fresh_until < now {
        return Err(PythPriceError::PriceTooOld);
    }
    Ok(
        VerifiedPrice {
            price: update.price,
            conf: update.conf,
            exponent: update.exponent,
            publish_time: update.publish_time,
        },
    )
}

/// The outcome of the adapter's read of a founder price: the requested
/// limits are checked, then the Pyth receiver reads the price, then the price
/// itself is checked.
pub open spec fn verified_price_outcome(
    update: PriceUpdate,
    now: i64,
    expected_feed_id: Seq<u8>,
    maximum_age_seconds: u64,
    maximum_confidence_bps: u16,
) -> Result<VerifiedPrice, PriceReadError> {
    match adapter_limits_outcome(expected_feed_id, maximum_age_seconds, maximum_confidence_bps) {
        Err(e) => Err(PriceReadError::Adapter(e)),
        Ok(_) => match pyth_price_outcome(update, now, maximum_age_seconds, expected_feed_id) {
            Err(e) => Err(PriceReadError::Pyth(e)),
            Ok(p) => match verified_price_check(p.price, p.conf, p.publish_time, now, maximum_confidence_bps) {
                Err(e) => Err(PriceReadError::Adapter(e)),
                Ok(_) => Ok(p),
            },
        },
    }
}

/// Verifies a Pyth price for submission as the founder price: the limits,
/// the receiver's read, and the price checks, in that order.
pub fn verified_founder_price(
    update: &PriceUpdate,
    now: i64,
    expected_feed_id: [u8; 32],
    maximum_age_seconds: u64,
    maximum_confidence_bps: u16,
) -> (r: Result<VerifiedPrice, PriceReadError>)
    requires
        adapter_limits_outcome(expected_feed_id@, maximum_age_seconds, maximum_confidence_bps) is Ok ==> !pyth_read_panics(
            *update,
            maximum_age_seconds,
            expected_feed_id@,
        ),
    ensures
        r == verified_price_outcome(*update, now, expected_feed_id@, maximum_age_seconds, maximum_confidence_bps),
{
    if let Err(e) = check_adapter_limits(expected_feed_id, maximum_age_seconds, maximum_confidence_bps) {
        return Err(PriceReadError::Adapter(e));
    }
    let price = match pyth_price_no_older_than(update, now, maximum_age_seconds, &expected_feed_id) {
        Ok(price) => price,
        Err(e) => {
            return Err(PriceReadError::Pyth(e));
        },
    };
    if let Err(e) = check_verified_price(price.price, price.conf, price.publish_time, now, maximum_confidence_bps) {
        return Err(PriceReadError::Adapter(e));
    }
    Ok(price)
}

} // verus!
