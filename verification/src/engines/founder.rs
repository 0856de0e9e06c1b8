//! Founder allocation engine: period-capped, with overflow to Liquidity.
use vstd::prelude::*;

use crate::errors::TreasuryRouterError;
use crate::state::founder::FounderState;

verus! {

/// Result returned by the founder allocation engine.
#[derive(Clone, Copy, Debug, PartialEq, Eq, Structural)]
pub struct FounderAllocation {
    /// Amount actually credited to the founder.
    pub founder_amount: u64,
    /// Amount redirected to Liquidity because of the cap or because founder
    /// rewards are disabled.
    pub liquidity_overflow_amount: u64,
}

/// The founder state with its period restarted at `now` where the current
/// period has ended (`now >= period_started_at + period_duration`).
pub open spec fn founder_rolled(c: FounderState, now: i64) -> FounderState {
    if now >= c.period_started_at + c.period_duration {
        FounderState { period_started_at: now, earned_current_period: 0, ..c }
    } else {
        c
    }
}

/// What is left of the period cap, zero where the cap is already spent.
pub open spec fn founder_remaining(c: FounderState) -> int {
    if c.period_cap >= c.earned_current_period {
        c.period_cap - c.earned_current_period
    } else {
        0
    }
}

/// The result and final state of a founder allocation request.
///
/// Disabled: everything overflows to Liquidity and nothing changes. An
/// overflowing period end fails without change. Otherwise, after the period
/// roll, the founder receives the whole request where it fits under the cap
/// and only the remaining allowance otherwise (its period earnings then equals
/// the cap), the rest overflowing. Where the lifetime total would overflow,
/// the error leaves the rolled state with the period earnings already updated.
pub open spec fn founder_allocation_outcome(c: FounderState, requested: u64, now: i64) -> (Result<
    FounderAllocation,
    TreasuryRouterError,
>, FounderState) {
    if !c.enabled {
        (Ok(FounderAllocation { founder_amount: 0, liquidity_overflow_amount: requested }), c)
    } else if c.period_started_at + c.period_duration > i64::MAX || c.period_started_at + c.period_duration
        < i64::MIN {
        (Err(TreasuryRouterError::ArithmeticOverflow), c)
    } else {
        let c1 = founder_rolled(c, now);
        let remaining = founder_remaining(c1);
        if requested <= remaining {
            let c2 = FounderState { earned_current_period: (c1.earned_current_period + requested) as u64, ..c1 };
            if c1.lifetime_earned + requested > u64::MAX {
                (Err(TreasuryRouterError::ArithmeticOverflow), c2)
            } else {
                (
                    Ok(FounderAllocation { founder_amount: requested, liquidity_overflow_amount: 0 }),
                    FounderState { lifetime_earned: (c1.lifetime_earned + requested) as u64, ..c2 },
                )
            }
        } else {
            let c2 = FounderState { earned_current_period: c1.period_cap, ..c1 };
            if c1.lifetime_earned + remaining > u64::MAX {
                (Err(TreasuryRouterError::ArithmeticOverflow), c2)
            } else {
                (
                    Ok(
                        FounderAllocation {
                            founder_amount: remaining as u64,
                            liquidity_overflow_amount: (requested - remaining) as u64,
                        },
                    ),
                    FounderState { lifetime_earned: (c1.lifetime_earned + remaining) as u64, ..c2 },
                )
            }
        }
    }
}

/// Founder allocation engine: disabled allocations go wholly to Liquidity,
/// an expired period resets, and a request above the remaining cap is split
/// between the founder (up to the cap) and Liquidity (the excess).
pub fn allocate(founder: &mut FounderState, requested: u64, now: i64) -> (r: Result<
    FounderAllocation,
    TreasuryRouterError,
>)
    ensures
        (r, *final(founder)) == founder_allocation_outcome(*old(founder), requested, now),
{
    if !founder.enabled {
        return Ok(FounderAllocation { founder_amount: 0, liquidity_overflow_amount: requested });
    }
    let period_end = match founder.period_started_at.checked_add(founder.period_duration) {
        Some(value) => value,
        None => {
            return Err(TreasuryRouterError::ArithmeticOverflow);
        },
    };
    if now >= period_end {
        founder.period_started_at = now;
        founder.earned_current_period = 0;
    }
    let remaining = founder.period_cap.saturating_sub(founder.earned_current_period);
    if requested <= remaining {
        founder.earned_current_period = founder.earned_current_period + requested;
        founder.lifetime_earned = match founder.lifetime_earned.checked_add(requested) {
            Some(value) => value,
            None => {
                return Err(TreasuryRouterError::ArithmeticOverflow);
            },
        };
        return Ok(FounderAllocation { founder_amount: requested, liquidity_overflow_amount: 0 });
    }
    founder.earned_current_period = founder.period_cap;
    founder.lifetime_earned = match founder.lifetime_earned.checked_add(remaining) {
        Some(value) => value,
        None => {
            return Err(TreasuryRouterError::ArithmeticOverflow);
        },
    };
    let overflow = requested - remaining;
    Ok(FounderAllocation { founder_amount: remaining, liquidity_overflow_amount: overflow })
}

/// A successful allocation splits the request exactly between the founder
/// and Liquidity, credits the founder no more than the remaining cap, and
/// keeps a within-cap period earnings within the cap.
pub proof fn lemma_founder_allocation_conserves(c: FounderState, requested: u64, now: i64)
    requires
        founder_allocation_outcome(c, requested, now).0 is Ok,
    ensures
        ({
            let (r, c2) = founder_allocation_outcome(c, requested, now);
            let a = r->Ok_0;
            &&& a.founder_amount + a.liquidity_overflow_amount == requested
            &&& c.enabled ==> a.founder_amount <= founder_remaining(founder_rolled(c, now))
            &&& c.enabled ==> c2.lifetime_earned == c.lifetime_earned + a.founder_amount
            &&& !c.enabled ==> a.founder_amount == 0 && c2 == c
            &&& c.earned_current_period <= c.period_cap ==> c2.earned_current_period <= c2.period_cap
        }),
{
}

/// The amounts of a volume that fall into the four progressive tiers:
/// the first 1M units, the next 9M, the next 90M, and the rest.
pub open spec fn progressive_tiers(volume: int) -> (int, int, int, int) {
    let a1 = if volume < 1_000_000 { volume } else { 1_000_000 };
    let r1 = volume - a1;
    let a2 = if r1 < 9_000_000 { r1 } else { 9_000_000 };
    let r2 = r1 - a2;
    let a3 = if r2 < 90_000_000 { r2 } else { 90_000_000 };
    (a1, a2, a3, r2 - a3)
}

/// Progressive founder compensation of a volume: 10% of the first tier,
/// 7.5% of the second, 5% of the third and 2.5% of the rest, each tier's
/// share rounded down separately.
pub open spec fn progressive_compensation(volume: int) -> int {
    let (a1, a2, a3, rest) = progressive_tiers(volume);
    a1 * 1000 / 10_000 + a2 * 750 / 10_000 + a3 * 500 / 10_000 + rest * 250 / 10_000
}

/// The progressive tier that a volume reaches.
pub open spec fn progressive_tier(volume: u64) -> u8 {
    if volume > 100_000_000 {
        3
    } else if volume > 10_000_000 {
        2
    } else if volume > 1_000_000 {
        1
    } else {
        0
    }
}

/// Applies one tier: the part of `remaining` within `limit` and its share at
/// `rate` basis points, rounded down.
fn apply_tier(remaining: u64, limit: u64, rate: u64) -> (r: (u64, u64))
    requires
        limit <= 90_000_000,
        rate <= 1000,
    ensures
        r.0 == (if remaining < limit { remaining } else { limit }),
        r.1 == r.0 * rate / 10_000,
        r.1 <= r.0,
{
    let applied = if remaining < limit { remaining } else { limit };
    assert(applied * rate <= 90_000_000 * 1000) by (nonlinear_arith)
        requires
            applied <= 90_000_000,
            rate <= 1000,
    ;
    assert(applied * rate / 10_000 <= applied) by (nonlinear_arith)
        requires
            rate <= 1000,
            applied >= 0,
    ;
    (applied, applied * rate / 10_000)
}

/// Calculates the founder request for a fee volume using a progressive
/// marginal schedule whose rate decreases as volume increases:
/// 10% up to 1M units, 7.5% to 10M, 5% to 100M, and 2.5% above.
///
/// On success the founder's tier is set from the volume; where the top tier's
/// share overflows `u64` it fails and nothing changes.
pub fn calculate_progressive_request(founder: &mut FounderState, volume: u64, _founder_bps: u16) -> (r: Result<
    u64,
    TreasuryRouterError,
>)
    ensures
        progressive_tiers(volume as int).3 * 250 > u64::MAX ==> r == Err::<u64, _>(
            TreasuryRouterError::ArithmeticOverflow,
        ) && *final(founder) == *old(founder),
        progressive_tiers(volume as int).3 * 250 <= u64::MAX ==> r == Ok::<u64, TreasuryRouterError>(
            progressive_compensation(volume as int) as u64,
        ) && *final(founder) == (FounderState { current_tier: progressive_tier(volume), ..*old(founder) }),
        progressive_compensation(volume as int) <= volume,
{
    let (a1, s1) = apply_tier(volume, 1_000_000, 1000);
    let r1 = volume - a1;
    let (a2, s2) = apply_tier(r1, 9_000_000, 750);
    let r2 = r1 - a2;
    let (a3, s3) = apply_tier(r2, 90_000_000, 500);
    let rest = r2 - a3;
    assert(rest * 250 / 10_000 <= rest) by (nonlinear_arith)
        requires
            rest >= 0,
    ;
    let mut compensation = s1 + s2 + s3;
    if rest > 0 {
        let scaled = match rest.checked_mul(250) {
            Some(value) => value,
            None => {
                return Err(TreasuryRouterError::ArithmeticOverflow);
            },
        };
        compensation = compensation + scaled / 10_000;
    }
    founder.current_tier = if volume > 100_000_000 {
        3
    } else if volume > 10_000_000 {
        2
    } else if volume > 1_000_000 {
        1
    } else {
        0
    };
    Ok(compensation)
}

/// A rounded-down basis-point share grows with its base.
proof fn lemma_share_monotone(a: int, b: int, rate: int)
    requires
        0 <= a <= b,
        0 <= rate,
    ensures
        a * rate / 10_000 <= b * rate / 10_000,
        a * rate / 10_000 <= a * 1000 / 10_000 || rate > 1000,
{
    assert(a * rate <= b * rate) by (nonlinear_arith)
        requires
            0 <= a <= b,
            0 <= rate,
    ;
    vstd::arithmetic::div_mod::lemma_div_is_ordered(a * rate, b * rate, 10_000);
    if rate <= 1000 {
        assert(a * rate <= a * 1000) by (nonlinear_arith)
            requires
                0 <= a,
                0 <= rate <= 1000,
        ;
        vstd::arithmetic::div_mod::lemma_div_is_ordered(a * rate, a * 1000, 10_000);
    }
}

/// Progressive founder compensation never decreases as volume grows.
pub proof fn lemma_progressive_compensation_monotone(v: int, w: int)
    requires
        0 <= v <= w,
    ensures
        progressive_compensation(v) <= progressive_compensation(w),
{
    let (a1, a2, a3, r) = progressive_tiers(v);
    let (b1, b2, b3, s) = progressive_tiers(w);
    lemma_share_monotone(a1, b1, 1000);
    lemma_share_monotone(a2, b2, 750);
    lemma_share_monotone(a3, b3, 500);
    lemma_share_monotone(r, s, 250);
}

/// The period rules of an enabled founder whose period end and lifetime
/// total fit: the allocation succeeds and splits the request between the
/// founder and Liquidity. Once the period has ended (`now >= started +
/// duration`) a new period starts at `now` with nothing earned, so the
/// founder receives the request up to the whole cap, whatever was earned
/// before; within the period it receives the request up to what is left of
/// the cap.
pub proof fn lemma_founder_period_rules(c: FounderState, requested: u64, now: i64)
    requires
        c.enabled,
        i64::MIN <= c.period_started_at + c.period_duration <= i64::MAX,
        c.lifetime_earned + requested <= u64::MAX,
    ensures
        ({
            let (r, c2) = founder_allocation_outcome(c, requested, now);
            let expired = now >= c.period_started_at + c.period_duration;
            let earned_before: int = if expired { 0 } else { c.earned_current_period as int };
            let left: int = if c.period_cap >= earned_before { c.period_cap - earned_before } else { 0 };
            let granted: int = if requested <= left { requested as int } else { left };
            &&& r is Ok
            &&& r->Ok_0.founder_amount == granted
            &&& r->Ok_0.liquidity_overflow_amount == requested - granted
            &&& c2.period_started_at == (if expired { now } else { c.period_started_at })
            &&& c2.earned_current_period == (if requested <= left { earned_before + requested } else {
                c.period_cap as int
            })
            &&& c2.lifetime_earned == c.lifetime_earned + granted
            &&& c2.period_cap == c.period_cap
            &&& c2.period_duration == c.period_duration
            &&& c2.enabled
            &&& expired && requested <= c.period_cap ==> r->Ok_0.founder_amount == requested
                && r->Ok_0.liquidity_overflow_amount == 0 && c2.earned_current_period == requested
        }),
{
}

/// The progressive schedule, tier by tier: 10% of a volume up to 1M units;
/// above that 100,000 plus 7.5% of the part above 1M, up to 10M; above that
/// 775,000 plus 5% of the part above 10M, up to 100M; and above that
/// 5,275,000 plus 2.5% of the part above 100M.
pub proof fn lemma_progressive_schedule(v: int)
    requires
        v >= 0,
    ensures
        v <= 1_000_000 ==> progressive_compensation(v) == v * 1000 / 10_000,
        1_000_000 <= v <= 10_000_000 ==> progressive_compensation(v) == 100_000 + (v - 1_000_000) * 750 / 10_000,
        10_000_000 <= v <= 100_000_000 ==> progressive_compensation(v) == 775_000 + (v - 10_000_000) * 500
            / 10_000,
        v >= 100_000_000 ==> progressive_compensation(v) == 5_275_000 + (v - 100_000_000) * 250 / 10_000,
{
}

/// Volume added above 100M units earns 2.5%: the request for `v + k` exceeds
/// the request for `v` by the 2.5% share of the whole part above 100M less
/// that of the old part, and by exactly 2.5% of `k` when the old part is a
/// multiple of 400.
pub proof fn lemma_top_tier_increment(v: int, k: int)
    requires
        v >= 100_000_000,
        k >= 0,
    ensures
        progressive_compensation(v + k) - progressive_compensation(v) == (v + k - 100_000_000) * 250 / 10_000 - (v
            - 100_000_000) * 250 / 10_000,
        (v - 100_000_000) % 40 == 0 ==> progressive_compensation(v + k) - progressive_compensation(v) == k * 250
            / 10_000,
{
    lemma_progressive_schedule(v);
    lemma_progressive_schedule(v + k);
    if (v - 100_000_000) % 40 == 0 {
        let m = v - 100_000_000;
        assert((m + k) * 250 / 10_000 == m * 250 / 10_000 + k * 250 / 10_000) by (nonlinear_arith)
            requires
                m % 40 == 0,
                m >= 0,
                k >= 0,
        ;
    }
}

} // verus!
