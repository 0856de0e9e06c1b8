//! Founder annual US$3,000,000 cap in USD micro-units.
use vstd::prelude::*;

use crate::errors::TreasuryRouterError;
use crate::state::founder_usd_cap::FounderUsdCapState;

verus! {

/// USD accounting precision.
pub const USD_E6_SCALE: u128 = 1_000_000;

/// Result of applying the Founder annual USD cap.
#[derive(Clone, Copy, Debug, PartialEq, Eq, Structural)]
pub struct FounderUsdCapAllocation {
    /// Founder token amount permitted by the remaining annual USD cap.
    pub founder_token_amount: u64,
    /// Founder token amount redirected to Liquidity Growth.
    pub liquidity_overflow_token_amount: u64,
    /// USD micro-units charged to the Founder annual cap.
    pub founder_usd_e6: u64,
    /// Oracle price used in the calculation.
    pub oracle_price: i64,
    /// Oracle exponent used in the calculation.
    pub oracle_exponent: i32,
}

/// Ten to the power `n`.
pub open spec fn pow10(n: nat) -> int
    decreases n,
{
    if n == 0 {
        1
    } else {
        10 * pow10((n - 1) as nat)
    }
}

/// Powers of ten are positive and grow with the exponent.
pub proof fn lemma_pow10_grows(m: nat, n: nat)
    requires
        m <= n,
    ensures
        1 <= pow10(m) <= pow10(n),
    decreases n,
{
    if n > m {
        lemma_pow10_grows(m, (n - 1) as nat);
    } else if m > 0 {
        lemma_pow10_grows((m - 1) as nat, (m - 1) as nat);
    }
}

/// Magnitude of a decimal exponent.
pub open spec fn exponent_magnitude(exponent: i32) -> nat {
    if exponent >= 0 { exponent as nat } else { (-(exponent as int)) as nat }
}


/// USD micro-units that `raw_token_amount` raw units represent at
/// `price × 10^exponent` USD per token with `token_decimals` decimals,
/// rounded down; errors in the order the computation meets them: a
/// non-positive price, then any intermediate beyond `u128`, then a result
/// beyond `u64`.
pub open spec fn usd_value(raw_token_amount: u64, token_decimals: u8, price: i64, exponent: i32) -> Result<
    u64,
    TreasuryRouterError,
> {
    let n1 = raw_token_amount * price;
    let n = n1 * 1_000_000;
    let scale = pow10(token_decimals as nat);
    let p = pow10(exponent_magnitude(exponent));
    if price <= 0 {
        Err(TreasuryRouterError::InvalidFounderOraclePrice)
    } else if n1 > u128::MAX || n > u128::MAX {
        Err(TreasuryRouterError::ArithmeticOverflow)
    } else if scale > u128::MAX || p > u128::MAX {
        Err(TreasuryRouterError::ArithmeticOverflow)
    } else if exponent >= 0 && n * p > u128::MAX {
        Err(TreasuryRouterError::ArithmeticOverflow)
    } else if exponent < 0 && scale * p > u128::MAX {
        Err(TreasuryRouterError::ArithmeticOverflow)
    } else {
        let v = if exponent >= 0 { (n * p) / scale } else { n / (scale * p) };
        if v > u64::MAX {
            Err(TreasuryRouterError::ArithmeticOverflow)
        } else {
            Ok(v as u64)
        }
    }
}

/// Raw token units that `usd_e6` USD micro-units buy at `price × 10^exponent`
/// USD per token with `token_decimals` decimals, rounded down; errors in the
/// order the computation meets them.
pub open spec fn token_value(usd_e6: u64, token_decimals: u8, price: i64, exponent: i32) -> Result<
    u64,
    TreasuryRouterError,
> {
    let scale = pow10(token_decimals as nat);
    let p = pow10(exponent_magnitude(exponent));
    let numerator = usd_e6 * scale;
    let price_usd = price * 1_000_000;
    if price <= 0 {
        Err(TreasuryRouterError::InvalidFounderOraclePrice)
    } else if scale > u128::MAX || numerator > u128::MAX || p > u128::MAX {
        Err(TreasuryRouterError::ArithmeticOverflow)
    } else if exponent >= 0 && price_usd * p > u128::MAX {
        Err(TreasuryRouterError::ArithmeticOverflow)
    } else if exponent < 0 && numerator * p > u128::MAX {
        Err(TreasuryRouterError::ArithmeticOverflow)
    } else {
        let v = if exponent >= 0 { numerator / (price_usd * p) } else { (numerator * p) / price_usd };
        if v > u64::MAX {
            Err(TreasuryRouterError::ArithmeticOverflow)
        } else {
            Ok(v as u64)
        }
    }
}

/// Ten to the power `exponent`, or an overflow error where it exceeds
/// `u128`.
fn checked_pow10(exponent: u32) -> (r: Result<u128, TreasuryRouterError>)
    ensures
        pow10(exponent as nat) <= u128::MAX ==> r == Ok::<u128, TreasuryRouterError>(pow10(exponent as nat) as u128),
        pow10(exponent as nat) > u128::MAX ==> r == Err::<u128, _>(TreasuryRouterError::ArithmeticOverflow),
{
    let mut acc: u128 = 1;
    let mut i: u32 = 0;
    while i < exponent
        invariant
            i <= exponent,
            acc == pow10(i as nat),
        decreases exponent - i,
    {
        match acc.checked_mul(10) {
            Some(value) => {
                acc = value;
            },
            None => {
                proof {
                    lemma_pow10_grows((i + 1) as nat, exponent as nat);
                }
                return Err(TreasuryRouterError::ArithmeticOverflow);
            },
        }
        i = i + 1;
    }
    Ok(acc)
}

/// Magnitude of a decimal exponent as an unsigned integer.
fn unsigned_magnitude(exponent: i32) -> (r: u32)
    ensures
        r == exponent_magnitude(exponent),
{
    if exponent >= 0 {
        exponent as u32
    } else {
        (-(exponent as i64)) as u32
    }
}

/// Converts raw settlement-token units into USD micro-units, rounded down so
/// that no more USD is recorded than the tokens represent.
///
/// The price means `price × 10^exponent` USD per whole token, and a whole
/// token is `10^token_decimals` raw units.
pub fn token_amount_to_usd_e6(raw_token_amount: u64, token_decimals: u8, price: i64, exponent: i32) -> (r: Result<
    u64,
    TreasuryRouterError,
>)
    ensures
        r == usd_value(raw_token_amount, token_decimals, price, exponent),
{
    if price <= 0 {
        return Err(TreasuryRouterError::InvalidFounderOraclePrice);
    }
    proof {
        lemma_pow10_grows(0, token_decimals as nat);
        lemma_pow10_grows(0, exponent_magnitude(exponent));
    }
    let n1 = match (raw_token_amount as u128).checked_mul(price as u128) {
        Some(value) => value,
        None => {
            return Err(TreasuryRouterError::ArithmeticOverflow);
        },
    };
    let numerator = match n1.checked_mul(USD_E6_SCALE) {
        Some(value) => value,
        None => {
            return Err(TreasuryRouterError::ArithmeticOverflow);
        },
    };
    let token_scale = checked_pow10(token_decimals as u32)?;
    proof {
        lemma_pow10_grows(0, token_decimals as nat);
        lemma_pow10_grows(0, exponent_magnitude(exponent));
    }
    let usd_e6 = if exponent >= 0 {
        let p = checked_pow10(exponent as u32)?;
        match numerator.checked_mul(p) {
            Some(value) => value / token_scale,
            None => {
                return Err(TreasuryRouterError::ArithmeticOverflow);
            },
        }
    } else {
        let p = checked_pow10(unsigned_magnitude(exponent))?;
        assert(token_scale * p > 0) by (nonlinear_arith)
            requires
                token_scale >= 1,
                p >= 1,
        ;
        match token_scale.checked_mul(p) {
            Some(value) => numerator / value,
            None => {
                return Err(TreasuryRouterError::ArithmeticOverflow);
            },
        }
    };
    if usd_e6 > u64::MAX as u128 {
        return Err(TreasuryRouterError::ArithmeticOverflow);
    }
    Ok(usd_e6 as u64)
}

/// Converts a USD allowance into the most raw settlement-token units it
/// buys, rounded down so that an allocation cannot exceed the cap.
pub fn usd_e6_to_token_amount(usd_e6: u64, token_decimals: u8, price: i64, exponent: i32) -> (r: Result<
    u64,
    TreasuryRouterError,
>)
    ensures
        r == token_value(usd_e6, token_decimals, price, exponent),
{
    if price <= 0 {
        return Err(TreasuryRouterError::InvalidFounderOraclePrice);
    }
    proof {
        lemma_pow10_grows(0, token_decimals as nat);
        lemma_pow10_grows(0, exponent_magnitude(exponent));
    }
    let token_scale = checked_pow10(token_decimals as u32)?;
    let positive_price = price as u128;
    let numerator = match (usd_e6 as u128).checked_mul(token_scale) {
        Some(value) => value,
        None => {
            return Err(TreasuryRouterError::ArithmeticOverflow);
        },
    };
    proof {
        lemma_pow10_grows(0, token_decimals as nat);
        lemma_pow10_grows(0, exponent_magnitude(exponent));
    }
    let price_usd = positive_price * USD_E6_SCALE;
    let raw_tokens = if exponent >= 0 {
        let p = checked_pow10(exponent as u32)?;
        assert(price_usd * p > 0) by (nonlinear_arith)
            requires
                price_usd >= 1,
                p >= 1,
        ;
        match price_usd.checked_mul(p) {
            Some(value) => numerator / value,
            None => {
                return Err(TreasuryRouterError::ArithmeticOverflow);
            },
        }
    } else {
        let p = checked_pow10(unsigned_magnitude(exponent))?;
        match numerator.checked_mul(p) {
            Some(value) => value / price_usd,
            None => {
                return Err(TreasuryRouterError::ArithmeticOverflow);
            },
        }
    };
    if raw_tokens > u64::MAX as u128 {
        return Err(TreasuryRouterError::ArithmeticOverflow);
    }
    Ok(raw_tokens as u64)
}

/// The founder tokens that fit under a remaining USD allowance: the whole
/// request where its USD value fits, otherwise the tokens the allowance buys,
/// never more than requested.
pub open spec fn capped_tokens(
    requested: u64,
    requested_usd: u64,
    remaining: u64,
    token_decimals: u8,
    price: i64,
    exponent: i32,
) -> Result<u64, TreasuryRouterError> {
    if requested_usd <= remaining {
        Ok(requested)
    } else {
        match token_value(remaining, token_decimals, price, exponent) {
            Err(e) => Err(e),
            Ok(t) => Ok(if t <= requested { t } else { requested }),
        }
    }
}

/// The result and final state of applying the annual cap to a founder
/// request; see `apply_founder_usd_cap`.
#[verifier::opaque]
pub open spec fn founder_cap_outcome(
    s: FounderUsdCapState,
    requested: u64,
    token_decimals: u8,
    price: i64,
    exponent: i32,
    now: i64,
) -> (Result<FounderUsdCapAllocation, TreasuryRouterError>, FounderUsdCapState) {
    match s.configuration_outcome() {
        Err(e) => (Err(e), s),
        Ok(_) => match s.rolled(now) {
            Err(e) => (Err(e), s),
            Ok(s1) => if requested == 0 {
                (
                    Ok(
                        FounderUsdCapAllocation {
                            founder_token_amount: 0,
                            liquidity_overflow_token_amount: 0,
                            founder_usd_e6: 0,
                            oracle_price: price,
                            oracle_exponent: exponent,
                        },
                    ),
                    s1,
                )
            } else {
                match usd_value(requested, token_decimals, price, exponent) {
                    Err(e) => (Err(e), s1),
                    Ok(requested_usd) => if s1.earned_current_period_usd_e6 > s1.annual_cap_usd_e6 {
                        (Err(TreasuryRouterError::FounderAnnualUsdAccountingViolation), s1)
                    } else {
                        let remaining = (s1.annual_cap_usd_e6 - s1.earned_current_period_usd_e6) as u64;
                        match capped_tokens(requested, requested_usd, remaining, token_decimals, price, exponent) {
                            Err(e) => (Err(e), s1),
                            Ok(tokens) => match usd_value(tokens, token_decimals, price, exponent) {
                                Err(e) => (Err(e), s1),
                                Ok(founder_usd) => if founder_usd > remaining {
                                    (Err(TreasuryRouterError::FounderAnnualUsdCapExceeded), s1)
                                } else {
                                    let s2 = FounderUsdCapState {
                                        earned_current_period_usd_e6: (s1.earned_current_period_usd_e6
                                            + founder_usd) as u64,
                                        ..s1
                                    };
                                    if s1.lifetime_earned_usd_e6 + founder_usd > u128::MAX {
                                        (Err(TreasuryRouterError::ArithmeticOverflow), s2)
                                    } else {
                                        (
                                            Ok(
                                                FounderUsdCapAllocation {
                                                    founder_token_amount: tokens,
                                                    liquidity_overflow_token_amount: (requested - tokens) as u64,
                                                    founder_usd_e6: founder_usd,
                                                    oracle_price: price,
                                                    oracle_exponent: exponent,
                                                },
                                            ),
                                            FounderUsdCapState {
                                                lifetime_earned_usd_e6: (s1.lifetime_earned_usd_e6
                                                    + founder_usd) as u128,
                                                ..s2
                                            },
                                        )
                                    }
                                },
                            },
                        }
                    },
                }
            },
        },
    }
}

/// Applies the US$3,000,000 annual Founder cap to a founder token request.
///
/// After validating the configuration and rolling the annual period, the
/// request is granted in full where its USD value fits under the remaining
/// allowance, and otherwise cut to the tokens the allowance buys; every token
/// not granted is redirected to Liquidity Growth. The USD value charged never
/// exceeds the remaining allowance. Errors leave the state as the last
/// completed step left it (see `founder_cap_outcome`).
pub fn apply_founder_usd_cap(
    state: &mut FounderUsdCapState,
    requested_founder_tokens: u64,
    settlement_token_decimals: u8,
    oracle_price: i64,
    oracle_exponent: i32,
    now: i64,
) -> (r: Result<FounderUsdCapAllocation, TreasuryRouterError>)
    ensures
        (r, *final(state)) == founder_cap_outcome(
            *old(state),
            requested_founder_tokens,
            settlement_token_decimals,
            oracle_price,
            oracle_exponent,
            now,
        ),
{
    proof {
        reveal(founder_cap_outcome);
    }
    state.validate_configuration()?;
    state.roll_period_if_elapsed(now)?;
    if requested_founder_tokens == 0 {
        return Ok(
            FounderUsdCapAllocation {
                founder_token_amount: 0,
                liquidity_overflow_token_amount: 0,
                founder_usd_e6: 0,
                oracle_price,
                oracle_exponent,
            },
        );
    }
    let requested_usd_e6 = token_amount_to_usd_e6(
        requested_founder_tokens,
        settlement_token_decimals,
        oracle_price,
        oracle_exponent,
    )?;
    let remaining_usd_e6 = state.remaining_usd_e6()?;
    let founder_token_amount = if requested_usd_e6 <= remaining_usd_e6 {
        requested_founder_tokens
    } else {
        let affordable = usd_e6_to_token_amount(
            remaining_usd_e6,
            settlement_token_decimals,
            oracle_price,
            oracle_exponent,
        )?;
        if affordable <= requested_founder_tokens {
            affordable
        } else {
            requested_founder_tokens
        }
    };
    let founder_usd_e6 = token_amount_to_usd_e6(
        founder_token_amount,
        settlement_token_decimals,
        oracle_price,
        oracle_exponent,
    )?;
    if founder_usd_e6 > remaining_usd_e6 {
        return Err(TreasuryRouterError::FounderAnnualUsdCapExceeded);
    }
    let liquidity_overflow_token_amount = requested_founder_tokens - founder_token_amount;
    state.earned_current_period_usd_e6 = state.earned_current_period_usd_e6 + founder_usd_e6;
    state.lifetime_earned_usd_e6 = match state.lifetime_earned_usd_e6.checked_add(founder_usd_e6 as u128) {
        Some(value) => value,
        None => {
            return Err(TreasuryRouterError::ArithmeticOverflow);
        },
    };
    if state.earned_current_period_usd_e6 > state.annual_cap_usd_e6 {
        return Err(TreasuryRouterError::FounderAnnualUsdCapExceeded);
    }
    Ok(
        FounderUsdCapAllocation {
            founder_token_amount,
            liquidity_overflow_token_amount,
            founder_usd_e6,
            oracle_price,
            oracle_exponent,
        },
    )
}

/// The annual cap holds: a successful application splits the request
/// exactly between the founder and Liquidity, charges at most the remaining
/// allowance, grants the whole request when its value fits, and leaves the
/// period's earnings within the cap (an empty request changes nothing beyond
/// the period roll).
pub proof fn lemma_founder_cap_respected(
    s: FounderUsdCapState,
    requested: u64,
    token_decimals: u8,
    price: i64,
    exponent: i32,
    now: i64,
)
    requires
        founder_cap_outcome(s, requested, token_decimals, price, exponent, now).0 is Ok,
    ensures
        ({
            let (r, s2) = founder_cap_outcome(s, requested, token_decimals, price, exponent, now);
            let a = r->Ok_0;
            let s1 = s.rolled(now)->Ok_0;
            &&& s.rolled(now) is Ok
            &&& a.founder_token_amount + a.liquidity_overflow_token_amount == requested
            &&& s2.earned_current_period_usd_e6 == s1.earned_current_period_usd_e6 + a.founder_usd_e6
            &&& requested > 0 ==> s2.earned_current_period_usd_e6 <= s2.annual_cap_usd_e6
            &&& requested == 0 ==> s2 == s1 && a.founder_usd_e6 == 0
            &&& s2.annual_cap_usd_e6 == s.annual_cap_usd_e6
            &&& requested > 0 ==> (usd_value(requested, token_decimals, price, exponent) matches Ok(v)
                && v <= s1.annual_cap_usd_e6 - s1.earned_current_period_usd_e6 ==> a.founder_token_amount
                == requested)
        }),
{
    reveal(founder_cap_outcome);
}

/// Converting a floored quotient back floors again, so the round trip never
/// gains: `((u * a) / b) * b / a <= u`.
proof fn lemma_floor_round_trip(u: int, a: int, b: int)
    requires
        u >= 0,
        a > 0,
        b > 0,
    ensures
        (((u * a) / b) * b) / a <= u,
{
    let q = (u * a) / b;
    assert(q * b <= u * a) by (nonlinear_arith)
        requires
            q == (u * a) / b,
            b > 0,
    ;
    assert((q * b) / a <= (u * a) / a) by (nonlinear_arith)
        requires
            q * b <= u * a,
            a > 0,
    ;
    assert((u * a) / a == u) by (nonlinear_arith)
        requires
            a > 0,
    ;
}

/// The USD value of a token amount is its price in USD micro-units rounded
/// down: with `value = tokens × price × 10^exponent` USD (the amount in raw
/// units of `10^-decimals` tokens), the result `v` satisfies
/// `v ≤ value × 10^6 < v + 1`.
pub proof fn lemma_usd_value_is_rounded_price(tokens: u64, token_decimals: u8, price: i64, exponent: i32)
    requires
        usd_value(tokens, token_decimals, price, exponent) is Ok,
    ensures
        ({
            let v = usd_value(tokens, token_decimals, price, exponent)->Ok_0 as int;
            let scale = pow10(token_decimals as nat);
            let p = pow10(exponent_magnitude(exponent));
            &&& exponent >= 0 ==> v * scale <= tokens * price * p * 1_000_000 < (v + 1) * scale
            &&& exponent < 0 ==> v * (scale * p) <= tokens * price * 1_000_000 < (v + 1) * (scale * p)
        }),
{
    let scale = pow10(token_decimals as nat);
    let p = pow10(exponent_magnitude(exponent));
    lemma_pow10_grows(0, token_decimals as nat);
    lemma_pow10_grows(0, exponent_magnitude(exponent));
    let n = tokens * price * 1_000_000;
    assert(n >= 0) by (nonlinear_arith)
        requires
            n == tokens * price * 1_000_000,
            tokens >= 0,
            price > 0,
    ;
    if exponent >= 0 {
        let q = (n * p) / scale;
        assert(q * scale <= n * p < (q + 1) * scale && q >= 0) by (nonlinear_arith)
            requires
                q == (n * p) / scale,
                scale >= 1,
                n >= 0,
                p >= 1,
        ;
        assert(n * p == tokens * price * p * 1_000_000) by (nonlinear_arith)
            requires
                n == tokens * price * 1_000_000,
        ;
    } else {
        let q = n / (scale * p);
        assert(scale * p >= 1) by (nonlinear_arith)
            requires
                scale >= 1,
                p >= 1,
        ;
        assert(q * (scale * p) <= n < (q + 1) * (scale * p) && q >= 0) by (nonlinear_arith)
            requires
                q == n / (scale * p),
                scale * p >= 1,
                n >= 0,
        ;
    }
}

/// The token amount that a USD amount buys is rounded down: with the token
/// price `price × 10^exponent` USD, the result `t` raw units (of
/// `10^-decimals` tokens) satisfy `t × price ≤ usd < (t + 1) × price` in the
/// same units.
pub proof fn lemma_token_value_is_rounded_quotient(usd_e6: u64, token_decimals: u8, price: i64, exponent: i32)
    requires
        token_value(usd_e6, token_decimals, price, exponent) is Ok,
    ensures
        ({
            let t = token_value(usd_e6, token_decimals, price, exponent)->Ok_0 as int;
            let scale = pow10(token_decimals as nat);
            let p = pow10(exponent_magnitude(exponent));
            &&& exponent >= 0 ==> t * (price * 1_000_000 * p) <= usd_e6 * scale < (t + 1) * (price * 1_000_000 * p)
            &&& exponent < 0 ==> t * (price * 1_000_000) <= usd_e6 * scale * p < (t + 1) * (price * 1_000_000)
        }),
{
    let scale = pow10(token_decimals as nat);
    let p = pow10(exponent_magnitude(exponent));
    lemma_pow10_grows(0, token_decimals as nat);
    lemma_pow10_grows(0, exponent_magnitude(exponent));
    let k = price * 1_000_000;
    if exponent >= 0 {
        let d = k * p;
        assert(d >= 1 && usd_e6 * scale >= 0) by (nonlinear_arith)
            requires
                d == k * p,
                k >= 1,
                p >= 1,
                scale >= 1,
                usd_e6 >= 0,
        ;
        let q = (usd_e6 * scale) / d;
        assert(q * d <= usd_e6 * scale < (q + 1) * d && q >= 0) by (nonlinear_arith)
            requires
                q == (usd_e6 * scale) / d,
                d >= 1,
                usd_e6 * scale >= 0,
        ;
    } else {
        let n = usd_e6 * scale * p;
        assert(n >= 0) by (nonlinear_arith)
            requires
                n == usd_e6 * scale * p,
                usd_e6 >= 0,
                scale >= 1,
                p >= 1,
        ;
        let q = n / k;
        assert(q * k <= n < (q + 1) * k && q >= 0) by (nonlinear_arith)
            requires
                q == n / k,
                k >= 1,
                n >= 0,
        ;
    }
}

/// Both conversions round down, so the tokens that a USD amount buys are
/// never worth more than that amount: converting them back gives at most
/// the USD amount, unless the conversion back overflows.
pub proof fn lemma_conversions_round_down(usd_e6: u64, token_decimals: u8, price: i64, exponent: i32)
    requires
        token_value(usd_e6, token_decimals, price, exponent) is Ok,
    ensures
        ({
            let tokens = token_value(usd_e6, token_decimals, price, exponent)->Ok_0;
            match usd_value(tokens, token_decimals, price, exponent) {
                Ok(back) => back <= usd_e6,
                Err(e) => e == TreasuryRouterError::ArithmeticOverflow,
            }
        }),
{
    let scale = pow10(token_decimals as nat);
    let p = pow10(exponent_magnitude(exponent));
    lemma_pow10_grows(0, token_decimals as nat);
    lemma_pow10_grows(0, exponent_magnitude(exponent));
    let t = token_value(usd_e6, token_decimals, price, exponent)->Ok_0;
    let k = price * 1_000_000;
    if exponent >= 0 {
        assert(k * p > 0 && (usd_e6 * scale) / (k * p) >= 0) by (nonlinear_arith)
            requires
                k > 0,
                p >= 1,
                scale >= 1,
                usd_e6 >= 0,
        ;
        assert(t == (usd_e6 * scale) / (k * p));
        assert(t * price * 1_000_000 * p == t * (k * p)) by (nonlinear_arith)
            requires
                k == price * 1_000_000,
        ;
        lemma_floor_round_trip(usd_e6 as int, scale, k * p);
    } else {
        assert(scale * p > 0 && (usd_e6 * scale * p) / k >= 0) by (nonlinear_arith)
            requires
                scale >= 1,
                p >= 1,
                k > 0,
                usd_e6 >= 0,
        ;
        assert(t == (usd_e6 * scale * p) / k);
        assert(usd_e6 * scale * p == usd_e6 * (scale * p)) by (nonlinear_arith);
        assert(t * price * 1_000_000 == t * k) by (nonlinear_arith)
            requires
                k == price * 1_000_000,
        ;
        lemma_floor_round_trip(usd_e6 as int, scale * p, k);
    }
}

} // verus!
