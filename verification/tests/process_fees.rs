use treasury_router::constants::BPS_DENOMINATOR;
use treasury_router::errors::TreasuryRouterError;
use treasury_router::instructions::process_fees::calculate_share;

fn calculate_total(
    reserve: u64,
    buyback: u64,
    liquidity: u64,
    company: u64,
    founder: u64,
) -> Result<u64, TreasuryRouterError> {
    reserve
        .checked_add(buyback)
        .and_then(|value| value.checked_add(liquidity))
        .and_then(|value| value.checked_add(company))
        .and_then(|value| value.checked_add(founder))
        .ok_or(TreasuryRouterError::ArithmeticOverflow)
}

#[test]
fn calculate_share_returns_exact_whole_number_share() {
    let result = calculate_share(1_000_000, 3_000).unwrap();

    assert_eq!(result, 300_000);
}

#[test]
fn calculate_share_rounds_down() {
    let result = calculate_share(101, 2_000).unwrap();

    assert_eq!(result, 20);
}

#[test]
fn calculate_share_returns_zero_for_zero_amount() {
    let result = calculate_share(0, 3_000).unwrap();

    assert_eq!(result, 0);
}

#[test]
fn calculate_share_returns_zero_for_zero_basis_points() {
    let result = calculate_share(1_000_000, 0).unwrap();

    assert_eq!(result, 0);
}

#[test]
fn calculate_share_returns_full_amount_for_full_basis_points() {
    let result = calculate_share(1_000_000, BPS_DENOMINATOR).unwrap();

    assert_eq!(result, 1_000_000);
}

#[test]
fn calculate_share_handles_u64_max_without_multiplication_overflow() {
    let result = calculate_share(u64::MAX, BPS_DENOMINATOR).unwrap();

    assert_eq!(result, u64::MAX);
}

#[test]
fn locked_normal_allocation_is_conserved() {
    let amount = 1_000_000;

    let reserve = calculate_share(amount, 3_000).unwrap();
    let buyback = calculate_share(amount, 2_000).unwrap();
    let liquidity = calculate_share(amount, 2_000).unwrap();
    let company = calculate_share(amount, 2_000).unwrap();
    let founder = calculate_share(amount, 1_000).unwrap();

    let total = calculate_total(reserve, buyback, liquidity, company, founder).unwrap();

    assert_eq!(reserve, 300_000);
    assert_eq!(buyback, 200_000);
    assert_eq!(liquidity, 200_000);
    assert_eq!(company, 200_000);
    assert_eq!(founder, 100_000);
    assert_eq!(total, amount);
}

#[test]
fn rounding_remainder_is_assigned_to_reserve() {
    let amount = 101;

    let base_reserve = calculate_share(amount, 3_000).unwrap();
    let buyback = calculate_share(amount, 2_000).unwrap();
    let liquidity = calculate_share(amount, 2_000).unwrap();
    let company = calculate_share(amount, 2_000).unwrap();
    let founder = calculate_share(amount, 1_000).unwrap();

    let allocated_before_remainder =
        calculate_total(base_reserve, buyback, liquidity, company, founder).unwrap();

    let rounding_remainder = amount.checked_sub(allocated_before_remainder).unwrap();

    let final_reserve = base_reserve.checked_add(rounding_remainder).unwrap();

    let total = calculate_total(final_reserve, buyback, liquidity, company, founder).unwrap();

    assert_eq!(base_reserve, 30);
    assert_eq!(rounding_remainder, 1);
    assert_eq!(final_reserve, 31);
    assert_eq!(total, amount);
}

#[test]
fn company_cap_overflow_redirected_to_liquidity_is_conserved() {
    let normal_reserve: u64 = 300;
    let buyback: u64 = 200;
    let base_liquidity: u64 = 200;
    let requested_company: u64 = 200;
    let founder = 100;

    let actual_company: u64 = 50;
    let company_overflow = requested_company - actual_company;

    let final_liquidity = base_liquidity.checked_add(company_overflow).unwrap();

    let total = calculate_total(
        normal_reserve,
        buyback,
        final_liquidity,
        actual_company,
        founder,
    )
    .unwrap();

    assert_eq!(company_overflow, 150);
    assert_eq!(final_liquidity, 350);
    assert_eq!(total, 1_000);
}

#[test]
fn founder_cap_overflow_redirected_to_liquidity_is_conserved() {
    let normal_reserve: u64 = 300;
    let buyback: u64 = 200;
    let base_liquidity: u64 = 200;
    let company = 200;
    let requested_founder: u64 = 100;

    let actual_founder: u64 = 25;
    let founder_overflow = requested_founder - actual_founder;

    let final_liquidity = base_liquidity.checked_add(founder_overflow).unwrap();

    let total = calculate_total(
        normal_reserve,
        buyback,
        final_liquidity,
        company,
        actual_founder,
    )
    .unwrap();

    assert_eq!(founder_overflow, 75);
    assert_eq!(final_liquidity, 275);
    assert_eq!(total, 1_000);
}

#[test]
fn simultaneous_company_and_founder_overflow_is_conserved() {
    let normal_reserve: u64 = 300;
    let buyback: u64 = 200;
    let base_liquidity: u64 = 200;

    let requested_company: u64 = 200;
    let actual_company: u64 = 50;
    let company_overflow = requested_company - actual_company;

    let requested_founder: u64 = 100;
    let actual_founder: u64 = 25;
    let founder_overflow = requested_founder - actual_founder;

    let final_liquidity = base_liquidity
        .checked_add(company_overflow)
        .and_then(|value| value.checked_add(founder_overflow))
        .unwrap();

    let total = calculate_total(
        normal_reserve,
        buyback,
        final_liquidity,
        actual_company,
        actual_founder,
    )
    .unwrap();

    assert_eq!(company_overflow, 150);
    assert_eq!(founder_overflow, 75);
    assert_eq!(final_liquidity, 425);
    assert_eq!(total, 1_000);
}

#[test]
fn fully_capped_company_and_founder_allocations_go_to_liquidity() {
    let normal_reserve: u64 = 300;
    let buyback: u64 = 200;
    let base_liquidity: u64 = 200;

    let actual_company: u64 = 0;
    let company_overflow: u64 = 200;

    let actual_founder: u64 = 0;
    let founder_overflow: u64 = 100;

    let final_liquidity = base_liquidity
        .checked_add(company_overflow)
        .and_then(|value| value.checked_add(founder_overflow))
        .unwrap();

    let total = calculate_total(
        normal_reserve,
        buyback,
        final_liquidity,
        actual_company,
        actual_founder,
    )
    .unwrap();

    assert_eq!(final_liquidity, 500);
    assert_eq!(total, 1_000);
}

#[test]
fn allocation_total_fails_on_overflow() {
    let result = calculate_total(u64::MAX, 1, 0, 0, 0);

    assert!(result.is_err());
}


