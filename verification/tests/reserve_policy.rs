use treasury_router::pubkey::Pubkey;
use treasury_router::state::reserve_policy::ReservePolicy;

/// A fresh address, distinct from every other one the test creates.
fn unique_key() -> Pubkey {
    Pubkey::new_from_array(anchor_lang::prelude::Pubkey::new_unique().to_bytes())
}

fn policy() -> ReservePolicy {
    ReservePolicy {
        version: 1,
        protocol: unique_key(),
        treasury: unique_key(),
        minimum_reserve_floor: 1_000,
        liquidity_floor_bps: 2_000,
        surplus_deployment_bps: 2_500,
        cooldown_seconds: 86_400,
        last_deployed_at: 0,
        lifetime_deployed: 0,
        bump: 255,
        reserved: [0; 31],
    }
}

#[test]
fn valid_parameters_are_accepted() {
    assert!(ReservePolicy::validate_parameters(1, 2_000, 2_500, 86_400,).is_ok());
}

#[test]
fn zero_minimum_floor_is_rejected() {
    assert!(ReservePolicy::validate_parameters(0, 2_000, 2_500, 86_400,).is_err());
}

#[test]
fn liquidity_floor_above_one_hundred_percent_is_rejected() {
    assert!(ReservePolicy::validate_parameters(1, 10_001, 2_500, 86_400,).is_err());
}

#[test]
fn zero_deployment_rate_is_rejected() {
    assert!(ReservePolicy::validate_parameters(1, 2_000, 0, 86_400,).is_err());
}

#[test]
fn deployment_rate_above_one_hundred_percent_is_rejected() {
    assert!(ReservePolicy::validate_parameters(1, 2_000, 10_001, 86_400,).is_err());
}

#[test]
fn non_positive_cooldown_is_rejected() {
    assert!(ReservePolicy::validate_parameters(1, 2_000, 2_500, 0,).is_err());

    assert!(ReservePolicy::validate_parameters(1, 2_000, 2_500, -1,).is_err());
}

#[test]
fn first_deployment_is_immediately_eligible() {
    let reserve_policy = policy();

    assert!(reserve_policy.cooldown_has_elapsed(1).unwrap());
}

#[test]
fn cooldown_blocks_early_redeployment() {
    let mut reserve_policy = policy();
    reserve_policy.last_deployed_at = 100;

    assert!(!reserve_policy.cooldown_has_elapsed(86_499).unwrap());
    assert!(reserve_policy.cooldown_has_elapsed(86_500).unwrap());
}

#[test]
fn successful_deployment_updates_timestamp_and_lifetime() {
    let mut reserve_policy = policy();

    reserve_policy.record_deployment(250, 1_000).unwrap();

    assert_eq!(reserve_policy.last_deployed_at, 1_000);
    assert_eq!(reserve_policy.lifetime_deployed, 250);
}

#[test]
fn failed_cooldown_check_does_not_mutate_policy() {
    let mut reserve_policy = policy();
    reserve_policy.last_deployed_at = 1_000;
    reserve_policy.lifetime_deployed = 500;

    let before_timestamp = reserve_policy.last_deployed_at;
    let before_lifetime = reserve_policy.lifetime_deployed;

    assert!(reserve_policy.record_deployment(100, 2_000).is_err());

    assert_eq!(reserve_policy.last_deployed_at, before_timestamp);
    assert_eq!(reserve_policy.lifetime_deployed, before_lifetime);
}

#[test]
fn lifetime_overflow_fails_without_mutation() {
    let mut reserve_policy = policy();
    reserve_policy.lifetime_deployed = u64::MAX;

    assert!(reserve_policy.record_deployment(1, 1_000).is_err());

    assert_eq!(reserve_policy.lifetime_deployed, u64::MAX);
    assert_eq!(reserve_policy.last_deployed_at, 0);
}


