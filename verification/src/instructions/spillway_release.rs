//! Reserve Spillway: permissionless deployment of the Reserve surplus to the
//! Liquidity Growth destination.
use vstd::prelude::*;

use crate::engines::reserve_deployment::{
    deployment_of, evaluate_reserve_deployment, ReserveDeploymentEvaluation, ReserveDeploymentPolicy,
};
use crate::errors::TreasuryRouterError;
use crate::state::reserve_policy::{reserve_parameters_outcome, ReservePolicy};

verus! {

/// The Spillway decision: the cooldown must have elapsed, the policy rates
/// must be valid, and the evaluation must find a positive deployable surplus
/// that leaves the reserve at or above its floor.
pub open spec fn spillway_plan(
    policy: ReservePolicy,
    reserve_balance: u64,
    liquidity_reference: u64,
    now: i64,
) -> Result<ReserveDeploymentEvaluation, TreasuryRouterError> {
    match policy.cooldown_outcome(now) {
        Err(e) => Err(e),
        Ok(elapsed) => if !elapsed {
            Err(TreasuryRouterError::ReserveDeploymentCooldownActive)
        } else if policy.liquidity_floor_bps > 10_000 || policy.surplus_deployment_bps > 10_000 {
            Err(TreasuryRouterError::ReserveDeploymentEvaluationFailed)
        } else {
            let e = deployment_of(
                reserve_balance,
                liquidity_reference,
                ReserveDeploymentPolicy {
                    minimum_reserve_floor: policy.minimum_reserve_floor,
                    liquidity_floor_bps: policy.liquidity_floor_bps,
                    surplus_deployment_bps: policy.surplus_deployment_bps,
                },
            );
            if e.deployable_amount == 0 {
                Err(TreasuryRouterError::NoDeployableReserveSurplus)
            } else if e.remaining_reserve < e.reserve_floor {
                Err(TreasuryRouterError::ReserveFloorViolation)
            } else {
                Ok(e)
            }
        },
    }
}

/// Decides a Spillway release from the reserve vault balance and the
/// liquidity destination balance, which sets the dynamic floor. The amount
/// to transfer is the evaluation's deployable amount; it never takes the
/// reserve below its floor.
pub fn plan_spillway_release(
    policy: &ReservePolicy,
    reserve_balance: u64,
    liquidity_reference: u64,
    now: i64,
) -> (r: Result<ReserveDeploymentEvaluation, TreasuryRouterError>)
    ensures
        r == spillway_plan(*policy, reserve_balance, liquidity_reference, now),
        r matches Ok(e) ==> e.deployable_amount > 0 && e.remaining_reserve >= e.reserve_floor
            && e.deployable_amount + e.remaining_reserve == reserve_balance,
{
    let elapsed = policy.cooldown_has_elapsed(now)?;
    if !elapsed {
        return Err(TreasuryRouterError::ReserveDeploymentCooldownActive);
    }
    let evaluation = match evaluate_reserve_deployment(
        reserve_balance,
        liquidity_reference,
        ReserveDeploymentPolicy {
            minimum_reserve_floor: policy.minimum_reserve_floor,
            liquidity_floor_bps: policy.liquidity_floor_bps,
            surplus_deployment_bps: policy.surplus_deployment_bps,
        },
    ) {
        Ok(value) => value,
        Err(_) => {
            return Err(TreasuryRouterError::ReserveDeploymentEvaluationFailed);
        },
    };
    if evaluation.deployable_amount == 0 {
        return Err(TreasuryRouterError::NoDeployableReserveSurplus);
    }
    if evaluation.remaining_reserve < evaluation.reserve_floor {
        return Err(TreasuryRouterError::ReserveFloorViolation);
    }
    Ok(evaluation)
}

/// A policy whose parameters pass validation is always accepted by the
/// deployment engine: the Spillway never fails it as unevaluable.
pub proof fn lemma_valid_policy_is_evaluable(
    policy: ReservePolicy,
    reserve_balance: u64,
    liquidity_reference: u64,
    now: i64,
)
    requires
        reserve_parameters_outcome(
            policy.minimum_reserve_floor,
            policy.liquidity_floor_bps,
            policy.surplus_deployment_bps,
            policy.cooldown_seconds,
        ) is Ok,
    ensures
        spillway_plan(policy, reserve_balance, liquidity_reference, now) != Err::<ReserveDeploymentEvaluation, _>(
            TreasuryRouterError::ReserveDeploymentEvaluationFailed,
        ),
{
}

} // verus!
