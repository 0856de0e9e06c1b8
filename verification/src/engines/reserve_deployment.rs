//! Deterministic reserve-surplus deployment.
//!
//! Only value above the calculated reserve floor may ever become deployable:
//! after a deployment, `remaining_reserve >= reserve_floor`.
use vstd::prelude::*;

verus! {

/// Basis-point denominator representing 100%.
pub const BASIS_POINTS_DENOMINATOR: u16 = 10_000;

/// Classification of the current reserve position.
#[derive(Clone, Copy, Debug, PartialEq, Eq, Structural)]
pub enum ReserveDeploymentStage {
    /// Reserve balance is below the required floor.
    Filling,
    /// Reserve balance exactly equals the required floor.
    Healthy,
    /// Reserve balance exceeds the floor and contains deployable surplus.
    Surplus,
}

/// Inputs of the reserve floor and deployment limit.
///
/// The effective floor is
/// `max(minimum_reserve_floor, liquidity_reference × liquidity_floor_bps / 10_000)`,
/// and `surplus_deployment_bps` of the surplus above it may be deployed per
/// evaluation.
#[derive(Clone, Copy, Debug, PartialEq, Eq, Structural)]
pub struct ReserveDeploymentPolicy {
    pub minimum_reserve_floor: u64,
    pub liquidity_floor_bps: u16,
    pub surplus_deployment_bps: u16,
}

/// Complete accounting result of one reserve evaluation.
#[derive(Clone, Copy, Debug, PartialEq, Eq, Structural)]
pub struct ReserveDeploymentEvaluation {
    pub stage: ReserveDeploymentStage,
    pub reserve_balance: u64,
    pub reserve_floor: u64,
    /// Reserve value strictly above the floor before deployment.
    pub gross_surplus: u64,
    /// Maximum value that may be deployed during this evaluation.
    pub deployable_amount: u64,
    /// Reserve balance remaining after deploying `deployable_amount`.
    pub remaining_reserve: u64,
}

/// Errors produced by invalid policy inputs or impossible arithmetic.
#[derive(Clone, Copy, Debug, PartialEq, Eq, Structural)]
pub enum ReserveDeploymentError {
    InvalidLiquidityFloorRate,
    InvalidSurplusDeploymentRate,
    ArithmeticOverflow,
    FloorInvariantViolation,
}

/// A basis-point share of an amount, rounded down.
pub open spec fn bps_share(amount: u64, basis_points: u16) -> int {
    (amount * basis_points) / 10_000
}

/// The effective reserve floor.
pub open spec fn reserve_floor_of(minimum_reserve_floor: u64, liquidity_reference: u64, liquidity_floor_bps: u16) -> int {
    let liquidity_floor = bps_share(liquidity_reference, liquidity_floor_bps);
    if minimum_reserve_floor >= liquidity_floor {
        minimum_reserve_floor as int
    } else {
        liquidity_floor
    }
}

/// The evaluation of a reserve balance under a policy with valid rates.
pub open spec fn deployment_of(
    reserve_balance: u64,
    liquidity_reference: u64,
    policy: ReserveDeploymentPolicy,
) -> ReserveDeploymentEvaluation {
    let floor = reserve_floor_of(policy.minimum_reserve_floor, liquidity_reference, policy.liquidity_floor_bps);
    let stage = if reserve_balance < floor {
        ReserveDeploymentStage::Filling
    } else if reserve_balance == floor {
        ReserveDeploymentStage::Healthy
    } else {
        ReserveDeploymentStage::Surplus
    };
    let gross = if reserve_balance > floor { reserve_balance - floor } else { 0 };
    let deployable = if stage == ReserveDeploymentStage::Surplus {
        bps_share(gross as u64, policy.surplus_deployment_bps)
    } else {
        0
    };
    ReserveDeploymentEvaluation {
        stage,
        reserve_balance,
        reserve_floor: floor as u64,
        gross_surplus: gross as u64,
        deployable_amount: deployable as u64,
        remaining_reserve: (reserve_balance - deployable) as u64,
    }
}

/// A share of at most 100% is at most the whole amount.
pub proof fn lemma_bps_share_bounded(amount: u64, basis_points: u16)
    requires
        basis_points <= 10_000,
    ensures
        0 <= bps_share(amount, basis_points) <= amount,
{
    assert(0 <= amount * basis_points <= amount * 10_000) by (nonlinear_arith)
        requires
            basis_points <= 10_000,
    ;
    vstd::arithmetic::div_mod::lemma_div_is_ordered(amount * basis_points, amount * 10_000, 10_000);
    assert(amount * 10_000 == 10_000 * amount) by (nonlinear_arith);
    vstd::arithmetic::div_mod::lemma_div_multiples_vanish(amount as int, 10_000);
    vstd::arithmetic::div_mod::lemma_div_pos_is_pos(amount * basis_points, 10_000);
}

/// A basis-point share without overflowing `u64`.
fn calculate_bps_share(amount: u64, basis_points: u16) -> (r: Result<u64, ReserveDeploymentError>)
    ensures
        basis_points > 10_000 ==> r == Err::<u64, _>(ReserveDeploymentError::InvalidLiquidityFloorRate),
        basis_points <= 10_000 ==> r == Ok::<u64, ReserveDeploymentError>(bps_share(amount, basis_points) as u64),
{
    if basis_points > BASIS_POINTS_DENOMINATOR {
        return Err(ReserveDeploymentError::InvalidLiquidityFloorRate);
    }
    proof {
        lemma_bps_share_bounded(amount, basis_points);
    }
    assert((amount as int) * (basis_points as int) <= u64::MAX * 10_000) by (nonlinear_arith)
        requires
            basis_points <= 10_000,
            amount <= u64::MAX,
    ;
    let product = (amount as u128) * (basis_points as u128);
    let result = product / (BASIS_POINTS_DENOMINATOR as u128);
    Ok(result as u64)
}

/// The effective reserve floor: the liquidity-scaled floor, but never below
/// `minimum_reserve_floor`.
pub fn calculate_reserve_floor(minimum_reserve_floor: u64, liquidity_reference: u64, liquidity_floor_bps: u16) -> (r:
    Result<u64, ReserveDeploymentError>)
    ensures
        liquidity_floor_bps > 10_000 ==> r == Err::<u64, _>(ReserveDeploymentError::InvalidLiquidityFloorRate),
        liquidity_floor_bps <= 10_000 ==> r == Ok::<u64, ReserveDeploymentError>(
            reserve_floor_of(minimum_reserve_floor, liquidity_reference, liquidity_floor_bps) as u64,
        ),
        liquidity_floor_bps <= 10_000 ==> minimum_reserve_floor <= reserve_floor_of(
            minimum_reserve_floor,
            liquidity_reference,
            liquidity_floor_bps,
        ) <= u64::MAX,
{
    let liquidity_floor = calculate_bps_share(liquidity_reference, liquidity_floor_bps)?;
    proof {
        lemma_bps_share_bounded(liquidity_reference, liquidity_floor_bps);
    }
    if minimum_reserve_floor >= liquidity_floor {
        Ok(minimum_reserve_floor)
    } else {
        Ok(liquidity_floor)
    }
}

/// Evaluates the reserve and the maximum safe deployment.
///
/// Rates above 100% fail closed. A successful evaluation conserves value
/// (`deployable_amount + remaining_reserve == reserve_balance`), never deploys
/// more than the surplus, never takes a reserve at or above the floor below
/// it, and deploys nothing unless the reserve is strictly above the floor.
pub fn evaluate_reserve_deployment(
    reserve_balance: u64,
    liquidity_reference: u64,
    policy: ReserveDeploymentPolicy,
) -> (r: Result<ReserveDeploymentEvaluation, ReserveDeploymentError>)
    ensures
        policy.liquidity_floor_bps > 10_000 ==> r == Err::<ReserveDeploymentEvaluation, _>(
            ReserveDeploymentError::InvalidLiquidityFloorRate,
        ),
        policy.liquidity_floor_bps <= 10_000 && policy.surplus_deployment_bps > 10_000 ==> r == Err::<
            ReserveDeploymentEvaluation,
            _,
        >(ReserveDeploymentError::InvalidSurplusDeploymentRate),
        policy.liquidity_floor_bps <= 10_000 && policy.surplus_deployment_bps <= 10_000 ==> r == Ok::<
            ReserveDeploymentEvaluation,
            ReserveDeploymentError,
        >(deployment_of(reserve_balance, liquidity_reference, policy)),
        r matches Ok(e) ==> {
            &&& e.deployable_amount <= e.gross_surplus
            &&& e.deployable_amount + e.remaining_reserve == reserve_balance
            &&& reserve_balance >= e.reserve_floor ==> e.remaining_reserve >= e.reserve_floor
            &&& e.stage != ReserveDeploymentStage::Surplus ==> e.deployable_amount == 0
                && e.remaining_reserve == reserve_balance
            &&& e.stage == ReserveDeploymentStage::Filling <==> reserve_balance < e.reserve_floor
            &&& e.stage == ReserveDeploymentStage::Healthy <==> reserve_balance == e.reserve_floor
            &&& e.stage == ReserveDeploymentStage::Surplus <==> reserve_balance > e.reserve_floor
            &&& e.gross_surplus == (if reserve_balance > e.reserve_floor { reserve_balance - e.reserve_floor } else { 0 })
        },
{
    if policy.liquidity_floor_bps > BASIS_POINTS_DENOMINATOR {
        return Err(ReserveDeploymentError::InvalidLiquidityFloorRate);
    }
    if policy.surplus_deployment_bps > BASIS_POINTS_DENOMINATOR {
        return Err(ReserveDeploymentError::InvalidSurplusDeploymentRate);
    }
    let reserve_floor = calculate_reserve_floor(
        policy.minimum_reserve_floor,
        liquidity_reference,
        policy.liquidity_floor_bps,
    )?;
    let stage = if reserve_balance < reserve_floor {
        ReserveDeploymentStage::Filling
    } else if reserve_balance == reserve_floor {
        ReserveDeploymentStage::Healthy
    } else {
        ReserveDeploymentStage::Surplus
    };
    let gross_surplus = reserve_balance.saturating_sub(reserve_floor);
    let deployable_amount = if stage == ReserveDeploymentStage::Surplus {
        proof {
            lemma_bps_share_bounded(gross_surplus, policy.surplus_deployment_bps);
        }
        assert((gross_surplus as int) * (policy.surplus_deployment_bps as int) <= u64::MAX * 10_000)
            by (nonlinear_arith)
            requires
                policy.surplus_deployment_bps <= 10_000,
                gross_surplus <= u64::MAX,
        ;
        let product = (gross_surplus as u128) * (policy.surplus_deployment_bps as u128);
        let calculated = product / (BASIS_POINTS_DENOMINATOR as u128);
        calculated as u64
    } else {
        0
    };
    let remaining_reserve = reserve_balance - deployable_amount;
    if deployable_amount > gross_surplus || (reserve_balance >= reserve_floor && remaining_reserve < reserve_floor) {
        return Err(ReserveDeploymentError::FloorInvariantViolation);
    }
    Ok(
        ReserveDeploymentEvaluation {
            stage,
            reserve_balance,
            reserve_floor,
            gross_surplus,
            deployable_amount,
            remaining_reserve,
        },
    )
}

} // verus!
