//! Immutable parameters governing Reserve Vault surplus deployment.
use vstd::prelude::*;

use crate::constants::RESERVE_POLICY_BPS_DENOMINATOR;
use crate::errors::TreasuryRouterError;
use crate::pubkey::Pubkey;

verus! {

/// Reserve deployment policy; no operation updates its parameters after
/// initialization.
#[derive(Clone, Copy, Debug)]
pub struct ReservePolicy {
    /// State layout version.
    pub version: u16,
    /// Root protocol linked to this policy.
    pub protocol: Pubkey,
    /// Treasury whose Reserve Vault is governed by this policy.
    pub treasury: Pubkey,
    /// Absolute settlement-token floor that can never be deployed.
    pub minimum_reserve_floor: u64,
    /// Additional floor calculated from a liquidity reference.
    pub liquidity_floor_bps: u16,
    /// Fraction of current surplus deployable per Spillway execution.
    pub surplus_deployment_bps: u16,
    /// Minimum seconds between successful Spillway executions.
    pub cooldown_seconds: i64,
    /// Timestamp of the latest successful deployment; zero means none yet.
    pub last_deployed_at: i64,
    /// Lifetime value deployed through the Spillway.
    pub lifetime_deployed: u64,
    /// Canonical Reserve Policy PDA bump.
    pub bump: u8,
    /// Reserved space for compatible extensions.
    pub reserved: [u8; 31],
}

/// The outcome of validating reserve-policy parameters, first failing check
/// first.
pub open spec fn reserve_parameters_outcome(
    minimum_reserve_floor: u64,
    liquidity_floor_bps: u16,
    surplus_deployment_bps: u16,
    cooldown_seconds: i64,
) -> Result<(), TreasuryRouterError> {
    if minimum_reserve_floor == 0 {
        Err(TreasuryRouterError::InvalidReserveMinimumFloor)
    } else if liquidity_floor_bps > 10_000 {
        Err(TreasuryRouterError::InvalidReserveLiquidityFloorRate)
    } else if surplus_deployment_bps == 0 || surplus_deployment_bps > 10_000 {
        Err(TreasuryRouterError::InvalidReserveDeploymentRate)
    } else if cooldown_seconds <= 0 {
        Err(TreasuryRouterError::InvalidReserveDeploymentCooldown)
    } else {
        Ok(())
    }
}

impl ReservePolicy {
    /// Serialized account size including the eight-byte discriminator.
    pub const SPACE: usize = 8 + 2 + 32 + 32 + 8 + 2 + 2 + 8 + 8 + 8 + 1 + 31;

    /// Whether a deployment at `current_timestamp` is outside the cooldown:
    /// always for the first deployment, otherwise from
    /// `last_deployed_at + cooldown_seconds` on; `None` where that sum
    /// overflows `i64`.
    pub open spec fn cooldown_outcome(self, current_timestamp: i64) -> Result<bool, TreasuryRouterError> {
        if self.last_deployed_at == 0 {
            Ok(true)
        } else if self.last_deployed_at + self.cooldown_seconds > i64::MAX
            || self.last_deployed_at + self.cooldown_seconds < i64::MIN {
            Err(TreasuryRouterError::ArithmeticOverflow)
        } else {
            Ok(current_timestamp >= self.last_deployed_at + self.cooldown_seconds)
        }
    }

    /// Checks the parameters of a new policy.
    pub fn validate_parameters(
        minimum_reserve_floor: u64,
        liquidity_floor_bps: u16,
        surplus_deployment_bps: u16,
        cooldown_seconds: i64,
    ) -> (r: Result<(), TreasuryRouterError>)
        ensures
            r == reserve_parameters_outcome(
                minimum_reserve_floor,
                liquidity_floor_bps,
                surplus_deployment_bps,
                cooldown_seconds,
            ),
    {
        if minimum_reserve_floor == 0 {
            return Err(TreasuryRouterError::InvalidReserveMinimumFloor);
        }
        if liquidity_floor_bps > RESERVE_POLICY_BPS_DENOMINATOR {
            return Err(TreasuryRouterError::InvalidReserveLiquidityFloorRate);
        }
        if !(surplus_deployment_bps > 0 && surplus_deployment_bps <= RESERVE_POLICY_BPS_DENOMINATOR) {
            return Err(TreasuryRouterError::InvalidReserveDeploymentRate);
        }
        if cooldown_seconds <= 0 {
            return Err(TreasuryRouterError::InvalidReserveDeploymentCooldown);
        }
        Ok(())
    }

    /// Whether the deployment cooldown has elapsed at `current_timestamp`.
    pub fn cooldown_has_elapsed(&self, current_timestamp: i64) -> (r: Result<bool, TreasuryRouterError>)
        ensures
            r == self.cooldown_outcome(current_timestamp),
    {
        if self.last_deployed_at == 0 {
            return Ok(true);
        }
        let next_allowed = match self.last_deployed_at.checked_add(self.cooldown_seconds) {
            Some(value) => value,
            None => {
                return Err(TreasuryRouterError::ArithmeticOverflow);
            },
        };
        Ok(current_timestamp >= next_allowed)
    }

    /// Records a successful deployment of `amount` at `current_timestamp`.
    ///
    /// Fails, leaving the policy unchanged, for a zero amount, while the
    /// cooldown is active, or when the lifetime total would overflow.
    pub fn record_deployment(&mut self, amount: u64, current_timestamp: i64) -> (r: Result<(), TreasuryRouterError>)
        ensures
            amount == 0 ==> r == Err::<(), _>(TreasuryRouterError::InvalidReserveDeploymentAmount),
            amount > 0 ==> match old(self).cooldown_outcome(current_timestamp) {
                Err(e) => r == Err::<(), _>(e),
                Ok(false) => r == Err::<(), _>(TreasuryRouterError::ReserveDeploymentCooldownActive),
                Ok(true) => if old(self).lifetime_deployed + amount > u64::MAX {
                    r == Err::<(), _>(TreasuryRouterError::ArithmeticOverflow)
                } else {
                    r == Ok::<(), TreasuryRouterError>(())
                },
            },
            r is Err ==> *final(self) == *old(self),
            r is Ok ==> *final(self) == (ReservePolicy {
                lifetime_deployed: (old(self).lifetime_deployed + amount) as u64,
                last_deployed_at: current_timestamp,
                ..*old(self)
            }),
    {
        if amount == 0 {
            return Err(TreasuryRouterError::InvalidReserveDeploymentAmount);
        }
        let elapsed = self.cooldown_has_elapsed(current_timestamp)?;
        if !elapsed {
            return Err(TreasuryRouterError::ReserveDeploymentCooldownActive);
        }
        let updated_lifetime = match self.lifetime_deployed.checked_add(amount) {
            Some(value) => value,
            None => {
                return Err(TreasuryRouterError::ArithmeticOverflow);
            },
        };
        self.lifetime_deployed = updated_lifetime;
        self.last_deployed_at = current_timestamp;
        Ok(())
    }
}

} // verus!
