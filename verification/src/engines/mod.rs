//! Deterministic economic engines of the treasury router.
pub mod beaver_score;
pub mod dam;
pub mod execution_guard;
pub mod failure_mask;
pub mod buyback;
pub mod company;
pub mod founder;
pub mod founder_progressive;
pub mod founder_usd_cap;
pub mod integrity_firewall;
pub mod liquidity;
pub mod release;
pub mod reserve;
pub mod reserve_deployment;
pub mod sentinel;
pub mod waterfall;
