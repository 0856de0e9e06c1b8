//! Account state of the treasury router.
pub mod company;
pub mod execution_config;
pub mod founder;
pub mod founder_price;
pub mod founder_usd_cap;
pub mod protocol;
pub mod protocol_config;
pub mod reserve_policy;
pub mod treasury;
