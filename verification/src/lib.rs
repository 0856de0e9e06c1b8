//! Treasury routing for the Rocket Beaver protocol: fee allocation, release
//! authorization, reserve deployment and integrity monitoring.
pub mod constants;
pub mod errors;
pub mod pubkey;
pub mod state;
pub mod engines;
pub mod instructions;
pub mod oracle_adapter;
