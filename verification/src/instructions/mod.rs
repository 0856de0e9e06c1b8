//! The decisions of the program's instructions, apart from account loading,
//! token transfers and logging.
pub mod process_fees;
pub mod spillway_release;
pub mod execution;
pub mod founder_price;
pub mod initialize;
