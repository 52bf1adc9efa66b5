//! Fixed-point arithmetic, staking balances and lending/farming pool logic.
pub mod u192;
pub mod fixed_point;
pub mod pubkey;
pub mod state;
pub mod accounts;
pub mod lending;
pub mod bytes;
pub mod command;
pub mod error;
pub mod instruction;
pub mod farming;
