//! The farming pool: stakers earn rewards in up to two tokens, in proportion to their stake.
pub mod error;
pub mod instruction;
pub mod pool;
pub mod processor;
pub mod user;
pub mod utils;
