//! The lending pool: deposits that earn interest paid by borrowers.
pub mod error;
pub mod instruction;
pub mod instructions_wrapper;
pub mod math;
pub mod pack;
pub mod processor;
pub mod state;
