//! Account types and program-derived addresses.
pub mod account_type;

pub use account_type::AccountType;
