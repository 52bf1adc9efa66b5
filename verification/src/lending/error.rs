//! Errors of the lending pool.
use vstd::prelude::*;

verus! {

/// Errors of the lending pool.
#[derive(Clone, Copy, Debug, PartialEq, Eq)]
pub enum LendingError {
    /// Invalid instruction data.
    InstructionUnpackError,
    /// The owner of an account is not the expected one.
    InvalidAccountOwner,
    /// A calculation overflowed or divided by zero.
    MathOverflow,
    /// The pool does not hold enough liquidity.
    InsufficientLiquidity,
    /// Account data that cannot be read (the runtime's invalid-account-data error).
    InvalidAccountData,
}

/// The number of each error: its position in the declaration.
pub open spec fn lending_error_code(e: LendingError) -> u32 {
    match e {
        LendingError::InstructionUnpackError => 0,
        LendingError::InvalidAccountOwner => 1,
        LendingError::MathOverflow => 2,
        LendingError::InsufficientLiquidity => 3,
        LendingError::InvalidAccountData => 4,
    }
}

/// The error with a given number, if any.
pub open spec fn lending_error_of_code(code: u32) -> Option<LendingError> {
    match code {
        0 => Some(LendingError::InstructionUnpackError),
        1 => Some(LendingError::InvalidAccountOwner),
        2 => Some(LendingError::MathOverflow),
        3 => Some(LendingError::InsufficientLiquidity),
        4 => Some(LendingError::InvalidAccountData),
        _ => None,
    }
}

impl LendingError {
    /// The number of the error.
    pub fn code(&self) -> (r: u32)
        ensures
            r == lending_error_code(*self),
    {
        match self {
            LendingError::InstructionUnpackError => 0,
            LendingError::InvalidAccountOwner => 1,
            LendingError::MathOverflow => 2,
            LendingError::InsufficientLiquidity => 3,
            LendingError::InvalidAccountData => 4,
        }
    }

    /// The error with the given number, if any.
    pub fn from_code(code: u32) -> (r: Option<LendingError>)
        ensures
            r == lending_error_of_code(code),
    {
        match code {
            0 => Some(LendingError::InstructionUnpackError),
            1 => Some(LendingError::InvalidAccountOwner),
            2 => Some(LendingError::MathOverflow),
            3 => Some(LendingError::InsufficientLiquidity),
            4 => Some(LendingError::InvalidAccountData),
            _ => None,
        }
    }
}

} // verus!
