//! Errors of the farming program.
use vstd::prelude::*;

verus! {

/// Errors of the farming program; each is reported as a custom program error with its code.
#[derive(Clone, Copy, Debug, PartialEq, Eq)]
pub enum FarmingError {
    /// Invalid instruction data passed in.
    InstructionUnpackError,
    /// Invalid pool account.
    InvalidPoolAccount,
    /// Invalid user farming account.
    InvalidUserAccount,
    /// Invalid token owner.
    InvalidTokenAccountOwner,
    /// Already initialized account.
    AlreadyInitializedAccount,
    /// Invalid pool admin.
    InvalidPoolAdmin,
    /// Invalid token account.
    InvalidTokenAccount,
    /// Invalid token mint.
    InvalidTokenMint,
    /// Invalid pool authority.
    InvalidPoolAuthority,
    /// Invalid data.
    InvalidData,
}

/// The code of each error: its position in the declaration.
pub open spec fn farming_error_code(e: FarmingError) -> u32 {
    match e {
        FarmingError::InstructionUnpackError => 0,
        FarmingError::InvalidPoolAccount => 1,
        FarmingError::InvalidUserAccount => 2,
        FarmingError::InvalidTokenAccountOwner => 3,
        FarmingError::AlreadyInitializedAccount => 4,
        FarmingError::InvalidPoolAdmin => 5,
        FarmingError::InvalidTokenAccount => 6,
        FarmingError::InvalidTokenMint => 7,
        FarmingError::InvalidPoolAuthority => 8,
        FarmingError::InvalidData => 9,
    }
}

/// The error with a given code, if any.
pub open spec fn farming_error_of_code(code: u32) -> Option<FarmingError> {
    match code {
        0 => Some(FarmingError::InstructionUnpackError),
        1 => Some(FarmingError::InvalidPoolAccount),
        2 => Some(FarmingError::InvalidUserAccount),
        3 => Some(FarmingError::InvalidTokenAccountOwner),
        4 => Some(FarmingError::AlreadyInitializedAccount),
        5 => Some(FarmingError::InvalidPoolAdmin),
        6 => Some(FarmingError::InvalidTokenAccount),
        7 => Some(FarmingError::InvalidTokenMint),
        8 => Some(FarmingError::InvalidPoolAuthority),
        9 => Some(FarmingError::InvalidData),
        _ => None,
    }
}

impl FarmingError {
    /// The name under which the runtime reports errors of this type.
    pub fn type_of() -> (r: &'static str)
        ensures
            r@ == "Lending Pool Error"@,
    {
        "Lending Pool Error"
    }

    /// The custom program error code of the error.
    pub fn code(&self) -> (r: u32)
        ensures
            r == farming_error_code(*self),
    {
        match self {
            FarmingError::InstructionUnpackError => 0,
            FarmingError::InvalidPoolAccount => 1,
            FarmingError::InvalidUserAccount => 2,
            FarmingError::InvalidTokenAccountOwner => 3,
            FarmingError::AlreadyInitializedAccount => 4,
            FarmingError::InvalidPoolAdmin => 5,
            FarmingError::InvalidTokenAccount => 6,
            FarmingError::InvalidTokenMint => 7,
            FarmingError::InvalidPoolAuthority => 8,
            FarmingError::InvalidData => 9,
        }
    }

    /// The error with the given code, if there is one.
    pub fn from_code(code: u32) -> (r: Option<FarmingError>)
        ensures
            r == farming_error_of_code(code),
    {
        match code {
            0 => Some(FarmingError::InstructionUnpackError),
            1 => Some(FarmingError::InvalidPoolAccount),
            2 => Some(FarmingError::InvalidUserAccount),
            3 => Some(FarmingError::InvalidTokenAccountOwner),
            4 => Some(FarmingError::AlreadyInitializedAccount),
            5 => Some(FarmingError::InvalidPoolAdmin),
            6 => Some(FarmingError::InvalidTokenAccount),
            7 => Some(FarmingError::InvalidTokenMint),
            8 => Some(FarmingError::InvalidPoolAuthority),
            9 => Some(FarmingError::InvalidData),
            _ => None,
        }
    }
}

} // verus!
