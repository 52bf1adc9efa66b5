//! Errors of the staking program and their numbering as custom program error codes.
//!
//! Each error is reported to the runtime as a `u32`: plain errors by their position, errors about
//! a signature, a constant, an account, an epoch status or a stake update state at 100, 200, 300,
//! 400 and 450 plus the number of what they are about, errors of the system program, the token
//! program, the lending program and the farming program at 1000, 1100, 1200 and 1300 plus their
//! own code, and unknown codes at 10000 plus the code.
use crate::accounts::account_type::{AccountType, account_type_code, account_type_of_code};
use crate::farming::error::{FarmingError, farming_error_code, farming_error_of_code};
use crate::lending::error::{LendingError, lending_error_code, lending_error_of_code};
use crate::state::epoch::{EpochStatus, epoch_status_code, epoch_status_of_code};
use crate::state::stake_update::{
    StakeUpdateState, stake_update_state_code, stake_update_state_of_code,
};
use vstd::prelude::*;

verus! {

/// The signer whose signature is missing.
#[derive(Clone, Copy, Debug, PartialEq, Eq)]
pub enum SignatureType {
    Admin,
    Owner,
    Investor,
    SuperAdmin,
}

/// The number of each variant.
pub open spec fn signature_type_code(e: SignatureType) -> u32 {
    match e {
        SignatureType::Admin => 0,
        SignatureType::Owner => 1,
        SignatureType::Investor => 2,
        SignatureType::SuperAdmin => 3,
    }
}

/// The variant with a given number, if any.
pub open spec fn signature_type_of_code(code: u32) -> Option<SignatureType> {
    match code {
        0 => Some(SignatureType::Admin),
        1 => Some(SignatureType::Owner),
        2 => Some(SignatureType::Investor),
        3 => Some(SignatureType::SuperAdmin),
        _ => None,
    }
}

impl SignatureType {
    /// The number of the variant.
    pub fn code(&self) -> (r: u32)
        ensures
            r == signature_type_code(*self),
    {
        match self {
            SignatureType::Admin => 0,
            SignatureType::Owner => 1,
            SignatureType::Investor => 2,
            SignatureType::SuperAdmin => 3,
        }
    }

    /// The variant with the given number, if any.
    pub fn from_code(code: u32) -> (r: Option<SignatureType>)
        ensures
            r == signature_type_of_code(code),
    {
        match code {
            0 => Some(SignatureType::Admin),
            1 => Some(SignatureType::Owner),
            2 => Some(SignatureType::Investor),
            3 => Some(SignatureType::SuperAdmin),
            _ => None,
        }
    }
}

/// The constant account that a wrong account was given for.
#[derive(Clone, Copy, Debug, PartialEq, Eq)]
pub enum InvalidConstant {
    AdminKey,
    InvestorKey,
    SuperAdminKey,
    SystemProgram,
    TokenProgram,
    ATAProgram,
    RentSysvar,
    ClockSysvar,
}

/// The number of each variant.
pub open spec fn invalid_constant_code(e: InvalidConstant) -> u32 {
    match e {
        InvalidConstant::AdminKey => 0,
        InvalidConstant::InvestorKey => 1,
        InvalidConstant::SuperAdminKey => 2,
        InvalidConstant::SystemProgram => 10,
        InvalidConstant::TokenProgram => 11,
        InvalidConstant::ATAProgram => 12,
        InvalidConstant::RentSysvar => 20,
        InvalidConstant::ClockSysvar => 21,
    }
}

/// The variant with a given number, if any.
pub open spec fn invalid_constant_of_code(code: u32) -> Option<InvalidConstant> {
    match code {
        0 => Some(InvalidConstant::AdminKey),
        1 => Some(InvalidConstant::InvestorKey),
        2 => Some(InvalidConstant::SuperAdminKey),
        10 => Some(InvalidConstant::SystemProgram),
        11 => Some(InvalidConstant::TokenProgram),
        12 => Some(InvalidConstant::ATAProgram),
        20 => Some(InvalidConstant::RentSysvar),
        21 => Some(InvalidConstant::ClockSysvar),
        _ => None,
    }
}

impl InvalidConstant {
    /// The number of the variant.
    pub fn code(&self) -> (r: u32)
        ensures
            r == invalid_constant_code(*self),
    {
        match self {
            InvalidConstant::AdminKey => 0,
            InvalidConstant::InvestorKey => 1,
            InvalidConstant::SuperAdminKey => 2,
            InvalidConstant::SystemProgram => 10,
            InvalidConstant::TokenProgram => 11,
            InvalidConstant::ATAProgram => 12,
            InvalidConstant::RentSysvar => 20,
            InvalidConstant::ClockSysvar => 21,
        }
    }

    /// The variant with the given number, if any.
    pub fn from_code(code: u32) -> (r: Option<InvalidConstant>)
        ensures
            r == invalid_constant_of_code(code),
    {
        match code {
            0 => Some(InvalidConstant::AdminKey),
            1 => Some(InvalidConstant::InvestorKey),
            2 => Some(InvalidConstant::SuperAdminKey),
            10 => Some(InvalidConstant::SystemProgram),
            11 => Some(InvalidConstant::TokenProgram),
            12 => Some(InvalidConstant::ATAProgram),
            20 => Some(InvalidConstant::RentSysvar),
            21 => Some(InvalidConstant::ClockSysvar),
            _ => None,
        }
    }
}

/// Errors of the system program, numbered as that program reports them.
#[derive(Clone, Copy, Debug, PartialEq, Eq)]
pub enum SystemError {
    AccountAlreadyInUse,
    ResultWithNegativeLamports,
    InvalidProgramId,
    InvalidAccountDataLength,
    MaxSeedLengthExceeded,
    AddressWithSeedMismatch,
    NonceNoRecentBlockhashes,
    NonceBlockhashNotExpired,
    NonceUnexpectedBlockhashValue,
}

/// The number of each variant.
pub open spec fn system_error_code(e: SystemError) -> u32 {
    match e {
        SystemError::AccountAlreadyInUse => 0,
        SystemError::ResultWithNegativeLamports => 1,
        SystemError::InvalidProgramId => 2,
        SystemError::InvalidAccountDataLength => 3,
        SystemError::MaxSeedLengthExceeded => 4,
        SystemError::AddressWithSeedMismatch => 5,
        SystemError::NonceNoRecentBlockhashes => 6,
        SystemError::NonceBlockhashNotExpired => 7,
        SystemError::NonceUnexpectedBlockhashValue => 8,
    }
}

/// The variant with a given number, if any.
pub open spec fn system_error_of_code(code: u32) -> Option<SystemError> {
    match code {
        0 => Some(SystemError::AccountAlreadyInUse),
        1 => Some(SystemError::ResultWithNegativeLamports),
        2 => Some(SystemError::InvalidProgramId),
        3 => Some(SystemError::InvalidAccountDataLength),
        4 => Some(SystemError::MaxSeedLengthExceeded),
        5 => Some(SystemError::AddressWithSeedMismatch),
        6 => Some(SystemError::NonceNoRecentBlockhashes),
        7 => Some(SystemError::NonceBlockhashNotExpired),
        8 => Some(SystemError::NonceUnexpectedBlockhashValue),
        _ => None,
    }
}

impl SystemError {
    /// The number of the variant.
    pub fn code(&self) -> (r: u32)
        ensures
            r == system_error_code(*self),
    {
        match self {
            SystemError::AccountAlreadyInUse => 0,
            SystemError::ResultWithNegativeLamports => 1,
            SystemError::InvalidProgramId => 2,
            SystemError::InvalidAccountDataLength => 3,
            SystemError::MaxSeedLengthExceeded => 4,
            SystemError::AddressWithSeedMismatch => 5,
            SystemError::NonceNoRecentBlockhashes => 6,
            SystemError::NonceBlockhashNotExpired => 7,
            SystemError::NonceUnexpectedBlockhashValue => 8,
        }
    }

    /// The variant with the given number, if any.
    pub fn from_code(code: u32) -> (r: Option<SystemError>)
        ensures
            r == system_error_of_code(code),
    {
        match code {
            0 => Some(SystemError::AccountAlreadyInUse),
            1 => Some(SystemError::ResultWithNegativeLamports),
            2 => Some(SystemError::InvalidProgramId),
            3 => Some(SystemError::InvalidAccountDataLength),
            4 => Some(SystemError::MaxSeedLengthExceeded),
            5 => Some(SystemError::AddressWithSeedMismatch),
            6 => Some(SystemError::NonceNoRecentBlockhashes),
            7 => Some(SystemError::NonceBlockhashNotExpired),
            8 => Some(SystemError::NonceUnexpectedBlockhashValue),
            _ => None,
        }
    }
}

/// Errors of the token program, numbered as that program reports them.
#[derive(Clone, Copy, Debug, PartialEq, Eq)]
pub enum TokenError {
    NotRentExempt,
    InsufficientFunds,
    InvalidMint,
    MintMismatch,
    OwnerMismatch,
    FixedSupply,
    AlreadyInUse,
    InvalidNumberOfProvidedSigners,
    InvalidNumberOfRequiredSigners,
    UninitializedState,
    NativeNotSupported,
    NonNativeHasBalance,
    InvalidInstruction,
    InvalidState,
    Overflow,
    AuthorityTypeNotSupported,
    MintCannotFreeze,
    AccountFrozen,
    MintDecimalsMismatch,
    NonNativeNotSupported,
}

/// The number of each variant.
pub open spec fn token_error_code(e: TokenError) -> u32 {
    match e {
        TokenError::NotRentExempt => 0,
        TokenError::InsufficientFunds => 1,
        TokenError::InvalidMint => 2,
        TokenError::MintMismatch => 3,
        TokenError::OwnerMismatch => 4,
        TokenError::FixedSupply => 5,
        TokenError::AlreadyInUse => 6,
        TokenError::InvalidNumberOfProvidedSigners => 7,
        TokenError::InvalidNumberOfRequiredSigners => 8,
        TokenError::UninitializedState => 9,
        TokenError::NativeNotSupported => 10,
        TokenError::NonNativeHasBalance => 11,
        TokenError::InvalidInstruction => 12,
        TokenError::InvalidState => 13,
        TokenError::Overflow => 14,
        TokenError::AuthorityTypeNotSupported => 15,
        TokenError::MintCannotFreeze => 16,
        TokenError::AccountFrozen => 17,
        TokenError::MintDecimalsMismatch => 18,
        TokenError::NonNativeNotSupported => 19,
    }
}

/// The variant with a given number, if any.
pub open spec fn token_error_of_code(code: u32) -> Option<TokenError> {
    match code {
        0 => Some(TokenError::NotRentExempt),
        1 => Some(TokenError::InsufficientFunds),
        2 => Some(TokenError::InvalidMint),
        3 => Some(TokenError::MintMismatch),
        4 => Some(TokenError::OwnerMismatch),
        5 => Some(TokenError::FixedSupply),
        6 => Some(TokenError::AlreadyInUse),
        7 => Some(TokenError::InvalidNumberOfProvidedSigners),
        8 => Some(TokenError::InvalidNumberOfRequiredSigners),
        9 => Some(TokenError::UninitializedState),
        10 => Some(TokenError::NativeNotSupported),
        11 => Some(TokenError::NonNativeHasBalance),
        12 => Some(TokenError::InvalidInstruction),
        13 => Some(TokenError::InvalidState),
        14 => Some(TokenError::Overflow),
        15 => Some(TokenError::AuthorityTypeNotSupported),
        16 => Some(TokenError::MintCannotFreeze),
        17 => Some(TokenError::AccountFrozen),
        18 => Some(TokenError::MintDecimalsMismatch),
        19 => Some(TokenError::NonNativeNotSupported),
        _ => None,
    }
}

impl TokenError {
    /// The number of the variant.
    pub fn code(&self) -> (r: u32)
        ensures
            r == token_error_code(*self),
    {
        match self {
            TokenError::NotRentExempt => 0,
            TokenError::InsufficientFunds => 1,
            TokenError::InvalidMint => 2,
            TokenError::MintMismatch => 3,
            TokenError::OwnerMismatch => 4,
            TokenError::FixedSupply => 5,
            TokenError::AlreadyInUse => 6,
            TokenError::InvalidNumberOfProvidedSigners => 7,
            TokenError::InvalidNumberOfRequiredSigners => 8,
            TokenError::UninitializedState => 9,
            TokenError::NativeNotSupported => 10,
            TokenError::NonNativeHasBalance => 11,
            TokenError::InvalidInstruction => 12,
            TokenError::InvalidState => 13,
            TokenError::Overflow => 14,
            TokenError::AuthorityTypeNotSupported => 15,
            TokenError::MintCannotFreeze => 16,
            TokenError::AccountFrozen => 17,
            TokenError::MintDecimalsMismatch => 18,
            TokenError::NonNativeNotSupported => 19,
        }
    }

    /// The variant with the given number, if any.
    pub fn from_code(code: u32) -> (r: Option<TokenError>)
        ensures
            r == token_error_of_code(code),
    {
        match code {
            0 => Some(TokenError::NotRentExempt),
            1 => Some(TokenError::InsufficientFunds),
            2 => Some(TokenError::InvalidMint),
            3 => Some(TokenError::MintMismatch),
            4 => Some(TokenError::OwnerMismatch),
            5 => Some(TokenError::FixedSupply),
            6 => Some(TokenError::AlreadyInUse),
            7 => Some(TokenError::InvalidNumberOfProvidedSigners),
            8 => Some(TokenError::InvalidNumberOfRequiredSigners),
            9 => Some(TokenError::UninitializedState),
            10 => Some(TokenError::NativeNotSupported),
            11 => Some(TokenError::NonNativeHasBalance),
            12 => Some(TokenError::InvalidInstruction),
            13 => Some(TokenError::InvalidState),
            14 => Some(TokenError::Overflow),
            15 => Some(TokenError::AuthorityTypeNotSupported),
            16 => Some(TokenError::MintCannotFreeze),
            17 => Some(TokenError::AccountFrozen),
            18 => Some(TokenError::MintDecimalsMismatch),
            19 => Some(TokenError::NonNativeNotSupported),
            _ => None,
        }
    }
}

/// Errors of the staking program.
#[derive(Clone, Copy, Debug, PartialEq, Eq)]
pub enum StakingError {
    /// Invalid Instruction.
    InvalidInstruction,
    /// Numerical Overflow.
    NumericalOverflow,
    /// Not enough stake balance.
    NotEnoughStakeBalance,
    /// Epoch expected end is in the past.
    EpochExpectedEndIsInPast,
    /// Winning combination already published.
    WinningCombinationAlreadyPublished,
    /// Winning combination not published.
    WinningCombinationNotPublished,
    /// Jackpot is not claimable yet.
    JackpotNotClaimableYet,
    /// Jackpot already claimable.
    JackpotAlreadyClaimable,
    /// No prize to claim.
    NoPrizeToClaim,
    /// Yield not withdrawn.
    YieldNotWithdrawn,
    /// Return amount is 0.
    ReturnAmountIsZero,
    /// Winners already published.
    WinnersAlreadyPublished,
    /// Invalid winner tier.
    InvalidWinnerTier,
    /// Processed winners meta mismatch.
    ProcessedWinnersMetaMismatch,
    /// Winner index out of bounds.
    WinnerIndexOutOfBounds,
    /// Wrong number of winners in page.
    WrongNumberOfWinnersInPage,
    /// Unexpected winner index.
    UnexpectedWinnerIndex,
    /// Page index out of bounds.
    PageIndexOutOfBounds,
    /// Removed instruction.
    RemovedInstruction,
    /// Return amount is non zero but total invested is zero.
    ReturnAmountIsNonZeroButInvestedIsZero,
    /// Invalid prize claim.
    InvalidPrizeClaim,
    /// Prize already claimed.
    PrizeAlreadyClaimed,
    /// A pending stake update request exists. Cancel it to issue a new one.
    StakeUpdateRequestExists,
    /// Stake update amount mismatch.
    StakeUpdateAmountMismatch,
    /// Program already initialized.
    ProgramAlreadyInitialized,
    /// Page index not in sequence.
    PageIndexNotInSequence,
    /// Insufficient Balance.
    InsufficientBalance,
    /// Missing signature.
    MissingSignature(SignatureType),
    /// Invalid constant.
    InvalidConstant(InvalidConstant),
    /// Invalid account provided.
    InvalidAccount(AccountType),
    /// Cannot proceed with this epoch status.
    InvalidEpochStatus(EpochStatus),
    /// Cannot proceed with this stake update state.
    InvalidStakeUpdateState(StakeUpdateState),
    /// An error of the system program.
    SystemProgramError(SystemError),
    /// An error of the token program.
    TokenProgramError(TokenError),
    /// An error of the lending program.
    FranciumLendingError(LendingError),
    /// An error of the farming program.
    FranciumFarmingError(FarmingError),
    /// An error code that none of the others stands for.
    UnknownError(u32),
}

/// The error of one of the plain variants, by its number (0 to 26).
pub open spec fn plain_staking_error(code: u32) -> StakingError {
    match code {
        0 => StakingError::InvalidInstruction,
        1 => StakingError::NumericalOverflow,
        2 => StakingError::NotEnoughStakeBalance,
        3 => StakingError::EpochExpectedEndIsInPast,
        4 => StakingError::WinningCombinationAlreadyPublished,
        5 => StakingError::WinningCombinationNotPublished,
        6 => StakingError::JackpotNotClaimableYet,
        7 => StakingError::JackpotAlreadyClaimable,
        8 => StakingError::NoPrizeToClaim,
        9 => StakingError::YieldNotWithdrawn,
        10 => StakingError::ReturnAmountIsZero,
        11 => StakingError::WinnersAlreadyPublished,
        12 => StakingError::InvalidWinnerTier,
        13 => StakingError::ProcessedWinnersMetaMismatch,
        14 => StakingError::WinnerIndexOutOfBounds,
        15 => StakingError::WrongNumberOfWinnersInPage,
        16 => StakingError::UnexpectedWinnerIndex,
        17 => StakingError::PageIndexOutOfBounds,
        18 => StakingError::RemovedInstruction,
        19 => StakingError::ReturnAmountIsNonZeroButInvestedIsZero,
        20 => StakingError::InvalidPrizeClaim,
        21 => StakingError::PrizeAlreadyClaimed,
        22 => StakingError::StakeUpdateRequestExists,
        23 => StakingError::StakeUpdateAmountMismatch,
        24 => StakingError::ProgramAlreadyInitialized,
        25 => StakingError::PageIndexNotInSequence,
        _ => StakingError::InsufficientBalance,
    }
}

/// The code of an error. An unknown code past `u32::MAX - 10000` wraps around.
pub open spec fn staking_error_code(e: StakingError) -> u32 {
    match e {
        StakingError::InvalidInstruction => 0,
        StakingError::NumericalOverflow => 1,
        StakingError::NotEnoughStakeBalance => 2,
        StakingError::EpochExpectedEndIsInPast => 3,
        StakingError::WinningCombinationAlreadyPublished => 4,
        StakingError::WinningCombinationNotPublished => 5,
        StakingError::JackpotNotClaimableYet => 6,
        StakingError::JackpotAlreadyClaimable => 7,
        StakingError::NoPrizeToClaim => 8,
        StakingError::YieldNotWithdrawn => 9,
        StakingError::ReturnAmountIsZero => 10,
        StakingError::WinnersAlreadyPublished => 11,
        StakingError::InvalidWinnerTier => 12,
        StakingError::ProcessedWinnersMetaMismatch => 13,
        StakingError::WinnerIndexOutOfBounds => 14,
        StakingError::WrongNumberOfWinnersInPage => 15,
        StakingError::UnexpectedWinnerIndex => 16,
        StakingError::PageIndexOutOfBounds => 17,
        StakingError::RemovedInstruction => 18,
        StakingError::ReturnAmountIsNonZeroButInvestedIsZero => 19,
        StakingError::InvalidPrizeClaim => 20,
        StakingError::PrizeAlreadyClaimed => 21,
        StakingError::StakeUpdateRequestExists => 22,
        StakingError::StakeUpdateAmountMismatch => 23,
        StakingError::ProgramAlreadyInitialized => 24,
        StakingError::PageIndexNotInSequence => 25,
        StakingError::InsufficientBalance => 26,
        StakingError::MissingSignature(s) => (100 + signature_type_code(s)) as u32,
        StakingError::InvalidConstant(c) => (200 + invalid_constant_code(c)) as u32,
        StakingError::InvalidAccount(a) => (300 + account_type_code(a)) as u32,
        StakingError::InvalidEpochStatus(s) => (400 + epoch_status_code(s)) as u32,
        StakingError::InvalidStakeUpdateState(s) => (450 + stake_update_state_code(s)) as u32,
        StakingError::SystemProgramError(e) => (1000 + system_error_code(e)) as u32,
        StakingError::TokenProgramError(e) => (1100 + token_error_code(e)) as u32,
        StakingError::FranciumLendingError(e) => (1200 + lending_error_code(e)) as u32,
        StakingError::FranciumFarmingError(e) => (1300 + farming_error_code(e)) as u32,
        StakingError::UnknownError(x) => ((10_000 + x) % 0x1_0000_0000) as u32,
    }
}

/// The error that a code stands for: the plain errors up to 26, then by range, the error about
/// the thing numbered by the rest of the code; codes from 10000 are unknown errors of the code
/// less 10000, and any other code is an unknown error of the code itself.
pub open spec fn staking_error_of_code(c: u32) -> StakingError {
    if c <= 26 {
        plain_staking_error(c)
    } else if 100 <= c < 200 {
        match signature_type_of_code((c - 100) as u32) {
            Some(s) => StakingError::MissingSignature(s),
            None => StakingError::UnknownError(c),
        }
    } else if 200 <= c < 300 {
        match invalid_constant_of_code((c - 200) as u32) {
            Some(x) => StakingError::InvalidConstant(x),
            None => StakingError::UnknownError(c),
        }
    } else if 300 <= c < 400 {
        match account_type_of_code((c - 300) as u32) {
            Some(a) => StakingError::InvalidAccount(a),
            None => StakingError::UnknownError(c),
        }
    } else if 400 <= c < 450 {
        match epoch_status_of_code((c - 400) as u32) {
            Some(s) => StakingError::InvalidEpochStatus(s),
            None => StakingError::UnknownError(c),
        }
    } else if 450 <= c < 500 {
        match stake_update_state_of_code((c - 450) as u32) {
            Some(s) => StakingError::InvalidStakeUpdateState(s),
            None => StakingError::UnknownError(c),
        }
    } else if 1000 <= c < 1100 {
        match system_error_of_code((c - 1000) as u32) {
            Some(e) => StakingError::SystemProgramError(e),
            None => StakingError::UnknownError(c),
        }
    } else if 1100 <= c < 1200 {
        match token_error_of_code((c - 1100) as u32) {
            Some(e) => StakingError::TokenProgramError(e),
            None => StakingError::UnknownError(c),
        }
    } else if 1200 <= c < 1300 {
        match lending_error_of_code((c - 1200) as u32) {
            Some(e) => StakingError::FranciumLendingError(e),
            None => StakingError::UnknownError(c),
        }
    } else if 1300 <= c < 1400 {
        match farming_error_of_code((c - 1300) as u32) {
            Some(e) => StakingError::FranciumFarmingError(e),
            None => StakingError::UnknownError(c),
        }
    } else if c >= 10_000 {
        StakingError::UnknownError((c - 10_000) as u32)
    } else {
        StakingError::UnknownError(c)
    }
}

impl StakingError {
    /// The name under which the runtime reports errors of this type.
    pub fn type_of() -> (r: &'static str)
        ensures
            r@ == "StakingError"@,
    {
        "StakingError"
    }

    /// The code of the error.
    pub fn code(&self) -> (r: u32)
        ensures
            r == staking_error_code(*self),
    {
        match self {
            StakingError::InvalidInstruction => 0,
            StakingError::NumericalOverflow => 1,
            StakingError::NotEnoughStakeBalance => 2,
            StakingError::EpochExpectedEndIsInPast => 3,
            StakingError::WinningCombinationAlreadyPublished => 4,
            StakingError::WinningCombinationNotPublished => 5,
            StakingError::JackpotNotClaimableYet => 6,
            StakingError::JackpotAlreadyClaimable => 7,
            StakingError::NoPrizeToClaim => 8,
            StakingError::YieldNotWithdrawn => 9,
            StakingError::ReturnAmountIsZero => 10,
            StakingError::WinnersAlreadyPublished => 11,
            StakingError::InvalidWinnerTier => 12,
            StakingError::ProcessedWinnersMetaMismatch => 13,
            StakingError::WinnerIndexOutOfBounds => 14,
            StakingError::WrongNumberOfWinnersInPage => 15,
            StakingError::UnexpectedWinnerIndex => 16,
            StakingError::PageIndexOutOfBounds => 17,
            StakingError::RemovedInstruction => 18,
            StakingError::ReturnAmountIsNonZeroButInvestedIsZero => 19,
            StakingError::InvalidPrizeClaim => 20,
            StakingError::PrizeAlreadyClaimed => 21,
            StakingError::StakeUpdateRequestExists => 22,
            StakingError::StakeUpdateAmountMismatch => 23,
            StakingError::ProgramAlreadyInitialized => 24,
            StakingError::PageIndexNotInSequence => 25,
            StakingError::InsufficientBalance => 26,
            StakingError::MissingSignature(s) => 100 + s.code(),
            StakingError::InvalidConstant(c) => 200 + c.code(),
            StakingError::InvalidAccount(a) => 300 + a.code(),
            StakingError::InvalidEpochStatus(s) => 400 + s.code(),
            StakingError::InvalidStakeUpdateState(s) => 450 + s.code(),
            StakingError::SystemProgramError(e) => 1000 + e.code(),
            StakingError::TokenProgramError(e) => 1100 + e.code(),
            StakingError::FranciumLendingError(e) => 1200 + e.code(),
            StakingError::FranciumFarmingError(e) => 1300 + e.code(),
            StakingError::UnknownError(x) => {
                let r = 10_000u32.wrapping_add(*x);
                proof {
                    assert(r == (10_000 + *x) % 0x1_0000_0000) by (bit_vector)
                        requires
                            r == 10_000u32.wrapping_add(*x),
                    ;
                }
                r
            },
        }
    }

    /// The error that a code stands for.
    pub fn from_code(e: u32) -> (r: StakingError)
        ensures
            r == staking_error_of_code(e),
    {
        if e <= 26 {
            return match e {
                0 => StakingError::InvalidInstruction,
                1 => StakingError::NumericalOverflow,
                2 => StakingError::NotEnoughStakeBalance,
                3 => StakingError::EpochExpectedEndIsInPast,
                4 => StakingError::WinningCombinationAlreadyPublished,
                5 => StakingError::WinningCombinationNotPublished,
                6 => StakingError::JackpotNotClaimableYet,
                7 => StakingError::JackpotAlreadyClaimable,
                8 => StakingError::NoPrizeToClaim,
                9 => StakingError::YieldNotWithdrawn,
                10 => StakingError::ReturnAmountIsZero,
                11 => StakingError::WinnersAlreadyPublished,
                12 => StakingError::InvalidWinnerTier,
                13 => StakingError::ProcessedWinnersMetaMismatch,
                14 => StakingError::WinnerIndexOutOfBounds,
                15 => StakingError::WrongNumberOfWinnersInPage,
                16 => StakingError::UnexpectedWinnerIndex,
                17 => StakingError::PageIndexOutOfBounds,
                18 => StakingError::RemovedInstruction,
                19 => StakingError::ReturnAmountIsNonZeroButInvestedIsZero,
                20 => StakingError::InvalidPrizeClaim,
                21 => StakingError::PrizeAlreadyClaimed,
                22 => StakingError::StakeUpdateRequestExists,
                23 => StakingError::StakeUpdateAmountMismatch,
                24 => StakingError::ProgramAlreadyInitialized,
                25 => StakingError::PageIndexNotInSequence,
                _ => StakingError::InsufficientBalance,
            };
        }
        let known = if 100 <= e && e < 200 {
            match SignatureType::from_code(e - 100) {
                Some(s) => Some(StakingError::MissingSignature(s)),
                None => None,
            }
        } else if 200 <= e && e < 300 {
            match InvalidConstant::from_code(e - 200) {
                Some(c) => Some(StakingError::InvalidConstant(c)),
                None => None,
            }
        } else if 300 <= e && e < 400 {
            match AccountType::from_code(e - 300) {
                Some(a) => Some(StakingError::InvalidAccount(a)),
                None => None,
            }
        } else if 400 <= e && e < 450 {
            match EpochStatus::from_code(e - 400) {
                Some(s) => Some(StakingError::InvalidEpochStatus(s)),
                None => None,
            }
        } else if 450 <= e && e < 500 {
            match StakeUpdateState::from_code(e - 450) {
                Some(s) => Some(StakingError::InvalidStakeUpdateState(s)),
                None => None,
            }
        } else if 1000 <= e && e < 1100 {
            match SystemError::from_code(e - 1000) {
                Some(x) => Some(StakingError::SystemProgramError(x)),
                None => None,
            }
        } else if 1100 <= e && e < 1200 {
            match TokenError::from_code(e - 1100) {
                Some(x) => Some(StakingError::TokenProgramError(x)),
                None => None,
            }
        } else if 1200 <= e && e < 1300 {
            match LendingError::from_code(e - 1200) {
                Some(x) => Some(StakingError::FranciumLendingError(x)),
                None => None,
            }
        } else if 1300 <= e && e < 1400 {
            match FarmingError::from_code(e - 1300) {
                Some(x) => Some(StakingError::FranciumFarmingError(x)),
                None => None,
            }
        } else if e >= 10_000 {
            Some(StakingError::UnknownError(e - 10_000))
        } else {
            None
        };
        match known {
            Some(x) => x,
            None => StakingError::UnknownError(e),
        }
    }

    /// The error for a custom code returned by the token program: its token error, or an unknown
    /// error of the code.
    pub fn token_program_error(code: u32) -> (r: StakingError)
        ensures
            r == (match token_error_of_code(code) {
                Some(e) => StakingError::TokenProgramError(e),
                None => StakingError::UnknownError(code),
            }),
    {
        match TokenError::from_code(code) {
            Some(e) => StakingError::TokenProgramError(e),
            None => StakingError::UnknownError(code),
        }
    }

    /// The error for a custom code returned by the system program: its system error, or an
    /// unknown error of the code.
    pub fn system_program_error(code: u32) -> (r: StakingError)
        ensures
            r == (match system_error_of_code(code) {
                Some(e) => StakingError::SystemProgramError(e),
                None => StakingError::UnknownError(code),
            }),
    {
        match SystemError::from_code(code) {
            Some(e) => StakingError::SystemProgramError(e),
            None => StakingError::UnknownError(code),
        }
    }

    /// The error for a custom code returned by the lending program: its lending error, or an
    /// unknown error of the code.
    pub fn francium_lending_error(code: u32) -> (r: StakingError)
        ensures
            r == (match lending_error_of_code(code) {
                Some(e) => StakingError::FranciumLendingError(e),
                None => StakingError::UnknownError(code),
            }),
    {
        match LendingError::from_code(code) {
            Some(e) => StakingError::FranciumLendingError(e),
            None => StakingError::UnknownError(code),
        }
    }

    /// The error for a custom code returned by the farming program: its farming error, or an
    /// unknown error of the code.
    pub fn francium_farming_error(code: u32) -> (r: StakingError)
        ensures
            r == (match farming_error_of_code(code) {
                Some(e) => StakingError::FranciumFarmingError(e),
                None => StakingError::UnknownError(code),
            }),
    {
        match FarmingError::from_code(code) {
            Some(e) => StakingError::FranciumFarmingError(e),
            None => StakingError::UnknownError(code),
        }
    }
}

impl From<StakingError> for u32 {
    fn from(error: StakingError) -> (r: u32) {
        error.code()
    }
}

impl vstd::std_specs::convert::FromSpecImpl<StakingError> for u32 {
    open spec fn obeys_from_spec() -> bool {
        true
    }

    open spec fn from_spec(error: StakingError) -> u32 {
        staking_error_code(error)
    }
}

impl From<u32> for StakingError {
    fn from(e: u32) -> (r: StakingError) {
        StakingError::from_code(e)
    }
}

impl vstd::std_specs::convert::FromSpecImpl<u32> for StakingError {
    open spec fn obeys_from_spec() -> bool {
        true
    }

    open spec fn from_spec(e: u32) -> StakingError {
        staking_error_of_code(e)
    }
}

/// Every error reads back from its code, except an invalid `NezhaVrfRequest` account (its code,
/// 400, is that of an invalid `Running` epoch status) and an unknown error whose code wraps
/// around.
pub proof fn lemma_staking_error_round_trip(e: StakingError)
    requires
        e != StakingError::InvalidAccount(AccountType::NezhaVrfRequest),
        e matches StakingError::UnknownError(x) ==> x <= u32::MAX - 10_000,
    ensures
        staking_error_of_code(staking_error_code(e)) == e,
{
    match e {
        StakingError::MissingSignature(s) => {
            assert(signature_type_of_code(signature_type_code(s)) == Some(s));
        },
        StakingError::InvalidConstant(c) => {
            assert(invalid_constant_of_code(invalid_constant_code(c)) == Some(c));
        },
        StakingError::InvalidAccount(a) => {
            assert(account_type_of_code(account_type_code(a)) == Some(a));
        },
        StakingError::InvalidEpochStatus(s) => {
            assert(epoch_status_of_code(epoch_status_code(s)) == Some(s));
        },
        StakingError::InvalidStakeUpdateState(s) => {
            assert(stake_update_state_of_code(stake_update_state_code(s)) == Some(s));
        },
        StakingError::SystemProgramError(x) => {
            assert(system_error_of_code(system_error_code(x)) == Some(x));
        },
        StakingError::TokenProgramError(x) => {
            assert(token_error_of_code(token_error_code(x)) == Some(x));
        },
        StakingError::FranciumLendingError(x) => {
            assert(lending_error_of_code(lending_error_code(x)) == Some(x));
        },
        StakingError::FranciumFarmingError(x) => {
            assert(farming_error_of_code(farming_error_code(x)) == Some(x));
        },
        _ => {},
    }
}

} // verus!
