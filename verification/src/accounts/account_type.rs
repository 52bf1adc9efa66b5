//! The kinds of accounts of the program.
use vstd::prelude::*;

verus! {

/// The kind of an account.
#[derive(Clone, Copy, Debug, PartialEq, Eq)]
pub enum AccountType {
    LatestEpoch,
    Epoch,
    Stake,
    StakeUpdateRequest,
    EpochWinnersMeta,
    EpochWinnersPage,
    VaultAuthority,
    FranciumAuthority,
    DepositVault,
    TreasuryVault,
    InsuranceVault,
    PendingDepositVault,
    Tier1PrizeVault,
    Tier2PrizeVault,
    Tier3PrizeVault,
    NezhaVrfRequest,
}

/// The number of each account type: its position, except `NezhaVrfRequest`, which is 100.
pub open spec fn account_type_code(t: AccountType) -> u32 {
    match t {
        AccountType::LatestEpoch => 0,
        AccountType::Epoch => 1,
        AccountType::Stake => 2,
        AccountType::StakeUpdateRequest => 3,
        AccountType::EpochWinnersMeta => 4,
        AccountType::EpochWinnersPage => 5,
        AccountType::VaultAuthority => 6,
        AccountType::FranciumAuthority => 7,
        AccountType::DepositVault => 8,
        AccountType::TreasuryVault => 9,
        AccountType::InsuranceVault => 10,
        AccountType::PendingDepositVault => 11,
        AccountType::Tier1PrizeVault => 12,
        AccountType::Tier2PrizeVault => 13,
        AccountType::Tier3PrizeVault => 14,
        AccountType::NezhaVrfRequest => 100,
    }
}

/// The account type with a given number, if any.
pub open spec fn account_type_of_code(code: u32) -> Option<AccountType> {
    match code {
        0 => Some(AccountType::LatestEpoch),
        1 => Some(AccountType::Epoch),
        2 => Some(AccountType::Stake),
        3 => Some(AccountType::StakeUpdateRequest),
        4 => Some(AccountType::EpochWinnersMeta),
        5 => Some(AccountType::EpochWinnersPage),
        6 => Some(AccountType::VaultAuthority),
        7 => Some(AccountType::FranciumAuthority),
        8 => Some(AccountType::DepositVault),
        9 => Some(AccountType::TreasuryVault),
        10 => Some(AccountType::InsuranceVault),
        11 => Some(AccountType::PendingDepositVault),
        12 => Some(AccountType::Tier1PrizeVault),
        13 => Some(AccountType::Tier2PrizeVault),
        14 => Some(AccountType::Tier3PrizeVault),
        100 => Some(AccountType::NezhaVrfRequest),
        _ => None,
    }
}

impl AccountType {
    /// The number of the account type.
    pub fn code(&self) -> (r: u32)
        ensures
            r == account_type_code(*self),
    {
        match self {
            AccountType::LatestEpoch => 0,
            AccountType::Epoch => 1,
            AccountType::Stake => 2,
            AccountType::StakeUpdateRequest => 3,
            AccountType::EpochWinnersMeta => 4,
            AccountType::EpochWinnersPage => 5,
            AccountType::VaultAuthority => 6,
            AccountType::FranciumAuthority => 7,
            AccountType::DepositVault => 8,
            AccountType::TreasuryVault => 9,
            AccountType::InsuranceVault => 10,
            AccountType::PendingDepositVault => 11,
            AccountType::Tier1PrizeVault => 12,
            AccountType::Tier2PrizeVault => 13,
            AccountType::Tier3PrizeVault => 14,
            AccountType::NezhaVrfRequest => 100,
        }
    }

    /// The account type with the given number, if any.
    pub fn from_code(code: u32) -> (r: Option<Self>)
        ensures
            r == account_type_of_code(code),
    {
        match code {
            0 => Some(AccountType::LatestEpoch),
            1 => Some(AccountType::Epoch),
            2 => Some(AccountType::Stake),
            3 => Some(AccountType::StakeUpdateRequest),
            4 => Some(AccountType::EpochWinnersMeta),
            5 => Some(AccountType::EpochWinnersPage),
            6 => Some(AccountType::VaultAuthority),
            7 => Some(AccountType::FranciumAuthority),
            8 => Some(AccountType::DepositVault),
            9 => Some(AccountType::TreasuryVault),
            10 => Some(AccountType::InsuranceVault),
            11 => Some(AccountType::PendingDepositVault),
            12 => Some(AccountType::Tier1PrizeVault),
            13 => Some(AccountType::Tier2PrizeVault),
            14 => Some(AccountType::Tier3PrizeVault),
            100 => Some(AccountType::NezhaVrfRequest),
            _ => None,
        }
    }
}

} // verus!
