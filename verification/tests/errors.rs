use nezha_staking::accounts::account_type::AccountType;
use nezha_staking::error::{InvalidConstant, SignatureType, StakingError, SystemError, TokenError};
use nezha_staking::farming::error::FarmingError;
use nezha_staking::lending::error::LendingError;
use nezha_staking::state::epoch::EpochStatus;
use nezha_staking::state::stake_update::StakeUpdateState;

#[test]
fn error_round_trip() {
    let errors = [
        StakingError::InvalidInstruction,
        StakingError::YieldNotWithdrawn,
        StakingError::UnknownError(1),
        StakingError::MissingSignature(SignatureType::Owner),
        StakingError::InvalidConstant(InvalidConstant::InvestorKey),
        StakingError::InvalidAccount(AccountType::DepositVault),
        StakingError::InvalidAccount(AccountType::Tier1PrizeVault),
        StakingError::InvalidEpochStatus(EpochStatus::Ended),
        StakingError::TokenProgramError(TokenError::InvalidInstruction),
        StakingError::SystemProgramError(SystemError::InvalidProgramId),
    ];

    for error in errors {
        let x: u32 = (error.clone()).into();
        let error_ = x.try_into();
        assert_eq!(Ok(error), error_);
    }
}

#[test]
fn error_codes_by_range() {
    assert_eq!(u32::from(StakingError::InsufficientBalance), 26);
    assert_eq!(u32::from(StakingError::MissingSignature(SignatureType::SuperAdmin)), 103);
    assert_eq!(u32::from(StakingError::InvalidConstant(InvalidConstant::ClockSysvar)), 221);
    assert_eq!(u32::from(StakingError::InvalidAccount(AccountType::Tier3PrizeVault)), 314);
    assert_eq!(u32::from(StakingError::InvalidStakeUpdateState(StakeUpdateState::Queued)), 451);
    assert_eq!(u32::from(StakingError::SystemProgramError(SystemError::NonceUnexpectedBlockhashValue)), 1008);
    assert_eq!(u32::from(StakingError::TokenProgramError(TokenError::NonNativeNotSupported)), 1119);
    assert_eq!(u32::from(StakingError::FranciumLendingError(LendingError::MathOverflow)), 1202);
    assert_eq!(u32::from(StakingError::FranciumFarmingError(FarmingError::InvalidData)), 1309);
    assert_eq!(u32::from(StakingError::UnknownError(5)), 10005);
}

#[test]
fn unknown_codes_read_as_unknown_errors() {
    assert_eq!(StakingError::from(27), StakingError::UnknownError(27));
    assert_eq!(StakingError::from(104), StakingError::UnknownError(104));
    assert_eq!(StakingError::from(203), StakingError::UnknownError(203));
    assert_eq!(StakingError::from(999), StakingError::UnknownError(999));
    assert_eq!(StakingError::from(10_000), StakingError::UnknownError(0));
}

#[test]
fn vrf_request_account_reads_back_as_running_epoch_status() {
    let code: u32 = StakingError::InvalidAccount(AccountType::NezhaVrfRequest).into();
    assert_eq!(code, 400);
    assert_eq!(StakingError::from(code), StakingError::InvalidEpochStatus(EpochStatus::Running));
}

#[test]
fn program_error_codes_map_to_their_program() {
    assert_eq!(StakingError::token_program_error(1), StakingError::TokenProgramError(TokenError::InsufficientFunds));
    assert_eq!(StakingError::token_program_error(20), StakingError::UnknownError(20));
    assert_eq!(StakingError::system_program_error(0), StakingError::SystemProgramError(SystemError::AccountAlreadyInUse));
    assert_eq!(StakingError::system_program_error(9), StakingError::UnknownError(9));
    assert_eq!(StakingError::francium_lending_error(3), StakingError::FranciumLendingError(LendingError::InsufficientLiquidity));
    assert_eq!(StakingError::francium_lending_error(50), StakingError::UnknownError(50));
    assert_eq!(StakingError::francium_farming_error(4), StakingError::FranciumFarmingError(FarmingError::AlreadyInitializedAccount));
    assert_eq!(StakingError::francium_farming_error(10), StakingError::UnknownError(10));
}
