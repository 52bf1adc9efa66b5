use nezha_staking::farming::error::FarmingError;
use nezha_staking::farming::instruction::{FarmingInstructions, FarmingPoolConfig};
use nezha_staking::farming::pool::{FARMING_POOL_LEN, FarmingPool};
use nezha_staking::farming::user::{FARMING_USER_LEN, FarmingUser};
use nezha_staking::farming::utils::{check_token_account, check_token_owner, token_balance_of};
use nezha_staking::pubkey::Pubkey;

fn test_pool(accumulated_rewards_per_share: u128) -> FarmingPool {
    FarmingPool {
        version: 0,
        is_dual_rewards: 0,
        admin: Default::default(),
        token_program_id: Default::default(),
        pool_authority: Default::default(),
        staked_token_mint: Default::default(),
        staked_token_account: Default::default(),
        rewards_token_mint: Default::default(),
        rewards_token_account: Default::default(),
        rewards_token_mint_b: Default::default(),
        rewards_token_account_b: Default::default(),
        pool_stake_cap: 10000000000000000,
        user_stake_cap: 10000000000000000,
        rewards_start_slot: 10000000,
        rewards_end_slot: 12322131,
        rewards_per_day: 21348978129,
        rewards_start_slot_b: 10000000,
        rewards_end_slot_b: 12322131,
        rewards_per_day_b: 21348978129,
        total_staked_amount: 265676815236,
        last_update_slot: 11000000,
        accumulated_rewards_per_share,
        accumulated_rewards_per_share_b: 0,
    }
}

#[test]
fn farming_pool_update_pool_rewards_b_test() {
    let mut pool = test_pool(231784612783467128);

    pool.update_pool_rewards_b(11111111);
    assert!(pool.accumulated_rewards_per_share_b == 41335837462u128);

    pool.update_pool_rewards_b(11211111);
    assert!(pool.accumulated_rewards_per_share_b == 78538128380u128);

    pool.update_pool_rewards_b(11311111);
    assert!(pool.accumulated_rewards_per_share_b == 115740419298u128);

    pool.update_pool_rewards_b(11411111);
    assert!(pool.accumulated_rewards_per_share_b == 152942710216u128);
}

#[test]
fn farming_pool_update_pool_rewards_test() {
    let mut pool = test_pool(0);

    pool.update_pool_rewards(11111111);
    assert!(pool.accumulated_rewards_per_share == 41335837462u128);

    pool.update_pool_rewards(11211111);
    assert!(pool.accumulated_rewards_per_share == 78538128380u128);

    pool.update_pool_rewards(11311111);
    assert!(pool.accumulated_rewards_per_share == 115740419298u128);

    pool.update_pool_rewards(11411111);
    assert!(pool.accumulated_rewards_per_share == 152942710216u128);
}

fn test_user(rewards_debt: u64) -> FarmingUser {
    FarmingUser {
        version: 0,
        staked_amount: 12345678,
        rewards_debt,
        rewards_debt_b: rewards_debt,
        farming_pool: Default::default(),
        user_main: Default::default(),
        stake_token_account: Default::default(),
        rewards_token_accont: Default::default(),
        rewards_token_account_b: Default::default(),
    }
}

#[test]
fn farming_user_update_debt_test() {
    let mut user = test_user(1234541335837462u64);
    user.update_rewards_debt(41335837462u128, 41335837462u128);
    assert!(user.rewards_debt == 510318 && user.rewards_debt_b == 510318);

    user.update_rewards_debt(115740419298u128, 115740419298u128);
    assert!(user.rewards_debt == 1428893 && user.rewards_debt_b == 1428893);

    user.update_rewards_debt(152942710216u128, 152942710216u128);
    assert!(user.rewards_debt == 1888181 && user.rewards_debt_b == 1888181);
}

#[test]
fn farming_user_pending_rewards_test() {
    let user = test_user(1000u64);
    let (r0, r1) = user.pending_rewards(41335837462u128, 41335837462u128);
    assert!(r0 == 509318 && r1 == 509318);
}

#[test]
fn update_at_the_same_slot_twice_changes_nothing_more() {
    let mut pool = test_pool(0);
    pool.update_pool_rewards(11111111);
    let once = pool;
    pool.update_pool_rewards(11111111);
    assert_eq!(pool, once);
}

#[test]
fn update_pool_leaves_token_b_rewards_unchanged() {
    let mut pool = test_pool(0);
    pool.is_dual_rewards = 1;
    pool.update_pool(11111111);
    assert_eq!(pool.accumulated_rewards_per_share, 41335837462u128);
    assert_eq!(pool.accumulated_rewards_per_share_b, 0);
    assert_eq!(pool.last_update_slot, 11111111);
}

#[test]
fn before_the_schedule_only_the_slot_moves() {
    let mut pool = test_pool(7);
    pool.last_update_slot = 1;
    pool.update_pool_rewards(5);
    assert_eq!(pool.accumulated_rewards_per_share, 7);
    assert_eq!(pool.last_update_slot, 5);
}

#[test]
fn nothing_pending_right_after_stake() {
    let mut pool = test_pool(0);
    let mut user = test_user(0);
    user.staked_amount = 0;
    let owed = pool.stake(&mut user, 11111111, 1000);
    assert_eq!(owed, (0, 0));
    assert_eq!(user.staked_amount, 1000);
    assert_eq!(pool.total_staked_amount, 265676815236 + 1000);
    assert_eq!(pool.pending_rewards(11111111, &user), (0, 0));
    let owed = pool.un_stake(&mut user, 11211111, 1000);
    assert_eq!(owed.0, 1000 * 78538128380u64 / 1_000_000_000_000 - 1000 * 41335837462u64 / 1_000_000_000_000);
    assert_eq!(user.staked_amount, 0);
}

#[test]
fn total_and_extended_rewards() {
    let pool = test_pool(0);
    let per_slot = 21348978129u128 * (12322131 - 10000000) / 216000;
    assert_eq!(pool.total_rewards(), (per_slot as u64, per_slot as u64));
    assert_eq!(pool.extend_rewards(12322131 + 216000), 21348978129);
}

#[test]
fn pool_and_user_accounts_round_trip() {
    let mut pool = test_pool(123);
    pool.admin = Pubkey([1; 32]);
    pool.pool_authority = Pubkey([2; 32]);
    pool.token_program_id = Pubkey([3; 32]);
    let mut buf = vec![0xAAu8; FARMING_POOL_LEN];
    pool.pack_into_slice(&mut buf);
    assert_eq!(&buf[2..34], &[1u8; 32]);
    assert_eq!(&buf[34..66], &[2u8; 32]);
    assert_eq!(&buf[66..98], &[3u8; 32]);
    assert_eq!(buf[402..], [0xAAu8; 128]);
    assert_eq!(FarmingPool::unpack_from_slice(&buf), Ok(pool));

    let mut user = test_user(5);
    user.user_main = Pubkey([9; 32]);
    let mut buf = vec![0u8; FARMING_USER_LEN];
    user.pack_into_slice(&mut buf);
    assert_eq!(buf[1..9], 12345678u64.to_le_bytes());
    assert_eq!(FarmingUser::unpack_from_slice(&buf), Ok(user));
}

#[test]
fn farming_instructions_round_trip() {
    let config = FarmingPoolConfig {
        is_dual_rewards: 1,
        pool_stake_cap: 2,
        user_stake_cap: 3,
        rewards_start_slot: 4,
        rewards_end_slot: 5,
        rewards_per_day: 6,
        rewards_start_slot_b: 7,
        rewards_end_slot_b: 8,
        rewards_per_day_b: 9,
    };
    let ixs = [
        FarmingInstructions::InitFarmingPool { config },
        FarmingInstructions::InitFarmingUser,
        FarmingInstructions::UpdateRewardsConfig { config },
        FarmingInstructions::Stake { amount: 77 },
        FarmingInstructions::UnStake { amount: u64::MAX },
        FarmingInstructions::UpdateRewardsToken,
        FarmingInstructions::UpdateRewardsTokenB,
        FarmingInstructions::ExtendRewards { end_slot: 1 << 40 },
        FarmingInstructions::UpdateRewardsPerDay { rewards_per_day: 3 },
        FarmingInstructions::AdminCloseEmptyAccount,
    ];
    for ix in ixs {
        let bytes = ix.pack();
        assert_eq!(FarmingInstructions::unpack(&bytes), Ok(ix));
    }
    let bytes = FarmingInstructions::Stake { amount: 258 }.pack();
    assert_eq!(bytes, vec![3, 2, 1, 0, 0, 0, 0, 0, 0]);
    assert_eq!(config.try_to_vec().len(), 65);
    assert_eq!(FarmingInstructions::unpack(&[]), Err(FarmingError::InstructionUnpackError));
    assert_eq!(FarmingInstructions::unpack(&[10]), Err(FarmingError::InstructionUnpackError));
}

#[test]
fn farming_error_codes() {
    assert_eq!(FarmingError::InvalidData.code(), 9);
    assert_eq!(FarmingError::from_code(3), Some(FarmingError::InvalidTokenAccountOwner));
    assert_eq!(FarmingError::from_code(10), None);
}

#[test]
fn token_account_reads() {
    let mut data = vec![0u8; 165];
    data[32..64].copy_from_slice(&[4u8; 32]);
    data[64..72].copy_from_slice(&500u64.to_le_bytes());
    assert_eq!(token_balance_of(&data), Ok(500));
    assert_eq!(check_token_owner(&data, &Pubkey([4; 32])), Ok(()));
    assert_eq!(check_token_owner(&data, &Pubkey([5; 32])), Err(FarmingError::InvalidTokenAccountOwner));
}

#[test]
fn token_account_checks() {
    let token = Pubkey([1; 32]);
    let mint = Pubkey([2; 32]);
    assert_eq!(check_token_account(&token, &mint, &token, &token, &mint), Ok(()));
    assert_eq!(check_token_account(&token, &mint, &mint, &token, &mint), Err(FarmingError::InvalidTokenMint));
    assert_eq!(check_token_account(&token, &mint, &token, &mint, &mint), Err(FarmingError::InvalidTokenAccount));
    assert_eq!(check_token_account(&token, &mint, &token, &token, &token), Err(FarmingError::InvalidTokenAccount));
}
