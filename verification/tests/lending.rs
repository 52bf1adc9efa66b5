use nezha_staking::lending::error::LendingError;
use nezha_staking::lending::instruction::LendingInstruction;
use nezha_staking::lending::math::{Decimal, Rate};
use nezha_staking::lending::pack::{LENDING_MARKET_LEN, LENDING_POOL_LEN};
use nezha_staking::lending::state::{
    CreditToken, InitLendingMarketParams, InitLendingPoolParams, InterestRateModel, LastUpdate,
    LendingMarket,
    LendingPool, LiquidityShares, NewCreditParams, NewLiquiditShareParams,
    NewReserveLiquidityParams, ReserveLiquidity,
};
use nezha_staking::pubkey::Pubkey;

fn test_pool() -> LendingPool {
    let liquidity = ReserveLiquidity::new(NewReserveLiquidityParams {
        mint_pubkey: Pubkey([1; 32]),
        mint_decimals: 6,
        supply_pubkey: Pubkey([2; 32]),
        fee_receiver: Pubkey([3; 32]),
        oracle_pubkey: Some(Pubkey([4; 32])),
        market_price: 100,
    });
    let shares = LiquidityShares::new(NewLiquiditShareParams {
        mint_pubkey: Pubkey([5; 32]),
        supply_pubkey: Pubkey([6; 32]),
    });
    let credit = CreditToken::new(NewCreditParams {
        mint_pubkey: Pubkey([7; 32]),
        supply_pubkey: Pubkey([8; 32]),
    });
    let mut pool = LendingPool::new(InitLendingPoolParams {
        current_slot: 42,
        lending_market: Pubkey([9; 32]),
        liquidity,
        shares,
        credit,
    });
    pool.update_interest_reverse_rate(20);
    pool
}

fn same_pool(a: &LendingPool, b: &LendingPool) -> bool {
    a.version == b.version
        && a.last_update.slot == b.last_update.slot
        && a.last_update.stale == b.last_update.stale
        && a.lending_market == b.lending_market
        && a.liquidity == b.liquidity
        && a.shares == b.shares
        && a.credit == b.credit
        && a.interest_rate_model == b.interest_rate_model
        && a.interest_reverse_rate == b.interest_reverse_rate
        && a.accumulated_interest_reverse == b.accumulated_interest_reverse
}

#[test]
fn lending_pool_account_round_trip() {
    let mut pool = test_pool();
    pool.deposit_liquidity(1_000).unwrap();
    let mut buf = vec![0x5Au8; LENDING_POOL_LEN];
    pool.pack_into_slice(&mut buf);
    assert_eq!(buf[0], 1);
    assert_eq!(buf[1..9], 42u64.to_le_bytes());
    assert_eq!(buf[139..143], [1, 0, 0, 0]);
    assert_eq!(buf[175..183], 1_000u64.to_le_bytes());
    assert_eq!(buf[378], 20);
    assert_eq!(buf[387..], [0x5Au8; 108]);
    let back = LendingPool::unpack_from_slice(&buf).unwrap();
    assert!(same_pool(&back, &pool));
    assert_eq!(
        LendingPool::unpack_cumulated_borrow_rate(&buf).unwrap(),
        pool.liquidity.cumulative_borrow_rate_wads
    );
}

#[test]
fn lending_pool_without_oracle_keeps_the_old_address_bytes() {
    let mut pool = test_pool();
    pool.liquidity.oracle_pubkey = None;
    let mut buf = vec![0x77u8; LENDING_POOL_LEN];
    pool.pack_into_slice(&mut buf);
    assert_eq!(buf[139..143], [0, 0, 0, 0]);
    assert_eq!(buf[143..175], [0x77u8; 32]);
    let back = LendingPool::unpack_from_slice(&buf).unwrap();
    assert_eq!(back.liquidity.oracle_pubkey, None);
}

#[test]
fn invalid_lending_pool_data_is_refused() {
    let pool = test_pool();
    let mut buf = vec![0u8; LENDING_POOL_LEN];
    pool.pack_into_slice(&mut buf);

    let mut bad = buf.clone();
    bad[0] = 2;
    assert!(matches!(LendingPool::unpack_from_slice(&bad), Err(LendingError::InvalidAccountData)));
    let mut bad = buf.clone();
    bad[9] = 2;
    assert!(matches!(LendingPool::unpack_from_slice(&bad), Err(LendingError::InvalidAccountData)));
    let mut bad = buf.clone();
    bad[139] = 2;
    assert!(matches!(LendingPool::unpack_from_slice(&bad), Err(LendingError::InvalidAccountData)));
    let mut odd = buf.clone();
    odd[378] = 0;
    assert_eq!(LendingPool::unpack_from_slice(&odd).unwrap().interest_reverse_rate, 10);
    odd[378] = 51;
    assert_eq!(LendingPool::unpack_from_slice(&odd).unwrap().interest_reverse_rate, 10);
}

#[test]
fn lending_market_account_round_trip() {
    let market = LendingMarket::new(InitLendingMarketParams {
        bump_seed: 254,
        owner: Pubkey([3; 32]),
        token_program_id: Pubkey([4; 32]),
    });
    let mut buf = vec![0u8; LENDING_MARKET_LEN];
    market.pack_into_slice(&mut buf);
    assert_eq!(buf[..2], [1, 254]);
    assert_eq!(LendingMarket::unpack_from_slice(&buf), Ok(market));
    buf[0] = 9;
    assert_eq!(LendingMarket::unpack_from_slice(&buf), Err(LendingError::InvalidAccountData));
}

#[test]
fn lending_instructions_round_trip() {
    let ixs = [
        LendingInstruction::InitLendingMarket { owner: Pubkey([8; 32]) },
        LendingInstruction::InitLendingPool { liquidity_amount: 1 },
        LendingInstruction::UpdateInterestModel {
            interest_model: InterestRateModel::new(50, 80, 1, 20, 10, 5, 20, 1000),
        },
        LendingInstruction::DepositToLendingPool { liquidity_amount: 2 },
        LendingInstruction::WithdrawFromLendingPool { share_amount: 3 },
        LendingInstruction::WithdrawFromLendingPool2 { liquidity_amount: 4 },
        LendingInstruction::MintCredit { credit_amount: 5 },
        LendingInstruction::BurnCredit { credit_amount: 6 },
        LendingInstruction::BorrowFromLendingPool { tkn_amount: 7 },
        LendingInstruction::RepayToLendingPool { tkn_amount: 8 },
        LendingInstruction::UpdateLendingPool,
        LendingInstruction::AdminWithdrawReserve,
        LendingInstruction::AdminReduceReserve(u64::MAX),
        LendingInstruction::TransferMarketOwner,
        LendingInstruction::SetFeeReceiver,
        LendingInstruction::UpdateLendingPool2,
    ];
    for ix in ixs {
        assert_eq!(LendingInstruction::unpack(&ix.pack()), Ok(ix));
    }
    assert_eq!(LendingInstruction::DepositToLendingPool { liquidity_amount: 256 }.pack(), vec![4, 0, 1, 0, 0, 0, 0, 0, 0]);
}

#[test]
fn malformed_lending_instructions_are_unpack_errors() {
    assert_eq!(LendingInstruction::unpack(&[]), Err(LendingError::InstructionUnpackError));
    assert_eq!(LendingInstruction::unpack(&[1]), Err(LendingError::InstructionUnpackError));
    assert_eq!(LendingInstruction::unpack(&[9]), Err(LendingError::InstructionUnpackError));
    assert_eq!(LendingInstruction::unpack(&[4, 1, 2]), Err(LendingError::InstructionUnpackError));
    assert_eq!(LendingInstruction::unpack(&[0; 10]), Err(LendingError::InstructionUnpackError));
    assert_eq!(
        LendingInstruction::unpack(&[3, 0, 0, 0, 0, 0, 0, 0, 0, 0, 0, 0]),
        Ok(LendingInstruction::UpdateInterestModel { interest_model: InterestRateModel::default_model() })
    );
    assert_eq!(
        LendingInstruction::unpack(&[14, 1, 0, 0, 0, 0, 0, 0, 0, 99]),
        Ok(LendingInstruction::AdminReduceReserve(1))
    );
}

#[test]
fn deposit_mints_shares_one_to_one_at_first() {
    let mut pool = test_pool();
    assert_eq!(pool.deposit_liquidity(500), Ok(500));
    assert_eq!(pool.liquidity.available_amount, 500);
    assert_eq!(pool.shares.mint_total_supply, 500);
    assert_eq!(pool.withdraw_liquidity(200), Ok(200));
    assert_eq!(pool.liquidity.available_amount, 300);
    assert_eq!(pool.shares.mint_total_supply, 300);
}

#[test]
fn default_model_borrow_rate() {
    let m = InterestRateModel::default_model();
    let rate = m.current_borrow_rate(Rate::from_percent(40)).unwrap();
    assert_eq!(rate, Rate::from_percent(10));
    let rate = m.current_borrow_rate(Rate::from_percent(70)).unwrap();
    assert_eq!(rate, Rate::from_percent(15));
    assert_eq!(Decimal::from_scaled_val(5).to_scaled_val(), Ok(5));
}

#[test]
fn accrual_never_lowers_borrows() {
    let mut pool = test_pool();
    pool.deposit_liquidity(1_000_000).unwrap();
    pool.liquidity.borrow(Decimal::from_u64(500_000)).unwrap();
    let before_borrowed = pool.liquidity.borrowed_amount_wads;
    let before_rate = pool.liquidity.cumulative_borrow_rate_wads;
    pool.accrue_interest(42 + 10_000).unwrap();
    assert!(pool.liquidity.borrowed_amount_wads.gt(&before_borrowed));
    assert!(pool.liquidity.cumulative_borrow_rate_wads.gt(&before_rate));
    assert!(pool.accumulated_interest_reverse <= 500_000);
}

#[test]
fn shares_round_trip_never_gains() {
    let mut pool = test_pool();
    pool.deposit_liquidity(1_000_000).unwrap();
    pool.liquidity.borrow(Decimal::from_u64(300_000)).unwrap();
    pool.accrue_interest(42 + 100_000).unwrap();
    let rate = pool.share_exchange_rate().unwrap();
    for amount in [1u64, 7, 999, 123_456] {
        let shares = rate.liquidity_to_share(amount).unwrap();
        let back = rate.share_to_liquidity(shares).unwrap();
        assert!(back <= amount);
    }
}

#[test]
fn last_updates_are_ordered_by_slot() {
    let mut a = LastUpdate::new(5);
    let b = LastUpdate::new(7);
    assert!(a < b);
    a.update_slot(7);
    assert!(a == b);
    assert!(a.partial_cmp(&b) == Some(std::cmp::Ordering::Equal));
}
