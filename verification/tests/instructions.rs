use nezha_staking::command::NezCommand;
use nezha_staking::instruction::{
    CreateEpochWinnersMetaArgs, RotateKeyType, StakingInstruction, TierWinnersMetaInput,
    WinnerInput, WithdrawVault,
};
use nezha_staking::lending::instructions_wrapper::{
    BorrowParam, DepositParam, RepayParam, WithdrawParam, WithdrawParam2, borrow, deposit,
    is_token_program, repay, update, withdraw, withdraw2,
};
use nezha_staking::lending::processor::Processor;
use nezha_staking::pubkey::Pubkey;

fn key(n: u8) -> Pubkey {
    Pubkey([n; 32])
}

fn token_program() -> Pubkey {
    Pubkey([
        6, 221, 246, 225, 215, 101, 161, 147, 217, 203, 225, 70, 206, 235, 121, 172, 28, 180, 133,
        237, 95, 91, 55, 145, 58, 140, 245, 133, 126, 255, 0, 169,
    ])
}

#[test]
fn command_names_round_trip() {
    for c in [NezCommand::Deposit, NezCommand::Withdraw, NezCommand::StakedBalance, NezCommand::WalletBalance] {
        assert_eq!(NezCommand::parse(c.as_str()), Some(c));
    }
    assert_eq!(NezCommand::StakedBalance.as_str(), "staked-balance");
    assert_eq!(NezCommand::parse("balance"), None);
    assert_eq!(NezCommand::parse("Deposit"), None);
}

#[test]
fn param_data_is_tag_then_amount() {
    assert_eq!(DepositParam::serialize_to_vec(1), vec![4, 1, 0, 0, 0, 0, 0, 0, 0]);
    assert_eq!(WithdrawParam::serialize_to_vec(2)[0], 5);
    assert_eq!(WithdrawParam2::serialize_to_vec(2)[0], 6);
    assert_eq!(BorrowParam::serialize_to_vec(2)[0], 10);
    assert_eq!(RepayParam::serialize_to_vec(u64::MAX), vec![11, 255, 255, 255, 255, 255, 255, 255, 255]);
}

#[test]
fn lending_instruction_builders() {
    assert!(is_token_program(&token_program()));
    assert!(!is_token_program(&key(1)));

    let ix = update(&key(1), &key(2));
    assert_eq!(ix.program_id, key(1));
    assert_eq!(ix.data, vec![17]);
    assert_eq!(ix.accounts.len(), 1);
    assert!(ix.accounts[0].is_writable && !ix.accounts[0].is_signer);

    let ix = deposit(&key(1), &key(2), &key(3), &key(4), &key(5), &key(6), &key(7), &key(8), &key(9), &key(10), &token_program(), 99);
    assert_eq!(ix.data, DepositParam::serialize_to_vec(99));
    assert_eq!(ix.accounts.len(), 10);
    assert_eq!(ix.accounts[0].pubkey, key(2));
    assert!(ix.accounts[5].is_writable);
    assert!(!ix.accounts[6].is_writable);
    assert!(ix.accounts[7].is_signer && !ix.accounts[7].is_writable);
    assert_eq!(ix.accounts[9].pubkey, token_program());

    let ix = withdraw(&key(1), &key(2), &key(3), &key(4), &key(5), &key(6), &key(7), &key(8), &key(9), &key(10), &token_program(), 5);
    assert_eq!(ix.data[0], 5);
    let ix = withdraw2(&key(1), &key(2), &key(3), &key(4), &key(5), &key(6), &key(7), &key(8), &key(9), &key(10), &token_program(), 5);
    assert_eq!(ix.data[0], 6);

    let ix = borrow(&key(1), &key(2), &key(3), &key(4), &key(5), &key(6), &key(7), &key(8), &key(9), &key(10), &key(11), 3);
    assert_eq!(ix.data, BorrowParam::serialize_to_vec(3));
    assert_eq!(ix.accounts.len(), 10);
    assert!(ix.accounts[7].is_signer);

    let ix = repay(&key(1), &key(2), &key(3), &key(4), &key(5), &key(6), &key(7), &key(8), &key(9), &key(10), &key(11), &key(12), 3);
    assert_eq!(ix.accounts.len(), 11);
    assert!(ix.accounts[6].is_writable);
    assert!(!ix.accounts[7].is_writable);
    assert!(ix.accounts[8].is_signer);
}

#[test]
fn processor_accepts_everything() {
    assert_eq!(Processor::process(&key(1), &[1, 2, 3]), Ok(()));
}

#[test]
fn staking_instruction_data() {
    let mut v = Vec::new();
    StakingInstruction::Init.serialize(&mut v);
    assert_eq!(v, vec![0]);

    let data = StakingInstruction::RequestStakeUpdate { amount: -1 }.try_to_vec();
    assert_eq!(data, vec![1, 255, 255, 255, 255, 255, 255, 255, 255]);

    let data = StakingInstruction::ClaimWinning { epoch_index: 2, page: 3, winner_index: 4, tier: 1 }.try_to_vec();
    assert_eq!(data, vec![9, 2, 0, 0, 0, 0, 0, 0, 0, 3, 0, 0, 0, 4, 0, 0, 0, 1]);

    let data = StakingInstruction::WithdrawVault { vault: WithdrawVault::Treasury, amount: 7 }.try_to_vec();
    assert_eq!(data, vec![17, 1, 7, 0, 0, 0, 0, 0, 0, 0]);

    let data = StakingInstruction::RotateKey { key_type: RotateKeyType::Investor }.try_to_vec();
    assert_eq!(data, vec![21, 2]);

    let tier = TierWinnersMetaInput { total_num_winners: 1, total_num_winning_tickets: 2 };
    let data = StakingInstruction::CreateEpochWinnersMeta {
        meta_args: CreateEpochWinnersMetaArgs { tier1_meta: tier, tier2_meta: tier, tier3_meta: tier },
    }
    .try_to_vec();
    assert_eq!(data.len(), 1 + 24);

    let winner = WinnerInput { index: 1, address: key(3), tier: 2, num_winning_tickets: 5 };
    let data = StakingInstruction::PublishWinners { page_index: 0, winners_input: vec![winner, winner] }.try_to_vec();
    assert_eq!(data.len(), 1 + 4 + 4 + 2 * 41);
    assert_eq!(data[5..9], [2, 0, 0, 0]);
}
