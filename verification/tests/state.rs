use nezha_staking::accounts::AccountType;
use nezha_staking::fixed_point::{FPInternal, FPUSDC, FixedPoint};
use nezha_staking::state::epoch::{
    Epoch, EpochStatus, InsuranceCfg, Returns, TICKETS_HASH_MAX_LEN, TICKETS_URL_MAX_LEN,
    TicketsInfo, YieldSplitCfg,
};
use nezha_staking::state::{ContractVersion, EPOCH_LEN};

fn max_epoch() -> Epoch {
    Epoch {
        account_type: AccountType::Epoch,
        contract_version: ContractVersion::V1,
        is_initialized: true,
        index: 0,
        status: EpochStatus::Running,
        yield_split_cfg: YieldSplitCfg {
            insurance: InsuranceCfg {
                premium: FPUSDC::from_u8(0),
                probability: FPInternal::from_u8(0),
            },
            jackpot: FPUSDC::from_u8(0),
            treasury_ratio: FixedPoint::from_u8(0),
            tier2_prize_share: 0u8,
            tier3_prize_share: 0u8,
        },
        start_at: 0,
        expected_end_at: 0,
        tickets_info: Some(TicketsInfo {
            num_tickets: 10,
            tickets_url: String::from_utf8(vec!['a' as u8; TICKETS_URL_MAX_LEN]).unwrap(),
            tickets_hash: vec![0; TICKETS_HASH_MAX_LEN],
            tickets_version: 1,
        }),
        total_invested: Some(FPUSDC::from_u8(0)),
        returns: Some(Returns {
            total: FPUSDC::from_u8(0),
            deposit_back: FPUSDC::from_u8(0),
            insurance: FPUSDC::from_u8(0),
            treasury: FPUSDC::from_u8(0),
            tier2_prize: FPUSDC::from_u8(0),
            tier3_prize: FPUSDC::from_u8(0),
        }),
        draw_enabled: Some(true),
        end_at: Some(0),
    }
}

#[test]
fn epoch_len() {
    let mut v = Vec::new();
    let e = max_epoch();
    e.serialize(&mut v);
    assert_eq!(v.len(), EPOCH_LEN);
}

#[test]
fn epoch_encoding_without_optional_fields_is_shorter() {
    let mut e = max_epoch();
    e.tickets_info = None;
    e.total_invested = None;
    e.returns = None;
    e.draw_enabled = None;
    e.end_at = None;
    e.start_at = -1;
    e.index = 7;
    let mut v = Vec::new();
    e.serialize(&mut v);
    assert_eq!(v.len(), 1 + 1 + 1 + 8 + 1 + 98 + 8 + 8 + 5);
    assert_eq!(v[0], 1);
    assert_eq!(v[3..11], 7u64.to_le_bytes());
    assert_eq!(v[110..118], [0xFF; 8]);
    assert_eq!(v[126..], [0, 0, 0, 0, 0]);
    assert!(v.len() <= Epoch::max_len());
}

use nezha_staking::pubkey::Pubkey;
use nezha_staking::state::balance::FloatingBalance;
use nezha_staking::state::latest_epoch::{LatestEpoch, PendingFunds, Pubkeys};
use nezha_staking::state::return_rate::CumulativeReturnRate;
use nezha_staking::state::stake::Stake;
use nezha_staking::state::stake_update::{StakeUpdateRequest, StakeUpdateState};
use nezha_staking::state::winners::{
    EpochWinnersMeta, EpochWinnersPage, MAX_NUM_WINNERS_PER_PAGE, TierStatus, TierWinnersMeta,
    Winner, WinnerProcessingStatus,
};
use nezha_staking::state::{
    EPOCH_WINNERS_META_LEN, EPOCH_WINNERS_PAGE_LEN, LATEST_EPOCH_LEN, STAKE_LEN,
    STAKE_UPDATE_REQUEST_LEN,
};

#[test]
fn latest_epoch_test_max_len() {
    let mut v = Vec::new();
    LatestEpoch {
        account_type: AccountType::LatestEpoch,
        contract_version: ContractVersion::V1,
        is_initialized: true,
        index: 0,
        status: EpochStatus::Running,
        epoch: Pubkey([1; 32]),
        cumulative_return_rate: CumulativeReturnRate::unity(),
        pending_funds: PendingFunds {
            insurance: FPUSDC::from_u8(0),
            tier2_prize: FPUSDC::from_u8(0),
            tier3_prize: FPUSDC::from_u8(0),
        },
        pubkeys: Pubkeys {
            super_admin: Pubkey([2; 32]),
            admin: Pubkey([3; 32]),
            investor: Pubkey([4; 32]),
            nezha_vrf_program_id: Pubkey([5; 32]),
        },
    }
    .serialize(&mut v);
    assert_eq!(v.len(), LATEST_EPOCH_LEN);
}

#[test]
fn mod_test_max_len() {
    let mut v = Vec::new();
    Stake {
        account_type: AccountType::Stake,
        contract_version: ContractVersion::V1,
        is_initialized: true,
        owner: Pubkey([6; 32]),
        balance: FloatingBalance::new(FixedPoint::zero(), CumulativeReturnRate::unity()),
        created_epoch_index: 0,
        updated_epoch_index: 0,
    }
    .serialize(&mut v);
    assert_eq!(v.len(), STAKE_LEN);
}

#[test]
fn stake_update_test_max_len() {
    let mut v = Vec::new();
    StakeUpdateRequest {
        account_type: AccountType::StakeUpdateRequest,
        contract_version: ContractVersion::V1,
        is_initialized: true,
        owner: Pubkey([7; 32]),
        amount: 0,
        state: StakeUpdateState::PendingApproval,
    }
    .serialize(&mut v);
    assert_eq!(v.len(), STAKE_UPDATE_REQUEST_LEN);
}

#[test]
fn test_max_len_epoch_winners_meta() {
    let tier_meta = TierWinnersMeta {
        total_prize: FixedPoint::zero(),
        total_num_winners: 0,
        total_num_winning_tickets: 0,
    };

    let tier_status = TierStatus {
        rem_num_winners: 0,
        rem_num_winning_tickets: 0,
        rem_prize: FixedPoint::zero(),
    };

    let mut v = Vec::new();
    EpochWinnersMeta {
        account_type: AccountType::EpochWinnersPage,
        contract_version: ContractVersion::V1,
        is_initialized: true,
        epoch_pubkey: Pubkey([8; 32]),
        epoch_index: 0,
        tier1_meta: tier_meta.clone(),
        tier2_meta: tier_meta.clone(),
        tier3_meta: tier_meta.clone(),
        total_num_pages: 0,
        total_num_winners: 0,
        jackpot_claimable: false,
        status: WinnerProcessingStatus::InProgress {
            num_pages: 0,
            num_processed_winners: 0,
            tier1_status: tier_status.clone(),
            tier2_status: tier_status.clone(),
            tier3_status: tier_status.clone(),
        },
    }
    .serialize(&mut v);
    assert_eq!(v.len(), EPOCH_WINNERS_META_LEN);
}

#[test]
fn test_max_len_epoch_winners_page() {
    let mut v = Vec::new();
    EpochWinnersPage {
        account_type: AccountType::EpochWinnersPage,
        contract_version: ContractVersion::V1,
        is_initialized: true,
        page_index: 0,
        winners: std::iter::repeat(Winner {
            index: 0,
            prize: FPUSDC::from_u8(0),
            address: Pubkey([9; 32]),
            tier: 0,
            claimed: true,
        })
        .take(MAX_NUM_WINNERS_PER_PAGE)
        .collect(),
    }
    .serialize(&mut v);
    assert_eq!(v.len(), EPOCH_WINNERS_PAGE_LEN);
}

#[test]
fn stake_update_request_encodes_negative_amounts_in_twos_complement() {
    let mut v = Vec::new();
    StakeUpdateRequest {
        account_type: AccountType::StakeUpdateRequest,
        contract_version: ContractVersion::V1,
        is_initialized: false,
        owner: Pubkey([7; 32]),
        amount: -2,
        state: StakeUpdateState::Queued,
    }
    .serialize(&mut v);
    assert_eq!(v[..3], [3, 0, 0]);
    assert_eq!(v[35..43], (-2i64).to_le_bytes());
    assert_eq!(v[43], 1);
}
