//! Instructions to programs: the program, the accounts it reads and writes, and its data.
use crate::bytes::{le_bytes, push_le};
use crate::pubkey::Pubkey;
use crate::state::encoding::{i64_bytes, push_i64, push_pubkey};
use crate::state::epoch::{
    TicketsInfo, YieldSplitCfg, tickets_info_bytes, tickets_info_encodable, yield_split_cfg_bytes,
};
use vstd::prelude::*;

verus! {

/// An account that an instruction uses, and how.
#[derive(Clone, Copy, Debug, PartialEq, Eq)]
pub struct AccountMeta {
    pub pubkey: Pubkey,
    pub is_signer: bool,
    pub is_writable: bool,
}

impl AccountMeta {
    /// An account that the instruction writes.
    pub fn new(pubkey: Pubkey, is_signer: bool) -> (r: AccountMeta)
        ensures
            r == (AccountMeta { pubkey, is_signer, is_writable: true }),
    {
        AccountMeta { pubkey, is_signer, is_writable: true }
    }

    /// An account that the instruction only reads.
    pub fn new_readonly(pubkey: Pubkey, is_signer: bool) -> (r: AccountMeta)
        ensures
            r == (AccountMeta { pubkey, is_signer, is_writable: false }),
    {
        AccountMeta { pubkey, is_signer, is_writable: false }
    }
}

/// An instruction to a program.
#[derive(Clone, Debug, PartialEq, Eq)]
pub struct Instruction {
    pub program_id: Pubkey,
    pub accounts: Vec<AccountMeta>,
    pub data: Vec<u8>,
}

/// The address of the token program, as bytes.
pub open spec fn spl_token_id_bytes() -> Seq<u8> {
    seq![
        6u8, 221, 246, 225, 215, 101, 161, 147, 217, 203, 225, 70, 206, 235, 121, 172, 28, 180,
        133, 237, 95, 91, 55, 145, 58, 140, 245, 133, 126, 255, 0, 169,
    ]
}

/// The address of the token program (`spl_token::id()`, declared in the token program's
/// interface as `TokenkegQfeZyiNwAJbNbGKPFXCWuBvf9Ss623VQ5DA`, whose bytes these are).
#[verifier::external_body]
pub(crate) fn spl_token_id() -> (r: Pubkey)
    ensures
        r.0@ == spl_token_id_bytes(),
{
    Pubkey(spl_token::id().to_bytes())
}

/// Whether two addresses are the same.
pub fn same_pubkey(a: &Pubkey, b: &Pubkey) -> (r: bool)
    ensures
        r == (a.0@ == b.0@),
{
    let mut i: usize = 0;
    while i < 32
        invariant
            i <= 32,
            forall|k: int| 0 <= k < i ==> a.0@[k] == b.0@[k],
        decreases 32 - i,
    {
        if a.0[i] != b.0[i] {
            return false;
        }
        i = i + 1;
    }
    assert(a.0@ =~= b.0@);
    true
}

/// A winner of a page, as the admin publishes it.
#[derive(Clone, Copy, Debug, PartialEq, Eq)]
pub struct WinnerInput {
    pub index: u32,
    pub address: Pubkey,
    pub tier: u8,
    pub num_winning_tickets: u32,
}

/// The winners count and winning tickets count of a tier.
#[derive(Clone, Copy, Debug, PartialEq, Eq)]
pub struct TierWinnersMetaInput {
    pub total_num_winners: u32,
    pub total_num_winning_tickets: u32,
}

/// The winners summary of the three tiers.
#[derive(Clone, Copy, Debug, PartialEq, Eq)]
pub struct CreateEpochWinnersMetaArgs {
    pub tier1_meta: TierWinnersMetaInput,
    pub tier2_meta: TierWinnersMetaInput,
    pub tier3_meta: TierWinnersMetaInput,
}

/// A vault that the admin can withdraw from.
#[derive(Clone, Copy, Debug, PartialEq, Eq)]
pub enum WithdrawVault {
    Insurance,
    Treasury,
}

/// A key that the super admin can replace.
#[derive(Clone, Copy, Debug, PartialEq, Eq)]
pub enum RotateKeyType {
    SuperAdmin,
    Admin,
    Investor,
}

/// Instructions of the staking program.
#[derive(Clone, Debug, PartialEq, Eq)]
pub enum StakingInstruction {
    Init,
    RequestStakeUpdate { amount: i64 },
    ApproveStakeUpdate { amount: i64 },
    CancelStakeUpdate { amount: i64 },
    Removed3,
    Removed4,
    CreateEpoch { expected_end_at: i64, yield_split_cfg: YieldSplitCfg },
    Removed1,
    Removed5,
    ClaimWinning { epoch_index: u64, page: u32, winner_index: u32, tier: u8 },
    YieldWithdrawByInvestor { tickets_info: TicketsInfo },
    YieldDepositByInvestor { return_amount: u64 },
    FundJackpot { epoch_index: u64 },
    Removed2,
    FranciumInit,
    FranciumInvest { tickets_info: TicketsInfo },
    FranciumWithdraw,
    WithdrawVault { vault: WithdrawVault, amount: u64 },
    CompleteStakeUpdate,
    CreateEpochWinnersMeta { meta_args: CreateEpochWinnersMetaArgs },
    PublishWinners { page_index: u32, winners_input: Vec<WinnerInput> },
    RotateKey { key_type: RotateKeyType },
}

/// The position of a vault.
pub open spec fn withdraw_vault_index(v: WithdrawVault) -> u8 {
    match v {
        WithdrawVault::Insurance => 0,
        WithdrawVault::Treasury => 1,
    }
}

/// The position of a key type.
pub open spec fn rotate_key_type_index(k: RotateKeyType) -> u8 {
    match k {
        RotateKeyType::SuperAdmin => 0,
        RotateKeyType::Admin => 1,
        RotateKeyType::Investor => 2,
    }
}

/// The encoding of a tier's winners counts.
pub open spec fn tier_input_bytes(t: TierWinnersMetaInput) -> Seq<u8> {
    le_bytes(t.total_num_winners as nat, 4) + le_bytes(t.total_num_winning_tickets as nat, 4)
}

/// The encoding of the winners summary of the three tiers.
pub open spec fn meta_args_bytes(a: CreateEpochWinnersMetaArgs) -> Seq<u8> {
    tier_input_bytes(a.tier1_meta) + tier_input_bytes(a.tier2_meta) + tier_input_bytes(
        a.tier3_meta,
    )
}

/// The encoding of a published winner.
pub open spec fn winner_input_bytes(w: WinnerInput) -> Seq<u8> {
    le_bytes(w.index as nat, 4) + w.address.0@ + seq![w.tier] + le_bytes(
        w.num_winning_tickets as nat,
        4,
    )
}

/// The encodings of published winners, one after the other.
pub open spec fn winner_inputs_bytes(ws: Seq<WinnerInput>) -> Seq<u8>
    decreases ws.len(),
{
    if ws.len() == 0 {
        seq![]
    } else {
        winner_inputs_bytes(ws.drop_last()) + winner_input_bytes(ws.last())
    }
}

/// The data of a staking instruction: the position of its variant, then its fields in order.
pub open spec fn staking_instruction_bytes(ix: StakingInstruction) -> Seq<u8> {
    match ix {
        StakingInstruction::Init => seq![0u8],
        StakingInstruction::RequestStakeUpdate { amount } => seq![1u8] + i64_bytes(amount),
        StakingInstruction::ApproveStakeUpdate { amount } => seq![2u8] + i64_bytes(amount),
        StakingInstruction::CancelStakeUpdate { amount } => seq![3u8] + i64_bytes(amount),
        StakingInstruction::Removed3 => seq![4u8],
        StakingInstruction::Removed4 => seq![5u8],
        StakingInstruction::CreateEpoch { expected_end_at, yield_split_cfg } => seq![6u8]
            + i64_bytes(expected_end_at)
            + yield_split_cfg_bytes(yield_split_cfg),
        StakingInstruction::Removed1 => seq![7u8],
        StakingInstruction::Removed5 => seq![8u8],
        StakingInstruction::ClaimWinning { epoch_index, page, winner_index, tier } => seq![9u8]
            + le_bytes(epoch_index as nat, 8)
            + le_bytes(page as nat, 4)
            + le_bytes(winner_index as nat, 4)
            + seq![tier],
        StakingInstruction::YieldWithdrawByInvestor { tickets_info } => seq![10u8]
            + tickets_info_bytes(tickets_info),
        StakingInstruction::YieldDepositByInvestor { return_amount } => seq![11u8]
            + le_bytes(return_amount as nat, 8),
        StakingInstruction::FundJackpot { epoch_index } => seq![12u8]
            + le_bytes(epoch_index as nat, 8),
        StakingInstruction::Removed2 => seq![13u8],
        StakingInstruction::FranciumInit => seq![14u8],
        StakingInstruction::FranciumInvest { tickets_info } => seq![15u8]
            + tickets_info_bytes(tickets_info),
        StakingInstruction::FranciumWithdraw => seq![16u8],
        StakingInstruction::WithdrawVault { vault, amount } => seq![17u8]
            + seq![withdraw_vault_index(vault)]
            + le_bytes(amount as nat, 8),
        StakingInstruction::CompleteStakeUpdate => seq![18u8],
        StakingInstruction::CreateEpochWinnersMeta { meta_args } => seq![19u8]
            + meta_args_bytes(meta_args),
        StakingInstruction::PublishWinners { page_index, winners_input } => seq![20u8]
            + le_bytes(page_index as nat, 4)
            + le_bytes(winners_input@.len(), 4)
            + winner_inputs_bytes(winners_input@),
        StakingInstruction::RotateKey { key_type } => seq![21u8]
            + seq![rotate_key_type_index(key_type)],
    }
}

/// Whether an instruction can be encoded: its tickets information can, and its winners are
/// counted in four bytes.
pub open spec fn staking_instruction_encodable(ix: StakingInstruction) -> bool {
    match ix {
        StakingInstruction::YieldWithdrawByInvestor { tickets_info } => tickets_info_encodable(
            tickets_info,
        ),
        StakingInstruction::FranciumInvest { tickets_info } => tickets_info_encodable(tickets_info),
        StakingInstruction::PublishWinners { winners_input, .. } => winners_input@.len()
            <= u32::MAX,
        _ => true,
    }
}

impl WithdrawVault {
    /// The position of the vault.
    pub fn index(&self) -> (r: u8)
        ensures
            r == withdraw_vault_index(*self),
    {
        match self {
            WithdrawVault::Insurance => 0,
            WithdrawVault::Treasury => 1,
        }
    }
}

impl RotateKeyType {
    /// The position of the key type.
    pub fn index(&self) -> (r: u8)
        ensures
            r == rotate_key_type_index(*self),
    {
        match self {
            RotateKeyType::SuperAdmin => 0,
            RotateKeyType::Admin => 1,
            RotateKeyType::Investor => 2,
        }
    }
}

impl CreateEpochWinnersMetaArgs {
    /// Appends the encoding of the summary.
    pub fn serialize(&self, out: &mut Vec<u8>)
        ensures
            final(out)@ == old(out)@ + meta_args_bytes(*self),
    {
        push_le(out, self.tier1_meta.total_num_winners as u128, 4);
        push_le(out, self.tier1_meta.total_num_winning_tickets as u128, 4);
        push_le(out, self.tier2_meta.total_num_winners as u128, 4);
        push_le(out, self.tier2_meta.total_num_winning_tickets as u128, 4);
        push_le(out, self.tier3_meta.total_num_winners as u128, 4);
        push_le(out, self.tier3_meta.total_num_winning_tickets as u128, 4);
        assert(final(out)@ =~= old(out)@ + meta_args_bytes(*self));
    }
}

/// Appends the count of the winners, then each winner.
fn serialize_winner_inputs(out: &mut Vec<u8>, ws: &Vec<WinnerInput>)
    requires
        ws@.len() <= u32::MAX,
    ensures
        final(out)@ == old(out)@ + le_bytes(ws@.len(), 4) + winner_inputs_bytes(ws@),
{
    push_le(out, ws.len() as u128, 4);
    let ghost start = out@;
    let mut i: usize = 0;
    assert(ws@.take(0) =~= Seq::<WinnerInput>::empty());
    while i < ws.len()
        invariant
            i <= ws@.len(),
            out@ == start + winner_inputs_bytes(ws@.take(i as int)),
        decreases ws@.len() - i,
    {
        let w = ws[i];
        push_le(out, w.index as u128, 4);
        push_pubkey(out, &w.address);
        out.push(w.tier);
        push_le(out, w.num_winning_tickets as u128, 4);
        proof {
            let t = ws@.take(i + 1);
            assert(t.drop_last() =~= ws@.take(i as int));
            assert(out@ =~= start + winner_inputs_bytes(t));
        }
        i = i + 1;
    }
    assert(ws@.take(ws@.len() as int) =~= ws@);
}

impl StakingInstruction {
    /// Appends the data of the instruction.
    pub fn serialize(&self, out: &mut Vec<u8>)
        requires
            staking_instruction_encodable(*self),
        ensures
            final(out)@ == old(out)@ + staking_instruction_bytes(*self),
    {
        match self {
            StakingInstruction::Init => {
                out.push(0);
            },
            StakingInstruction::RequestStakeUpdate { amount } => {
                out.push(1);
                push_i64(out, *amount);
            },
            StakingInstruction::ApproveStakeUpdate { amount } => {
                out.push(2);
                push_i64(out, *amount);
            },
            StakingInstruction::CancelStakeUpdate { amount } => {
                out.push(3);
                push_i64(out, *amount);
            },
            StakingInstruction::Removed3 => {
                out.push(4);
            },
            StakingInstruction::Removed4 => {
                out.push(5);
            },
            StakingInstruction::CreateEpoch { expected_end_at, yield_split_cfg } => {
                out.push(6);
                push_i64(out, *expected_end_at);
                yield_split_cfg.serialize(out);
            },
            StakingInstruction::Removed1 => {
                out.push(7);
            },
            StakingInstruction::Removed5 => {
                out.push(8);
            },
            StakingInstruction::ClaimWinning { epoch_index, page, winner_index, tier } => {
                out.push(9);
                push_le(out, *epoch_index as u128, 8);
                push_le(out, *page as u128, 4);
                push_le(out, *winner_index as u128, 4);
                out.push(*tier);
            },
            StakingInstruction::YieldWithdrawByInvestor { tickets_info } => {
                out.push(10);
                tickets_info.serialize(out);
            },
            StakingInstruction::YieldDepositByInvestor { return_amount } => {
                out.push(11);
                push_le(out, *return_amount as u128, 8);
            },
            StakingInstruction::FundJackpot { epoch_index } => {
                out.push(12);
                push_le(out, *epoch_index as u128, 8);
            },
            StakingInstruction::Removed2 => {
                out.push(13);
            },
            StakingInstruction::FranciumInit => {
                out.push(14);
            },
            StakingInstruction::FranciumInvest { tickets_info } => {
                out.push(15);
                tickets_info.serialize(out);
            },
            StakingInstruction::FranciumWithdraw => {
                out.push(16);
            },
            StakingInstruction::WithdrawVault { vault, amount } => {
                out.push(17);
                out.push(vault.index());
                push_le(out, *amount as u128, 8);
            },
            StakingInstruction::CompleteStakeUpdate => {
                out.push(18);
            },
            StakingInstruction::CreateEpochWinnersMeta { meta_args } => {
                out.push(19);
                meta_args.serialize(out);
            },
            StakingInstruction::PublishWinners { page_index, winners_input } => {
                out.push(20);
                push_le(out, *page_index as u128, 4);
                serialize_winner_inputs(out, winners_input);
            },
            StakingInstruction::RotateKey { key_type } => {
                out.push(21);
                out.push(key_type.index());
            },
        }
        assert(final(out)@ =~= old(out)@ + staking_instruction_bytes(*self));
    }

    /// The data of the instruction.
    pub fn try_to_vec(&self) -> (r: Vec<u8>)
        requires
            staking_instruction_encodable(*self),
        ensures
            r@ == staking_instruction_bytes(*self),
    {
        let mut out: Vec<u8> = Vec::new();
        self.serialize(&mut out);
        assert(out@ =~= staking_instruction_bytes(*self));
        out
    }
}

} // verus!
