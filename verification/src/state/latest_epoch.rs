//! Global state of the program.
use crate::accounts::AccountType;
use crate::fixed_point::FPUSDC;
use crate::pubkey::Pubkey;
use crate::state::epoch::EpochStatus;
use crate::state::return_rate::CumulativeReturnRate;
use crate::state::{ContractVersion, HasAccountType};
use crate::bytes::{le_bytes, push_le};
use crate::state::encoding::{
    epoch_status_index, fp_bytes, header_bytes, lemma_encoding_lengths, lemma_fp_bytes_len,
    push_fp, push_header, push_pubkey,
};
use vstd::prelude::*;

verus! {

/// Global data of the program.
#[derive(Clone, Debug, PartialEq, Eq)]
pub struct LatestEpoch {
    pub account_type: AccountType,
    pub contract_version: ContractVersion,
    pub is_initialized: bool,
    pub index: u64,
    pub status: EpochStatus,
    pub epoch: Pubkey,
    pub cumulative_return_rate: CumulativeReturnRate,
    pub pending_funds: PendingFunds,
    pub pubkeys: Pubkeys,
}

impl HasAccountType for LatestEpoch {
    open spec fn spec_account_type() -> AccountType {
        AccountType::LatestEpoch
    }

    fn account_type() -> AccountType {
        AccountType::LatestEpoch
    }
}

impl LatestEpoch {
    /// Whether the account is initialized.
    pub fn is_initialized(&self) -> (r: bool)
        ensures
            r == self.is_initialized,
    {
        self.is_initialized
    }

    /// The largest size of the byte encoding.
    pub fn max_len() -> (r: usize)
        ensures
            r == 268,
    {
        1 + 1 + 1 + 8 + 1 + 32 + CumulativeReturnRate::max_len() + PendingFunds::max_len()
            + Pubkeys::max_len()
    }
}

/// Funds which have been allocated but not used yet (for example a tier 2 prize when the epoch
/// has no tier 2 winners).
#[derive(Clone, Copy, Debug, PartialEq, Eq)]
pub struct PendingFunds {
    pub insurance: FPUSDC,
    pub tier2_prize: FPUSDC,
    pub tier3_prize: FPUSDC,
}

impl PendingFunds {
    /// The largest size of the byte encoding.
    pub fn max_len() -> (r: usize)
        ensures
            r == 72,
    {
        FPUSDC::max_len() * 3
    }
}

/// Keys used for authentication.
#[derive(Clone, Copy, Debug, PartialEq, Eq, Default)]
pub struct Pubkeys {
    pub super_admin: Pubkey,
    pub admin: Pubkey,
    pub investor: Pubkey,
    pub nezha_vrf_program_id: Pubkey,
}

impl Pubkeys {
    /// The largest size of the byte encoding.
    pub fn max_len() -> (r: usize)
        ensures
            r == 128,
    {
        32 * 4
    }
}

/// The encoding of the pending funds.
pub open spec fn pending_funds_bytes(p: PendingFunds) -> Seq<u8> {
    fp_bytes(p.insurance) + fp_bytes(p.tier2_prize) + fp_bytes(p.tier3_prize)
}

/// The encoding of the program's keys.
pub open spec fn pubkeys_bytes(k: Pubkeys) -> Seq<u8> {
    k.super_admin.0@ + k.admin.0@ + k.investor.0@ + k.nezha_vrf_program_id.0@
}

/// The encoding of the latest epoch account: its fields in order.
pub open spec fn latest_epoch_bytes(e: LatestEpoch) -> Seq<u8> {
    header_bytes(e.account_type, e.is_initialized) + le_bytes(e.index as nat, 8) + seq![
        epoch_status_index(e.status),
    ] + e.epoch.0@ + fp_bytes(e.cumulative_return_rate.0) + pending_funds_bytes(e.pending_funds)
        + pubkeys_bytes(e.pubkeys)
}

impl PendingFunds {
    /// Appends the encoding of the pending funds.
    pub fn serialize(&self, out: &mut Vec<u8>)
        ensures
            final(out)@ == old(out)@ + pending_funds_bytes(*self),
    {
        push_fp(out, &self.insurance);
        push_fp(out, &self.tier2_prize);
        push_fp(out, &self.tier3_prize);
        assert(final(out)@ =~= old(out)@ + pending_funds_bytes(*self));
    }
}

impl Pubkeys {
    /// Appends the encoding of the keys.
    pub fn serialize(&self, out: &mut Vec<u8>)
        ensures
            final(out)@ == old(out)@ + pubkeys_bytes(*self),
    {
        push_pubkey(out, &self.super_admin);
        push_pubkey(out, &self.admin);
        push_pubkey(out, &self.investor);
        push_pubkey(out, &self.nezha_vrf_program_id);
        assert(final(out)@ =~= old(out)@ + pubkeys_bytes(*self));
    }
}

impl LatestEpoch {
    /// Appends the encoding of the account.
    pub fn serialize(&self, out: &mut Vec<u8>)
        ensures
            final(out)@ == old(out)@ + latest_epoch_bytes(*self),
    {
        push_header(out, self.account_type, self.is_initialized);
        push_le(out, self.index as u128, 8);
        out.push(
            match self.status {
                EpochStatus::Running => 0,
                EpochStatus::Yielding => 1,
                EpochStatus::Finalising => 2,
                EpochStatus::Ended => 3,
            },
        );
        push_pubkey(out, &self.epoch);
        push_fp(out, &self.cumulative_return_rate.0);
        self.pending_funds.serialize(out);
        self.pubkeys.serialize(out);
        assert(final(out)@ =~= old(out)@ + latest_epoch_bytes(*self));
    }
}

/// Every latest epoch account takes exactly `LATEST_EPOCH_LEN` bytes.
pub proof fn lemma_latest_epoch_bytes_len(e: LatestEpoch)
    ensures
        latest_epoch_bytes(e).len() == crate::state::LATEST_EPOCH_LEN,
{
    lemma_encoding_lengths();
    lemma_fp_bytes_len(e.cumulative_return_rate.0);
    lemma_fp_bytes_len(e.pending_funds.insurance);
    lemma_fp_bytes_len(e.pending_funds.tier2_prize);
    lemma_fp_bytes_len(e.pending_funds.tier3_prize);
}

} // verus!
