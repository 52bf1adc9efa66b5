//! Stake account.
use crate::accounts::AccountType;
use crate::pubkey::Pubkey;
use crate::state::balance::FloatingBalance;
use crate::state::{ContractVersion, HasAccountType};
use crate::bytes::{le_bytes, push_le};
use crate::state::encoding::{
    fp_bytes, header_bytes, lemma_encoding_lengths, lemma_fp_bytes_len, push_fp, push_header,
    push_pubkey,
};
use vstd::prelude::*;

verus! {

/// The stake of one owner.
#[derive(Clone, Debug, PartialEq, Eq)]
pub struct Stake {
    pub account_type: AccountType,
    pub contract_version: ContractVersion,
    pub is_initialized: bool,
    pub owner: Pubkey,
    pub balance: FloatingBalance,
    /// The index of the epoch in which this account was created.
    pub created_epoch_index: u64,
    /// The index of the epoch in which this account was last updated.
    pub updated_epoch_index: u64,
}

impl HasAccountType for Stake {
    open spec fn spec_account_type() -> AccountType {
        AccountType::Stake
    }

    fn account_type() -> AccountType {
        AccountType::Stake
    }
}

impl Stake {
    /// Whether the account is initialized.
    pub fn is_initialized(&self) -> (r: bool)
        ensures
            r == self.is_initialized,
    {
        self.is_initialized
    }

    /// The largest size of the byte encoding.
    pub fn max_len() -> (r: usize)
        ensures
            r == 99,
    {
        1 + 1 + 1 + 32 + FloatingBalance::max_len() + 8 + 8
    }
}

/// The encoding of a floating balance: its amount, then its starting rate.
pub open spec fn floating_balance_bytes(b: FloatingBalance) -> Seq<u8> {
    fp_bytes(b.amount) + fp_bytes(b.starting_rate.0)
}

/// The encoding of a stake account: its fields in order.
pub open spec fn stake_bytes(s: Stake) -> Seq<u8> {
    header_bytes(s.account_type, s.is_initialized) + s.owner.0@ + floating_balance_bytes(s.balance)
        + le_bytes(s.created_epoch_index as nat, 8) + le_bytes(s.updated_epoch_index as nat, 8)
}

impl Stake {
    /// Appends the encoding of the account.
    pub fn serialize(&self, out: &mut Vec<u8>)
        ensures
            final(out)@ == old(out)@ + stake_bytes(*self),
    {
        push_header(out, self.account_type, self.is_initialized);
        push_pubkey(out, &self.owner);
        push_fp(out, &self.balance.amount);
        push_fp(out, &self.balance.starting_rate.0);
        push_le(out, self.created_epoch_index as u128, 8);
        push_le(out, self.updated_epoch_index as u128, 8);
        assert(final(out)@ =~= old(out)@ + stake_bytes(*self));
    }
}

/// Every stake account takes exactly `STAKE_LEN` bytes.
pub proof fn lemma_stake_bytes_len(s: Stake)
    ensures
        stake_bytes(s).len() == crate::state::STAKE_LEN,
{
    lemma_encoding_lengths();
    lemma_fp_bytes_len(s.balance.amount);
    lemma_fp_bytes_len(s.balance.starting_rate.0);
}

} // verus!
