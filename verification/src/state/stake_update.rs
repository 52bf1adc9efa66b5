//! Deposit/withdraw requests.
use crate::accounts::AccountType;
use crate::pubkey::Pubkey;
use crate::state::{ContractVersion, HasAccountType};
use crate::state::encoding::{
    header_bytes, i64_bytes, lemma_encoding_lengths, push_header, push_i64, push_pubkey,
};
use vstd::prelude::*;

verus! {

/// A deposit (positive amount) or withdrawal (negative amount) request.
#[derive(Clone, Debug, PartialEq, Eq)]
pub struct StakeUpdateRequest {
    pub account_type: AccountType,
    pub contract_version: ContractVersion,
    pub is_initialized: bool,
    pub owner: Pubkey,
    /// Negative means withdrawal, positive means deposit. Zero is not allowed.
    pub amount: i64,
    pub state: StakeUpdateState,
}

/// State of a stake update request.
#[derive(Clone, Copy, Debug, PartialEq, Eq)]
pub enum StakeUpdateState {
    /// Waiting for the anti money laundering check by the admin.
    PendingApproval,
    /// Approved by the admin; waiting for the epoch to be running and the funds to be available.
    Queued,
}

/// The number of each request state.
pub open spec fn stake_update_state_code(s: StakeUpdateState) -> u32 {
    match s {
        StakeUpdateState::PendingApproval => 0,
        StakeUpdateState::Queued => 1,
    }
}

/// The stake update state with a given number, if any.
pub open spec fn stake_update_state_of_code(code: u32) -> Option<StakeUpdateState> {
    match code {
        0 => Some(StakeUpdateState::PendingApproval),
        1 => Some(StakeUpdateState::Queued),
        _ => None,
    }
}

impl StakeUpdateState {
    /// The name of the state.
    pub fn as_display(&self) -> (r: &'static str)
        ensures
            r@ == match *self {
                StakeUpdateState::PendingApproval => "PendingApproval"@,
                StakeUpdateState::Queued => "Queued"@,
            },
    {
        match self {
            StakeUpdateState::PendingApproval => "PendingApproval",
            StakeUpdateState::Queued => "Queued",
        }
    }

    /// The number of the state.
    pub fn code(&self) -> (r: u32)
        ensures
            r == stake_update_state_code(*self),
    {
        match self {
            StakeUpdateState::PendingApproval => 0,
            StakeUpdateState::Queued => 1,
        }
    }

    /// The state with the given number, if any.
    pub fn from_code(code: u32) -> (r: Option<Self>)
        ensures
            r == stake_update_state_of_code(code),
    {
        match code {
            0 => Some(StakeUpdateState::PendingApproval),
            1 => Some(StakeUpdateState::Queued),
            _ => None,
        }
    }
}

impl HasAccountType for StakeUpdateRequest {
    open spec fn spec_account_type() -> AccountType {
        AccountType::StakeUpdateRequest
    }

    fn account_type() -> AccountType {
        AccountType::StakeUpdateRequest
    }
}

impl StakeUpdateRequest {
    /// Whether the account is initialized.
    pub fn is_initialized(&self) -> (r: bool)
        ensures
            r == self.is_initialized,
    {
        self.is_initialized
    }

    /// The largest size of the byte encoding.
    pub fn max_len() -> (r: usize)
        ensures
            r == 44,
    {
        1 + 1 + 1 + 32 + 8 + 1
    }
}

/// The encoding of a stake update request: its fields in order, the state as its position.
pub open spec fn stake_update_request_bytes(r: StakeUpdateRequest) -> Seq<u8> {
    header_bytes(r.account_type, r.is_initialized) + r.owner.0@ + i64_bytes(r.amount) + seq![
        stake_update_state_code(r.state) as u8,
    ]
}

impl StakeUpdateRequest {
    /// Appends the encoding of the request.
    pub fn serialize(&self, out: &mut Vec<u8>)
        ensures
            final(out)@ == old(out)@ + stake_update_request_bytes(*self),
    {
        push_header(out, self.account_type, self.is_initialized);
        push_pubkey(out, &self.owner);
        push_i64(out, self.amount);
        out.push(
            match self.state {
                StakeUpdateState::PendingApproval => 0,
                StakeUpdateState::Queued => 1,
            },
        );
        assert(final(out)@ =~= old(out)@ + stake_update_request_bytes(*self));
    }
}

/// Every stake update request takes exactly `STAKE_UPDATE_REQUEST_LEN` bytes.
pub proof fn lemma_stake_update_request_bytes_len(r: StakeUpdateRequest)
    ensures
        stake_update_request_bytes(r).len() == crate::state::STAKE_UPDATE_REQUEST_LEN,
{
    lemma_encoding_lengths();
}

} // verus!
