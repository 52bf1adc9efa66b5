//! State account structs.
//!
//! Accounts are allocated at the largest size of their encoding (`max_len`), so that they never
//! have to be resized when a value changes.
pub mod balance;
pub mod encoding;
pub mod epoch;
pub mod latest_epoch;
pub mod return_rate;
pub mod stake;
pub mod stake_update;
pub mod winners;

use crate::accounts::AccountType;
use vstd::prelude::*;

verus! {

/// Size of `Stake`.
pub const STAKE_LEN: usize = 99;
/// Size of `StakeUpdateRequest`.
pub const STAKE_UPDATE_REQUEST_LEN: usize = 44;
/// Size of `Epoch`.
pub const EPOCH_LEN: usize = 439;
/// Size of `LatestEpoch`.
pub const LATEST_EPOCH_LEN: usize = 268;
/// Size of `EpochWinnersMeta`.
pub const EPOCH_WINNERS_META_LEN: usize = 253;
/// Size of `EpochWinnersPage`.
pub const EPOCH_WINNERS_PAGE_LEN: usize = 631;

/// Largest size of a vector of `num_elements` elements of `element_size` bytes: its length is a
/// `u32`.
pub fn vec_max_len(element_size: usize, num_elements: usize) -> (r: usize)
    requires
        4 + element_size * num_elements <= usize::MAX,
    ensures
        r == 4 + element_size * num_elements,
{
    proof {
        assert(element_size * num_elements <= usize::MAX) by (nonlinear_arith)
            requires
                4 + element_size * num_elements <= usize::MAX,
        ;
    }
    4 + element_size * num_elements
}

/// Largest size of an optional value of `element_size` bytes: one tag byte more.
pub fn option_max_len(element_size: usize) -> (r: usize)
    requires
        element_size < usize::MAX,
    ensures
        r == 1 + element_size,
{
    1 + element_size
}

/// Attaches an `AccountType` to an account struct.
pub trait HasAccountType {
    /// The account type of the struct.
    spec fn spec_account_type() -> AccountType;

    /// The account type of the struct, as a value.
    fn account_type() -> (r: AccountType)
        ensures
            r == Self::spec_account_type(),
    ;
}

/// For migration of accounts in the future.
#[derive(Clone, Copy, Debug, PartialEq, Eq)]
pub enum ContractVersion {
    V1,
}

} // verus!
