//! Reading token accounts: the amount at bytes 64 to 72 and the owner at bytes 32 to 64 of their
//! data.
use crate::bytes::{le_value, lemma_le_value_bound, lemma_pow256_16, read_le};
use crate::farming::error::FarmingError;
use crate::instruction::same_pubkey;
use crate::pubkey::Pubkey;
use vstd::prelude::*;

verus! {

/// The token balance held in a token account's data.
pub fn token_balance_of(data: &[u8]) -> (r: Result<u64, FarmingError>)
    requires
        data@.len() >= 72,
    ensures
        r matches Ok(x) && x == le_value(data@.subrange(64, 72)),
{
    proof {
        lemma_pow256_16();
        lemma_le_value_bound(data@.subrange(64, 72));
    }
    Ok(read_le(data, 64, 8) as u64)
}

/// Checks that a token account's data names `owner` as its owner.
pub fn check_token_owner(data: &[u8], owner: &Pubkey) -> (r: Result<(), FarmingError>)
    requires
        data@.len() >= 64,
    ensures
        r is Ok <==> data@.subrange(32, 64) == owner.0@,
        r matches Err(e) ==> e == FarmingError::InvalidTokenAccountOwner,
{
    let mut i: usize = 0;
    while i < 32
        invariant
            i <= 32,
            data@.len() >= 64,
            data@.len() == data.len(),
            forall|k: int| 0 <= k < i ==> data@[32 + k] == owner.0@[k],
        decreases 32 - i,
    {
        if data[32 + i] != owner.0[i] {
            assert(data@.subrange(32, 64)[i as int] != owner.0@[i as int]);
            return Err(FarmingError::InvalidTokenAccountOwner);
        }
        i = i + 1;
    }
    assert(data@.subrange(32, 64) =~= owner.0@);
    Ok(())
}

/// Checks a token account against its mint: the mint and the account must both be owned by the
/// token program, and the account must be of that mint (`account_mint`, read from the account's
/// data). A mint of another owner is an invalid mint, any other mismatch an invalid account.
pub fn check_token_account(
    token_program_id: &Pubkey,
    token_mint: &Pubkey,
    token_mint_owner: &Pubkey,
    token_account_owner: &Pubkey,
    account_mint: &Pubkey,
) -> (r: Result<(), FarmingError>)
    ensures
        r == (if token_mint_owner.0@ != token_program_id.0@ {
            Err(FarmingError::InvalidTokenMint)
        } else if token_account_owner.0@ != token_program_id.0@ {
            Err(FarmingError::InvalidTokenAccount)
        } else if account_mint.0@ != token_mint.0@ {
            Err(FarmingError::InvalidTokenAccount)
        } else {
            Ok(())
        }),
{
    if !same_pubkey(token_mint_owner, token_program_id) {
        return Err(FarmingError::InvalidTokenMint);
    }
    if !same_pubkey(token_account_owner, token_program_id) {
        return Err(FarmingError::InvalidTokenAccount);
    }
    if !same_pubkey(account_mint, token_mint) {
        return Err(FarmingError::InvalidTokenAccount);
    }
    Ok(())
}

} // verus!
