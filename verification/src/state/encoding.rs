//! The byte encoding of account fields: integers little-endian, a boolean as one byte, a
//! fixed-point number as its three 64-bit limbs, an enum as the position of its variant, an
//! optional value as a tag byte (0 or 1) then the value, and a string or byte vector as its length
//! in four bytes then its bytes.
use crate::accounts::AccountType;
use crate::bytes::{le_bytes, lemma_le_bytes_len, push_le};
use crate::fixed_point::FixedPoint;
use crate::pubkey::Pubkey;
use crate::state::epoch::EpochStatus;
use vstd::prelude::*;
use vstd::utf8::encode_utf8;

verus! {

/// A boolean as a byte.
pub open spec fn bool_byte(b: bool) -> u8 {
    if b {
        1
    } else {
        0
    }
}

/// The 64 bits of a signed integer read as unsigned (two's complement).
pub open spec fn i64_bits(x: i64) -> nat {
    if x >= 0 {
        x as nat
    } else {
        (x + 0x1_0000_0000_0000_0000) as nat
    }
}

/// A signed integer as eight bytes.
pub open spec fn i64_bytes(x: i64) -> Seq<u8> {
    le_bytes(i64_bits(x), 8)
}

/// A fixed-point number as its three 64-bit limbs, least significant first.
pub open spec fn fp_bytes<const D: u8>(x: FixedPoint<D>) -> Seq<u8> {
    le_bytes(x.0.0[0] as nat, 8) + le_bytes(x.0.0[1] as nat, 8) + le_bytes(x.0.0[2] as nat, 8)
}

/// The UTF-8 bytes of a string, after their count in four bytes.
pub open spec fn string_bytes(s: Seq<char>) -> Seq<u8> {
    le_bytes(encode_utf8(s).len(), 4) + encode_utf8(s)
}

/// Bytes after their count in four bytes.
pub open spec fn byte_vec_bytes(v: Seq<u8>) -> Seq<u8> {
    le_bytes(v.len(), 4) + v
}

/// The position of an account type in its declaration.
pub open spec fn account_type_index(t: AccountType) -> u8 {
    match t {
        AccountType::LatestEpoch => 0,
        AccountType::Epoch => 1,
        AccountType::Stake => 2,
        AccountType::StakeUpdateRequest => 3,
        AccountType::EpochWinnersMeta => 4,
        AccountType::EpochWinnersPage => 5,
        AccountType::VaultAuthority => 6,
        AccountType::FranciumAuthority => 7,
        AccountType::DepositVault => 8,
        AccountType::TreasuryVault => 9,
        AccountType::InsuranceVault => 10,
        AccountType::PendingDepositVault => 11,
        AccountType::Tier1PrizeVault => 12,
        AccountType::Tier2PrizeVault => 13,
        AccountType::Tier3PrizeVault => 14,
        AccountType::NezhaVrfRequest => 15,
    }
}

/// The position of an epoch status in its declaration.
pub open spec fn epoch_status_index(s: EpochStatus) -> u8 {
    match s {
        EpochStatus::Running => 0,
        EpochStatus::Yielding => 1,
        EpochStatus::Finalising => 2,
        EpochStatus::Ended => 3,
    }
}

/// Appends a boolean.
pub fn push_bool(out: &mut Vec<u8>, b: bool)
    ensures
        final(out)@ == old(out)@.push(bool_byte(b)),
{
    out.push(if b {
        1
    } else {
        0
    });
}

/// Appends a signed integer.
pub fn push_i64(out: &mut Vec<u8>, x: i64)
    ensures
        final(out)@ == old(out)@ + i64_bytes(x),
{
    let bits = x as u64;
    assert(x >= 0 ==> bits == x) by (bit_vector)
        requires
            bits == x as u64,
    ;
    assert(x < 0 ==> bits == x + 0x1_0000_0000_0000_0000) by (bit_vector)
        requires
            bits == x as u64,
    ;
    push_le(out, bits as u128, 8);
}

/// Appends a fixed-point number.
pub fn push_fp<const D: u8>(out: &mut Vec<u8>, x: &FixedPoint<D>)
    ensures
        final(out)@ == old(out)@ + fp_bytes(*x),
{
    push_le(out, x.0.0[0] as u128, 8);
    push_le(out, x.0.0[1] as u128, 8);
    push_le(out, x.0.0[2] as u128, 8);
    assert(final(out)@ =~= old(out)@ + fp_bytes(*x));
}

/// Appends the bytes of `v`.
pub fn push_slice(out: &mut Vec<u8>, v: &[u8])
    ensures
        final(out)@ == old(out)@ + v@,
{
    let mut i: usize = 0;
    while i < v.len()
        invariant
            i <= v@.len(),
            out@ == old(out)@ + v@.subrange(0, i as int),
        decreases v@.len() - i,
    {
        out.push(v[i]);
        assert(v@.subrange(0, i + 1) =~= v@.subrange(0, i as int).push(v@[i as int]));
        i = i + 1;
    }
    assert(v@.subrange(0, v@.len() as int) =~= v@);
}

/// Appends a string: its byte count in four bytes, then its UTF-8 bytes.
pub fn push_string(out: &mut Vec<u8>, s: &String)
    requires
        encode_utf8(s@).len() <= u32::MAX,
    ensures
        final(out)@ == old(out)@ + string_bytes(s@),
{
    let b = s.as_str().as_bytes();
    push_le(out, b.len() as u128, 4);
    push_slice(out, b);
    assert(final(out)@ =~= old(out)@ + string_bytes(s@));
}

/// Appends a byte vector: its length in four bytes, then its bytes.
pub fn push_byte_vec(out: &mut Vec<u8>, v: &Vec<u8>)
    requires
        v@.len() <= u32::MAX,
    ensures
        final(out)@ == old(out)@ + byte_vec_bytes(v@),
{
    push_le(out, v.len() as u128, 4);
    push_slice(out, v.as_slice());
    assert(final(out)@ =~= old(out)@ + byte_vec_bytes(v@));
}

/// Appends an address.
pub fn push_pubkey(out: &mut Vec<u8>, k: &Pubkey)
    ensures
        final(out)@ == old(out)@ + k.0@,
{
    crate::bytes::push_bytes32(out, &k.0);
}

/// The lengths of the encodings of numbers.
pub proof fn lemma_encoding_lengths()
    ensures
        forall|x: i64| #[trigger] i64_bytes(x).len() == 8,
        forall|x: nat, n: nat| #[trigger] le_bytes(x, n).len() == n,
{
    assert forall|x: nat, n: nat| #[trigger] le_bytes(x, n).len() == n by {
        lemma_le_bytes_len(x, n);
    }
}

/// The encoding of a fixed-point number has 24 bytes.
pub proof fn lemma_fp_bytes_len<const D: u8>(x: FixedPoint<D>)
    ensures
        fp_bytes(x).len() == 24,
{
    lemma_encoding_lengths();
}

/// Appends the position of an account type.
pub fn push_account_type(out: &mut Vec<u8>, t: AccountType)
    ensures
        final(out)@ == old(out)@.push(account_type_index(t)),
{
    let i: u8 = match t {
        AccountType::LatestEpoch => 0,
        AccountType::Epoch => 1,
        AccountType::Stake => 2,
        AccountType::StakeUpdateRequest => 3,
        AccountType::EpochWinnersMeta => 4,
        AccountType::EpochWinnersPage => 5,
        AccountType::VaultAuthority => 6,
        AccountType::FranciumAuthority => 7,
        AccountType::DepositVault => 8,
        AccountType::TreasuryVault => 9,
        AccountType::InsuranceVault => 10,
        AccountType::PendingDepositVault => 11,
        AccountType::Tier1PrizeVault => 12,
        AccountType::Tier2PrizeVault => 13,
        AccountType::Tier3PrizeVault => 14,
        AccountType::NezhaVrfRequest => 15,
    };
    out.push(i);
}

/// The first three bytes of every account: its type, its contract version and whether it is
/// initialized.
pub open spec fn header_bytes(t: AccountType, is_initialized: bool) -> Seq<u8> {
    seq![account_type_index(t), 0u8, bool_byte(is_initialized)]
}

/// Appends the first three bytes of an account.
pub fn push_header(out: &mut Vec<u8>, t: AccountType, is_initialized: bool)
    ensures
        final(out)@ == old(out)@ + header_bytes(t, is_initialized),
{
    push_account_type(out, t);
    out.push(0);
    push_bool(out, is_initialized);
    assert(final(out)@ =~= old(out)@ + header_bytes(t, is_initialized));
}

} // verus!
