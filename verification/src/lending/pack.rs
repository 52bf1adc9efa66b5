//! Byte layout of the lending market and lending pool accounts.
use crate::bytes::{
    le_bytes, le_value, lemma_le_bytes_len, lemma_le_bytes_of_value, lemma_le_value_bound,
    lemma_le_value_of_bytes, lemma_pow256_16, push_bytes32, push_le, read_bytes32, read_le,
    write_prefix,
};
use crate::lending::error::LendingError;
use crate::lending::math::Decimal;
use crate::lending::state::{
    CreditToken, InterestRateModel, LastUpdate, LendingMarket, LendingPool, LiquidityShares,
    PROGRAM_VERSION, ReserveLiquidity, all_zero, interest_model_bytes, interest_model_from_bytes,
};
use crate::pubkey::Pubkey;
use crate::u192::{limb_base2, lemma_u192_view_injective};
use vstd::prelude::*;

verus! {

/// Size of a lending market account: 66 bytes of fields, then 128 bytes of padding.
pub const LENDING_MARKET_LEN: usize = 194;

/// Size of a lending pool account: 387 bytes of fields, then 108 bytes of padding.
pub const LENDING_POOL_LEN: usize = 495;

/// The encoded fields of a lending market: version, bump seed, owner, token program.
pub open spec fn lending_market_bytes(m: LendingMarket) -> Seq<u8> {
    seq![m.version, m.bump_seed] + m.owner.0@ + m.token_program_id.0@
}

/// Whether the first 66 bytes of `s` can be read as a lending market: its version is known.
pub open spec fn lending_market_bytes_valid(s: Seq<u8>) -> bool {
    s[0] <= PROGRAM_VERSION
}

/// Whether `m` is what the first 66 bytes of `s` decode to.
pub open spec fn lending_market_decodes(s: Seq<u8>, m: LendingMarket) -> bool {
    &&& m.version == s[0]
    &&& m.bump_seed == s[1]
    &&& m.owner.0@ == s.subrange(2, 34)
    &&& m.token_program_id.0@ == s.subrange(34, 66)
}

impl LendingMarket {
    /// Writes the market's fields over the first 66 bytes of `output`; the padding after them
    /// is left as it was.
    pub fn pack_into_slice(&self, output: &mut [u8])
        requires
            old(output)@.len() >= LENDING_MARKET_LEN,
        ensures
            final(output)@ == lending_market_bytes(*self) + old(output)@.subrange(
                66,
                old(output)@.len() as int,
            ),
    {
        let mut buf: Vec<u8> = Vec::new();
        buf.push(self.version);
        buf.push(self.bump_seed);
        push_bytes32(&mut buf, &self.owner.0);
        push_bytes32(&mut buf, &self.token_program_id.0);
        assert(buf@ =~= lending_market_bytes(*self));
        write_prefix(output, &buf);
    }

    /// Reads a lending market from the first 66 bytes of `input`; a version later than this
    /// program's is invalid account data.
    pub fn unpack_from_slice(input: &[u8]) -> (r: Result<LendingMarket, LendingError>)
        requires
            input@.len() >= LENDING_MARKET_LEN,
        ensures
            r is Ok <==> lending_market_bytes_valid(input@),
            r matches Ok(m) ==> lending_market_decodes(input@, m),
            r matches Err(e) ==> e == LendingError::InvalidAccountData,
    {
        let version = input[0];
        if version > PROGRAM_VERSION {
            return Err(LendingError::InvalidAccountData);
        }
        Ok(
            LendingMarket {
                version,
                bump_seed: input[1],
                owner: Pubkey(read_bytes32(input, 2)),
                token_program_id: Pubkey(read_bytes32(input, 34)),
            },
        )
    }
}

/// Reading back what `pack_into_slice` wrote gives the market itself, when its version is known.
pub proof fn lemma_lending_market_round_trip(m: LendingMarket, padding: Seq<u8>)
    requires
        m.version <= PROGRAM_VERSION,
    ensures
        lending_market_bytes_valid(lending_market_bytes(m) + padding),
        forall|q: LendingMarket|
            #[trigger] lending_market_decodes(lending_market_bytes(m) + padding, q) <==> q == m,
{
    let s = lending_market_bytes(m) + padding;
    assert(s.subrange(2, 34) =~= m.owner.0@);
    assert(s.subrange(34, 66) =~= m.token_program_id.0@);
    assert forall|q: LendingMarket| #[trigger] lending_market_decodes(s, q) implies q == m by {
        assert(q.owner.0 =~= m.owner.0);
        assert(q.token_program_id.0 =~= m.token_program_id.0);
    }
}

/// The 36 bytes of an optional address: a four-byte tag `[1, 0, 0, 0]` and the address, or the
/// tag `[0, 0, 0, 0]` followed by the 32 bytes that were already there (`fill`).
pub open spec fn coption_key_bytes(k: Option<Pubkey>, fill: Seq<u8>) -> Seq<u8> {
    match k {
        Some(key) => seq![1u8, 0u8, 0u8, 0u8] + key.0@,
        None => seq![0u8, 0u8, 0u8, 0u8] + fill,
    }
}

/// Whether the tag of 36 bytes is one of the two an optional address can have.
pub open spec fn coption_tag_valid(s: Seq<u8>) -> bool {
    s[1] == 0 && s[2] == 0 && s[3] == 0 && (s[0] == 0 || s[0] == 1)
}

/// Whether `k` is what 36 bytes with a valid tag decode to.
pub open spec fn coption_key_decodes(s: Seq<u8>, k: Option<Pubkey>) -> bool {
    if s[0] == 0 {
        k is None
    } else {
        k matches Some(key) && key.0@ == s.subrange(4, 36)
    }
}

/// The encoded fields of a lending pool. Where it has no oracle, the 32 bytes after the oracle
/// tag are `oracle_fill`, what was there before.
pub open spec fn lending_pool_bytes(p: LendingPool, oracle_fill: Seq<u8>) -> Seq<u8> {
    seq![p.version]
        + le_bytes(p.last_update.slot as nat, 8)
        + seq![if p.last_update.stale { 1u8 } else { 0u8 }]
        + p.lending_market.0@
        + p.liquidity.mint_pubkey.0@
        + seq![p.liquidity.mint_decimals]
        + p.liquidity.supply_pubkey.0@
        + p.liquidity.fee_receiver.0@
        + coption_key_bytes(p.liquidity.oracle_pubkey, oracle_fill)
        + le_bytes(p.liquidity.available_amount as nat, 8)
        + le_bytes(p.liquidity.borrowed_amount_wads@, 16)
        + le_bytes(p.liquidity.cumulative_borrow_rate_wads@, 16)
        + le_bytes(p.liquidity.market_price as nat, 8)
        + p.shares.mint_pubkey.0@
        + le_bytes(p.shares.mint_total_supply as nat, 8)
        + p.shares.supply_pubkey.0@
        + p.credit.mint_pubkey.0@
        + le_bytes(p.credit.mint_total_supply as nat, 8)
        + p.credit.supply_pubkey.0@
        + interest_model_bytes(p.interest_rate_model)
        + seq![p.interest_reverse_rate]
        + le_bytes(p.accumulated_interest_reverse as nat, 8)
}

/// Whether the first 387 bytes of `s` can be read as a lending pool: a known version, a stale
/// flag of 0 or 1, and a valid oracle tag.
pub open spec fn lending_pool_bytes_valid(s: Seq<u8>) -> bool {
    &&& s[0] <= PROGRAM_VERSION
    &&& s[9] <= 1
    &&& coption_tag_valid(s.subrange(139, 175))
}

/// Whether `q` is what the first 387 bytes of `s` decode to. A reserve rate of 0 or above 50
/// reads as 10, and an all-zero interest model as the default model.
pub open spec fn lending_pool_decodes(s: Seq<u8>, q: LendingPool) -> bool {
    &&& q.version == s[0]
    &&& q.last_update.slot == le_value(s.subrange(1, 9))
    &&& q.last_update.stale == (s[9] == 1)
    &&& q.lending_market.0@ == s.subrange(10, 42)
    &&& q.liquidity.mint_pubkey.0@ == s.subrange(42, 74)
    &&& q.liquidity.mint_decimals == s[74]
    &&& q.liquidity.supply_pubkey.0@ == s.subrange(75, 107)
    &&& q.liquidity.fee_receiver.0@ == s.subrange(107, 139)
    &&& coption_key_decodes(s.subrange(139, 175), q.liquidity.oracle_pubkey)
    &&& q.liquidity.available_amount == le_value(s.subrange(175, 183))
    &&& q.liquidity.borrowed_amount_wads@ == le_value(s.subrange(183, 199))
    &&& q.liquidity.cumulative_borrow_rate_wads@ == le_value(s.subrange(199, 215))
    &&& q.liquidity.market_price == le_value(s.subrange(215, 223))
    &&& q.shares.mint_pubkey.0@ == s.subrange(223, 255)
    &&& q.shares.mint_total_supply == le_value(s.subrange(255, 263))
    &&& q.shares.supply_pubkey.0@ == s.subrange(263, 295)
    &&& q.credit.mint_pubkey.0@ == s.subrange(295, 327)
    &&& q.credit.mint_total_supply == le_value(s.subrange(327, 335))
    &&& q.credit.supply_pubkey.0@ == s.subrange(335, 367)
    &&& q.interest_rate_model == interest_model_from_bytes(s.subrange(367, 378))
    &&& q.interest_reverse_rate == (if s[378] == 0 || s[378] > 50 { 10u8 } else { s[378] })
    &&& q.accumulated_interest_reverse == le_value(s.subrange(379, 387))
}

/// Whether a pool can be written: its decimals fit in 16 bytes.
pub open spec fn lending_pool_packable(p: LendingPool) -> bool {
    &&& p.liquidity.borrowed_amount_wads@ < limb_base2()
    &&& p.liquidity.cumulative_borrow_rate_wads@ < limb_base2()
}

/// Appends the 16 little-endian bytes of a decimal, which must fit.
fn pack_decimal(buf: &mut Vec<u8>, d: &Decimal)
    requires
        d@ < limb_base2(),
    ensures
        final(buf)@ == old(buf)@ + le_bytes(d@, 16),
{
    let v = match d.to_scaled_val() {
        Ok(v) => v,
        Err(_) => 0,
    };
    push_le(buf, v, 16);
}

/// Appends the 36 bytes of an optional address; without one, `fill` follows the tag.
fn pack_coption_key(buf: &mut Vec<u8>, k: &Option<Pubkey>, fill: &[u8; 32])
    ensures
        final(buf)@ == old(buf)@ + coption_key_bytes(*k, fill@),
{
    match k {
        Some(key) => {
            buf.push(1);
            buf.push(0);
            buf.push(0);
            buf.push(0);
            push_bytes32(buf, &key.0);
            assert(final(buf)@ =~= old(buf)@ + coption_key_bytes(*k, fill@));
        },
        None => {
            buf.push(0);
            buf.push(0);
            buf.push(0);
            buf.push(0);
            push_bytes32(buf, fill);
            assert(final(buf)@ =~= old(buf)@ + coption_key_bytes(*k, fill@));
        },
    }
}

/// Appends the 11 bytes of an interest model.
pub(crate) fn push_model(buf: &mut Vec<u8>, m: &InterestRateModel)
    ensures
        final(buf)@ == old(buf)@ + interest_model_bytes(*m),
{
    let b = m.to_bytes();
    let mut i: usize = 0;
    while i < 11
        invariant
            i <= 11,
            b@ == interest_model_bytes(*m),
            buf@ == old(buf)@ + b@.subrange(0, i as int),
        decreases 11 - i,
    {
        buf.push(b[i]);
        assert(b@.subrange(0, i + 1) =~= b@.subrange(0, i as int).push(b@[i as int]));
        i = i + 1;
    }
    assert(b@.subrange(0, 11) =~= b@);
}

impl LendingPool {
    /// Writes the pool's fields over the first 387 bytes of `output`; the padding after them,
    /// and the address bytes of an absent oracle, are left as they were.
    pub fn pack_into_slice(&self, output: &mut [u8])
        requires
            old(output)@.len() >= LENDING_POOL_LEN,
            lending_pool_packable(*self),
        ensures
            final(output)@ == lending_pool_bytes(*self, old(output)@.subrange(143, 175))
                + old(output)@.subrange(387, old(output)@.len() as int),
    {
        let fill = read_bytes32(output, 143);
        let mut buf: Vec<u8> = Vec::new();
        buf.push(self.version);
        push_le(&mut buf, self.last_update.slot as u128, 8);
        buf.push(pack_bool(self.last_update.stale));
        push_bytes32(&mut buf, &self.lending_market.0);
        push_bytes32(&mut buf, &self.liquidity.mint_pubkey.0);
        buf.push(self.liquidity.mint_decimals);
        push_bytes32(&mut buf, &self.liquidity.supply_pubkey.0);
        push_bytes32(&mut buf, &self.liquidity.fee_receiver.0);
        pack_coption_key(&mut buf, &self.liquidity.oracle_pubkey, &fill);
        push_le(&mut buf, self.liquidity.available_amount as u128, 8);
        pack_decimal(&mut buf, &self.liquidity.borrowed_amount_wads);
        pack_decimal(&mut buf, &self.liquidity.cumulative_borrow_rate_wads);
        push_le(&mut buf, self.liquidity.market_price as u128, 8);
        push_bytes32(&mut buf, &self.shares.mint_pubkey.0);
        push_le(&mut buf, self.shares.mint_total_supply as u128, 8);
        push_bytes32(&mut buf, &self.shares.supply_pubkey.0);
        push_bytes32(&mut buf, &self.credit.mint_pubkey.0);
        push_le(&mut buf, self.credit.mint_total_supply as u128, 8);
        push_bytes32(&mut buf, &self.credit.supply_pubkey.0);
        push_model(&mut buf, &self.interest_rate_model);
        buf.push(self.interest_reverse_rate);
        push_le(&mut buf, self.accumulated_interest_reverse as u128, 8);
        proof {
            lemma_le_bytes_len(self.last_update.slot as nat, 8);
            lemma_le_bytes_len(self.liquidity.available_amount as nat, 8);
            lemma_le_bytes_len(self.liquidity.market_price as nat, 8);
            lemma_le_bytes_len(self.shares.mint_total_supply as nat, 8);
            lemma_le_bytes_len(self.credit.mint_total_supply as nat, 8);
            lemma_le_bytes_len(self.accumulated_interest_reverse as nat, 8);
            lemma_le_bytes_len(self.liquidity.borrowed_amount_wads@, 16);
            lemma_le_bytes_len(self.liquidity.cumulative_borrow_rate_wads@, 16);
            let p = *self;
            assert(buf@ =~= lending_pool_bytes(p, old(output)@.subrange(143, 175)));
        }
        write_prefix(output, &buf);
    }

    /// Reads a lending pool from the first 387 bytes of `input`. A version later than this
    /// program's, a stale flag other than 0 or 1, or an unknown oracle tag is invalid account
    /// data.
    pub fn unpack_from_slice(input: &[u8]) -> (r: Result<LendingPool, LendingError>)
        requires
            input@.len() >= LENDING_POOL_LEN,
        ensures
            r is Ok <==> lending_pool_bytes_valid(input@),
            r matches Ok(q) ==> lending_pool_decodes(input@, q),
            r matches Err(e) ==> e == LendingError::InvalidAccountData,
    {
        let version = input[0];
        if version > PROGRAM_VERSION {
            return Err(LendingError::InvalidAccountData);
        }
        let reverse = input[378];
        let interest_reverse_rate = if reverse == 0 || reverse > 50 {
            10
        } else {
            reverse
        };
        let stale = match unpack_bool(input[9]) {
            Ok(b) => b,
            Err(e) => return Err(e),
        };
        let oracle_pubkey = match unpack_coption_key(input, 139) {
            Ok(k) => k,
            Err(e) => return Err(e),
        };
        proof {
            lemma_pow256_16();
            lemma_le_value_bound(input@.subrange(1, 9));
            lemma_le_value_bound(input@.subrange(175, 183));
            lemma_le_value_bound(input@.subrange(215, 223));
            lemma_le_value_bound(input@.subrange(255, 263));
            lemma_le_value_bound(input@.subrange(327, 335));
            lemma_le_value_bound(input@.subrange(379, 387));
        }
        Ok(
            LendingPool {
                version,
                last_update: LastUpdate { slot: read_le(input, 1, 8) as u64, stale },
                lending_market: Pubkey(read_bytes32(input, 10)),
                liquidity: ReserveLiquidity {
                    mint_pubkey: Pubkey(read_bytes32(input, 42)),
                    mint_decimals: input[74],
                    supply_pubkey: Pubkey(read_bytes32(input, 75)),
                    fee_receiver: Pubkey(read_bytes32(input, 107)),
                    oracle_pubkey,
                    available_amount: read_le(input, 175, 8) as u64,
                    borrowed_amount_wads: unpack_decimal(input, 183),
                    cumulative_borrow_rate_wads: unpack_decimal(input, 199),
                    market_price: read_le(input, 215, 8) as u64,
                },
                shares: LiquidityShares {
                    mint_pubkey: Pubkey(read_bytes32(input, 223)),
                    mint_total_supply: read_le(input, 255, 8) as u64,
                    supply_pubkey: Pubkey(read_bytes32(input, 263)),
                },
                credit: CreditToken {
                    mint_pubkey: Pubkey(read_bytes32(input, 295)),
                    mint_total_supply: read_le(input, 327, 8) as u64,
                    supply_pubkey: Pubkey(read_bytes32(input, 335)),
                },
                interest_rate_model: read_model(input, 367),
                interest_reverse_rate,
                accumulated_interest_reverse: read_le(input, 379, 8) as u64,
            },
        )
    }
}

/// A boolean as a byte.
fn pack_bool(boolean: bool) -> (r: u8)
    ensures
        r == (if boolean {
            1u8
        } else {
            0u8
        }),
{
    if boolean {
        1
    } else {
        0
    }
}

/// The decimal in the 16 little-endian bytes of `input` at `off`.
fn unpack_decimal(input: &[u8], off: usize) -> (r: Decimal)
    requires
        off + 16 <= input@.len(),
    ensures
        r@ == le_value(input@.subrange(off as int, off + 16)),
{
    Decimal::from_scaled_val(read_le(input, off, 16))
}

/// A boolean byte: 0 is false, 1 is true, anything else is invalid account data.
fn unpack_bool(b: u8) -> (r: Result<bool, LendingError>)
    ensures
        r is Ok <==> b <= 1,
        r matches Ok(x) ==> x == (b == 1),
        r matches Err(e) ==> e == LendingError::InvalidAccountData,
{
    if b == 0 {
        Ok(false)
    } else if b == 1 {
        Ok(true)
    } else {
        Err(LendingError::InvalidAccountData)
    }
}

/// The optional address in the 36 bytes of `input` at `off`; an unknown tag is invalid account
/// data.
fn unpack_coption_key(input: &[u8], off: usize) -> (r: Result<Option<Pubkey>, LendingError>)
    requires
        off + 36 <= input@.len(),
    ensures
        r is Ok <==> coption_tag_valid(input@.subrange(off as int, off + 36)),
        r matches Ok(k) ==> coption_key_decodes(input@.subrange(off as int, off + 36), k),
        r matches Err(e) ==> e == LendingError::InvalidAccountData,
{
    let ghost s = input@.subrange(off as int, off + 36);
    let _len = input.len();
    if input[off + 1] != 0 || input[off + 2] != 0 || input[off + 3] != 0 {
        return Err(LendingError::InvalidAccountData);
    }
    if input[off] == 0 {
        Ok(None)
    } else if input[off] == 1 {
        let key = read_bytes32(input, off + 4);
        assert(key@ =~= s.subrange(4, 36));
        Ok(Some(Pubkey(key)))
    } else {
        Err(LendingError::InvalidAccountData)
    }
}

/// The interest model in the 11 bytes of `input` at `off`.
fn read_model(input: &[u8], off: usize) -> (r: InterestRateModel)
    requires
        off + 11 <= input@.len(),
    ensures
        r == interest_model_from_bytes(input@.subrange(off as int, off + 11)),
{
    let _len = input.len();
    let data: [u8; 11] = [
        input[off],
        input[off + 1],
        input[off + 2],
        input[off + 3],
        input[off + 4],
        input[off + 5],
        input[off + 6],
        input[off + 7],
        input[off + 8],
        input[off + 9],
        input[off + 10],
    ];
    assert(data@ =~= input@.subrange(off as int, off + 11));
    InterestRateModel::unpack(&data)
}

/// Reading back what `pack_into_slice` wrote gives the pool itself, whatever the padding and
/// the bytes under an absent oracle, when the pool's version is known, its reserve rate is from 1
/// to 50 and its interest model is not all zero (those read back as 10 and the default model).
pub proof fn lemma_lending_pool_round_trip(p: LendingPool, oracle_fill: Seq<u8>, padding: Seq<u8>)
    requires
        oracle_fill.len() == 32,
        p.version <= PROGRAM_VERSION,
        1 <= p.interest_reverse_rate <= 50,
        !all_zero(interest_model_bytes(p.interest_rate_model)),
        lending_pool_packable(p),
    ensures
        lending_pool_bytes_valid(lending_pool_bytes(p, oracle_fill) + padding),
        forall|q: LendingPool|
            #[trigger] lending_pool_decodes(lending_pool_bytes(p, oracle_fill) + padding, q) <==> q
                == p,
{
    let s = lending_pool_bytes(p, oracle_fill) + padding;
    lemma_pow256_16();
    lemma_le_bytes_len(p.last_update.slot as nat, 8);
    lemma_le_bytes_len(p.liquidity.available_amount as nat, 8);
    lemma_le_bytes_len(p.liquidity.borrowed_amount_wads@, 16);
    lemma_le_bytes_len(p.liquidity.cumulative_borrow_rate_wads@, 16);
    lemma_le_bytes_len(p.liquidity.market_price as nat, 8);
    lemma_le_bytes_len(p.shares.mint_total_supply as nat, 8);
    lemma_le_bytes_len(p.credit.mint_total_supply as nat, 8);
    lemma_le_bytes_len(p.accumulated_interest_reverse as nat, 8);
    lemma_le_value_of_bytes(p.last_update.slot as nat, 8);
    lemma_le_value_of_bytes(p.liquidity.available_amount as nat, 8);
    lemma_le_value_of_bytes(p.liquidity.borrowed_amount_wads@, 16);
    lemma_le_value_of_bytes(p.liquidity.cumulative_borrow_rate_wads@, 16);
    lemma_le_value_of_bytes(p.liquidity.market_price as nat, 8);
    lemma_le_value_of_bytes(p.shares.mint_total_supply as nat, 8);
    lemma_le_value_of_bytes(p.credit.mint_total_supply as nat, 8);
    lemma_le_value_of_bytes(p.accumulated_interest_reverse as nat, 8);
    crate::lending::state::lemma_interest_model_round_trip(p.interest_rate_model);
    assert(s.subrange(1, 9) =~= le_bytes(p.last_update.slot as nat, 8));
    assert(s.subrange(10, 42) =~= p.lending_market.0@);
    assert(s.subrange(42, 74) =~= p.liquidity.mint_pubkey.0@);
    assert(s.subrange(75, 107) =~= p.liquidity.supply_pubkey.0@);
    assert(s.subrange(107, 139) =~= p.liquidity.fee_receiver.0@);
    assert(s.subrange(139, 175) =~= coption_key_bytes(p.liquidity.oracle_pubkey, oracle_fill));
    assert(s.subrange(175, 183) =~= le_bytes(p.liquidity.available_amount as nat, 8));
    assert(s.subrange(183, 199) =~= le_bytes(p.liquidity.borrowed_amount_wads@, 16));
    assert(s.subrange(199, 215) =~= le_bytes(p.liquidity.cumulative_borrow_rate_wads@, 16));
    assert(s.subrange(215, 223) =~= le_bytes(p.liquidity.market_price as nat, 8));
    assert(s.subrange(223, 255) =~= p.shares.mint_pubkey.0@);
    assert(s.subrange(255, 263) =~= le_bytes(p.shares.mint_total_supply as nat, 8));
    assert(s.subrange(263, 295) =~= p.shares.supply_pubkey.0@);
    assert(s.subrange(295, 327) =~= p.credit.mint_pubkey.0@);
    assert(s.subrange(327, 335) =~= le_bytes(p.credit.mint_total_supply as nat, 8));
    assert(s.subrange(335, 367) =~= p.credit.supply_pubkey.0@);
    assert(s.subrange(367, 378) =~= interest_model_bytes(p.interest_rate_model));
    assert(s.subrange(379, 387) =~= le_bytes(p.accumulated_interest_reverse as nat, 8));
    let o = s.subrange(139, 175);
    match p.liquidity.oracle_pubkey {
        Some(k) => {
            assert(o.subrange(4, 36) =~= k.0@);
        },
        None => {},
    }
    assert forall|q: LendingPool| #[trigger] lending_pool_decodes(s, q) implies q == p by {
        assert(q.lending_market.0 =~= p.lending_market.0);
        assert(q.liquidity.mint_pubkey.0 =~= p.liquidity.mint_pubkey.0);
        assert(q.liquidity.supply_pubkey.0 =~= p.liquidity.supply_pubkey.0);
        assert(q.liquidity.fee_receiver.0 =~= p.liquidity.fee_receiver.0);
        assert(q.shares.mint_pubkey.0 =~= p.shares.mint_pubkey.0);
        assert(q.shares.supply_pubkey.0 =~= p.shares.supply_pubkey.0);
        assert(q.credit.mint_pubkey.0 =~= p.credit.mint_pubkey.0);
        assert(q.credit.supply_pubkey.0 =~= p.credit.supply_pubkey.0);
        lemma_u192_view_injective(
            q.liquidity.borrowed_amount_wads.0,
            p.liquidity.borrowed_amount_wads.0,
        );
        lemma_u192_view_injective(
            q.liquidity.cumulative_borrow_rate_wads.0,
            p.liquidity.cumulative_borrow_rate_wads.0,
        );
        match p.liquidity.oracle_pubkey {
            Some(k) => {
                let qk = q.liquidity.oracle_pubkey->Some_0;
                assert(qk.0 =~= k.0);
            },
            None => {},
        }
    }
}

/// Writing back what `unpack_from_slice` read gives the same 387 bytes of fields, when the
/// reserve rate byte is from 1 to 50 and the interest model bytes are not all zero.
pub proof fn lemma_lending_pool_bytes_round_trip(s: Seq<u8>, q: LendingPool)
    requires
        s.len() >= LENDING_POOL_LEN,
        lending_pool_bytes_valid(s),
        lending_pool_decodes(s, q),
        1 <= s[378] <= 50,
        !all_zero(s.subrange(367, 378)),
    ensures
        lending_pool_packable(q),
        lending_pool_bytes(q, s.subrange(143, 175)) == s.subrange(0, 387),
{
    lemma_pow256_16();
    lemma_le_value_bound(s.subrange(183, 199));
    lemma_le_value_bound(s.subrange(199, 215));
    lemma_le_bytes_of_value(s.subrange(1, 9));
    lemma_le_bytes_of_value(s.subrange(175, 183));
    lemma_le_bytes_of_value(s.subrange(183, 199));
    lemma_le_bytes_of_value(s.subrange(199, 215));
    lemma_le_bytes_of_value(s.subrange(215, 223));
    lemma_le_bytes_of_value(s.subrange(255, 263));
    lemma_le_bytes_of_value(s.subrange(327, 335));
    lemma_le_bytes_of_value(s.subrange(379, 387));
    let m = s.subrange(367, 378);
    assert(interest_model_bytes(interest_model_from_bytes(m)) =~= m);
    let o = s.subrange(139, 175);
    assert(coption_key_bytes(q.liquidity.oracle_pubkey, s.subrange(143, 175)) =~= o);
    assert(lending_pool_bytes(q, s.subrange(143, 175)) =~= s.subrange(0, 387));
}

/// Writing back what `unpack_from_slice` read gives the same 66 bytes of fields.
pub proof fn lemma_lending_market_bytes_round_trip(s: Seq<u8>, m: LendingMarket)
    requires
        s.len() >= LENDING_MARKET_LEN,
        lending_market_decodes(s, m),
    ensures
        lending_market_bytes(m) == s.subrange(0, 66),
{
    assert(lending_market_bytes(m) =~= s.subrange(0, 66));
}

} // verus!
