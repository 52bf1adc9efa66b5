//! A user's stake in a farming pool.
use crate::bytes::{
    le_bytes, le_value, lemma_le_bytes_len, lemma_le_bytes_of_value, lemma_le_value_bound,
    lemma_le_value_of_bytes, lemma_pow256_16, push_bytes32, push_le, read_bytes32, read_le,
    write_prefix,
};
use crate::farming::error::FarmingError;
use crate::pubkey::Pubkey;
use crate::u192::{U192, limb_base, limb_base2, u192_bound};
use vstd::prelude::*;

verus! {

/// Scale of the accumulated rewards per share: 10^12.
pub const REWARDS_SCALE: u64 = 1_000_000_000_000;

/// Version of an uninitialized user account.
pub const INVALID_USER_VERSION: u8 = 0;

/// Version of the accounts this program creates.
pub const CURRENT_USER_VERSION: u8 = 1;

/// The rewards earned by `staked` tokens at `acc_per_share` (scaled by 10^12), rounded down.
pub open spec fn earned(staked: nat, acc_per_share: nat) -> nat {
    (staked * acc_per_share) / (REWARDS_SCALE as nat)
}

/// A user's farming account.
#[derive(Clone, Copy, Debug, PartialEq, Eq, Default)]
pub struct FarmingUser {
    pub version: u8,
    pub staked_amount: u64,
    pub rewards_debt: u64,
    pub rewards_debt_b: u64,
    pub farming_pool: Pubkey,
    pub user_main: Pubkey,
    pub stake_token_account: Pubkey,
    pub rewards_token_accont: Pubkey,
    pub rewards_token_account_b: Pubkey,
}

/// Whether the rewards owed to `u` are below `u64::MAX`: the debts do not exceed what was earned,
/// and what is owed is below `u64::MAX`.
pub open spec fn pending_defined(u: FarmingUser, acc: u128, acc_b: u128) -> bool {
    u.staked_amount != 0 ==> {
        &&& u.rewards_debt <= earned(u.staked_amount as nat, acc as nat)
        &&& earned(u.staked_amount as nat, acc as nat) - u.rewards_debt < u64::MAX
        &&& u.rewards_debt_b <= earned(u.staked_amount as nat, acc_b as nat)
        &&& earned(u.staked_amount as nat, acc_b as nat) - u.rewards_debt_b < u64::MAX
    }
}

/// Whether the rewards debts for `staked` tokens are below `u64::MAX`.
pub open spec fn debt_defined(staked: u64, acc: u128, acc_b: u128) -> bool {
    &&& earned(staked as nat, acc as nat) < u64::MAX
    &&& earned(staked as nat, acc_b as nat) < u64::MAX
}

/// What a user is owed: nothing without a stake, else what the stake has earned minus the debts.
pub open spec fn pending(u: FarmingUser, acc: u128, acc_b: u128) -> (u64, u64) {
    if u.staked_amount == 0 {
        (0, 0)
    } else {
        (
            (earned(u.staked_amount as nat, acc as nat) - u.rewards_debt) as u64,
            (earned(u.staked_amount as nat, acc_b as nat) - u.rewards_debt_b) as u64,
        )
    }
}

/// `u` with its debts set to what its stake has earned.
pub open spec fn with_debts(u: FarmingUser, acc: u128, acc_b: u128) -> FarmingUser {
    FarmingUser {
        rewards_debt: earned(u.staked_amount as nat, acc as nat) as u64,
        rewards_debt_b: earned(u.staked_amount as nat, acc_b as nat) as u64,
        ..u
    }
}

/// `staked * acc / 10^12`; it fits in 192 bits.
fn earned_exec(staked: u64, acc: u128) -> (r: U192)
    ensures
        r@ == earned(staked as nat, acc as nat),
{
    proof {
        assert(staked * acc < u192_bound()) by (nonlinear_arith)
            requires
                staked < limb_base(),
                acc < limb_base2(),
        ;
    }
    let p = match U192::from_u64(staked).checked_mul(&U192::from_u128(acc)) {
        Some(x) => x,
        None => U192::zero(),
    };
    p.div_rem(&U192::from_u64(REWARDS_SCALE)).0
}

impl FarmingUser {
    /// Initializes the account.
    pub fn init(
        &mut self,
        farming_pool: &Pubkey,
        user_main: &Pubkey,
        stake_token_account: &Pubkey,
        rewards_token_accont: &Pubkey,
        rewards_token_account_b: &Pubkey,
    )
        ensures
            *final(self) == (FarmingUser {
                version: CURRENT_USER_VERSION,
                farming_pool: *farming_pool,
                user_main: *user_main,
                stake_token_account: *stake_token_account,
                rewards_token_accont: *rewards_token_accont,
                rewards_token_account_b: *rewards_token_account_b,
                ..*old(self)
            }),
    {
        self.version = CURRENT_USER_VERSION;
        self.farming_pool = *farming_pool;
        self.user_main = *user_main;
        self.stake_token_account = *stake_token_account;
        self.rewards_token_accont = *rewards_token_accont;
        self.rewards_token_account_b = *rewards_token_account_b;
    }

    /// Adds staked tokens and resets the debts to what the new stake has earned.
    pub fn stake(
        &mut self,
        amount: u64,
        accumulated_rewards_per_share: u128,
        accumulated_rewards_per_share_b: u128,
    )
        requires
            old(self).staked_amount + amount <= u64::MAX,
            debt_defined(
                (old(self).staked_amount + amount) as u64,
                accumulated_rewards_per_share,
                accumulated_rewards_per_share_b,
            ),
        ensures
            *final(self) == with_debts(
                FarmingUser { staked_amount: (old(self).staked_amount + amount) as u64, ..*old(self) },
                accumulated_rewards_per_share,
                accumulated_rewards_per_share_b,
            ),
    {
        self.staked_amount = self.staked_amount + amount;
        self.update_rewards_debt(accumulated_rewards_per_share, accumulated_rewards_per_share_b)
    }

    /// Removes staked tokens and resets the debts to what the new stake has earned.
    pub fn un_stake(
        &mut self,
        amount: u64,
        accumulated_rewards_per_share: u128,
        accumulated_rewards_per_share_b: u128,
    )
        requires
            amount <= old(self).staked_amount,
            debt_defined(
                (old(self).staked_amount - amount) as u64,
                accumulated_rewards_per_share,
                accumulated_rewards_per_share_b,
            ),
        ensures
            *final(self) == with_debts(
                FarmingUser { staked_amount: (old(self).staked_amount - amount) as u64, ..*old(self) },
                accumulated_rewards_per_share,
                accumulated_rewards_per_share_b,
            ),
    {
        self.staked_amount = self.staked_amount - amount;
        self.update_rewards_debt(accumulated_rewards_per_share, accumulated_rewards_per_share_b)
    }

    /// The rewards earned and not yet paid: what the stake has earned minus the debts.
    pub fn pending_rewards(
        &self,
        accumulated_rewards_per_share: u128,
        accumulated_rewards_per_share_b: u128,
    ) -> (r: (u64, u64))
        requires
            pending_defined(*self, accumulated_rewards_per_share, accumulated_rewards_per_share_b),
        ensures
            r == pending(*self, accumulated_rewards_per_share, accumulated_rewards_per_share_b),
    {
        if self.staked_amount == 0 {
            return (0, 0);
        }
        let a = earned_exec(self.staked_amount, accumulated_rewards_per_share);
        let b = earned_exec(self.staked_amount, accumulated_rewards_per_share_b);
        let pa = match a.checked_sub(&U192::from_u64(self.rewards_debt)) {
            Some(x) => x,
            None => U192::zero(),
        };
        let pb = match b.checked_sub(&U192::from_u64(self.rewards_debt_b)) {
            Some(x) => x,
            None => U192::zero(),
        };
        (pa.as_u64(), pb.as_u64())
    }

    /// Sets the debts to what the current stake has earned.
    pub fn update_rewards_debt(
        &mut self,
        accumulated_rewards_per_share: u128,
        accumulated_rewards_per_share_b: u128,
    )
        requires
            debt_defined(
                old(self).staked_amount,
                accumulated_rewards_per_share,
                accumulated_rewards_per_share_b,
            ),
        ensures
            *final(self) == with_debts(
                *old(self),
                accumulated_rewards_per_share,
                accumulated_rewards_per_share_b,
            ),
    {
        let a = earned_exec(self.staked_amount, accumulated_rewards_per_share);
        self.rewards_debt = a.as_u64();
        let b = earned_exec(self.staked_amount, accumulated_rewards_per_share_b);
        self.rewards_debt_b = b.as_u64();
    }

    /// Whether the account is initialized.
    pub fn is_initialized(&self) -> (r: bool)
        ensures
            r == (self.version != INVALID_USER_VERSION),
    {
        self.version != INVALID_USER_VERSION
    }
}

/// Right after the debts are set at some accumulated rewards (as stake, unstake and debt updates
/// do), nothing is pending at those accumulated rewards.
pub proof fn lemma_nothing_pending_after_debt_update(u: FarmingUser, acc: u128, acc_b: u128)
    requires
        debt_defined(u.staked_amount, acc, acc_b),
    ensures
        pending_defined(with_debts(u, acc, acc_b), acc, acc_b),
        pending(with_debts(u, acc, acc_b), acc, acc_b) == (0u64, 0u64),
{
}

/// Size of a user account: 185 bytes of fields, then 128 bytes of padding.
pub const FARMING_USER_LEN: usize = 313;

/// The encoded fields of a user account: the version, the stake and debts (little-endian), then
/// the five addresses.
pub open spec fn farming_user_bytes(u: FarmingUser) -> Seq<u8> {
    seq![u.version] + le_bytes(u.staked_amount as nat, 8) + le_bytes(u.rewards_debt as nat, 8)
        + le_bytes(u.rewards_debt_b as nat, 8) + u.farming_pool.0@ + u.user_main.0@
        + u.stake_token_account.0@ + u.rewards_token_accont.0@ + u.rewards_token_account_b.0@
}

/// Whether `u` is what the first 185 bytes of `s` decode to.
pub open spec fn farming_user_decodes(s: Seq<u8>, u: FarmingUser) -> bool {
    &&& u.version == s[0]
    &&& u.staked_amount == le_value(s.subrange(1, 9))
    &&& u.rewards_debt == le_value(s.subrange(9, 17))
    &&& u.rewards_debt_b == le_value(s.subrange(17, 25))
    &&& u.farming_pool.0@ == s.subrange(25, 57)
    &&& u.user_main.0@ == s.subrange(57, 89)
    &&& u.stake_token_account.0@ == s.subrange(89, 121)
    &&& u.rewards_token_accont.0@ == s.subrange(121, 153)
    &&& u.rewards_token_account_b.0@ == s.subrange(153, 185)
}

impl FarmingUser {
    /// Writes the account's fields over the first 185 bytes of `output`; the padding after them
    /// is left as it was.
    pub fn pack_into_slice(&self, output: &mut [u8])
        requires
            old(output)@.len() >= FARMING_USER_LEN,
        ensures
            final(output)@ == farming_user_bytes(*self) + old(output)@.subrange(
                185,
                old(output)@.len() as int,
            ),
    {
        let mut buf: Vec<u8> = Vec::new();
        buf.push(self.version);
        push_le(&mut buf, self.staked_amount as u128, 8);
        push_le(&mut buf, self.rewards_debt as u128, 8);
        push_le(&mut buf, self.rewards_debt_b as u128, 8);
        push_bytes32(&mut buf, &self.farming_pool.0);
        push_bytes32(&mut buf, &self.user_main.0);
        push_bytes32(&mut buf, &self.stake_token_account.0);
        push_bytes32(&mut buf, &self.rewards_token_accont.0);
        push_bytes32(&mut buf, &self.rewards_token_account_b.0);
        proof {
            lemma_le_bytes_len(self.staked_amount as nat, 8);
            lemma_le_bytes_len(self.rewards_debt as nat, 8);
            lemma_le_bytes_len(self.rewards_debt_b as nat, 8);
            assert(buf@ =~= farming_user_bytes(*self));
        }
        write_prefix(output, &buf);
    }

    /// Reads a user account from the first 185 bytes of `input`.
    pub fn unpack_from_slice(input: &[u8]) -> (r: Result<FarmingUser, FarmingError>)
        requires
            input@.len() >= FARMING_USER_LEN,
        ensures
            r is Ok,
            r matches Ok(u) && farming_user_decodes(input@, u),
    {
        proof {
            lemma_pow256_16();
            lemma_le_value_bound(input@.subrange(1, 9));
            lemma_le_value_bound(input@.subrange(9, 17));
            lemma_le_value_bound(input@.subrange(17, 25));
        }
        Ok(
            FarmingUser {
                version: input[0],
                staked_amount: read_le(input, 1, 8) as u64,
                rewards_debt: read_le(input, 9, 8) as u64,
                rewards_debt_b: read_le(input, 17, 8) as u64,
                farming_pool: Pubkey(read_bytes32(input, 25)),
                user_main: Pubkey(read_bytes32(input, 57)),
                stake_token_account: Pubkey(read_bytes32(input, 89)),
                rewards_token_accont: Pubkey(read_bytes32(input, 121)),
                rewards_token_account_b: Pubkey(read_bytes32(input, 153)),
            },
        )
    }
}

/// Reading back what `pack_into_slice` wrote gives the account itself, whatever the padding.
pub proof fn lemma_farming_user_round_trip(u: FarmingUser, padding: Seq<u8>)
    ensures
        forall|v: FarmingUser|
            #[trigger] farming_user_decodes(farming_user_bytes(u) + padding, v) <==> v == u,
{
    let s = farming_user_bytes(u) + padding;
    lemma_pow256_16();
    lemma_le_bytes_len(u.staked_amount as nat, 8);
    lemma_le_bytes_len(u.rewards_debt as nat, 8);
    lemma_le_bytes_len(u.rewards_debt_b as nat, 8);
    lemma_le_value_of_bytes(u.staked_amount as nat, 8);
    lemma_le_value_of_bytes(u.rewards_debt as nat, 8);
    lemma_le_value_of_bytes(u.rewards_debt_b as nat, 8);
    assert(s.subrange(1, 9) =~= le_bytes(u.staked_amount as nat, 8));
    assert(s.subrange(9, 17) =~= le_bytes(u.rewards_debt as nat, 8));
    assert(s.subrange(17, 25) =~= le_bytes(u.rewards_debt_b as nat, 8));
    assert(s.subrange(25, 57) =~= u.farming_pool.0@);
    assert(s.subrange(57, 89) =~= u.user_main.0@);
    assert(s.subrange(89, 121) =~= u.stake_token_account.0@);
    assert(s.subrange(121, 153) =~= u.rewards_token_accont.0@);
    assert(s.subrange(153, 185) =~= u.rewards_token_account_b.0@);
    assert forall|v: FarmingUser| #[trigger] farming_user_decodes(s, v) implies v == u by {
        assert(v.farming_pool.0 =~= u.farming_pool.0);
        assert(v.user_main.0 =~= u.user_main.0);
        assert(v.stake_token_account.0 =~= u.stake_token_account.0);
        assert(v.rewards_token_accont.0 =~= u.rewards_token_accont.0);
        assert(v.rewards_token_account_b.0 =~= u.rewards_token_account_b.0);
    }
}

/// Writing back what `unpack_from_slice` read gives the same 185 bytes of fields.
pub proof fn lemma_farming_user_bytes_round_trip(s: Seq<u8>, u: FarmingUser)
    requires
        s.len() >= FARMING_USER_LEN,
        farming_user_decodes(s, u),
    ensures
        farming_user_bytes(u) == s.subrange(0, 185),
{
    lemma_le_bytes_of_value(s.subrange(1, 9));
    lemma_le_bytes_of_value(s.subrange(9, 17));
    lemma_le_bytes_of_value(s.subrange(17, 25));
    assert(farming_user_bytes(u) =~= s.subrange(0, 185));
}

} // verus!
