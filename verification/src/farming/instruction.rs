//! Instructions of the farming program and their byte encoding.
use crate::bytes::{
    le_bytes, le_value, lemma_le_bytes_len, lemma_le_bytes_of_value, lemma_le_value_bound,
    lemma_le_value_of_bytes, lemma_pow256_16, push_le, read_le,
};
use crate::farming::error::FarmingError;
use vstd::prelude::*;

verus! {

/// Rewards settings of a farming pool.
#[derive(Clone, Copy, Debug, PartialEq, Eq, Default)]
pub struct FarmingPoolConfig {
    pub is_dual_rewards: u8,
    pub pool_stake_cap: u64,
    pub user_stake_cap: u64,
    pub rewards_start_slot: u64,
    pub rewards_end_slot: u64,
    pub rewards_per_day: u64,
    pub rewards_start_slot_b: u64,
    pub rewards_end_slot_b: u64,
    pub rewards_per_day_b: u64,
}

/// Size of an encoded `FarmingPoolConfig`.
pub const FARMING_POOL_CONFIG_LEN: usize = 65;

/// The encoding of a config: its fields in order, the flag as one byte and each number as eight
/// little-endian bytes.
pub open spec fn config_bytes(c: FarmingPoolConfig) -> Seq<u8> {
    seq![c.is_dual_rewards] + le_bytes(c.pool_stake_cap as nat, 8)
        + le_bytes(c.user_stake_cap as nat, 8)
        + le_bytes(c.rewards_start_slot as nat, 8)
        + le_bytes(c.rewards_end_slot as nat, 8)
        + le_bytes(c.rewards_per_day as nat, 8)
        + le_bytes(c.rewards_start_slot_b as nat, 8)
        + le_bytes(c.rewards_end_slot_b as nat, 8)
        + le_bytes(c.rewards_per_day_b as nat, 8)
}

/// The config that 65 bytes encode.
pub open spec fn config_from_bytes(s: Seq<u8>) -> FarmingPoolConfig {
    FarmingPoolConfig {
        is_dual_rewards: s[0],
        pool_stake_cap: le_value(s.subrange(1, 9)) as u64,
        user_stake_cap: le_value(s.subrange(9, 17)) as u64,
        rewards_start_slot: le_value(s.subrange(17, 25)) as u64,
        rewards_end_slot: le_value(s.subrange(25, 33)) as u64,
        rewards_per_day: le_value(s.subrange(33, 41)) as u64,
        rewards_start_slot_b: le_value(s.subrange(41, 49)) as u64,
        rewards_end_slot_b: le_value(s.subrange(49, 57)) as u64,
        rewards_per_day_b: le_value(s.subrange(57, 65)) as u64,
    }
}

impl FarmingPoolConfig {
    /// Appends the encoding of the config to `out`.
    pub fn serialize(&self, out: &mut Vec<u8>)
        ensures
            final(out)@ == old(out)@ + config_bytes(*self),
    {
        out.push(self.is_dual_rewards);
        push_le(out, self.pool_stake_cap as u128, 8);
        push_le(out, self.user_stake_cap as u128, 8);
        push_le(out, self.rewards_start_slot as u128, 8);
        push_le(out, self.rewards_end_slot as u128, 8);
        push_le(out, self.rewards_per_day as u128, 8);
        push_le(out, self.rewards_start_slot_b as u128, 8);
        push_le(out, self.rewards_end_slot_b as u128, 8);
        push_le(out, self.rewards_per_day_b as u128, 8);
        proof {
            lemma_le_bytes_len(self.pool_stake_cap as nat, 8);
            lemma_le_bytes_len(self.user_stake_cap as nat, 8);
            lemma_le_bytes_len(self.rewards_start_slot as nat, 8);
            lemma_le_bytes_len(self.rewards_end_slot as nat, 8);
            lemma_le_bytes_len(self.rewards_per_day as nat, 8);
            lemma_le_bytes_len(self.rewards_start_slot_b as nat, 8);
            lemma_le_bytes_len(self.rewards_end_slot_b as nat, 8);
            lemma_le_bytes_len(self.rewards_per_day_b as nat, 8);
            let c = *self;
            assert(final(out)@ =~= old(out)@ + config_bytes(c));
        }
    }

    /// The encoding of the config.
    pub fn try_to_vec(&self) -> (r: Vec<u8>)
        ensures
            r@ == config_bytes(*self),
    {
        let mut out: Vec<u8> = Vec::new();
        self.serialize(&mut out);
        assert(out@ =~= config_bytes(*self));
        out
    }

    /// The config encoded in `input` from `off`: exactly the 65 bytes from `off` to the end.
    pub fn try_from_slice_at(input: &[u8], off: usize) -> (r: Option<FarmingPoolConfig>)
        requires
            off <= input@.len(),
        ensures
            r == (if input@.len() - off == FARMING_POOL_CONFIG_LEN {
                Some(config_from_bytes(input@.subrange(off as int, input@.len() as int)))
            } else {
                None
            }),
    {
        if input.len() - off != FARMING_POOL_CONFIG_LEN {
            return None;
        }
        proof {
            lemma_pow256_16();
            lemma_le_value_bound(input@.subrange(off + 1, off + 9));
            lemma_le_value_bound(input@.subrange(off + 9, off + 17));
            lemma_le_value_bound(input@.subrange(off + 17, off + 25));
            lemma_le_value_bound(input@.subrange(off + 25, off + 33));
            lemma_le_value_bound(input@.subrange(off + 33, off + 41));
            lemma_le_value_bound(input@.subrange(off + 41, off + 49));
            lemma_le_value_bound(input@.subrange(off + 49, off + 57));
            lemma_le_value_bound(input@.subrange(off + 57, off + 65));
        }
        let ghost s = input@.subrange(off as int, input@.len() as int);
        let c = FarmingPoolConfig {
            is_dual_rewards: input[off],
            pool_stake_cap: read_le(input, off + 1, 8) as u64,
            user_stake_cap: read_le(input, off + 9, 8) as u64,
            rewards_start_slot: read_le(input, off + 17, 8) as u64,
            rewards_end_slot: read_le(input, off + 25, 8) as u64,
            rewards_per_day: read_le(input, off + 33, 8) as u64,
            rewards_start_slot_b: read_le(input, off + 41, 8) as u64,
            rewards_end_slot_b: read_le(input, off + 49, 8) as u64,
            rewards_per_day_b: read_le(input, off + 57, 8) as u64,
        };
        proof {
            assert(s.subrange(1, 9) =~= input@.subrange(off + 1, off + 9));
            assert(s.subrange(9, 17) =~= input@.subrange(off + 9, off + 17));
            assert(s.subrange(17, 25) =~= input@.subrange(off + 17, off + 25));
            assert(s.subrange(25, 33) =~= input@.subrange(off + 25, off + 33));
            assert(s.subrange(33, 41) =~= input@.subrange(off + 33, off + 41));
            assert(s.subrange(41, 49) =~= input@.subrange(off + 41, off + 49));
            assert(s.subrange(49, 57) =~= input@.subrange(off + 49, off + 57));
            assert(s.subrange(57, 65) =~= input@.subrange(off + 57, off + 65));
        }
        Some(c)
    }

    /// The config that `input` encodes, which must be exactly 65 bytes long.
    pub fn try_from_slice(input: &[u8]) -> (r: Option<FarmingPoolConfig>)
        ensures
            r == (if input@.len() == FARMING_POOL_CONFIG_LEN {
                Some(config_from_bytes(input@))
            } else {
                None
            }),
    {
        assert(input@.subrange(0, input@.len() as int) =~= input@);
        Self::try_from_slice_at(input, 0)
    }
}

/// Decoding the encoding of a config gives the config back.
pub proof fn lemma_config_round_trip(c: FarmingPoolConfig)
    ensures
        config_bytes(c).len() == FARMING_POOL_CONFIG_LEN,
        config_from_bytes(config_bytes(c)) == c,
{
    let s = config_bytes(c);
    lemma_pow256_16();
    lemma_le_bytes_len(c.pool_stake_cap as nat, 8);
    lemma_le_value_of_bytes(c.pool_stake_cap as nat, 8);
    assert(s.subrange(1, 9) =~= le_bytes(c.pool_stake_cap as nat, 8));
    lemma_le_bytes_len(c.user_stake_cap as nat, 8);
    lemma_le_value_of_bytes(c.user_stake_cap as nat, 8);
    assert(s.subrange(9, 17) =~= le_bytes(c.user_stake_cap as nat, 8));
    lemma_le_bytes_len(c.rewards_start_slot as nat, 8);
    lemma_le_value_of_bytes(c.rewards_start_slot as nat, 8);
    assert(s.subrange(17, 25) =~= le_bytes(c.rewards_start_slot as nat, 8));
    lemma_le_bytes_len(c.rewards_end_slot as nat, 8);
    lemma_le_value_of_bytes(c.rewards_end_slot as nat, 8);
    assert(s.subrange(25, 33) =~= le_bytes(c.rewards_end_slot as nat, 8));
    lemma_le_bytes_len(c.rewards_per_day as nat, 8);
    lemma_le_value_of_bytes(c.rewards_per_day as nat, 8);
    assert(s.subrange(33, 41) =~= le_bytes(c.rewards_per_day as nat, 8));
    lemma_le_bytes_len(c.rewards_start_slot_b as nat, 8);
    lemma_le_value_of_bytes(c.rewards_start_slot_b as nat, 8);
    assert(s.subrange(41, 49) =~= le_bytes(c.rewards_start_slot_b as nat, 8));
    lemma_le_bytes_len(c.rewards_end_slot_b as nat, 8);
    lemma_le_value_of_bytes(c.rewards_end_slot_b as nat, 8);
    assert(s.subrange(49, 57) =~= le_bytes(c.rewards_end_slot_b as nat, 8));
    lemma_le_bytes_len(c.rewards_per_day_b as nat, 8);
    lemma_le_value_of_bytes(c.rewards_per_day_b as nat, 8);
    assert(s.subrange(57, 65) =~= le_bytes(c.rewards_per_day_b as nat, 8));
}

/// Encoding the config that 65 bytes decode to gives the bytes back.
pub proof fn lemma_config_bytes_round_trip(s: Seq<u8>)
    requires
        s.len() == FARMING_POOL_CONFIG_LEN,
    ensures
        config_bytes(config_from_bytes(s)) == s,
{
    lemma_pow256_16();
    lemma_le_bytes_of_value(s.subrange(1, 9));
    lemma_le_value_bound(s.subrange(1, 9));
    lemma_le_bytes_of_value(s.subrange(9, 17));
    lemma_le_value_bound(s.subrange(9, 17));
    lemma_le_bytes_of_value(s.subrange(17, 25));
    lemma_le_value_bound(s.subrange(17, 25));
    lemma_le_bytes_of_value(s.subrange(25, 33));
    lemma_le_value_bound(s.subrange(25, 33));
    lemma_le_bytes_of_value(s.subrange(33, 41));
    lemma_le_value_bound(s.subrange(33, 41));
    lemma_le_bytes_of_value(s.subrange(41, 49));
    lemma_le_value_bound(s.subrange(41, 49));
    lemma_le_bytes_of_value(s.subrange(49, 57));
    lemma_le_value_bound(s.subrange(49, 57));
    lemma_le_bytes_of_value(s.subrange(57, 65));
    lemma_le_value_bound(s.subrange(57, 65));
    assert(config_bytes(config_from_bytes(s)) =~= s);
}

/// Instructions of the farming program.
#[derive(Clone, Copy, Debug, PartialEq, Eq)]
pub enum FarmingInstructions {
    /// Initializes a farming pool with its rewards settings.
    InitFarmingPool { config: FarmingPoolConfig },
    /// Initializes a user's farming account.
    InitFarmingUser,
    /// Replaces the rewards settings of a pool.
    UpdateRewardsConfig { config: FarmingPoolConfig },
    /// Stakes tokens into a pool.
    Stake { amount: u64 },
    /// Unstakes tokens from a pool.
    UnStake { amount: u64 },
    /// Replaces the token A rewards accounts.
    UpdateRewardsToken,
    /// Replaces the token B rewards accounts.
    UpdateRewardsTokenB,
    /// Extends the token A rewards schedule to a later slot.
    ExtendRewards { end_slot: u64 },
    /// Changes the token A rewards per day.
    UpdateRewardsPerDay { rewards_per_day: u64 },
    /// Closes an empty account.
    AdminCloseEmptyAccount,
}

/// The encoding of an instruction: its tag, then its argument, a config as `config_bytes` and a
/// number as eight little-endian bytes.
pub open spec fn farming_instruction_bytes(ix: FarmingInstructions) -> Seq<u8> {
    match ix {
        FarmingInstructions::InitFarmingPool { config } => seq![0u8] + config_bytes(config),
        FarmingInstructions::InitFarmingUser => seq![1u8],
        FarmingInstructions::UpdateRewardsConfig { config } => seq![2u8] + config_bytes(config),
        FarmingInstructions::Stake { amount } => seq![3u8] + le_bytes(amount as nat, 8),
        FarmingInstructions::UnStake { amount } => seq![4u8] + le_bytes(amount as nat, 8),
        FarmingInstructions::UpdateRewardsToken => seq![5u8],
        FarmingInstructions::UpdateRewardsTokenB => seq![6u8],
        FarmingInstructions::ExtendRewards { end_slot } => seq![7u8] + le_bytes(end_slot as nat, 8),
        FarmingInstructions::UpdateRewardsPerDay { rewards_per_day } => seq![8u8] + le_bytes(
            rewards_per_day as nat,
            8,
        ),
        FarmingInstructions::AdminCloseEmptyAccount => seq![9u8],
    }
}

/// Whether the arguments after a known tag are there: a config must follow exactly, a number
/// must take at least eight bytes.
pub open spec fn farming_unpack_defined(s: Seq<u8>) -> bool {
    s.len() > 0 ==> (if s[0] == 0 || s[0] == 2 {
        s.len() == 1 + FARMING_POOL_CONFIG_LEN
    } else if s[0] == 3 || s[0] == 4 || s[0] == 7 || s[0] == 8 {
        s.len() >= 9
    } else {
        true
    })
}

/// The instruction that `s` encodes: no bytes or an unknown tag is an unpack error; bytes after
/// a number or after an instruction without argument are not read.
pub open spec fn farming_instruction_from_bytes(s: Seq<u8>) -> Result<
    FarmingInstructions,
    FarmingError,
> {
    if s.len() == 0 {
        Err(FarmingError::InstructionUnpackError)
    } else if s[0] == 0 {
        Ok(
            FarmingInstructions::InitFarmingPool {
                config: config_from_bytes(s.subrange(1, s.len() as int)),
            },
        )
    } else if s[0] == 1 {
        Ok(FarmingInstructions::InitFarmingUser)
    } else if s[0] == 2 {
        Ok(
            FarmingInstructions::UpdateRewardsConfig {
                config: config_from_bytes(s.subrange(1, s.len() as int)),
            },
        )
    } else if s[0] == 3 {
        Ok(FarmingInstructions::Stake { amount: le_value(s.subrange(1, 9)) as u64 })
    } else if s[0] == 4 {
        Ok(FarmingInstructions::UnStake { amount: le_value(s.subrange(1, 9)) as u64 })
    } else if s[0] == 5 {
        Ok(FarmingInstructions::UpdateRewardsToken)
    } else if s[0] == 6 {
        Ok(FarmingInstructions::UpdateRewardsTokenB)
    } else if s[0] == 7 {
        Ok(FarmingInstructions::ExtendRewards { end_slot: le_value(s.subrange(1, 9)) as u64 })
    } else if s[0] == 8 {
        Ok(
            FarmingInstructions::UpdateRewardsPerDay {
                rewards_per_day: le_value(s.subrange(1, 9)) as u64,
            },
        )
    } else if s[0] == 9 {
        Ok(FarmingInstructions::AdminCloseEmptyAccount)
    } else {
        Err(FarmingError::InstructionUnpackError)
    }
}

/// The eight little-endian bytes of `input` after the tag.
fn read_u64_arg(input: &[u8]) -> (r: u64)
    requires
        input@.len() >= 9,
    ensures
        r == le_value(input@.subrange(1, 9)),
{
    proof {
        lemma_pow256_16();
        lemma_le_value_bound(input@.subrange(1, 9));
    }
    read_le(input, 1, 8) as u64
}

impl FarmingInstructions {
    /// Decodes an instruction.
    pub fn unpack(input: &[u8]) -> (r: Result<FarmingInstructions, FarmingError>)
        requires
            farming_unpack_defined(input@),
        ensures
            r == farming_instruction_from_bytes(input@),
    {
        if input.len() == 0 {
            return Err(FarmingError::InstructionUnpackError);
        }
        let tag = input[0];
        if tag == 0 || tag == 2 {
            let config = match FarmingPoolConfig::try_from_slice_at(input, 1) {
                Some(c) => c,
                None => return Err(FarmingError::InstructionUnpackError),
            };
            if tag == 0 {
                Ok(FarmingInstructions::InitFarmingPool { config })
            } else {
                Ok(FarmingInstructions::UpdateRewardsConfig { config })
            }
        } else if tag == 1 {
            Ok(FarmingInstructions::InitFarmingUser)
        } else if tag == 3 {
            Ok(FarmingInstructions::Stake { amount: read_u64_arg(input) })
        } else if tag == 4 {
            Ok(FarmingInstructions::UnStake { amount: read_u64_arg(input) })
        } else if tag == 5 {
            Ok(FarmingInstructions::UpdateRewardsToken)
        } else if tag == 6 {
            Ok(FarmingInstructions::UpdateRewardsTokenB)
        } else if tag == 7 {
            Ok(FarmingInstructions::ExtendRewards { end_slot: read_u64_arg(input) })
        } else if tag == 8 {
            Ok(FarmingInstructions::UpdateRewardsPerDay { rewards_per_day: read_u64_arg(input) })
        } else if tag == 9 {
            Ok(FarmingInstructions::AdminCloseEmptyAccount)
        } else {
            Err(FarmingError::InstructionUnpackError)
        }
    }

    /// Encodes the instruction.
    pub fn pack(&self) -> (r: Vec<u8>)
        ensures
            r@ == farming_instruction_bytes(*self),
    {
        let mut buf: Vec<u8> = Vec::new();
        match self {
            FarmingInstructions::InitFarmingPool { config } => {
                buf.push(0);
                config.serialize(&mut buf);
            },
            FarmingInstructions::InitFarmingUser => {
                buf.push(1);
            },
            FarmingInstructions::UpdateRewardsConfig { config } => {
                buf.push(2);
                config.serialize(&mut buf);
            },
            FarmingInstructions::Stake { amount } => {
                buf.push(3);
                push_le(&mut buf, *amount as u128, 8);
            },
            FarmingInstructions::UnStake { amount } => {
                buf.push(4);
                push_le(&mut buf, *amount as u128, 8);
            },
            FarmingInstructions::UpdateRewardsToken => {
                buf.push(5);
            },
            FarmingInstructions::UpdateRewardsTokenB => {
                buf.push(6);
            },
            FarmingInstructions::ExtendRewards { end_slot } => {
                buf.push(7);
                push_le(&mut buf, *end_slot as u128, 8);
            },
            FarmingInstructions::UpdateRewardsPerDay { rewards_per_day } => {
                buf.push(8);
                push_le(&mut buf, *rewards_per_day as u128, 8);
            },
            FarmingInstructions::AdminCloseEmptyAccount => {
                buf.push(9);
            },
        }
        assert(buf@ =~= farming_instruction_bytes(*self));
        buf
    }
}

/// Decoding the encoding of an instruction gives the instruction back.
pub proof fn lemma_farming_instruction_round_trip(ix: FarmingInstructions)
    ensures
        farming_unpack_defined(farming_instruction_bytes(ix)),
        farming_instruction_from_bytes(farming_instruction_bytes(ix)) == Ok::<
            FarmingInstructions,
            FarmingError,
        >(ix),
{
    let s = farming_instruction_bytes(ix);
    lemma_pow256_16();
    match ix {
        FarmingInstructions::InitFarmingPool { config } => {
            lemma_config_round_trip(config);
            assert(s.subrange(1, s.len() as int) =~= config_bytes(config));
        },
        FarmingInstructions::UpdateRewardsConfig { config } => {
            lemma_config_round_trip(config);
            assert(s.subrange(1, s.len() as int) =~= config_bytes(config));
        },
        FarmingInstructions::Stake { amount } => {
            lemma_u64_arg_round_trip(amount);
        },
        FarmingInstructions::UnStake { amount } => {
            lemma_u64_arg_round_trip(amount);
        },
        FarmingInstructions::ExtendRewards { end_slot } => {
            lemma_u64_arg_round_trip(end_slot);
        },
        FarmingInstructions::UpdateRewardsPerDay { rewards_per_day } => {
            lemma_u64_arg_round_trip(rewards_per_day);
        },
        _ => {},
    }
}

/// Eight little-endian bytes after any tag read back as the number they encode.
proof fn lemma_u64_arg_round_trip(x: u64)
    ensures
        forall|t: u8|
            #![trigger (seq![t] + le_bytes(x as nat, 8))]
            (seq![t] + le_bytes(x as nat, 8)).len() == 9 && le_value(
                (seq![t] + le_bytes(x as nat, 8)).subrange(1, 9),
            ) == x,
{
    lemma_pow256_16();
    lemma_le_bytes_len(x as nat, 8);
    lemma_le_value_of_bytes(x as nat, 8);
    assert forall|t: u8| #![trigger (seq![t] + le_bytes(x as nat, 8))]
        (seq![t] + le_bytes(x as nat, 8)).subrange(1, 9) =~= le_bytes(x as nat, 8) by {}
}

/// What an instruction decodes from is its encoding, followed by bytes that are not read.
pub proof fn lemma_farming_instruction_bytes_round_trip(s: Seq<u8>)
    requires
        farming_unpack_defined(s),
        farming_instruction_from_bytes(s) is Ok,
    ensures
        ({
            let b = farming_instruction_bytes(farming_instruction_from_bytes(s)->Ok_0);
            b.len() <= s.len() && b == s.subrange(0, b.len() as int)
        }),
{
    lemma_pow256_16();
    if s[0] == 0 || s[0] == 2 {
        let rest = s.subrange(1, s.len() as int);
        lemma_config_bytes_round_trip(rest);
        assert(seq![s[0]] + rest =~= s);
        assert(s.subrange(0, s.len() as int) =~= s);
    } else if s[0] == 3 || s[0] == 4 || s[0] == 7 || s[0] == 8 {
        lemma_le_bytes_of_value(s.subrange(1, 9));
        lemma_le_value_bound(s.subrange(1, 9));
        assert(seq![s[0]] + s.subrange(1, 9) =~= s.subrange(0, 9));
    } else {
        assert(seq![s[0]] =~= s.subrange(0, 1));
    }
}

} // verus!
