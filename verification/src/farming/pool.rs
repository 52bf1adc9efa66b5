//! A farming pool: its rewards schedules and the rewards accumulated per staked token.
use crate::bytes::{
    le_bytes, le_value, lemma_le_bytes_len, lemma_le_bytes_of_value, lemma_le_value_bound,
    lemma_le_value_of_bytes, lemma_pow256_16, push_bytes32, push_le, read_bytes32, read_le,
    write_prefix,
};
use crate::farming::error::FarmingError;
use crate::farming::instruction::FarmingPoolConfig;
use crate::farming::user::{
    FarmingUser, REWARDS_SCALE, debt_defined, pending, pending_defined, with_debts,
};
use crate::pubkey::Pubkey;
use crate::u192::{U192, limb_base2, u192_bound};
use vstd::prelude::*;

verus! {

/// Version of an uninitialized pool account.
pub const INVALID_POOL_VERSION: u8 = 0;

/// Version of the pool accounts this program creates.
pub const CURRENT_POOL_VERSION: u8 = 1;

/// Slots in a day: 160 ticks a second, 86400 seconds a day, 64 ticks a slot.
pub const SLOTS_PER_DAY: u64 = 216_000;

/// A farming pool account.
///
/// Rewards of token A are paid from `rewards_start_slot` to `rewards_end_slot` at
/// `rewards_per_day` tokens a day, and likewise for token B with the `_b` fields. The
/// accumulated rewards per share are scaled by 10^12.
#[derive(Clone, Copy, Debug, PartialEq, Eq, Default)]
pub struct FarmingPool {
    pub version: u8,
    pub is_dual_rewards: u8,
    pub admin: Pubkey,
    pub token_program_id: Pubkey,
    pub pool_authority: Pubkey,
    pub staked_token_mint: Pubkey,
    pub staked_token_account: Pubkey,
    pub rewards_token_mint: Pubkey,
    pub rewards_token_account: Pubkey,
    pub rewards_token_mint_b: Pubkey,
    pub rewards_token_account_b: Pubkey,
    pub pool_stake_cap: u64,
    pub user_stake_cap: u64,
    pub rewards_start_slot: u64,
    pub rewards_end_slot: u64,
    pub rewards_per_day: u64,
    pub rewards_start_slot_b: u64,
    pub rewards_end_slot_b: u64,
    pub rewards_per_day_b: u64,
    pub total_staked_amount: u64,
    pub last_update_slot: u64,
    pub accumulated_rewards_per_share: u128,
    pub accumulated_rewards_per_share_b: u128,
}

/// The larger of two slots.
pub open spec fn slot_max(a: u64, b: u64) -> u64 {
    if a < b {
        b
    } else {
        a
    }
}

/// The smaller of two slots.
pub open spec fn slot_min(a: u64, b: u64) -> u64 {
    if a < b {
        a
    } else {
        b
    }
}

/// Rewards per share (scaled by 10^12) that `per_day` tokens a day pay over `elapsed` slots to
/// `staked` tokens, each division rounding down.
pub open spec fn rewards_per_share(elapsed: nat, per_day: nat, staked: nat) -> nat {
    elapsed * per_day * (REWARDS_SCALE as nat) / (SLOTS_PER_DAY as nat) / staked
}

/// Whether a schedule from `start` to `end` pays anything between the last update at `last` and
/// `slot` to `staked` tokens.
pub open spec fn accrues(last: u64, slot: u64, start: u64, end: u64, staked: u64) -> bool {
    &&& last < slot
    &&& start <= slot
    &&& last <= end
    &&& staked != 0
}

/// Rewards per share that a schedule pays between `last` and `slot`: over the slots of
/// `[max(start, last), min(end, slot)]`.
pub open spec fn accrued(
    last: u64,
    slot: u64,
    start: u64,
    end: u64,
    per_day: u64,
    staked: u64,
) -> nat {
    rewards_per_share(
        (slot_min(end, slot) - slot_max(start, last)) as nat,
        per_day as nat,
        staked as nat,
    )
}

/// Whether an update of one schedule runs through: a schedule that pays must not end before it
/// starts, and the new accumulated rewards per share must fit in a `u128`.
pub open spec fn schedule_update_defined(
    last: u64,
    slot: u64,
    start: u64,
    end: u64,
    per_day: u64,
    staked: u64,
    acc: u128,
) -> bool {
    accrues(last, slot, start, end, staked) ==> {
        &&& start <= end
        &&& acc + accrued(last, slot, start, end, per_day, staked) <= u128::MAX
    }
}

/// The last update slot and accumulated rewards per share after an update of one schedule at
/// `slot`: nothing changes unless `slot` is later than the last update; then the last update
/// moves to `slot`, and what the schedule paid in between is added.
pub open spec fn schedule_update(
    last: u64,
    slot: u64,
    start: u64,
    end: u64,
    per_day: u64,
    staked: u64,
    acc: u128,
) -> (u64, u128) {
    if slot <= last {
        (last, acc)
    } else if !accrues(last, slot, start, end, staked) {
        (slot, acc)
    } else {
        (slot, (acc + accrued(last, slot, start, end, per_day, staked)) as u128)
    }
}

impl FarmingPool {
    /// Whether `update_pool_rewards` runs through at `slot`.
    pub open spec fn rewards_update_defined(self, slot: u64) -> bool {
        schedule_update_defined(
            self.last_update_slot,
            slot,
            self.rewards_start_slot,
            self.rewards_end_slot,
            self.rewards_per_day,
            self.total_staked_amount,
            self.accumulated_rewards_per_share,
        )
    }

    /// The pool after `update_pool_rewards` at `slot`.
    pub open spec fn after_rewards_update(self, slot: u64) -> FarmingPool {
        let (last, acc) = schedule_update(
            self.last_update_slot,
            slot,
            self.rewards_start_slot,
            self.rewards_end_slot,
            self.rewards_per_day,
            self.total_staked_amount,
            self.accumulated_rewards_per_share,
        );
        FarmingPool { last_update_slot: last, accumulated_rewards_per_share: acc, ..self }
    }

    /// Whether `update_pool_rewards_b` runs through at `slot`.
    pub open spec fn rewards_b_update_defined(self, slot: u64) -> bool {
        schedule_update_defined(
            self.last_update_slot,
            slot,
            self.rewards_start_slot_b,
            self.rewards_end_slot_b,
            self.rewards_per_day_b,
            self.total_staked_amount,
            self.accumulated_rewards_per_share_b,
        )
    }

    /// The pool after `update_pool_rewards_b` at `slot`.
    pub open spec fn after_rewards_b_update(self, slot: u64) -> FarmingPool {
        let (last, acc) = schedule_update(
            self.last_update_slot,
            slot,
            self.rewards_start_slot_b,
            self.rewards_end_slot_b,
            self.rewards_per_day_b,
            self.total_staked_amount,
            self.accumulated_rewards_per_share_b,
        );
        FarmingPool { last_update_slot: last, accumulated_rewards_per_share_b: acc, ..self }
    }

    /// Whether `update_pool` runs through at `slot`.
    pub open spec fn pool_update_defined(self, slot: u64) -> bool {
        &&& self.rewards_update_defined(slot)
        &&& self.is_dual_rewards == 1 ==> self.after_rewards_update(slot).rewards_b_update_defined(
            slot,
        )
    }

    /// The pool after `update_pool` at `slot`.
    pub open spec fn after_pool_update(self, slot: u64) -> FarmingPool {
        let p = self.after_rewards_update(slot);
        if self.is_dual_rewards == 1 {
            p.after_rewards_b_update(slot)
        } else {
            p
        }
    }

    /// The pool with the rewards settings of `config`.
    pub open spec fn with_config(self, config: FarmingPoolConfig) -> FarmingPool {
        FarmingPool {
            is_dual_rewards: config.is_dual_rewards,
            pool_stake_cap: config.pool_stake_cap,
            user_stake_cap: config.user_stake_cap,
            rewards_start_slot: config.rewards_start_slot,
            rewards_end_slot: config.rewards_end_slot,
            rewards_per_day: config.rewards_per_day,
            rewards_start_slot_b: config.rewards_start_slot_b,
            rewards_end_slot_b: config.rewards_end_slot_b,
            rewards_per_day_b: config.rewards_per_day_b,
            ..self
        }
    }
}

/// Tokens that `per_day` tokens a day pay over the slots from `start` to `end`, rounded down.
pub open spec fn schedule_total(start: u64, end: u64, per_day: u64) -> nat {
    ((end - start) * per_day / (SLOTS_PER_DAY as int)) as nat
}

/// One update of a schedule, computed.
fn update_schedule(
    last: u64,
    slot: u64,
    start: u64,
    end: u64,
    per_day: u64,
    staked: u64,
    acc: u128,
) -> (r: (u64, u128))
    requires
        schedule_update_defined(last, slot, start, end, per_day, staked, acc),
    ensures
        r == schedule_update(last, slot, start, end, per_day, staked, acc),
{
    if last >= slot {
        return (last, acc);
    }
    if slot < start || last > end || staked == 0 {
        return (slot, acc);
    }
    let slot_start = if start < last {
        last
    } else {
        start
    };
    let slot_end = if end < slot {
        end
    } else {
        slot
    };
    let slots_elapsed = slot_end - slot_start;
    proof {
        assert((slots_elapsed as nat) * (per_day as nat) <= u128::MAX) by (nonlinear_arith)
            requires
                slots_elapsed <= u64::MAX,
                per_day <= u64::MAX,
        ;
        assert((slots_elapsed as nat) * (per_day as nat) * (REWARDS_SCALE as nat) < u192_bound())
            by (nonlinear_arith)
            requires
                (slots_elapsed as nat) * (per_day as nat) <= u128::MAX,
                REWARDS_SCALE < 0x1_0000_0000_0000_0000u128,
                u192_bound() == 0x1_0000_0000_0000_0000_0000_0000_0000_0000_0000_0000_0000_0000nat,
        ;
    }
    let p = (slots_elapsed as u128) * (per_day as u128);
    let scaled = match U192::from_u128(p).checked_mul_u64(REWARDS_SCALE) {
        Some(x) => x,
        None => U192::zero(),
    };
    let per_slot = scaled.div_rem(&U192::from_u64(SLOTS_PER_DAY)).0;
    let inc = per_slot.div_rem(&U192::from_u64(staked)).0;
    assert(inc@ == accrued(last, slot, start, end, per_day, staked));
    let sum = match U192::from_u128(acc).checked_add(&inc) {
        Some(x) => x,
        None => U192::zero(),
    };
    assert(sum@ < limb_base2());
    (slot, sum.as_u128())
}

impl FarmingPool {
    /// Initializes the pool with its accounts and rewards settings.
    pub fn init(
        &mut self,
        admin: &Pubkey,
        token_program_id: &Pubkey,
        pool_authority: &Pubkey,
        staked_token_mint: &Pubkey,
        staked_token_account: &Pubkey,
        rewards_token_mint: &Pubkey,
        rewards_token_account: &Pubkey,
        rewards_token_mint_b: &Pubkey,
        rewards_token_account_b: &Pubkey,
        config: &FarmingPoolConfig,
    )
        ensures
            *final(self) == (FarmingPool {
                version: CURRENT_POOL_VERSION,
                admin: *admin,
                token_program_id: *token_program_id,
                pool_authority: *pool_authority,
                staked_token_mint: *staked_token_mint,
                staked_token_account: *staked_token_account,
                rewards_token_mint: *rewards_token_mint,
                rewards_token_account: *rewards_token_account,
                rewards_token_mint_b: *rewards_token_mint_b,
                rewards_token_account_b: *rewards_token_account_b,
                ..old(self).with_config(*config)
            }),
    {
        self.version = CURRENT_POOL_VERSION;
        self.admin = *admin;
        self.token_program_id = *token_program_id;
        self.pool_authority = *pool_authority;
        self.staked_token_mint = *staked_token_mint;
        self.staked_token_account = *staked_token_account;
        self.rewards_token_mint = *rewards_token_mint;
        self.rewards_token_account = *rewards_token_account;
        self.rewards_token_mint_b = *rewards_token_mint_b;
        self.rewards_token_account_b = *rewards_token_account_b;
        self.update_rewards_config(config);
    }

    /// Replaces the rewards settings.
    pub fn update_rewards_config(&mut self, config: &FarmingPoolConfig)
        ensures
            *final(self) == old(self).with_config(*config),
    {
        self.is_dual_rewards = config.is_dual_rewards;
        self.pool_stake_cap = config.pool_stake_cap;
        self.user_stake_cap = config.user_stake_cap;
        self.rewards_start_slot = config.rewards_start_slot;
        self.rewards_end_slot = config.rewards_end_slot;
        self.rewards_per_day = config.rewards_per_day;
        self.rewards_start_slot_b = config.rewards_start_slot_b;
        self.rewards_end_slot_b = config.rewards_end_slot_b;
        self.rewards_per_day_b = config.rewards_per_day_b;
    }

    /// Total rewards of token A and of token B over their schedules, each cut to its low 64 bits.
    pub fn total_rewards(&self) -> (r: (u64, u64))
        requires
            self.rewards_start_slot <= self.rewards_end_slot,
            self.rewards_start_slot_b <= self.rewards_end_slot_b,
        ensures
            r.0 == schedule_total(
                self.rewards_start_slot,
                self.rewards_end_slot,
                self.rewards_per_day,
            ) % 0x1_0000_0000_0000_0000,
            r.1 == schedule_total(
                self.rewards_start_slot_b,
                self.rewards_end_slot_b,
                self.rewards_per_day_b,
            ) % 0x1_0000_0000_0000_0000,
    {
        let a = low_u64(
            total_over(self.rewards_start_slot, self.rewards_end_slot, self.rewards_per_day),
        );
        let b = low_u64(
            total_over(self.rewards_start_slot_b, self.rewards_end_slot_b, self.rewards_per_day_b),
        );
        (a, b)
    }

    /// Rewards of token A for extending its schedule to `end_slot`, cut to its low 64 bits.
    pub fn extend_rewards(&self, end_slot: u64) -> (r: u64)
        requires
            self.rewards_end_slot <= end_slot,
        ensures
            r == schedule_total(self.rewards_end_slot, end_slot, self.rewards_per_day)
                % 0x1_0000_0000_0000_0000,
    {
        low_u64(total_over(self.rewards_end_slot, end_slot, self.rewards_per_day))
    }

    /// Adds the token B rewards per share paid since the last update, and moves the last update
    /// to `current_slot` if it is later.
    pub fn update_pool_rewards_b(&mut self, current_slot: u64)
        requires
            old(self).rewards_b_update_defined(current_slot),
        ensures
            *final(self) == old(self).after_rewards_b_update(current_slot),
    {
        let (last, acc) = update_schedule(
            self.last_update_slot,
            current_slot,
            self.rewards_start_slot_b,
            self.rewards_end_slot_b,
            self.rewards_per_day_b,
            self.total_staked_amount,
            self.accumulated_rewards_per_share_b,
        );
        self.last_update_slot = last;
        self.accumulated_rewards_per_share_b = acc;
    }

    /// Adds the token A rewards per share paid since the last update, and moves the last update
    /// to `current_slot` if it is later.
    pub fn update_pool_rewards(&mut self, current_slot: u64)
        requires
            old(self).rewards_update_defined(current_slot),
        ensures
            *final(self) == old(self).after_rewards_update(current_slot),
    {
        let (last, acc) = update_schedule(
            self.last_update_slot,
            current_slot,
            self.rewards_start_slot,
            self.rewards_end_slot,
            self.rewards_per_day,
            self.total_staked_amount,
            self.accumulated_rewards_per_share,
        );
        self.last_update_slot = last;
        self.accumulated_rewards_per_share = acc;
    }

    /// Updates token A rewards, then token B rewards if the pool pays both.
    pub fn update_pool(&mut self, current_slot: u64)
        requires
            old(self).pool_update_defined(current_slot),
        ensures
            *final(self) == old(self).after_pool_update(current_slot),
    {
        self.update_pool_rewards(current_slot);
        if self.is_dual_rewards() {
            self.update_pool_rewards_b(current_slot);
        }
    }

    /// Whether the pool pays rewards in two tokens.
    pub fn is_dual_rewards(&self) -> (r: bool)
        ensures
            r == (self.is_dual_rewards == 1),
    {
        self.is_dual_rewards == 1
    }

    /// Updates the pool, then returns what `user` is owed at the new accumulated rewards.
    pub fn pending_rewards(&mut self, current_slot: u64, user: &FarmingUser) -> (r: (u64, u64))
        requires
            old(self).pool_update_defined(current_slot),
            pending_defined(
                *user,
                old(self).after_pool_update(current_slot).accumulated_rewards_per_share,
                old(self).after_pool_update(current_slot).accumulated_rewards_per_share_b,
            ),
        ensures
            *final(self) == old(self).after_pool_update(current_slot),
            r == pending(
                *user,
                final(self).accumulated_rewards_per_share,
                final(self).accumulated_rewards_per_share_b,
            ),
    {
        self.update_pool(current_slot);
        user.pending_rewards(self.accumulated_rewards_per_share, self.accumulated_rewards_per_share_b)
    }

    /// Stakes `amount` of `user`'s tokens: updates the pool, takes what the user is owed, adds
    /// the stake to the user and the pool, and resets the user's debts. Returns what was owed.
    pub fn stake(&mut self, user: &mut FarmingUser, current_slot: u64, amount: u64) -> (r: (
        u64,
        u64,
    ))
        requires
            old(self).pool_update_defined(current_slot),
            pending_defined(
                *old(user),
                old(self).after_pool_update(current_slot).accumulated_rewards_per_share,
                old(self).after_pool_update(current_slot).accumulated_rewards_per_share_b,
            ),
            old(user).staked_amount + amount <= u64::MAX,
            debt_defined(
                (old(user).staked_amount + amount) as u64,
                old(self).after_pool_update(current_slot).accumulated_rewards_per_share,
                old(self).after_pool_update(current_slot).accumulated_rewards_per_share_b,
            ),
            old(self).total_staked_amount + amount <= u64::MAX,
        ensures
            r == pending(
                *old(user),
                final(self).accumulated_rewards_per_share,
                final(self).accumulated_rewards_per_share_b,
            ),
            *final(self) == (FarmingPool {
                total_staked_amount: (old(self).total_staked_amount + amount) as u64,
                ..old(self).after_pool_update(current_slot)
            }),
            *final(user) == with_debts(
                FarmingUser { staked_amount: (old(user).staked_amount + amount) as u64, ..*old(user) },
                final(self).accumulated_rewards_per_share,
                final(self).accumulated_rewards_per_share_b,
            ),
    {
        let pending_rewards = self.pending_rewards(current_slot, user);
        user.stake(amount, self.accumulated_rewards_per_share, self.accumulated_rewards_per_share_b);
        self.total_staked_amount = self.total_staked_amount + amount;
        pending_rewards
    }

    /// Unstakes `amount` of `user`'s tokens: updates the pool, takes what the user is owed,
    /// removes the stake from the user and the pool, and resets the user's debts. Returns what
    /// was owed.
    pub fn un_stake(&mut self, user: &mut FarmingUser, current_slot: u64, amount: u64) -> (r: (
        u64,
        u64,
    ))
        requires
            old(self).pool_update_defined(current_slot),
            pending_defined(
                *old(user),
                old(self).after_pool_update(current_slot).accumulated_rewards_per_share,
                old(self).after_pool_update(current_slot).accumulated_rewards_per_share_b,
            ),
            amount <= old(user).staked_amount,
            debt_defined(
                (old(user).staked_amount - amount) as u64,
                old(self).after_pool_update(current_slot).accumulated_rewards_per_share,
                old(self).after_pool_update(current_slot).accumulated_rewards_per_share_b,
            ),
            amount <= old(self).total_staked_amount,
        ensures
            r == pending(
                *old(user),
                final(self).accumulated_rewards_per_share,
                final(self).accumulated_rewards_per_share_b,
            ),
            *final(self) == (FarmingPool {
                total_staked_amount: (old(self).total_staked_amount - amount) as u64,
                ..old(self).after_pool_update(current_slot)
            }),
            *final(user) == with_debts(
                FarmingUser { staked_amount: (old(user).staked_amount - amount) as u64, ..*old(user) },
                final(self).accumulated_rewards_per_share,
                final(self).accumulated_rewards_per_share_b,
            ),
    {
        let pending_rewards = self.pending_rewards(current_slot, user);
        user.un_stake(
            amount,
            self.accumulated_rewards_per_share,
            self.accumulated_rewards_per_share_b,
        );
        self.total_staked_amount = self.total_staked_amount - amount;
        pending_rewards
    }

    /// Whether the pool account is initialized.
    pub fn is_initialized(&self) -> (r: bool)
        ensures
            r == (self.version != INVALID_POOL_VERSION),
    {
        self.version != INVALID_POOL_VERSION
    }
}

/// `(end - start) * per_day / SLOTS_PER_DAY`, which fits in a `u128`.
fn total_over(start: u64, end: u64, per_day: u64) -> (r: u128)
    requires
        start <= end,
    ensures
        r == schedule_total(start, end, per_day),
{
    let d = (end - start) as u128;
    proof {
        assert(d * (per_day as nat) <= u128::MAX) by (nonlinear_arith)
            requires
                d <= u64::MAX,
                per_day <= u64::MAX,
        ;
    }
    d * (per_day as u128) / (SLOTS_PER_DAY as u128)
}

/// The low 64 bits of `x`.
fn low_u64(x: u128) -> (r: u64)
    ensures
        r == x % 0x1_0000_0000_0000_0000,
{
    (x % 0x1_0000_0000_0000_0000u128) as u64
}

/// After an update at `slot`, the last update is at `slot` or later, the accumulated rewards per
/// share have not decreased, and a second update at `slot` changes nothing.
pub proof fn lemma_pool_update_settles(p: FarmingPool, slot: u64)
    requires
        p.pool_update_defined(slot),
    ensures
        p.after_pool_update(slot).last_update_slot == slot_max(p.last_update_slot, slot),
        p.after_pool_update(slot).accumulated_rewards_per_share >= p.accumulated_rewards_per_share,
        p.after_pool_update(slot).accumulated_rewards_per_share_b
            >= p.accumulated_rewards_per_share_b,
        p.after_pool_update(slot).pool_update_defined(slot),
        p.after_pool_update(slot).after_pool_update(slot) == p.after_pool_update(slot),
{
}

/// Rewards stop at the schedule's end: an update at any slot at or after `rewards_end_slot`
/// leaves the same accumulated rewards per share as an update at `rewards_end_slot` itself.
pub proof fn lemma_rewards_stop_at_end(p: FarmingPool, slot: u64)
    requires
        p.rewards_end_slot <= slot,
        p.rewards_update_defined(slot),
        p.rewards_update_defined(p.rewards_end_slot),
    ensures
        p.after_rewards_update(slot).accumulated_rewards_per_share == p.after_rewards_update(
            p.rewards_end_slot,
        ).accumulated_rewards_per_share,
{
    let last = p.last_update_slot;
    let start = p.rewards_start_slot;
    let end = p.rewards_end_slot;
    if end < slot && last < slot && last == end && start <= slot && p.total_staked_amount != 0 {
        assert(start <= end);
        assert(slot_min(end, slot) == end);
        assert(slot_max(start, last) == end);
        assert(0nat * (p.rewards_per_day as nat) * (REWARDS_SCALE as nat) == 0) by (nonlinear_arith);
        vstd::arithmetic::div_mod::lemma_div_of0(p.total_staked_amount as int);
        assert(rewards_per_share(0, p.rewards_per_day as nat, p.total_staked_amount as nat) == 0);
    }
}

/// An update pays the rewards of the slots since the last update that lie inside the schedule:
/// the accumulated rewards per share grow by exactly
/// `(min(end, slot) - max(start, last)) * per_day * 10^12 / SLOTS_PER_DAY / staked`, and by
/// nothing once the schedule has ended before the last update, before it has started, or while
/// nothing is staked.
pub proof fn lemma_rewards_update_pays_schedule(p: FarmingPool, slot: u64)
    requires
        p.rewards_update_defined(slot),
        p.last_update_slot < slot,
    ensures
        p.total_staked_amount != 0 && p.rewards_start_slot <= slot && p.last_update_slot
            <= p.rewards_end_slot ==> p.after_rewards_update(slot).accumulated_rewards_per_share
            == p.accumulated_rewards_per_share + ((if p.rewards_end_slot < slot {
            p.rewards_end_slot
        } else {
            slot
        }) - (if p.rewards_start_slot < p.last_update_slot {
            p.last_update_slot
        } else {
            p.rewards_start_slot
        })) * (p.rewards_per_day as int) * 1_000_000_000_000int / 216_000int
            / (p.total_staked_amount as int),
        !(p.total_staked_amount != 0 && p.rewards_start_slot <= slot && p.last_update_slot
            <= p.rewards_end_slot) ==> p.after_rewards_update(slot).accumulated_rewards_per_share
            == p.accumulated_rewards_per_share,
        p.after_rewards_update(slot).last_update_slot == slot,
{
}

/// Within `update_pool`, the token A update has already moved the last update to `slot`, so the
/// token B update that follows adds nothing: `update_pool` leaves the token B rewards per share
/// as they were.
pub proof fn lemma_pool_update_keeps_rewards_b(p: FarmingPool, slot: u64)
    requires
        p.pool_update_defined(slot),
    ensures
        p.after_pool_update(slot).accumulated_rewards_per_share_b
            == p.accumulated_rewards_per_share_b,
{
}

/// Right after a stake or an unstake at `slot`, the user is owed nothing at `slot`: a
/// `pending_rewards` call at the same slot runs through, leaves the pool as it is and returns
/// zero for both tokens.
pub proof fn lemma_nothing_pending_after_stake(p: FarmingPool, u: FarmingUser, slot: u64)
    requires
        p.last_update_slot >= slot,
        u == with_debts(u, p.accumulated_rewards_per_share, p.accumulated_rewards_per_share_b),
        debt_defined(u.staked_amount, p.accumulated_rewards_per_share, p.accumulated_rewards_per_share_b),
    ensures
        p.pool_update_defined(slot),
        p.after_pool_update(slot) == p,
        pending_defined(u, p.accumulated_rewards_per_share, p.accumulated_rewards_per_share_b),
        pending(u, p.accumulated_rewards_per_share, p.accumulated_rewards_per_share_b) == (
            0u64,
            0u64,
        ),
{
    crate::farming::user::lemma_nothing_pending_after_debt_update(
        u,
        p.accumulated_rewards_per_share,
        p.accumulated_rewards_per_share_b,
    );
}

/// Size of a pool account: 402 bytes of fields, then 128 bytes of padding.
pub const FARMING_POOL_LEN: usize = 530;

/// The encoded fields of a pool account: the version and the dual rewards flag, the nine
/// addresses (the pool authority before the token program), then the numbers, little-endian.
pub open spec fn farming_pool_bytes(p: FarmingPool) -> Seq<u8> {
    seq![p.version]
        + seq![p.is_dual_rewards]
        + p.admin.0@
        + p.pool_authority.0@
        + p.token_program_id.0@
        + p.staked_token_mint.0@
        + p.staked_token_account.0@
        + p.rewards_token_mint.0@
        + p.rewards_token_account.0@
        + p.rewards_token_mint_b.0@
        + p.rewards_token_account_b.0@
        + le_bytes(p.pool_stake_cap as nat, 8)
        + le_bytes(p.user_stake_cap as nat, 8)
        + le_bytes(p.rewards_start_slot as nat, 8)
        + le_bytes(p.rewards_end_slot as nat, 8)
        + le_bytes(p.rewards_per_day as nat, 8)
        + le_bytes(p.rewards_start_slot_b as nat, 8)
        + le_bytes(p.rewards_end_slot_b as nat, 8)
        + le_bytes(p.rewards_per_day_b as nat, 8)
        + le_bytes(p.total_staked_amount as nat, 8)
        + le_bytes(p.last_update_slot as nat, 8)
        + le_bytes(p.accumulated_rewards_per_share as nat, 16)
        + le_bytes(p.accumulated_rewards_per_share_b as nat, 16)
}

/// Whether `p` is what the first 402 bytes of `s` decode to.
pub open spec fn farming_pool_decodes(s: Seq<u8>, p: FarmingPool) -> bool {
    &&& p.version == s[0]
    &&& p.is_dual_rewards == s[1]
    &&& p.admin.0@ == s.subrange(2, 34)
    &&& p.pool_authority.0@ == s.subrange(34, 66)
    &&& p.token_program_id.0@ == s.subrange(66, 98)
    &&& p.staked_token_mint.0@ == s.subrange(98, 130)
    &&& p.staked_token_account.0@ == s.subrange(130, 162)
    &&& p.rewards_token_mint.0@ == s.subrange(162, 194)
    &&& p.rewards_token_account.0@ == s.subrange(194, 226)
    &&& p.rewards_token_mint_b.0@ == s.subrange(226, 258)
    &&& p.rewards_token_account_b.0@ == s.subrange(258, 290)
    &&& p.pool_stake_cap == le_value(s.subrange(290, 298))
    &&& p.user_stake_cap == le_value(s.subrange(298, 306))
    &&& p.rewards_start_slot == le_value(s.subrange(306, 314))
    &&& p.rewards_end_slot == le_value(s.subrange(314, 322))
    &&& p.rewards_per_day == le_value(s.subrange(322, 330))
    &&& p.rewards_start_slot_b == le_value(s.subrange(330, 338))
    &&& p.rewards_end_slot_b == le_value(s.subrange(338, 346))
    &&& p.rewards_per_day_b == le_value(s.subrange(346, 354))
    &&& p.total_staked_amount == le_value(s.subrange(354, 362))
    &&& p.last_update_slot == le_value(s.subrange(362, 370))
    &&& p.accumulated_rewards_per_share == le_value(s.subrange(370, 386))
    &&& p.accumulated_rewards_per_share_b == le_value(s.subrange(386, 402))
}

impl FarmingPool {
    /// Writes the pool's fields over the first 402 bytes of `output`; the padding after them is
    /// left as it was.
    pub fn pack_into_slice(&self, output: &mut [u8])
        requires
            old(output)@.len() >= FARMING_POOL_LEN,
        ensures
            final(output)@ == farming_pool_bytes(*self) + old(output)@.subrange(
                402,
                old(output)@.len() as int,
            ),
    {
        let mut buf: Vec<u8> = Vec::new();
        buf.push(self.version);
        buf.push(self.is_dual_rewards);
        push_bytes32(&mut buf, &self.admin.0);
        push_bytes32(&mut buf, &self.pool_authority.0);
        push_bytes32(&mut buf, &self.token_program_id.0);
        push_bytes32(&mut buf, &self.staked_token_mint.0);
        push_bytes32(&mut buf, &self.staked_token_account.0);
        push_bytes32(&mut buf, &self.rewards_token_mint.0);
        push_bytes32(&mut buf, &self.rewards_token_account.0);
        push_bytes32(&mut buf, &self.rewards_token_mint_b.0);
        push_bytes32(&mut buf, &self.rewards_token_account_b.0);
        push_le(&mut buf, self.pool_stake_cap as u128, 8);
        push_le(&mut buf, self.user_stake_cap as u128, 8);
        push_le(&mut buf, self.rewards_start_slot as u128, 8);
        push_le(&mut buf, self.rewards_end_slot as u128, 8);
        push_le(&mut buf, self.rewards_per_day as u128, 8);
        push_le(&mut buf, self.rewards_start_slot_b as u128, 8);
        push_le(&mut buf, self.rewards_end_slot_b as u128, 8);
        push_le(&mut buf, self.rewards_per_day_b as u128, 8);
        push_le(&mut buf, self.total_staked_amount as u128, 8);
        push_le(&mut buf, self.last_update_slot as u128, 8);
        push_le(&mut buf, self.accumulated_rewards_per_share as u128, 16);
        push_le(&mut buf, self.accumulated_rewards_per_share_b as u128, 16);
        proof {
            lemma_le_bytes_len(self.pool_stake_cap as nat, 8);
            lemma_le_bytes_len(self.user_stake_cap as nat, 8);
            lemma_le_bytes_len(self.rewards_start_slot as nat, 8);
            lemma_le_bytes_len(self.rewards_end_slot as nat, 8);
            lemma_le_bytes_len(self.rewards_per_day as nat, 8);
            lemma_le_bytes_len(self.rewards_start_slot_b as nat, 8);
            lemma_le_bytes_len(self.rewards_end_slot_b as nat, 8);
            lemma_le_bytes_len(self.rewards_per_day_b as nat, 8);
            lemma_le_bytes_len(self.total_staked_amount as nat, 8);
            lemma_le_bytes_len(self.last_update_slot as nat, 8);
            lemma_le_bytes_len(self.accumulated_rewards_per_share as nat, 16);
            lemma_le_bytes_len(self.accumulated_rewards_per_share_b as nat, 16);
            let p = *self;
            assert(buf@ =~= farming_pool_bytes(p));
        }
        write_prefix(output, &buf);
    }

    /// Reads a pool account from the first 402 bytes of `input`.
    pub fn unpack_from_slice(input: &[u8]) -> (r: Result<FarmingPool, FarmingError>)
        requires
            input@.len() >= FARMING_POOL_LEN,
        ensures
            r is Ok,
            r matches Ok(p) && farming_pool_decodes(input@, p),
    {
        proof {
            lemma_pow256_16();
            lemma_le_value_bound(input@.subrange(290, 298));
            lemma_le_value_bound(input@.subrange(298, 306));
            lemma_le_value_bound(input@.subrange(306, 314));
            lemma_le_value_bound(input@.subrange(314, 322));
            lemma_le_value_bound(input@.subrange(322, 330));
            lemma_le_value_bound(input@.subrange(330, 338));
            lemma_le_value_bound(input@.subrange(338, 346));
            lemma_le_value_bound(input@.subrange(346, 354));
            lemma_le_value_bound(input@.subrange(354, 362));
            lemma_le_value_bound(input@.subrange(362, 370));
            lemma_le_value_bound(input@.subrange(370, 386));
            lemma_le_value_bound(input@.subrange(386, 402));
        }
        Ok(
            FarmingPool {
                version: input[0],
                is_dual_rewards: input[1],
                admin: Pubkey(read_bytes32(input, 2)),
                pool_authority: Pubkey(read_bytes32(input, 34)),
                token_program_id: Pubkey(read_bytes32(input, 66)),
                staked_token_mint: Pubkey(read_bytes32(input, 98)),
                staked_token_account: Pubkey(read_bytes32(input, 130)),
                rewards_token_mint: Pubkey(read_bytes32(input, 162)),
                rewards_token_account: Pubkey(read_bytes32(input, 194)),
                rewards_token_mint_b: Pubkey(read_bytes32(input, 226)),
                rewards_token_account_b: Pubkey(read_bytes32(input, 258)),
                pool_stake_cap: read_le(input, 290, 8) as u64,
                user_stake_cap: read_le(input, 298, 8) as u64,
                rewards_start_slot: read_le(input, 306, 8) as u64,
                rewards_end_slot: read_le(input, 314, 8) as u64,
                rewards_per_day: read_le(input, 322, 8) as u64,
                rewards_start_slot_b: read_le(input, 330, 8) as u64,
                rewards_end_slot_b: read_le(input, 338, 8) as u64,
                rewards_per_day_b: read_le(input, 346, 8) as u64,
                total_staked_amount: read_le(input, 354, 8) as u64,
                last_update_slot: read_le(input, 362, 8) as u64,
                accumulated_rewards_per_share: read_le(input, 370, 16),
                accumulated_rewards_per_share_b: read_le(input, 386, 16),
            },
        )
    }
}

/// Reading back what `pack_into_slice` wrote gives the pool itself, whatever the padding.
pub proof fn lemma_farming_pool_round_trip(p: FarmingPool, padding: Seq<u8>)
    ensures
        forall|q: FarmingPool|
            #[trigger] farming_pool_decodes(farming_pool_bytes(p) + padding, q) <==> q == p,
{
    let s = farming_pool_bytes(p) + padding;
    lemma_pow256_16();
    lemma_le_bytes_len(p.pool_stake_cap as nat, 8);
    lemma_le_value_of_bytes(p.pool_stake_cap as nat, 8);
    lemma_le_bytes_len(p.user_stake_cap as nat, 8);
    lemma_le_value_of_bytes(p.user_stake_cap as nat, 8);
    lemma_le_bytes_len(p.rewards_start_slot as nat, 8);
    lemma_le_value_of_bytes(p.rewards_start_slot as nat, 8);
    lemma_le_bytes_len(p.rewards_end_slot as nat, 8);
    lemma_le_value_of_bytes(p.rewards_end_slot as nat, 8);
    lemma_le_bytes_len(p.rewards_per_day as nat, 8);
    lemma_le_value_of_bytes(p.rewards_per_day as nat, 8);
    lemma_le_bytes_len(p.rewards_start_slot_b as nat, 8);
    lemma_le_value_of_bytes(p.rewards_start_slot_b as nat, 8);
    lemma_le_bytes_len(p.rewards_end_slot_b as nat, 8);
    lemma_le_value_of_bytes(p.rewards_end_slot_b as nat, 8);
    lemma_le_bytes_len(p.rewards_per_day_b as nat, 8);
    lemma_le_value_of_bytes(p.rewards_per_day_b as nat, 8);
    lemma_le_bytes_len(p.total_staked_amount as nat, 8);
    lemma_le_value_of_bytes(p.total_staked_amount as nat, 8);
    lemma_le_bytes_len(p.last_update_slot as nat, 8);
    lemma_le_value_of_bytes(p.last_update_slot as nat, 8);
    lemma_le_bytes_len(p.accumulated_rewards_per_share as nat, 16);
    lemma_le_value_of_bytes(p.accumulated_rewards_per_share as nat, 16);
    lemma_le_bytes_len(p.accumulated_rewards_per_share_b as nat, 16);
    lemma_le_value_of_bytes(p.accumulated_rewards_per_share_b as nat, 16);
    assert(s.subrange(2, 34) =~= p.admin.0@);
    assert(s.subrange(34, 66) =~= p.pool_authority.0@);
    assert(s.subrange(66, 98) =~= p.token_program_id.0@);
    assert(s.subrange(98, 130) =~= p.staked_token_mint.0@);
    assert(s.subrange(130, 162) =~= p.staked_token_account.0@);
    assert(s.subrange(162, 194) =~= p.rewards_token_mint.0@);
    assert(s.subrange(194, 226) =~= p.rewards_token_account.0@);
    assert(s.subrange(226, 258) =~= p.rewards_token_mint_b.0@);
    assert(s.subrange(258, 290) =~= p.rewards_token_account_b.0@);
    assert(s.subrange(290, 298) =~= le_bytes(p.pool_stake_cap as nat, 8));
    assert(s.subrange(298, 306) =~= le_bytes(p.user_stake_cap as nat, 8));
    assert(s.subrange(306, 314) =~= le_bytes(p.rewards_start_slot as nat, 8));
    assert(s.subrange(314, 322) =~= le_bytes(p.rewards_end_slot as nat, 8));
    assert(s.subrange(322, 330) =~= le_bytes(p.rewards_per_day as nat, 8));
    assert(s.subrange(330, 338) =~= le_bytes(p.rewards_start_slot_b as nat, 8));
    assert(s.subrange(338, 346) =~= le_bytes(p.rewards_end_slot_b as nat, 8));
    assert(s.subrange(346, 354) =~= le_bytes(p.rewards_per_day_b as nat, 8));
    assert(s.subrange(354, 362) =~= le_bytes(p.total_staked_amount as nat, 8));
    assert(s.subrange(362, 370) =~= le_bytes(p.last_update_slot as nat, 8));
    assert(s.subrange(370, 386) =~= le_bytes(p.accumulated_rewards_per_share as nat, 16));
    assert(s.subrange(386, 402) =~= le_bytes(p.accumulated_rewards_per_share_b as nat, 16));
    assert forall|q: FarmingPool| #[trigger] farming_pool_decodes(s, q) implies q == p by {
        assert(q.admin.0 =~= p.admin.0);
        assert(q.pool_authority.0 =~= p.pool_authority.0);
        assert(q.token_program_id.0 =~= p.token_program_id.0);
        assert(q.staked_token_mint.0 =~= p.staked_token_mint.0);
        assert(q.staked_token_account.0 =~= p.staked_token_account.0);
        assert(q.rewards_token_mint.0 =~= p.rewards_token_mint.0);
        assert(q.rewards_token_account.0 =~= p.rewards_token_account.0);
        assert(q.rewards_token_mint_b.0 =~= p.rewards_token_mint_b.0);
        assert(q.rewards_token_account_b.0 =~= p.rewards_token_account_b.0);
    }
}

/// Writing back what `unpack_from_slice` read gives the same 402 bytes of fields.
pub proof fn lemma_farming_pool_bytes_round_trip(s: Seq<u8>, p: FarmingPool)
    requires
        s.len() >= FARMING_POOL_LEN,
        farming_pool_decodes(s, p),
    ensures
        farming_pool_bytes(p) == s.subrange(0, 402),
{
    lemma_le_bytes_of_value(s.subrange(290, 298));
    lemma_le_bytes_of_value(s.subrange(298, 306));
    lemma_le_bytes_of_value(s.subrange(306, 314));
    lemma_le_bytes_of_value(s.subrange(314, 322));
    lemma_le_bytes_of_value(s.subrange(322, 330));
    lemma_le_bytes_of_value(s.subrange(330, 338));
    lemma_le_bytes_of_value(s.subrange(338, 346));
    lemma_le_bytes_of_value(s.subrange(346, 354));
    lemma_le_bytes_of_value(s.subrange(354, 362));
    lemma_le_bytes_of_value(s.subrange(362, 370));
    lemma_le_bytes_of_value(s.subrange(370, 386));
    lemma_le_bytes_of_value(s.subrange(386, 402));
    assert(farming_pool_bytes(p) =~= s.subrange(0, 402));
}

} // verus!
