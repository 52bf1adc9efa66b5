//! Lending market and lending pool state, and the pool's accounting.
use crate::lending::error::LendingError;
use crate::lending::math::{
    Decimal, Rate, decimal_div, decimal_mul, decimal_res, rate_mul, rate_pow, rate_pow_loop,
    rate_res, wad,
};
use crate::pubkey::Pubkey;
use crate::u192::{lemma_floor_div_bounds, limb_base, limb_base2, u192_bound};
use vstd::prelude::*;

verus! {

/// Share tokens are initially valued one to one against liquidity.
pub const INITIAL_COLLATERAL_RATIO: u64 = 1;

/// Current version of the program and of the accounts it creates.
pub const PROGRAM_VERSION: u8 = 1;

/// Accounts are created zeroed, so uninitialized accounts have version 0.
pub const UNINITIALIZED_VERSION: u8 = 0;

/// Seconds in a day.
pub const SECONDS_PER_DAY: u64 = 86_400;

/// Slots per year, at half a second per slot.
pub const SLOTS_PER_YEAR: u64 = 63_072_000;

/// Number of slots after which the pool counts as stale.
pub const STALE_AFTER_SLOTS_ELAPSED: u64 = 1;

// ---------------------------------------------------------------------------------------------
// Lending market
// ---------------------------------------------------------------------------------------------
/// Lending market state.
#[derive(Clone, Copy, Debug, PartialEq, Eq, Default)]
pub struct LendingMarket {
    /// Version of the lending market.
    pub version: u8,
    /// Bump seed of the derived authority address.
    pub bump_seed: u8,
    /// Owner authority, which can add new reserves.
    pub owner: Pubkey,
    /// Token program id.
    pub token_program_id: Pubkey,
}

/// Parameters of a new lending market.
#[derive(Clone, Copy, Debug, PartialEq, Eq)]
pub struct InitLendingMarketParams {
    pub bump_seed: u8,
    pub owner: Pubkey,
    pub token_program_id: Pubkey,
}

impl LendingMarket {
    /// A new lending market.
    pub fn new(params: InitLendingMarketParams) -> (r: Self)
        ensures
            r == (LendingMarket {
                version: PROGRAM_VERSION,
                bump_seed: params.bump_seed,
                owner: params.owner,
                token_program_id: params.token_program_id,
            }),
    {
        let mut lending_market = LendingMarket {
            version: 0,
            bump_seed: 0,
            owner: Pubkey([0u8; 32]),
            token_program_id: Pubkey([0u8; 32]),
        };
        lending_market.init(params);
        lending_market
    }

    /// Initializes a lending market.
    pub fn init(&mut self, params: InitLendingMarketParams)
        ensures
            *final(self) == (LendingMarket {
                version: PROGRAM_VERSION,
                bump_seed: params.bump_seed,
                owner: params.owner,
                token_program_id: params.token_program_id,
            }),
    {
        self.version = PROGRAM_VERSION;
        self.bump_seed = params.bump_seed;
        self.token_program_id = params.token_program_id;
        self.owner = params.owner;
    }

    /// Hands the market to a new owner.
    pub fn transfer_owner(&mut self, new_owner: Pubkey)
        ensures
            *final(self) == (LendingMarket { owner: new_owner, ..*old(self) }),
    {
        self.owner = new_owner;
    }

    /// Whether the market is initialized.
    pub fn is_initialized(&self) -> (r: bool)
        ensures
            r == (self.version != UNINITIALIZED_VERSION),
    {
        self.version != UNINITIALIZED_VERSION
    }
}

// ---------------------------------------------------------------------------------------------
// Last update
// ---------------------------------------------------------------------------------------------
/// When the pool was last updated.
#[derive(Clone, Copy, Debug)]
pub struct LastUpdate {
    /// Last slot when updated.
    pub slot: u64,
    /// True when marked stale, false when the slot was updated.
    pub stale: bool,
}

impl PartialEq for LastUpdate {
    fn eq(&self, other: &Self) -> (r: bool) {
        self.slot == other.slot
    }
}

impl vstd::std_specs::cmp::PartialEqSpecImpl for LastUpdate {
    open spec fn obeys_eq_spec() -> bool {
        true
    }

    open spec fn eq_spec(&self, other: &Self) -> bool {
        self.slot == other.slot
    }
}

impl PartialOrd for LastUpdate {
    fn partial_cmp(&self, other: &Self) -> (r: Option<core::cmp::Ordering>) {
        if self.slot < other.slot {
            Some(core::cmp::Ordering::Less)
        } else if self.slot == other.slot {
            Some(core::cmp::Ordering::Equal)
        } else {
            Some(core::cmp::Ordering::Greater)
        }
    }
}

impl vstd::std_specs::cmp::PartialOrdSpecImpl for LastUpdate {
    open spec fn obeys_partial_cmp_spec() -> bool {
        true
    }

    open spec fn partial_cmp_spec(&self, other: &Self) -> Option<core::cmp::Ordering> {
        if self.slot < other.slot {
            Some(core::cmp::Ordering::Less)
        } else if self.slot == other.slot {
            Some(core::cmp::Ordering::Equal)
        } else {
            Some(core::cmp::Ordering::Greater)
        }
    }
}

impl LastUpdate {
    /// A stale update at `slot`.
    pub fn new(slot: u64) -> (r: Self)
        ensures
            r.slot == slot,
            r.stale,
    {
        LastUpdate { slot, stale: true }
    }

    /// Slots elapsed since the last update; an error when `slot` is before it.
    pub fn slots_elapsed(&self, slot: u64) -> (r: Result<u64, LendingError>)
        ensures
            match r {
                Ok(x) => self.slot <= slot && x == slot - self.slot,
                Err(e) => slot < self.slot && e == LendingError::MathOverflow,
            },
    {
        match slot.checked_sub(self.slot) {
            Some(x) => Ok(x),
            None => Err(LendingError::MathOverflow),
        }
    }

    /// Records an update at `slot`.
    pub fn update_slot(&mut self, slot: u64)
        ensures
            final(self).slot == slot,
            !final(self).stale,
    {
        self.slot = slot;
        self.stale = false;
    }

    /// Marks the update stale.
    pub fn mark_stale(&mut self)
        ensures
            final(self).slot == old(self).slot,
            final(self).stale,
    {
        self.stale = true;
    }

    /// Whether marked stale or last updated at least one slot before `slot`.
    pub fn is_stale(&self, slot: u64) -> (r: Result<bool, LendingError>)
        ensures
            match r {
                Ok(b) => b == (self.stale || slot - self.slot >= STALE_AFTER_SLOTS_ELAPSED),
                Err(e) => !self.stale && slot < self.slot && e == LendingError::MathOverflow,
            },
            self.stale ==> r == Ok::<bool, LendingError>(true),
    {
        if self.stale {
            return Ok(true);
        }
        match self.slots_elapsed(slot) {
            Ok(x) => Ok(x >= STALE_AFTER_SLOTS_ELAPSED),
            Err(e) => Err(e),
        }
    }
}

// ---------------------------------------------------------------------------------------------
// Interest rate model
// ---------------------------------------------------------------------------------------------
/// The piecewise linear borrow rate as a function of the utilization rate.
#[derive(Clone, Copy, Debug, PartialEq, Eq)]
pub struct InterestRateModel {
    pub threshold_1: u8,
    pub threshold_2: u8,
    pub base_1: u8,
    pub factor_1: u16,
    pub base_2: u8,
    pub factor_2: u16,
    pub base_3: u8,
    pub factor_3: u16,
}

/// `p` percent as a rate.
pub open spec fn percent(p: u8) -> nat {
    (p as nat) * 10_000_000_000_000_000nat
}

/// The model used where none is set.
pub open spec fn default_interest_model() -> InterestRateModel {
    InterestRateModel {
        threshold_1: 60,
        threshold_2: 90,
        base_1: 0,
        factor_1: 25,
        base_2: 15,
        factor_2: 0,
        base_3: 15,
        factor_3: 1300,
    }
}

/// `base% + (u - threshold%) * factor / 100`, checked against 2^128 in the final addition.
pub open spec fn rate_segment(base: u8, u: nat, threshold: nat, factor: u16) -> Option<nat> {
    let slope = ((u - threshold) as nat * factor) / 100;
    if percent(base) + slope < limb_base2() {
        Some((percent(base) + slope) as nat)
    } else {
        None
    }
}

/// The borrow rate at utilization `u`:
/// below `threshold_1`, `base_1 + factor_1 * u`;
/// below `threshold_2`, `base_2 + factor_2 * (u - threshold_1)`;
/// otherwise `base_3 + factor_3 * (u - threshold_2)`; factors are in hundredths.
pub open spec fn borrow_rate(m: InterestRateModel, u: nat) -> Option<nat> {
    if u < percent(m.threshold_1) {
        rate_segment(m.base_1, u, 0, m.factor_1)
    } else if u < percent(m.threshold_2) {
        rate_segment(m.base_2, u, percent(m.threshold_1), m.factor_2)
    } else {
        rate_segment(m.base_3, u, percent(m.threshold_2), m.factor_3)
    }
}

/// Whether computing the borrow rate at `u` stays clear of the steps that cannot fail in the
/// model's arithmetic (each slope product below 2^128).
pub open spec fn borrow_rate_computable(m: InterestRateModel, u: nat) -> bool {
    if u < percent(m.threshold_1) {
        true
    } else if u < percent(m.threshold_2) {
        (u - percent(m.threshold_1)) * m.factor_2 < limb_base2()
    } else {
        (u - percent(m.threshold_2)) * m.factor_3 < limb_base2()
    }
}

/// The borrow rate of each segment starts at its base, at its threshold, and climbs from there:
/// at utilization `u`, it is `base% + (u - threshold%) * factor / 100` for the segment that `u`
/// falls in (the first segment's threshold being zero), and the rate at a segment's threshold is
/// exactly its base. It fails only where that sum passes 2^128.
pub proof fn lemma_borrow_rate_segments(m: InterestRateModel, u: nat)
    ensures
        m.threshold_1 <= m.threshold_2 ==> borrow_rate(m, percent(m.threshold_2)) == Some(
            percent(m.base_3),
        ),
        m.threshold_1 < m.threshold_2 ==> borrow_rate(m, percent(m.threshold_1)) == Some(
            percent(m.base_2),
        ),
        m.threshold_1 > 0 ==> borrow_rate(m, 0) == Some(percent(m.base_1)),
        u < percent(m.threshold_1) ==> {
            let x = (percent(m.base_1) + (u * m.factor_1) / 100) as nat;
            borrow_rate(m, u) == if x < limb_base2() {
                Some(x)
            } else {
                None
            }
        },
        percent(m.threshold_1) <= u < percent(m.threshold_2) ==> {
            let x = (percent(m.base_2) + ((u - percent(m.threshold_1)) * m.factor_2) / 100) as nat;
            borrow_rate(m, u) == if x < limb_base2() {
                Some(x)
            } else {
                None
            }
        },
        percent(m.threshold_1) <= u && percent(m.threshold_2) <= u ==> {
            let x = (percent(m.base_3) + ((u - percent(m.threshold_2)) * m.factor_3) / 100) as nat;
            borrow_rate(m, u) == if x < limb_base2() {
                Some(x)
            } else {
                None
            }
        },
{
    assert(percent(m.base_1) < limb_base2());
    assert(percent(m.base_2) < limb_base2());
    assert(percent(m.base_3) < limb_base2());
    assert(m.threshold_1 <= m.threshold_2 ==> percent(m.threshold_1) <= percent(m.threshold_2));
    assert(m.threshold_1 < m.threshold_2 ==> percent(m.threshold_1) < percent(m.threshold_2));
    assert(m.threshold_1 > 0 ==> 0 < percent(m.threshold_1));
    assert(((0nat * m.factor_1) / 100) == 0);
    assert(((0nat * m.factor_3) / 100) == 0);
    assert((percent(m.threshold_2) - percent(m.threshold_2)) == 0);
    assert(rate_segment(m.base_3, percent(m.threshold_2), percent(m.threshold_2), m.factor_3) == Some(
        percent(m.base_3),
    ));
    assert(rate_segment(m.base_1, 0, 0, m.factor_1) == Some(percent(m.base_1)));
    assert(((0nat * m.factor_2) / 100) == 0);
    assert(rate_segment(m.base_2, percent(m.threshold_1), percent(m.threshold_1), m.factor_2) == Some(
        percent(m.base_2),
    ));
}

/// The interest model as 11 bytes: the thresholds and bases one byte each, the factors two bytes
/// little-endian.
pub open spec fn interest_model_bytes(m: InterestRateModel) -> Seq<u8> {
    seq![
        m.threshold_1,
        m.threshold_2,
        m.base_1,
        (m.factor_1 % 256) as u8,
        (m.factor_1 / 256) as u8,
        m.base_2,
        (m.factor_2 % 256) as u8,
        (m.factor_2 / 256) as u8,
        m.base_3,
        (m.factor_3 % 256) as u8,
        (m.factor_3 / 256) as u8,
    ]
}

/// Whether all bytes are zero.
pub open spec fn all_zero(s: Seq<u8>) -> bool {
    forall|i: int| 0 <= i < s.len() ==> s[i] == 0
}

/// The interest model read from 11 bytes; all-zero bytes stand for the default model.
pub open spec fn interest_model_from_bytes(b: Seq<u8>) -> InterestRateModel {
    if all_zero(b) {
        default_interest_model()
    } else {
        InterestRateModel {
            threshold_1: b[0],
            threshold_2: b[1],
            base_1: b[2],
            factor_1: (b[3] + b[4] * 256) as u16,
            base_2: b[5],
            factor_2: (b[6] + b[7] * 256) as u16,
            base_3: b[8],
            factor_3: (b[9] + b[10] * 256) as u16,
        }
    }
}

fn rate_segment_exec(base: u8, u: Rate, threshold: Rate, factor: u16) -> (r: Result<Rate, LendingError>)
    requires
        threshold@ <= u@,
        (u@ - threshold@) * factor < limb_base2(),
    ensures
        rate_res(r) == rate_segment(base, u@, threshold@, factor),
        r matches Err(e) ==> e == LendingError::MathOverflow,
{
    let diff = Rate(u.0 - threshold.0);
    let slope = match diff.try_mul_u64(factor as u64) {
        Ok(x) => x,
        Err(e) => return Err(e),
    };
    let slope = match slope.try_div_u64(100) {
        Ok(x) => x,
        Err(e) => return Err(e),
    };
    Rate::from_percent(base).try_add(slope)
}

impl InterestRateModel {
    /// The default model: 60% and 90% thresholds, 0% + 0.25 u, then 15%, then 15% + 13 u.
    pub fn default_model() -> (r: Self)
        ensures
            r == default_interest_model(),
    {
        InterestRateModel {
            threshold_1: 60,
            threshold_2: 90,
            base_1: 0,
            factor_1: 25,
            base_2: 15,
            factor_2: 0,
            base_3: 15,
            factor_3: 1300,
        }
    }

    /// A model with the given parameters.
    pub fn new(
        threshold_1: u8,
        threshold_2: u8,
        base_1: u8,
        factor_1: u16,
        base_2: u8,
        factor_2: u16,
        base_3: u8,
        factor_3: u16,
    ) -> (r: Self)
        ensures
            r == (InterestRateModel {
                threshold_1,
                threshold_2,
                base_1,
                factor_1,
                base_2,
                factor_2,
                base_3,
                factor_3,
            }),
    {
        InterestRateModel {
            threshold_1,
            threshold_2,
            base_1,
            factor_1,
            base_2,
            factor_2,
            base_3,
            factor_3,
        }
    }

    /// The borrow rate at the given utilization rate.
    pub fn current_borrow_rate(&self, utilization_rate: Rate) -> (r: Result<Rate, LendingError>)
        requires
            borrow_rate_computable(*self, utilization_rate@),
        ensures
            rate_res(r) == borrow_rate(*self, utilization_rate@),
            r matches Err(e) ==> e == LendingError::MathOverflow,
    {
        let t1 = Rate::from_percent(self.threshold_1);
        let t2 = Rate::from_percent(self.threshold_2);
        if utilization_rate.lt(&t1) {
            proof {
                assert((utilization_rate@ - 0) * self.factor_1 < limb_base2()) by (nonlinear_arith)
                    requires
                        utilization_rate@ < 255 * 10_000_000_000_000_000nat,
                        self.factor_1 <= 65535,
                ;
            }
            rate_segment_exec(self.base_1, utilization_rate, Rate::zero(), self.factor_1)
        } else if utilization_rate.lt(&t2) {
            rate_segment_exec(self.base_2, utilization_rate, t1, self.factor_2)
        } else {
            rate_segment_exec(self.base_3, utilization_rate, t2, self.factor_3)
        }
    }

    /// The model as 11 bytes.
    pub fn to_bytes(&self) -> (r: [u8; 11])
        ensures
            r@ == interest_model_bytes(*self),
    {
        let dst: [u8; 11] = [
            self.threshold_1,
            self.threshold_2,
            self.base_1,
            (self.factor_1 % 256) as u8,
            (self.factor_1 / 256) as u8,
            self.base_2,
            (self.factor_2 % 256) as u8,
            (self.factor_2 / 256) as u8,
            self.base_3,
            (self.factor_3 % 256) as u8,
            (self.factor_3 / 256) as u8,
        ];
        proof {
            assert(dst@ =~= interest_model_bytes(*self));
        }
        dst
    }

    /// Writes the model into 11 bytes.
    pub fn pack(&self, dst: &mut [u8; 11])
        ensures
            final(dst)@ == interest_model_bytes(*self),
    {
        *dst = self.to_bytes();
    }

    /// Reads a model from 11 bytes; all-zero bytes give the default model.
    pub fn unpack(src: &[u8; 11]) -> (r: Self)
        ensures
            r == interest_model_from_bytes(src@),
    {
        let mut i: usize = 0;
        while i < 11
            invariant
                i <= 11,
                forall|j: int| 0 <= j < i ==> src@[j] == 0,
            decreases 11 - i,
        {
            if src[i] != 0 {
                return InterestRateModel {
                    threshold_1: src[0],
                    threshold_2: src[1],
                    base_1: src[2],
                    factor_1: src[3] as u16 + src[4] as u16 * 256,
                    base_2: src[5],
                    factor_2: src[6] as u16 + src[7] as u16 * 256,
                    base_3: src[8],
                    factor_3: src[9] as u16 + src[10] as u16 * 256,
                };
            }
            i = i + 1;
        }
        Self::default_model()
    }

    /// Reads a model from the first 11 bytes of `src`.
    pub fn unpack_from_slice(src: &[u8]) -> (r: Self)
        requires
            src@.len() >= 11,
        ensures
            r == interest_model_from_bytes(src@.subrange(0, 11)),
    {
        let data: [u8; 11] = [
            src[0],
            src[1],
            src[2],
            src[3],
            src[4],
            src[5],
            src[6],
            src[7],
            src[8],
            src[9],
            src[10],
        ];
        proof {
            assert(data@ =~= src@.subrange(0, 11));
        }
        Self::unpack(&data)
    }
}

/// Reading back the bytes of a model gives the model, unless all its parameters are zero (those
/// bytes stand for the default model).
pub proof fn lemma_interest_model_round_trip(m: InterestRateModel)
    requires
        !all_zero(interest_model_bytes(m)),
    ensures
        interest_model_from_bytes(interest_model_bytes(m)) == m,
{
}

// ---------------------------------------------------------------------------------------------
// Reserve liquidity, shares and credit
// ---------------------------------------------------------------------------------------------
/// Liquidity of a pool.
#[derive(Clone, Copy, Debug, PartialEq, Eq)]
pub struct ReserveLiquidity {
    /// Liquidity mint address.
    pub mint_pubkey: Pubkey,
    /// Liquidity mint decimals.
    pub mint_decimals: u8,
    /// Liquidity supply address.
    pub supply_pubkey: Pubkey,
    /// Fee receiver address.
    pub fee_receiver: Pubkey,
    /// Optional oracle account.
    pub oracle_pubkey: Option<Pubkey>,
    /// Liquidity available to withdraw or borrow.
    pub available_amount: u64,
    /// Liquidity borrowed, with interest.
    pub borrowed_amount_wads: Decimal,
    /// Cumulative borrow rate.
    pub cumulative_borrow_rate_wads: Decimal,
    /// Market price in quote currency.
    pub market_price: u64,
}

/// Parameters of a new reserve liquidity.
#[derive(Clone, Copy, Debug, PartialEq, Eq)]
pub struct NewReserveLiquidityParams {
    pub mint_pubkey: Pubkey,
    pub mint_decimals: u8,
    pub supply_pubkey: Pubkey,
    pub fee_receiver: Pubkey,
    pub oracle_pubkey: Option<Pubkey>,
    pub market_price: u64,
}

/// Total liquidity: available plus borrowed, as a `Decimal`, when it stays below 2^192.
pub open spec fn total_supply_spec(available: nat, borrowed: nat) -> Option<nat> {
    if available * wad() + borrowed < u192_bound() {
        Some(available * wad() + borrowed)
    } else {
        None
    }
}

/// The share of the liquidity that is borrowed: zero for an empty pool, else
/// `borrowed / total` as a `Rate`.
pub open spec fn utilization_spec(available: nat, borrowed: nat) -> Option<nat> {
    match total_supply_spec(available, borrowed) {
        Some(t) => if t == 0 {
            Some(0)
        } else {
            match decimal_div(borrowed, t) {
                Some(u) => if u < limb_base2() {
                    Some(u)
                } else {
                    None
                },
                None => None,
            }
        },
        None => None,
    }
}

/// One compounding: the compounded rate `(1 + rate / SLOTS_PER_YEAR) ^ slots`.
pub open spec fn compounded_rate(borrow_rate: nat, slots: nat) -> Option<nat> {
    let per_slot = borrow_rate / (SLOTS_PER_YEAR as nat);
    if wad() + per_slot < limb_base2() {
        rate_pow(wad() + per_slot, slots)
    } else {
        None
    }
}

impl ReserveLiquidity {
    /// A new, empty reserve liquidity.
    pub fn new(params: NewReserveLiquidityParams) -> (r: Self)
        ensures
            r.mint_pubkey == params.mint_pubkey,
            r.mint_decimals == params.mint_decimals,
            r.supply_pubkey == params.supply_pubkey,
            r.fee_receiver == params.fee_receiver,
            r.oracle_pubkey == params.oracle_pubkey,
            r.market_price == params.market_price,
            r.available_amount == 0,
            r.borrowed_amount_wads@ == 0,
            r.cumulative_borrow_rate_wads@ == wad(),
    {
        ReserveLiquidity {
            mint_pubkey: params.mint_pubkey,
            mint_decimals: params.mint_decimals,
            supply_pubkey: params.supply_pubkey,
            fee_receiver: params.fee_receiver,
            oracle_pubkey: params.oracle_pubkey,
            cumulative_borrow_rate_wads: Decimal::one(),
            market_price: params.market_price,
            available_amount: 0,
            borrowed_amount_wads: Decimal::zero(),
        }
    }

    /// Total liquidity, available plus borrowed.
    pub fn total_supply(&self) -> (r: Result<Decimal, LendingError>)
        ensures
            decimal_res(r) == total_supply_spec(
                self.available_amount as nat,
                self.borrowed_amount_wads@,
            ),
            r matches Err(e) ==> e == LendingError::MathOverflow,
    {
        Decimal::from_u64(self.available_amount).try_add(self.borrowed_amount_wads)
    }

    /// Takes the interest reserve out of the available liquidity.
    pub fn charge_interest_reverse(&mut self, interest_reverse_amount: u64) -> (r: Result<
        (),
        LendingError,
    >)
        ensures
            match r {
                Ok(_) => interest_reverse_amount <= old(self).available_amount && *final(self) == (
                ReserveLiquidity {
                    available_amount: (old(self).available_amount - interest_reverse_amount) as u64,
                    ..*old(self)
                }),
                Err(e) => interest_reverse_amount > old(self).available_amount && e
                    == LendingError::InsufficientLiquidity && *final(self) == *old(self),
            },
    {
        if interest_reverse_amount > self.available_amount {
            return Err(LendingError::InsufficientLiquidity);
        }
        self.available_amount = self.available_amount - interest_reverse_amount;
        Ok(())
    }

    /// Adds liquidity to the available amount.
    pub fn deposit(&mut self, liquidity_amount: u64) -> (r: Result<(), LendingError>)
        ensures
            match r {
                Ok(_) => old(self).available_amount + liquidity_amount <= u64::MAX && *final(self)
                    == (ReserveLiquidity {
                    available_amount: (old(self).available_amount + liquidity_amount) as u64,
                    ..*old(self)
                }),
                Err(e) => old(self).available_amount + liquidity_amount > u64::MAX && e
                    == LendingError::MathOverflow && *final(self) == *old(self),
            },
    {
        match self.available_amount.checked_add(liquidity_amount) {
            Some(x) => {
                self.available_amount = x;
                Ok(())
            },
            None => Err(LendingError::MathOverflow),
        }
    }

    /// Takes liquidity out of the available amount.
    pub fn withdraw(&mut self, liquidity_amount: u64) -> (r: Result<(), LendingError>)
        ensures
            match r {
                Ok(_) => liquidity_amount <= old(self).available_amount && *final(self) == (
                ReserveLiquidity {
                    available_amount: (old(self).available_amount - liquidity_amount) as u64,
                    ..*old(self)
                }),
                Err(e) => liquidity_amount > old(self).available_amount && e
                    == LendingError::InsufficientLiquidity && *final(self) == *old(self),
            },
    {
        if liquidity_amount > self.available_amount {
            return Err(LendingError::InsufficientLiquidity);
        }
        self.available_amount = self.available_amount - liquidity_amount;
        Ok(())
    }

    /// Moves the whole part of `borrow_decimal` from the available liquidity to the borrows.
    pub fn borrow(&mut self, borrow_decimal: Decimal) -> (r: Result<(), LendingError>)
        ensures
            ({
                let amount = borrow_decimal@ / wad();
                let avail = old(self).available_amount as nat;
                let after_take = ReserveLiquidity {
                    available_amount: (avail - amount) as u64,
                    ..*old(self)
                };
                if amount >= limb_base() {
                    r == Err::<(), LendingError>(LendingError::MathOverflow) && *final(self)
                        == *old(self)
                } else if amount > avail {
                    r == Err::<(), LendingError>(LendingError::InsufficientLiquidity)
                        && *final(self) == *old(self)
                } else if old(self).borrowed_amount_wads@ + borrow_decimal@ >= u192_bound() {
                    // The available amount is already reduced when the addition overflows.
                    r == Err::<(), LendingError>(LendingError::MathOverflow) && *final(self)
                        == after_take
                } else {
                    r == Ok::<(), LendingError>(()) && final(self).borrowed_amount_wads@
                        == old(self).borrowed_amount_wads@ + borrow_decimal@ && *final(self) == (
                    ReserveLiquidity { borrowed_amount_wads: final(self).borrowed_amount_wads, ..after_take })
                }
            }),
    {
        let borrow_amount = match borrow_decimal.try_floor_u64() {
            Ok(x) => x,
            Err(e) => return Err(e),
        };
        if borrow_amount > self.available_amount {
            return Err(LendingError::InsufficientLiquidity);
        }
        self.available_amount = self.available_amount - borrow_amount;
        self.borrowed_amount_wads = match self.borrowed_amount_wads.try_add(borrow_decimal) {
            Ok(x) => x,
            Err(e) => return Err(e),
        };
        Ok(())
    }

    /// Adds the repaid amount to the available liquidity and settles borrows (down to zero).
    pub fn repay(&mut self, repay_amount: u64, settle_amount: Decimal) -> (r: Result<
        (),
        LendingError,
    >)
        ensures
            match r {
                Ok(_) => old(self).available_amount + repay_amount <= u64::MAX
                    && final(self).available_amount == old(self).available_amount + repay_amount
                    && final(self).borrowed_amount_wads@ == (if old(self).borrowed_amount_wads@
                    > settle_amount@ {
                    (old(self).borrowed_amount_wads@ - settle_amount@) as nat
                } else {
                    0
                }) && *final(self) == (ReserveLiquidity {
                    available_amount: final(self).available_amount,
                    borrowed_amount_wads: final(self).borrowed_amount_wads,
                    ..*old(self)
                }),
                Err(e) => old(self).available_amount + repay_amount > u64::MAX && e
                    == LendingError::MathOverflow && *final(self) == *old(self),
            },
    {
        match self.available_amount.checked_add(repay_amount) {
            Some(x) => {
                self.available_amount = x;
            },
            None => return Err(LendingError::MathOverflow),
        }
        if self.borrowed_amount_wads.gt(&settle_amount) {
            self.borrowed_amount_wads = match self.borrowed_amount_wads.try_sub(settle_amount) {
                Ok(x) => x,
                Err(_) => Decimal::zero(),
            };
        } else {
            self.borrowed_amount_wads = Decimal::zero();
        }
        Ok(())
    }

    /// The share of the liquidity that is borrowed.
    pub fn utilization_rate(&self) -> (r: Result<Rate, LendingError>)
        ensures
            rate_res(r) == utilization_spec(
                self.available_amount as nat,
                self.borrowed_amount_wads@,
            ),
            r matches Err(e) ==> e == LendingError::MathOverflow,
    {
        let total_supply = match self.total_supply() {
            Ok(t) => t,
            Err(e) => return Err(e),
        };
        if total_supply.eq_value(&Decimal::zero()) {
            return Ok(Rate::zero());
        }
        match self.borrowed_amount_wads.try_div(total_supply) {
            Ok(u) => Rate::try_from_decimal(u),
            Err(e) => Err(e),
        }
    }

    /// Compounds the borrow rate over the elapsed slots: scales the cumulative borrow rate and the
    /// borrows by the compounded rate, and returns the interest on the borrows.
    pub fn compound_interest(&mut self, current_borrow_rate: Rate, slots_elapsed: u64) -> (r:
        Result<Decimal, LendingError>)
        requires
            compounded_rate(current_borrow_rate@, slots_elapsed as nat) matches Some(c) ==> (
            decimal_mul(old(self).cumulative_borrow_rate_wads@, c) is Some ==> decimal_mul(
                old(self).borrowed_amount_wads@,
                (c - wad()) as nat,
            ) is Some),
        ensures
            ({
                let old_cum = old(self).cumulative_borrow_rate_wads@;
                let old_bor = old(self).borrowed_amount_wads@;
                match compounded_rate(current_borrow_rate@, slots_elapsed as nat) {
                    None => r matches Err(e) && e == LendingError::MathOverflow && *final(self)
                        == *old(self),
                    Some(c) => c >= wad() && match decimal_mul(old_cum, c) {
                        None => r matches Err(e) && e == LendingError::MathOverflow
                            && *final(self) == *old(self),
                        Some(new_cum) => final(self).cumulative_borrow_rate_wads@ == new_cum
                            && match decimal_mul(old_bor, c) {
                            None => r matches Err(e) && e == LendingError::MathOverflow
                                && *final(self) == (ReserveLiquidity {
                                cumulative_borrow_rate_wads: final(self).cumulative_borrow_rate_wads,
                                ..*old(self)
                            }),
                            Some(new_bor) => decimal_res(r) == decimal_mul(
                                old_bor,
                                (c - wad()) as nat,
                            ) && final(self).borrowed_amount_wads@ == new_bor && *final(self) == (
                            ReserveLiquidity {
                                cumulative_borrow_rate_wads: final(self).cumulative_borrow_rate_wads,
                                borrowed_amount_wads: final(self).borrowed_amount_wads,
                                ..*old(self)
                            }),
                        },
                    },
                }
            }),
    {
        let slot_interest_rate = match current_borrow_rate.try_div_u64(SLOTS_PER_YEAR) {
            Ok(x) => x,
            Err(e) => return Err(e),
        };
        let one_plus = match Rate::one().try_add(slot_interest_rate) {
            Ok(x) => x,
            Err(e) => return Err(e),
        };
        let compounded_interest_rate = match one_plus.try_pow(slots_elapsed) {
            Ok(x) => x,
            Err(e) => return Err(e),
        };
        proof {
            lemma_rate_pow_at_least_one(one_plus@, slots_elapsed as nat);
        }
        self.cumulative_borrow_rate_wads = match self.cumulative_borrow_rate_wads.try_mul_rate(
            compounded_interest_rate,
        ) {
            Ok(x) => x,
            Err(e) => return Err(e),
        };
        let growth = Rate(compounded_interest_rate.0 - Rate::one().0);
        let interest = match self.borrowed_amount_wads.try_mul_rate(growth) {
            Ok(x) => x,
            Err(_) => Decimal::zero(),
        };
        self.borrowed_amount_wads = match self.borrowed_amount_wads.try_mul_rate(
            compounded_interest_rate,
        ) {
            Ok(x) => x,
            Err(e) => return Err(e),
        };
        Ok(interest)
    }
}

/// A rate of at least one stays at least one when multiplied by such a rate.
proof fn lemma_rate_mul_at_least_one(a: nat, b: nat)
    requires
        a >= wad(),
        b >= wad(),
    ensures
        rate_mul(a, b) matches Some(x) ==> x >= wad(),
{
    assert(a * b >= wad() * wad()) by (nonlinear_arith)
        requires
            a >= wad(),
            b >= wad(),
    ;
    vstd::arithmetic::div_mod::lemma_div_is_ordered((wad() * wad()) as int, (a * b) as int, wad() as int);
    vstd::arithmetic::div_mod::lemma_div_multiples_vanish(wad() as int, wad() as int);
}

/// The square-and-multiply loop keeps a base and a result of at least one.
proof fn lemma_rate_pow_loop_at_least_one(base: nat, ret: nat, exp: nat)
    requires
        base >= wad(),
        ret >= wad(),
    ensures
        rate_pow_loop(base, ret, exp) matches Some(x) ==> x >= wad(),
    decreases exp,
{
    if exp > 0 {
        lemma_rate_mul_at_least_one(base, base);
        match rate_mul(base, base) {
            Some(b) => {
                lemma_rate_mul_at_least_one(ret, b);
                let e = exp / 2;
                if e % 2 != 0 {
                    match rate_mul(ret, b) {
                        Some(r) => lemma_rate_pow_loop_at_least_one(b, r, e),
                        None => {},
                    }
                } else {
                    lemma_rate_pow_loop_at_least_one(b, ret, e);
                }
            },
            None => {},
        }
    }
}

/// A power of a rate of at least one is at least one.
pub proof fn lemma_rate_pow_at_least_one(base: nat, exp: nat)
    requires
        base >= wad(),
    ensures
        rate_pow(base, exp) matches Some(x) ==> x >= wad(),
{
    lemma_rate_pow_loop_at_least_one(base, if exp % 2 != 0 { base } else { wad() }, exp);
}

/// `k` to the power `e`, for whole numbers.
pub open spec fn nat_pow(k: nat, e: nat) -> nat
    decreases e,
{
    if e == 0 {
        1
    } else {
        k * nat_pow(k, (e - 1) as nat)
    }
}

/// `k^(a + b) == k^a * k^b`.
proof fn lemma_nat_pow_adds(k: nat, a: nat, b: nat)
    ensures
        nat_pow(k, a + b) == nat_pow(k, a) * nat_pow(k, b),
    decreases a,
{
    if a > 0 {
        let a1 = (a - 1) as nat;
        lemma_nat_pow_adds(k, a1, b);
        assert((a + b - 1) as nat == a1 + b);
        assert(nat_pow(k, a + b) == k * nat_pow(k, a1 + b));
        assert(nat_pow(k, a) == k * nat_pow(k, a1));
        assert(k * (nat_pow(k, a1) * nat_pow(k, b)) == (k * nat_pow(k, a1)) * nat_pow(k, b))
            by (nonlinear_arith);
    } else {
        assert(nat_pow(k, 0) == 1);
        assert(a + b == b);
    }
}

/// Powers of a base of at least one grow with the exponent.
proof fn lemma_nat_pow_monotone(k: nat, a: nat, b: nat)
    requires
        k >= 1,
        a <= b,
    ensures
        nat_pow(k, a) <= nat_pow(k, b),
    decreases b,
{
    if a < b {
        lemma_nat_pow_monotone(k, a, (b - 1) as nat);
        assert(nat_pow(k, (b - 1) as nat) <= k * nat_pow(k, (b - 1) as nat)) by (nonlinear_arith)
            requires
                k >= 1,
        ;
    }
}

/// The product of two whole-number rates `k^a` and `k^b` is the whole-number rate `k^(a + b)`,
/// with no rounding, and it succeeds exactly when the raw product fits in 128 bits.
proof fn lemma_rate_mul_whole(k: nat, a: nat, b: nat)
    ensures
        rate_mul(nat_pow(k, a) * wad(), nat_pow(k, b) * wad()) == if nat_pow(k, a + b) * wad() * wad()
            < limb_base2() {
            Some(nat_pow(k, a + b) * wad())
        } else {
            None
        },
{
    lemma_nat_pow_adds(k, a, b);
    let x = nat_pow(k, a);
    let y = nat_pow(k, b);
    let c = nat_pow(k, a + b);
    let w = wad();
    assert((x * w) * (y * w) == (c * w) * w) by (nonlinear_arith)
        requires
            c == x * y,
    ;
    assert(c * w * w == (c * w) * w);
    vstd::arithmetic::div_mod::lemma_div_multiples_vanish((c * w) as int, w as int);
}

/// The square-and-multiply loop on whole-number rates: from a base `k^p` and a result `k^m`,
/// with `e` left, any result it gives is `k^(m + p * (e - e % 2))`.
proof fn lemma_rate_pow_loop_whole(k: nat, p: nat, m: nat, e: nat)
    ensures
        rate_pow_loop(nat_pow(k, p) * wad(), nat_pow(k, m) * wad(), e) matches Some(x) ==> x
            == nat_pow(k, (m + p * (e - e % 2)) as nat) * wad(),
    decreases e,
{
    if e > 0 {
        let e2 = e / 2;
        assert(p * (e - e % 2) == 2 * p * e2) by (nonlinear_arith)
            requires
                e2 == e / 2,
        ;
        lemma_rate_mul_whole(k, p, p);
        assert(p + p == 2 * p);
        if e2 % 2 != 0 {
            lemma_rate_mul_whole(k, m, 2 * p);
            lemma_rate_pow_loop_whole(k, 2 * p, m + 2 * p, e2);
            assert(m + 2 * p + 2 * p * (e2 - e2 % 2) == m + 2 * p * e2) by (nonlinear_arith)
                requires
                    e2 % 2 == 1,
            ;
        } else {
            lemma_rate_pow_loop_whole(k, 2 * p, m, e2);
            assert(m + 2 * p * (e2 - e2 % 2) == m + 2 * p * e2) by (nonlinear_arith)
                requires
                    e2 % 2 == 0,
            ;
        }
    }
}

/// The square-and-multiply loop on whole-number rates runs through when `k^(2n)` still fits
/// in 128 bits as a raw product, `n` being the power it is computing.
proof fn lemma_rate_pow_loop_whole_fits(k: nat, n: nat, p: nat, m: nat, e: nat)
    requires
        k >= 1,
        nat_pow(k, 2 * n) * wad() * wad() < limb_base2(),
        p * e <= n,
        m + p * (e - e % 2) == n,
    ensures
        rate_pow_loop(nat_pow(k, p) * wad(), nat_pow(k, m) * wad(), e) is Some,
    decreases e,
{
    if e > 0 {
        let e2 = e / 2;
        let w = wad();
        assert(p * (e - e % 2) == 2 * p * e2) by (nonlinear_arith)
            requires
                e2 == e / 2,
        ;
        assert(2 * p <= 2 * n) by (nonlinear_arith)
            requires
                p * e <= n,
                e >= 1,
        ;
        assert(2 * p * e2 <= p * e) by (nonlinear_arith)
            requires
                e2 == e / 2,
        ;
        lemma_nat_pow_monotone(k, 2 * p, 2 * n);
        assert(nat_pow(k, 2 * p) * w * w <= nat_pow(k, 2 * n) * w * w) by (nonlinear_arith)
            requires
                nat_pow(k, 2 * p) <= nat_pow(k, 2 * n),
        ;
        lemma_rate_mul_whole(k, p, p);
        assert(p + p == 2 * p);
        if e2 % 2 != 0 {
            assert(m + 2 * p <= n) by (nonlinear_arith)
                requires
                    m + 2 * p * e2 == n,
                    e2 >= 1,
            ;
            lemma_nat_pow_monotone(k, m + 2 * p, 2 * n);
            assert(nat_pow(k, m + 2 * p) * w * w <= nat_pow(k, 2 * n) * w * w) by (nonlinear_arith)
                requires
                    nat_pow(k, m + 2 * p) <= nat_pow(k, 2 * n),
            ;
            lemma_rate_mul_whole(k, m, 2 * p);
            assert((m + 2 * p) + 2 * p * (e2 - e2 % 2) == n) by (nonlinear_arith)
                requires
                    e2 % 2 == 1,
                    m + 2 * p * e2 == n,
            ;
            assert(2 * p * e2 <= n);
            lemma_rate_pow_loop_whole_fits(k, n, 2 * p, m + 2 * p, e2);
        } else {
            assert(m + 2 * p * (e2 - e2 % 2) == n) by (nonlinear_arith)
                requires
                    e2 % 2 == 0,
                    m + 2 * p * e2 == n,
            ;
            lemma_rate_pow_loop_whole_fits(k, n, 2 * p, m, e2);
        }
    }
}

/// `try_pow` computes the power: raising the whole-number rate `k` (stored as `k * WAD`) to the
/// power `n` gives `k^n` whenever it succeeds, and it succeeds whenever `k^(2n)` times `WAD^2`
/// fits in 128 bits (the loop squares its base once more than the power needs).
pub proof fn lemma_rate_pow_whole_number(k: nat, n: nat)
    ensures
        rate_pow(k * wad(), n) matches Some(x) ==> x == nat_pow(k, n) * wad(),
        k >= 1 && nat_pow(k, 2 * n) * wad() * wad() < limb_base2() ==> rate_pow(k * wad(), n)
            == Some(nat_pow(k, n) * wad()),
{
    assert(nat_pow(k, 0) == 1);
    assert(nat_pow(k, 1) == k * nat_pow(k, 0));
    assert(nat_pow(k, 1) == k) by (nonlinear_arith)
        requires
            nat_pow(k, 1) == k * nat_pow(k, 0),
            nat_pow(k, 0) == 1,
    ;
    assert(nat_pow(k, 0) == 1);
    let m: nat = n % 2;
    assert(m + 1 * (n - n % 2) == n);
    assert((if n % 2 != 0 { k * wad() } else { wad() }) == nat_pow(k, m) * wad());
    lemma_rate_pow_loop_whole(k, 1, m, n);
    if k >= 1 && nat_pow(k, 2 * n) * wad() * wad() < limb_base2() {
        lemma_rate_pow_loop_whole_fits(k, n, 1, m, n);
    }
}

/// Raising a rate to the first power gives the rate itself, whenever its square fits in 128
/// bits as a raw product (the loop squares the base once).
pub proof fn lemma_rate_pow_one(r: nat)
    requires
        r * r < limb_base2(),
    ensures
        rate_pow(r, 1) == Some(r),
{
    reveal_with_fuel(rate_pow_loop, 2);
    assert(1nat / 2 == 0);
    assert(rate_mul(r, r) is Some);
}

// ---------------------------------------------------------------------------------------------
// Shares, credit and the exchange rate
// ---------------------------------------------------------------------------------------------
/// Parameters of a new credit token.
#[derive(Clone, Copy, Debug, PartialEq, Eq)]
pub struct NewCreditParams {
    pub mint_pubkey: Pubkey,
    pub supply_pubkey: Pubkey,
}

/// Credit token of borrowers.
#[derive(Clone, Copy, Debug, PartialEq, Eq)]
pub struct CreditToken {
    /// Credit mint address.
    pub mint_pubkey: Pubkey,
    /// Credit mint supply.
    pub mint_total_supply: u64,
    /// Credit supply address.
    pub supply_pubkey: Pubkey,
}

/// Parameters of new liquidity shares.
#[derive(Clone, Copy, Debug, PartialEq, Eq)]
pub struct NewLiquiditShareParams {
    pub mint_pubkey: Pubkey,
    pub supply_pubkey: Pubkey,
}

/// Share tokens of depositors.
#[derive(Clone, Copy, Debug, PartialEq, Eq)]
pub struct LiquidityShares {
    /// Share mint address.
    pub mint_pubkey: Pubkey,
    /// Share mint supply, used for the exchange rate.
    pub mint_total_supply: u64,
    /// Share supply address.
    pub supply_pubkey: Pubkey,
}

/// The supply after minting `amount`, or `None` on overflow.
pub open spec fn mint_spec(supply: u64, amount: u64) -> Option<u64> {
    if supply + amount <= u64::MAX {
        Some((supply + amount) as u64)
    } else {
        None
    }
}

/// The supply after burning `amount`, or `None` when it exceeds the supply.
pub open spec fn burn_spec(supply: u64, amount: u64) -> Option<u64> {
    if amount <= supply {
        Some((supply - amount) as u64)
    } else {
        None
    }
}

/// Shares per unit of liquidity: one while the pool holds no shares or no liquidity, else
/// `shares / total_liquidity` as a `Rate`.
pub open spec fn exchange_rate_spec(shares: u64, total_liquidity: nat) -> Option<nat> {
    if shares == 0 || total_liquidity == 0 {
        Some(wad())
    } else {
        match decimal_div((shares as nat) * wad(), total_liquidity) {
            Some(x) => if x < limb_base2() {
                Some(x)
            } else {
                None
            },
            None => None,
        }
    }
}

/// Shares for `amount` of liquidity at `rate`, rounded down, when they fit in a `u64`.
pub open spec fn liquidity_to_share_spec(rate: nat, amount: u64) -> Option<u64> {
    match decimal_mul((amount as nat) * wad(), rate) {
        Some(x) => if x / wad() < limb_base() {
            Some((x / wad()) as u64)
        } else {
            None
        },
        None => None,
    }
}

/// Liquidity for `shares` at `rate`, rounded down, when it fits in a `u64`.
pub open spec fn share_to_liquidity_spec(rate: nat, shares: u64) -> Option<u64> {
    match decimal_div((shares as nat) * wad(), rate) {
        Some(x) => if x / wad() < limb_base() {
            Some((x / wad()) as u64)
        } else {
            None
        },
        None => None,
    }
}

impl CreditToken {
    /// A credit token with no supply.
    pub fn new(params: NewCreditParams) -> (r: Self)
        ensures
            r == (CreditToken {
                mint_pubkey: params.mint_pubkey,
                mint_total_supply: 0,
                supply_pubkey: params.supply_pubkey,
            }),
    {
        CreditToken {
            mint_pubkey: params.mint_pubkey,
            mint_total_supply: 0,
            supply_pubkey: params.supply_pubkey,
        }
    }

    /// Records minted credit.
    pub fn mint(&mut self, credit_amount: u64) -> (r: Result<(), LendingError>)
        ensures
            match mint_spec(old(self).mint_total_supply, credit_amount) {
                Some(x) => r is Ok && *final(self) == (CreditToken {
                    mint_total_supply: x,
                    ..*old(self)
                }),
                None => r == Err::<(), LendingError>(LendingError::MathOverflow) && *final(self)
                    == *old(self),
            },
    {
        match self.mint_total_supply.checked_add(credit_amount) {
            Some(x) => {
                self.mint_total_supply = x;
                Ok(())
            },
            None => Err(LendingError::MathOverflow),
        }
    }

    /// Records burned credit.
    pub fn burn(&mut self, credit_amount: u64) -> (r: Result<(), LendingError>)
        ensures
            match burn_spec(old(self).mint_total_supply, credit_amount) {
                Some(x) => r is Ok && *final(self) == (CreditToken {
                    mint_total_supply: x,
                    ..*old(self)
                }),
                None => r == Err::<(), LendingError>(LendingError::MathOverflow) && *final(self)
                    == *old(self),
            },
    {
        match self.mint_total_supply.checked_sub(credit_amount) {
            Some(x) => {
                self.mint_total_supply = x;
                Ok(())
            },
            None => Err(LendingError::MathOverflow),
        }
    }
}

impl LiquidityShares {
    /// Liquidity shares with no supply.
    pub fn new(params: NewLiquiditShareParams) -> (r: Self)
        ensures
            r == (LiquidityShares {
                mint_pubkey: params.mint_pubkey,
                mint_total_supply: 0,
                supply_pubkey: params.supply_pubkey,
            }),
    {
        LiquidityShares {
            mint_pubkey: params.mint_pubkey,
            mint_total_supply: 0,
            supply_pubkey: params.supply_pubkey,
        }
    }

    /// Records minted shares.
    pub fn mint(&mut self, share_amount: u64) -> (r: Result<(), LendingError>)
        ensures
            match mint_spec(old(self).mint_total_supply, share_amount) {
                Some(x) => r is Ok && *final(self) == (LiquidityShares {
                    mint_total_supply: x,
                    ..*old(self)
                }),
                None => r == Err::<(), LendingError>(LendingError::MathOverflow) && *final(self)
                    == *old(self),
            },
    {
        match self.mint_total_supply.checked_add(share_amount) {
            Some(x) => {
                self.mint_total_supply = x;
                Ok(())
            },
            None => Err(LendingError::MathOverflow),
        }
    }

    /// Records burned shares.
    pub fn burn(&mut self, share_amount: u64) -> (r: Result<(), LendingError>)
        ensures
            match burn_spec(old(self).mint_total_supply, share_amount) {
                Some(x) => r is Ok && *final(self) == (LiquidityShares {
                    mint_total_supply: x,
                    ..*old(self)
                }),
                None => r == Err::<(), LendingError>(LendingError::MathOverflow) && *final(self)
                    == *old(self),
            },
    {
        match self.mint_total_supply.checked_sub(share_amount) {
            Some(x) => {
                self.mint_total_supply = x;
                Ok(())
            },
            None => Err(LendingError::MathOverflow),
        }
    }

    /// The current exchange rate of shares against `total_liquidity`.
    pub fn exchange_rate(&self, total_liquidity: Decimal) -> (r: Result<
        ShareExchangeRate,
        LendingError,
    >)
        ensures
            match r {
                Ok(x) => exchange_rate_spec(self.mint_total_supply, total_liquidity@) == Some(
                    x.0@,
                ),
                Err(e) => exchange_rate_spec(self.mint_total_supply, total_liquidity@) is None
                    && e == LendingError::MathOverflow,
            },
    {
        if self.mint_total_supply == 0 || total_liquidity.eq_value(&Decimal::zero()) {
            return Ok(ShareExchangeRate(Rate::from_scaled_val(INITIAL_COLLATERAL_RATIO * 1_000_000_000_000_000_000)));
        }
        let supply = Decimal::from_u64(self.mint_total_supply);
        match supply.try_div(total_liquidity) {
            Ok(x) => match Rate::try_from_decimal(x) {
                Ok(rate) => Ok(ShareExchangeRate(rate)),
                Err(e) => Err(e),
            },
            Err(e) => Err(e),
        }
    }
}

/// Shares per unit of liquidity.
#[derive(Clone, Copy, Debug)]
pub struct ShareExchangeRate(pub Rate);

impl ShareExchangeRate {
    /// Converts shares to liquidity, rounded down.
    pub fn share_to_liquidity(&self, share_amount: u64) -> (r: Result<u64, LendingError>)
        ensures
            match r {
                Ok(x) => share_to_liquidity_spec(self.0@, share_amount) == Some(x),
                Err(e) => share_to_liquidity_spec(self.0@, share_amount) is None && e
                    == LendingError::MathOverflow,
            },
    {
        match self.decimal_share_to_liquidity(Decimal::from_u64(share_amount)) {
            Ok(d) => d.try_floor_u64(),
            Err(e) => Err(e),
        }
    }

    /// Converts shares to liquidity.
    pub fn decimal_share_to_liquidity(&self, share_amount: Decimal) -> (r: Result<
        Decimal,
        LendingError,
    >)
        ensures
            decimal_res(r) == decimal_div(share_amount@, self.0@),
            r matches Err(e) ==> e == LendingError::MathOverflow,
    {
        share_amount.try_div_rate(self.0)
    }

    /// Converts liquidity to shares, rounded down.
    pub fn liquidity_to_share(&self, liquidity_amount: u64) -> (r: Result<u64, LendingError>)
        ensures
            match r {
                Ok(x) => liquidity_to_share_spec(self.0@, liquidity_amount) == Some(x),
                Err(e) => liquidity_to_share_spec(self.0@, liquidity_amount) is None && e
                    == LendingError::MathOverflow,
            },
    {
        match self.decimal_liquidity_to_share(Decimal::from_u64(liquidity_amount)) {
            Ok(d) => d.try_floor_u64(),
            Err(e) => Err(e),
        }
    }

    /// Converts liquidity to shares.
    pub fn decimal_liquidity_to_share(&self, liquidity_amount: Decimal) -> (r: Result<
        Decimal,
        LendingError,
    >)
        ensures
            decimal_res(r) == decimal_mul(liquidity_amount@, self.0@),
            r matches Err(e) ==> e == LendingError::MathOverflow,
    {
        liquidity_amount.try_mul_rate(self.0)
    }

    /// The exchange rate as a `Rate`.
    pub fn rate(&self) -> (r: Rate)
        ensures
            r == self.0,
    {
        self.0
    }
}

// ---------------------------------------------------------------------------------------------
// Lending pool
// ---------------------------------------------------------------------------------------------
/// A lending pool.
#[derive(Clone, Copy, Debug)]
pub struct LendingPool {
    /// Version of the struct.
    pub version: u8,
    /// Last slot when supply and rates were updated.
    pub last_update: LastUpdate,
    /// Lending market address.
    pub lending_market: Pubkey,
    /// Reserve liquidity.
    pub liquidity: ReserveLiquidity,
    /// Liquidity shares.
    pub shares: LiquidityShares,
    /// Credit token.
    pub credit: CreditToken,
    /// Interest rate model.
    pub interest_rate_model: InterestRateModel,
    /// Percentage of the interest kept as reserve.
    pub interest_reverse_rate: u8,
    /// Interest reserve kept so far.
    pub accumulated_interest_reverse: u64,
}

/// Parameters of a new lending pool.
#[derive(Clone, Copy, Debug)]
pub struct InitLendingPoolParams {
    /// Current slot.
    pub current_slot: u64,
    /// Lending market address.
    pub lending_market: Pubkey,
    /// Reserve liquidity.
    pub liquidity: ReserveLiquidity,
    /// Liquidity shares.
    pub shares: LiquidityShares,
    /// Credit token.
    pub credit: CreditToken,
}

/// The pool's exchange rate of shares against its total liquidity.
pub open spec fn pool_exchange_rate(p: LendingPool) -> Option<nat> {
    match total_supply_spec(
        p.liquidity.available_amount as nat,
        p.liquidity.borrowed_amount_wads@,
    ) {
        Some(t) => exchange_rate_spec(p.shares.mint_total_supply, t),
        None => None,
    }
}

/// The pool's utilization rate.
pub open spec fn pool_utilization(p: LendingPool) -> Option<nat> {
    utilization_spec(p.liquidity.available_amount as nat, p.liquidity.borrowed_amount_wads@)
}

/// The pool with `liquidity` and `shares` replaced.
pub open spec fn with_liquidity_and_shares(
    p: LendingPool,
    available: u64,
    shares_supply: u64,
) -> LendingPool {
    LendingPool {
        liquidity: ReserveLiquidity { available_amount: available, ..p.liquidity },
        shares: LiquidityShares { mint_total_supply: shares_supply, ..p.shares },
        ..p
    }
}

/// Whether the pool's current borrow rate can be computed without the steps that the pool treats
/// as infallible failing.
pub open spec fn borrow_rate_defined(p: LendingPool) -> bool {
    match pool_utilization(p) {
        Some(u) => borrow_rate_computable(p.interest_rate_model, u),
        None => false,
    }
}

impl LendingPool {
    /// A new pool.
    pub fn new(params: InitLendingPoolParams) -> (r: Self)
        ensures
            r.version == PROGRAM_VERSION,
            r.last_update.slot == params.current_slot,
            r.last_update.stale,
            r.lending_market == params.lending_market,
            r.liquidity == params.liquidity,
            r.shares == params.shares,
            r.credit == params.credit,
            r.interest_rate_model == default_interest_model(),
            r.interest_reverse_rate == 0,
            r.accumulated_interest_reverse == 0,
    {
        let zero_key = Pubkey([0u8; 32]);
        let mut lending_pool = LendingPool {
            version: 0,
            last_update: LastUpdate { slot: 0, stale: false },
            lending_market: zero_key,
            liquidity: ReserveLiquidity {
                mint_pubkey: zero_key,
                mint_decimals: 0,
                supply_pubkey: zero_key,
                fee_receiver: zero_key,
                oracle_pubkey: None,
                available_amount: 0,
                borrowed_amount_wads: Decimal::zero(),
                cumulative_borrow_rate_wads: Decimal::zero(),
                market_price: 0,
            },
            shares: LiquidityShares {
                mint_pubkey: zero_key,
                mint_total_supply: 0,
                supply_pubkey: zero_key,
            },
            credit: CreditToken { mint_pubkey: zero_key, mint_total_supply: 0, supply_pubkey: zero_key },
            interest_rate_model: InterestRateModel::default_model(),
            interest_reverse_rate: 0,
            accumulated_interest_reverse: 0,
        };
        lending_pool.init(params);
        lending_pool
    }

    /// Initializes a pool.
    pub fn init(&mut self, params: InitLendingPoolParams)
        ensures
            final(self).version == PROGRAM_VERSION,
            final(self).last_update.slot == params.current_slot,
            final(self).last_update.stale,
            final(self).lending_market == params.lending_market,
            final(self).liquidity == params.liquidity,
            final(self).shares == params.shares,
            final(self).credit == params.credit,
            final(self).interest_rate_model == old(self).interest_rate_model,
            final(self).interest_reverse_rate == old(self).interest_reverse_rate,
            final(self).accumulated_interest_reverse == old(self).accumulated_interest_reverse,
    {
        self.version = PROGRAM_VERSION;
        self.last_update = LastUpdate::new(params.current_slot);
        self.lending_market = params.lending_market;
        self.liquidity = params.liquidity;
        self.shares = params.shares;
        self.credit = params.credit;
    }

    /// Whether the pool is initialized.
    pub fn is_initialized(&self) -> (r: bool)
        ensures
            r == (self.version != UNINITIALIZED_VERSION),
    {
        self.version != UNINITIALIZED_VERSION
    }

    /// The exchange rate of shares against the pool's total liquidity.
    pub fn share_exchange_rate(&self) -> (r: Result<ShareExchangeRate, LendingError>)
        ensures
            match r {
                Ok(x) => pool_exchange_rate(*self) == Some(x.0@),
                Err(e) => pool_exchange_rate(*self) is None && e == LendingError::MathOverflow,
            },
    {
        let total_liquidity = match self.liquidity.total_supply() {
            Ok(t) => t,
            Err(e) => return Err(e),
        };
        self.shares.exchange_rate(total_liquidity)
    }

    /// Records deposited liquidity and returns the shares to mint for it.
    pub fn deposit_liquidity(&mut self, liquidity_amount: u64) -> (r: Result<u64, LendingError>)
        ensures
            ({
                let p = *old(self);
                let avail = p.liquidity.available_amount;
                let supply = p.shares.mint_total_supply;
                match pool_exchange_rate(p) {
                    None => r == Err::<u64, LendingError>(LendingError::MathOverflow)
                        && *final(self) == p,
                    Some(rate) => match liquidity_to_share_spec(rate, liquidity_amount) {
                        None => r == Err::<u64, LendingError>(LendingError::MathOverflow)
                            && *final(self) == p,
                        Some(share) => match mint_spec(avail, liquidity_amount) {
                            None => r == Err::<u64, LendingError>(LendingError::MathOverflow)
                                && *final(self) == p,
                            Some(new_avail) => match mint_spec(supply, share) {
                                // The liquidity is already recorded when minting overflows.
                                None => r == Err::<u64, LendingError>(LendingError::MathOverflow)
                                    && *final(self) == with_liquidity_and_shares(p, new_avail, supply),
                                Some(new_supply) => r == Ok::<u64, LendingError>(share)
                                    && *final(self) == with_liquidity_and_shares(p, new_avail, new_supply),
                            },
                        },
                    },
                }
            }),
    {
        let rate = match self.share_exchange_rate() {
            Ok(x) => x,
            Err(e) => return Err(e),
        };
        let share_amount = match rate.liquidity_to_share(liquidity_amount) {
            Ok(x) => x,
            Err(e) => return Err(e),
        };
        match self.liquidity.deposit(liquidity_amount) {
            Ok(_) => {},
            Err(e) => return Err(e),
        }
        match self.shares.mint(share_amount) {
            Ok(_) => {},
            Err(e) => return Err(e),
        }
        Ok(share_amount)
    }

    /// Burns shares and returns the liquidity that they are worth.
    pub fn withdraw_liquidity(&mut self, share_amount: u64) -> (r: Result<u64, LendingError>)
        ensures
            ({
                let p = *old(self);
                let avail = p.liquidity.available_amount;
                let supply = p.shares.mint_total_supply;
                match pool_exchange_rate(p) {
                    None => r == Err::<u64, LendingError>(LendingError::MathOverflow)
                        && *final(self) == p,
                    Some(rate) => match share_to_liquidity_spec(rate, share_amount) {
                        None => r == Err::<u64, LendingError>(LendingError::MathOverflow)
                            && *final(self) == p,
                        Some(liq) => match burn_spec(supply, share_amount) {
                            None => r == Err::<u64, LendingError>(LendingError::MathOverflow)
                                && *final(self) == p,
                            Some(new_supply) => match burn_spec(avail, liq) {
                                // The shares are already burned when the pool lacks liquidity.
                                None => r == Err::<u64, LendingError>(
                                    LendingError::InsufficientLiquidity,
                                ) && *final(self) == with_liquidity_and_shares(p, avail, new_supply),
                                Some(new_avail) => r == Ok::<u64, LendingError>(liq)
                                    && *final(self) == with_liquidity_and_shares(p, new_avail, new_supply),
                            },
                        },
                    },
                }
            }),
    {
        let share_exchange_rate = match self.share_exchange_rate() {
            Ok(x) => x,
            Err(e) => return Err(e),
        };
        let liquidity_amount = match share_exchange_rate.share_to_liquidity(share_amount) {
            Ok(x) => x,
            Err(e) => return Err(e),
        };
        match self.shares.burn(share_amount) {
            Ok(_) => {},
            Err(e) => return Err(e),
        }
        match self.liquidity.withdraw(liquidity_amount) {
            Ok(_) => {},
            Err(e) => return Err(e),
        }
        Ok(liquidity_amount)
    }

    /// The current borrow rate, from the utilization rate and the interest model.
    pub fn current_borrow_rate(&self) -> (r: Result<Rate, LendingError>)
        requires
            borrow_rate_defined(*self),
        ensures
            rate_res(r) == borrow_rate(self.interest_rate_model, pool_utilization(*self)->0),
            r matches Err(e) ==> e == LendingError::MathOverflow,
    {
        let utilization_rate = match self.liquidity.utilization_rate() {
            Ok(u) => u,
            Err(_) => Rate::zero(),
        };
        self.interest_rate_model.current_borrow_rate(utilization_rate)
    }

    /// Sets the interest reserve percentage; values above 50 are ignored.
    pub fn update_interest_reverse_rate(&mut self, reverse_rate: u8)
        ensures
            *final(self) == (if reverse_rate > 50 {
                *old(self)
            } else {
                LendingPool { interest_reverse_rate: reverse_rate, ..*old(self) }
            }),
    {
        if reverse_rate > 50 {
            return ;
        }
        self.interest_reverse_rate = reverse_rate;
    }

    /// Sets the interest rate model.
    pub fn update_interest_model(&mut self, interest_model: InterestRateModel)
        ensures
            *final(self) == (LendingPool { interest_rate_model: interest_model, ..*old(self) }),
    {
        self.interest_rate_model = interest_model
    }
}

/// The interest reserve for `interest` at `rate_pct` percent, rounded down, when it fits in a
/// `u64`.
pub open spec fn interest_reserve_spec(interest: nat, rate_pct: u8) -> Option<nat> {
    match decimal_mul(interest, percent(rate_pct)) {
        Some(x) => if x / wad() < limb_base() {
            Some(x / wad())
        } else {
            None
        },
        None => None,
    }
}

/// Whether accruing interest up to `slot` stays clear of the steps that the pool treats as
/// infallible: the utilization rate, the slope of the borrow rate, the interest on the borrows and
/// the interest reserve.
pub open spec fn accrue_defined(p: LendingPool, slot: u64) -> bool {
    slot > p.last_update.slot ==> (borrow_rate_defined(p) && match borrow_rate(
        p.interest_rate_model,
        pool_utilization(p)->0,
    ) {
        Some(b) => match compounded_rate(b, (slot - p.last_update.slot) as nat) {
            Some(c) => decimal_mul(p.liquidity.cumulative_borrow_rate_wads@, c) is Some
                ==> match decimal_mul(p.liquidity.borrowed_amount_wads@, (c - wad()) as nat) {
                Some(interest) => decimal_mul(p.liquidity.borrowed_amount_wads@, c) is Some
                    ==> interest_reserve_spec(interest, p.interest_reverse_rate) is Some,
                None => false,
            },
            None => true,
        },
        None => true,
    })
}

/// The pool with new cumulative borrow rate, borrows, available liquidity and interest reserve.
pub open spec fn with_accrued(
    p: LendingPool,
    cumulative: Decimal,
    borrowed: Decimal,
    available: u64,
    accumulated: u64,
) -> LendingPool {
    LendingPool {
        liquidity: ReserveLiquidity {
            cumulative_borrow_rate_wads: cumulative,
            borrowed_amount_wads: borrowed,
            available_amount: available,
            ..p.liquidity
        },
        accumulated_interest_reverse: accumulated,
        ..p
    }
}

impl LendingPool {
    /// Compounds the borrow rate over the slots since the last update, and keeps the interest
    /// reserve out of the available liquidity when there is enough of it. The last update slot is
    /// left as it is.
    pub fn accrue_interest(&mut self, current_slot: u64) -> (r: Result<(), LendingError>)
        requires
            accrue_defined(*old(self), current_slot),
        ensures
            ({
                let p = *old(self);
                let q = *final(self);
                let liq = p.liquidity;
                if current_slot < p.last_update.slot {
                    r == Err::<(), LendingError>(LendingError::MathOverflow) && q == p
                } else if current_slot == p.last_update.slot {
                    r == Ok::<(), LendingError>(()) && q == p
                } else {
                    match borrow_rate(p.interest_rate_model, pool_utilization(p)->0) {
                        None => r == Err::<(), LendingError>(LendingError::MathOverflow) && q == p,
                        Some(b) => match compounded_rate(
                            b,
                            (current_slot - p.last_update.slot) as nat,
                        ) {
                            None => r == Err::<(), LendingError>(LendingError::MathOverflow) && q
                                == p,
                            Some(c) => match decimal_mul(liq.cumulative_borrow_rate_wads@, c) {
                                None => r == Err::<(), LendingError>(LendingError::MathOverflow)
                                    && q == p,
                                Some(nc) => q.liquidity.cumulative_borrow_rate_wads@ == nc
                                    && match decimal_mul(liq.borrowed_amount_wads@, c) {
                                    None => r == Err::<(), LendingError>(
                                        LendingError::MathOverflow,
                                    ) && q == with_accrued(
                                        p,
                                        q.liquidity.cumulative_borrow_rate_wads,
                                        liq.borrowed_amount_wads,
                                        liq.available_amount,
                                        p.accumulated_interest_reverse,
                                    ),
                                    Some(nb) => {
                                        let interest = decimal_mul(
                                            liq.borrowed_amount_wads@,
                                            (c - wad()) as nat,
                                        )->0;
                                        let ir = interest_reserve_spec(
                                            interest,
                                            p.interest_reverse_rate,
                                        )->0;
                                        q.liquidity.borrowed_amount_wads@ == nb && if ir
                                            < liq.available_amount {
                                            if p.accumulated_interest_reverse + ir > u64::MAX {
                                                r == Err::<(), LendingError>(
                                                    LendingError::MathOverflow,
                                                ) && q == with_accrued(
                                                    p,
                                                    q.liquidity.cumulative_borrow_rate_wads,
                                                    q.liquidity.borrowed_amount_wads,
                                                    (liq.available_amount - ir) as u64,
                                                    p.accumulated_interest_reverse,
                                                )
                                            } else {
                                                r == Ok::<(), LendingError>(()) && q
                                                    == with_accrued(
                                                    p,
                                                    q.liquidity.cumulative_borrow_rate_wads,
                                                    q.liquidity.borrowed_amount_wads,
                                                    (liq.available_amount - ir) as u64,
                                                    (p.accumulated_interest_reverse + ir) as u64,
                                                )
                                            }
                                        } else {
                                            r == Ok::<(), LendingError>(()) && q == with_accrued(
                                                p,
                                                q.liquidity.cumulative_borrow_rate_wads,
                                                q.liquidity.borrowed_amount_wads,
                                                liq.available_amount,
                                                p.accumulated_interest_reverse,
                                            )
                                        }
                                    },
                                },
                            },
                        },
                    }
                }
            }),
    {
        let slots_elapsed = match self.last_update.slots_elapsed(current_slot) {
            Ok(x) => x,
            Err(e) => return Err(e),
        };
        if slots_elapsed > 0 {
            let current_borrow_rate = match self.current_borrow_rate() {
                Ok(x) => x,
                Err(e) => return Err(e),
            };
            let interest = match self.liquidity.compound_interest(
                current_borrow_rate,
                slots_elapsed,
            ) {
                Ok(x) => x,
                Err(e) => return Err(e),
            };
            let reserve = match interest.try_mul_rate(Rate::from_percent(self.interest_reverse_rate)) {
                Ok(x) => x,
                Err(_) => Decimal::zero(),
            };
            let interest_reverse = match reserve.try_floor_u64() {
                Ok(x) => x,
                Err(_) => 0,
            };
            if interest_reverse < self.liquidity.available_amount {
                match self.liquidity.charge_interest_reverse(interest_reverse) {
                    Ok(_) => {},
                    Err(e) => return Err(e),
                }
                self.accumulated_interest_reverse = match self.accumulated_interest_reverse.checked_add(
                    interest_reverse,
                ) {
                    Some(x) => x,
                    None => return Err(LendingError::MathOverflow),
                };
            }
        }
        Ok(())
    }

    /// The cumulative borrow rate of a packed pool (16 bytes at offset 199).
    pub fn unpack_cumulated_borrow_rate(input: &[u8]) -> (r: Result<Decimal, LendingError>)
        requires
            input@.len() >= 215,
        ensures
            r matches Ok(d) && d@ == crate::bytes::le_value(input@.subrange(199, 215)),
    {
        Ok(Decimal::from_scaled_val(crate::bytes::read_le(input, 199, 16)))
    }
}

/// Interest only grows what it compounds: over the slots since the last update, the cumulative
/// borrow rate and the borrows that `accrue_interest` computes are at least what they were.
pub proof fn lemma_accrual_never_lowers(p: LendingPool, slot: u64)
    requires
        slot > p.last_update.slot,
        borrow_rate(p.interest_rate_model, pool_utilization(p)->0) is Some,
        compounded_rate(
            borrow_rate(p.interest_rate_model, pool_utilization(p)->0)->0,
            (slot - p.last_update.slot) as nat,
        ) is Some,
    ensures
        ({
            let c = compounded_rate(
                borrow_rate(p.interest_rate_model, pool_utilization(p)->0)->0,
                (slot - p.last_update.slot) as nat,
            )->0;
            &&& c >= wad()
            &&& decimal_mul(p.liquidity.cumulative_borrow_rate_wads@, c) matches Some(nc) ==> nc
                >= p.liquidity.cumulative_borrow_rate_wads@
            &&& decimal_mul(p.liquidity.borrowed_amount_wads@, c) matches Some(nb) ==> nb
                >= p.liquidity.borrowed_amount_wads@
        }),
{
    let b = borrow_rate(p.interest_rate_model, pool_utilization(p)->0)->0;
    let n = (slot - p.last_update.slot) as nat;
    let per_slot = b / (SLOTS_PER_YEAR as nat);
    lemma_rate_pow_at_least_one(wad() + per_slot, n);
    let c = compounded_rate(b, n)->0;
    lemma_scale_at_least_one(p.liquidity.cumulative_borrow_rate_wads@, c);
    lemma_scale_at_least_one(p.liquidity.borrowed_amount_wads@, c);
}

/// Scaling by a rate of at least one does not lower an amount.
proof fn lemma_scale_at_least_one(x: nat, c: nat)
    requires
        c >= wad(),
    ensures
        decimal_mul(x, c) matches Some(y) ==> y >= x,
{
    assert(x * c >= x * wad()) by (nonlinear_arith)
        requires
            c >= wad(),
    ;
    vstd::arithmetic::div_mod::lemma_div_is_ordered((x * wad()) as int, (x * c) as int, wad() as int);
    vstd::arithmetic::div_mod::lemma_div_multiples_vanish(x as int, wad() as int);
}

/// The exchange rate is shares per unit of liquidity: with `shares` shares out and a total
/// liquidity of `total_liquidity` (a `Decimal`, scaled by `WAD`), the rate times the liquidity is
/// at most `shares * WAD * WAD`, and one more unit of rate would pass it: the rate is
/// `shares * WAD^2 / total_liquidity`, rounded down.
pub proof fn lemma_exchange_rate_is_shares_per_liquidity(shares: u64, total_liquidity: nat)
    requires
        shares > 0,
        total_liquidity > 0,
        exchange_rate_spec(shares, total_liquidity) is Some,
    ensures
        exchange_rate_spec(shares, total_liquidity)->0 * total_liquidity <= (shares as nat) * wad()
            * wad(),
        (shares as nat) * wad() * wad() < (exchange_rate_spec(shares, total_liquidity)->0 + 1)
            * total_liquidity,
{
    let a = (shares as nat) * wad() * wad();
    assert((shares as nat) * wad() * wad() == a);
    lemma_floor_div_bounds(a, total_liquidity);
}

/// Depositing liquidity mints shares in proportion: at the pool's exchange rate, `amount` of
/// liquidity gives at most `amount * shares / liquidity` shares (with the liquidity as a
/// `Decimal`, scaled by `WAD`), so a deposit never dilutes the shares already out.
pub proof fn lemma_deposit_mints_in_proportion(shares: u64, total_liquidity: nat, amount: u64)
    requires
        shares > 0,
        total_liquidity > 0,
        exchange_rate_spec(shares, total_liquidity) is Some,
        liquidity_to_share_spec(exchange_rate_spec(shares, total_liquidity)->0, amount) is Some,
    ensures
        (liquidity_to_share_spec(exchange_rate_spec(shares, total_liquidity)->0, amount)->0 as nat)
            * total_liquidity <= (amount as nat) * (shares as nat) * wad(),
{
    let w = wad();
    let t = total_liquidity;
    let rate = exchange_rate_spec(shares, total_liquidity)->0;
    let x = amount as nat;
    let n = shares as nat;
    lemma_exchange_rate_is_shares_per_liquidity(shares, total_liquidity);
    assert(rate * t <= n * w * w);
    assert(x * w * rate == (x * rate) * w) by (nonlinear_arith);
    vstd::arithmetic::div_mod::lemma_div_multiples_vanish((x * rate) as int, w as int);
    let s = (x * rate) / w;
    assert(liquidity_to_share_spec(rate, amount)->0 as nat == s);
    lemma_floor_div_bounds(x * rate, w);
    assert(s * w <= x * rate);
    assert(s * w * t <= x * rate * t) by (nonlinear_arith)
        requires
            s * w <= x * rate,
    ;
    assert(x * rate * t <= x * (n * w * w)) by (nonlinear_arith)
        requires
            rate * t <= n * w * w,
    ;
    assert((s * t) * w <= (x * n * w) * w) by (nonlinear_arith)
        requires
            s * w * t <= x * (n * w * w),
    ;
    assert(s * t <= x * n * w) by (nonlinear_arith)
        requires
            (s * t) * w <= (x * n * w) * w,
            w > 0,
    ;
}

/// Converting liquidity to shares and the shares back to liquidity, at the same exchange rate,
/// never gives more liquidity than was put in: both conversions round down.
pub proof fn lemma_share_round_trip_never_gains(rate: nat, amount: u64)
    requires
        rate > 0,
        liquidity_to_share_spec(rate, amount) is Some,
        share_to_liquidity_spec(rate, liquidity_to_share_spec(rate, amount)->0) is Some,
    ensures
        share_to_liquidity_spec(rate, liquidity_to_share_spec(rate, amount)->0)->0 <= amount,
{
    let w = wad();
    let a = amount as nat;
    let s = liquidity_to_share_spec(rate, amount)->0 as nat;
    let x1 = (a * w * rate) / w;
    assert(a * w * rate == (a * rate) * w) by (nonlinear_arith);
    vstd::arithmetic::div_mod::lemma_div_multiples_vanish((a * rate) as int, w as int);
    assert(x1 == a * rate);
    assert(s == (a * rate) / w);
    vstd::arithmetic::div_mod::lemma_fundamental_div_mod((a * rate) as int, w as int);
    assert(s * w <= a * rate) by (nonlinear_arith)
        requires
            a * rate == w * s + (a * rate) % w,
            (a * rate) % w >= 0,
    ;
    let x2 = (s * w * w) / rate;
    vstd::arithmetic::div_mod::lemma_fundamental_div_mod((s * w * w) as int, rate as int);
    assert(x2 * rate <= s * w * w) by (nonlinear_arith)
        requires
            s * w * w == rate * x2 + (s * w * w) % rate,
            (s * w * w) % rate >= 0,
    ;
    assert(s * w * w <= a * rate * w) by (nonlinear_arith)
        requires
            s * w <= a * rate,
    ;
    assert(x2 <= a * w) by (nonlinear_arith)
        requires
            x2 * rate <= a * rate * w,
            rate > 0,
    ;
    vstd::arithmetic::div_mod::lemma_div_is_ordered(x2 as int, (a * w) as int, w as int);
    vstd::arithmetic::div_mod::lemma_div_multiples_vanish(a as int, w as int);
}

} // verus!
