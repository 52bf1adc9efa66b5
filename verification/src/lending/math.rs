//! Fixed-point numbers of the lending pool, scaled by `WAD` (10^18).
//!
//! `Decimal` holds large amounts in 192 bits; `Rate` holds rates and exchange rates in 128 bits.
use crate::lending::error::LendingError;
use crate::u192::{U192, limb_base, limb_base2, u192_bound};
use vstd::prelude::*;

verus! {

/// Scale of both number types: 10^18.
pub const WAD: u64 = 1_000_000_000_000_000_000;

/// Half of `WAD`.
pub const HALF_WAD: u64 = 500_000_000_000_000_000;

/// Scale of a percentage: 10^16.
pub const PERCENT_SCALER: u64 = 10_000_000_000_000_000;

/// 10^18 as a mathematical number.
pub open spec fn wad() -> nat {
    1_000_000_000_000_000_000nat
}

/// The product of two `Decimal`s: the raw product, checked against 2^192, divided by `WAD`.
pub open spec fn decimal_mul(a: nat, b: nat) -> Option<nat> {
    if a * b < u192_bound() {
        Some((a * b) / wad())
    } else {
        None
    }
}

/// The quotient of two `Decimal`s: `a * WAD`, checked against 2^192, divided by `b`.
pub open spec fn decimal_div(a: nat, b: nat) -> Option<nat> {
    if a * wad() < u192_bound() && b > 0 {
        Some((a * wad()) / b)
    } else {
        None
    }
}

/// The product of two `Rate`s: the raw product, checked against 2^128, divided by `WAD`.
pub open spec fn rate_mul(a: nat, b: nat) -> Option<nat> {
    if a * b < limb_base2() {
        Some((a * b) / wad())
    } else {
        None
    }
}

/// The state of the square-and-multiply loop of `Rate::try_pow`: `base` squared and `exp` halved
/// at each step, `ret` multiplied by the new base when the new exponent is odd.
pub open spec fn rate_pow_loop(base: nat, ret: nat, exp: nat) -> Option<nat>
    decreases exp,
{
    if exp == 0 {
        Some(ret)
    } else {
        let e = exp / 2;
        match rate_mul(base, base) {
            Some(b) => if e % 2 != 0 {
                match rate_mul(ret, b) {
                    Some(r) => rate_pow_loop(b, r, e),
                    None => None,
                }
            } else {
                rate_pow_loop(b, ret, e)
            },
            None => None,
        }
    }
}

/// `base ^ exp` as computed by `Rate::try_pow`, or `None` when a step overflows.
pub open spec fn rate_pow(base: nat, exp: nat) -> Option<nat> {
    rate_pow_loop(base, if exp % 2 != 0 { base } else { wad() }, exp)
}

/// A large fixed-point number: the stored integer is `value * 10^18`.
#[derive(Clone, Copy, Debug, PartialEq, Eq)]
pub struct Decimal(pub U192);

/// A rate: the stored integer is `value * 10^18`.
#[derive(Clone, Copy, Debug, PartialEq, Eq)]
pub struct Rate(pub u128);

impl View for Decimal {
    type V = nat;

    open spec fn view(&self) -> nat {
        self.0@
    }
}

impl View for Rate {
    type V = nat;

    open spec fn view(&self) -> nat {
        self.0 as nat
    }
}

/// The stored integer of an optional result.
pub open spec fn decimal_res(r: Result<Decimal, LendingError>) -> Option<nat> {
    match r {
        Ok(x) => Some(x@),
        Err(_) => None,
    }
}

/// The stored integer of an optional result.
pub open spec fn rate_res(r: Result<Rate, LendingError>) -> Option<nat> {
    match r {
        Ok(x) => Some(x@),
        Err(_) => None,
    }
}

/// Every error of these operations is `MathOverflow`.
pub open spec fn overflow_only<T>(r: Result<T, LendingError>) -> bool {
    r matches Err(e) ==> e == LendingError::MathOverflow
}

fn wad_u192() -> (r: U192)
    ensures
        r@ == wad(),
{
    U192::from_u64(WAD)
}

impl Decimal {
    /// One.
    pub fn one() -> (r: Self)
        ensures
            r@ == wad(),
    {
        Decimal(wad_u192())
    }

    /// Zero.
    pub fn zero() -> (r: Self)
        ensures
            r@ == 0,
    {
        Decimal(U192::zero())
    }

    /// The whole number `val`.
    pub fn from_u64(val: u64) -> (r: Self)
        ensures
            r@ == val * wad(),
    {
        proof {
            assert(val * wad() < u192_bound()) by (nonlinear_arith)
                requires
                    val < limb_base(),
            ;
        }
        let p = wad_u192().checked_mul(&U192::from_u64(val));
        match p {
            Some(x) => Decimal(x),
            None => Decimal(U192::zero()),
        }
    }

    /// The decimal with stored integer `scaled_val`.
    pub fn from_scaled_val(scaled_val: u128) -> (r: Self)
        ensures
            r@ == scaled_val,
    {
        Decimal(U192::from_u128(scaled_val))
    }

    /// The decimal with the value of a rate.
    pub fn from_rate(rate: Rate) -> (r: Self)
        ensures
            r@ == rate@,
    {
        Decimal(U192::from_u128(rate.0))
    }

    /// The stored integer, when it fits in a `u128`.
    pub fn to_scaled_val(&self) -> (r: Result<u128, LendingError>)
        ensures
            match r {
                Ok(x) => x == self@,
                Err(e) => self@ >= limb_base2() && e == LendingError::MathOverflow,
            },
    {
        match self.0.try_to_u128() {
            Some(x) => Ok(x),
            None => Err(LendingError::MathOverflow),
        }
    }

    /// The whole part, when it fits in a `u64`.
    pub fn try_floor_u64(&self) -> (r: Result<u64, LendingError>)
        ensures
            match r {
                Ok(x) => x == self@ / wad(),
                Err(e) => self@ / wad() >= limb_base() && e == LendingError::MathOverflow,
            },
    {
        let q = self.0.div_rem(&wad_u192()).0;
        match q.try_to_u64() {
            Some(x) => Ok(x),
            None => Err(LendingError::MathOverflow),
        }
    }

    /// `self + rhs`.
    pub fn try_add(&self, rhs: Decimal) -> (r: Result<Decimal, LendingError>)
        ensures
            decimal_res(r) == (if self@ + rhs@ < u192_bound() {
                Some(self@ + rhs@)
            } else {
                None
            }),
            overflow_only(r),
    {
        match self.0.checked_add(&rhs.0) {
            Some(x) => Ok(Decimal(x)),
            None => Err(LendingError::MathOverflow),
        }
    }

    /// `self - rhs`.
    pub fn try_sub(&self, rhs: Decimal) -> (r: Result<Decimal, LendingError>)
        ensures
            decimal_res(r) == (if rhs@ <= self@ {
                Some((self@ - rhs@) as nat)
            } else {
                None
            }),
            overflow_only(r),
    {
        match self.0.checked_sub(&rhs.0) {
            Some(x) => Ok(Decimal(x)),
            None => Err(LendingError::MathOverflow),
        }
    }

    /// `self * rhs`.
    pub fn try_mul(&self, rhs: Decimal) -> (r: Result<Decimal, LendingError>)
        ensures
            decimal_res(r) == decimal_mul(self@, rhs@),
            overflow_only(r),
    {
        match self.0.checked_mul(&rhs.0) {
            Some(x) => Ok(Decimal(x.div_rem(&wad_u192()).0)),
            None => Err(LendingError::MathOverflow),
        }
    }

    /// `self * rhs` for a rate.
    pub fn try_mul_rate(&self, rhs: Rate) -> (r: Result<Decimal, LendingError>)
        ensures
            decimal_res(r) == decimal_mul(self@, rhs@),
            overflow_only(r),
    {
        self.try_mul(Decimal::from_rate(rhs))
    }

    /// `self / rhs`.
    pub fn try_div(&self, rhs: Decimal) -> (r: Result<Decimal, LendingError>)
        ensures
            decimal_res(r) == decimal_div(self@, rhs@),
            overflow_only(r),
    {
        match self.0.checked_mul(&wad_u192()) {
            Some(x) => match x.checked_div(&rhs.0) {
                Some(q) => Ok(Decimal(q)),
                None => Err(LendingError::MathOverflow),
            },
            None => Err(LendingError::MathOverflow),
        }
    }

    /// `self / rhs` for a rate.
    pub fn try_div_rate(&self, rhs: Rate) -> (r: Result<Decimal, LendingError>)
        ensures
            decimal_res(r) == decimal_div(self@, rhs@),
            overflow_only(r),
    {
        self.try_div(Decimal::from_rate(rhs))
    }

    /// Whether `self > other`.
    pub fn gt(&self, other: &Decimal) -> (r: bool)
        ensures
            r == (self@ > other@),
    {
        other.0.lt(&self.0)
    }

    /// Whether the two values are equal.
    pub fn eq_value(&self, other: &Decimal) -> (r: bool)
        ensures
            r == (self@ == other@),
    {
        self.0.eq_value(&other.0)
    }
}

impl Rate {
    /// One.
    pub fn one() -> (r: Self)
        ensures
            r@ == wad(),
    {
        Rate(WAD as u128)
    }

    /// Zero.
    pub fn zero() -> (r: Self)
        ensures
            r@ == 0,
    {
        Rate(0)
    }

    /// `percent` percent.
    pub fn from_percent(percent: u8) -> (r: Self)
        ensures
            r@ == percent * 10_000_000_000_000_000nat,
    {
        Rate((percent as u64 * PERCENT_SCALER) as u128)
    }

    /// The rate with stored integer `scaled_val`.
    pub fn from_scaled_val(scaled_val: u64) -> (r: Self)
        ensures
            r@ == scaled_val,
    {
        Rate(scaled_val as u128)
    }

    /// The stored integer.
    pub fn to_scaled_val(&self) -> (r: u128)
        ensures
            r == self@,
    {
        self.0
    }

    /// The rate with the value of a decimal, when it fits.
    pub fn try_from_decimal(decimal: Decimal) -> (r: Result<Rate, LendingError>)
        ensures
            rate_res(r) == (if decimal@ < limb_base2() {
                Some(decimal@)
            } else {
                None
            }),
            overflow_only(r),
    {
        match decimal.to_scaled_val() {
            Ok(x) => Ok(Rate(x)),
            Err(e) => Err(e),
        }
    }

    /// `self + rhs`.
    pub fn try_add(&self, rhs: Rate) -> (r: Result<Rate, LendingError>)
        ensures
            rate_res(r) == (if self@ + rhs@ < limb_base2() {
                Some(self@ + rhs@)
            } else {
                None
            }),
            overflow_only(r),
    {
        match self.0.checked_add(rhs.0) {
            Some(x) => Ok(Rate(x)),
            None => Err(LendingError::MathOverflow),
        }
    }

    /// `self - rhs`.
    pub fn try_sub(&self, rhs: Rate) -> (r: Result<Rate, LendingError>)
        ensures
            rate_res(r) == (if rhs@ <= self@ {
                Some((self@ - rhs@) as nat)
            } else {
                None
            }),
            overflow_only(r),
    {
        match self.0.checked_sub(rhs.0) {
            Some(x) => Ok(Rate(x)),
            None => Err(LendingError::MathOverflow),
        }
    }

    /// `self * rhs` for a plain integer (no rescaling).
    pub fn try_mul_u64(&self, rhs: u64) -> (r: Result<Rate, LendingError>)
        ensures
            rate_res(r) == (if self@ * rhs < limb_base2() {
                Some(self@ * (rhs as nat))
            } else {
                None
            }),
            overflow_only(r),
    {
        match self.0.checked_mul(rhs as u128) {
            Some(x) => Ok(Rate(x)),
            None => Err(LendingError::MathOverflow),
        }
    }

    /// `self / rhs` for a plain integer.
    pub fn try_div_u64(&self, rhs: u64) -> (r: Result<Rate, LendingError>)
        ensures
            rate_res(r) == (if rhs > 0 {
                Some(self@ / (rhs as nat))
            } else {
                None
            }),
            overflow_only(r),
    {
        if rhs == 0 {
            Err(LendingError::MathOverflow)
        } else {
            Ok(Rate(self.0 / rhs as u128))
        }
    }

    /// `self * rhs`.
    pub fn try_mul(&self, rhs: Rate) -> (r: Result<Rate, LendingError>)
        ensures
            rate_res(r) == rate_mul(self@, rhs@),
            overflow_only(r),
    {
        match self.0.checked_mul(rhs.0) {
            Some(x) => Ok(Rate(x / WAD as u128)),
            None => Err(LendingError::MathOverflow),
        }
    }

    /// `self / rhs`.
    pub fn try_div(&self, rhs: Rate) -> (r: Result<Rate, LendingError>)
        ensures
            rate_res(r) == (if self@ * wad() < limb_base2() && rhs@ > 0 {
                Some((self@ * wad()) / rhs@)
            } else {
                None
            }),
            overflow_only(r),
    {
        match self.0.checked_mul(WAD as u128) {
            Some(x) => if rhs.0 == 0 {
                Err(LendingError::MathOverflow)
            } else {
                Ok(Rate(x / rhs.0))
            },
            None => Err(LendingError::MathOverflow),
        }
    }

    /// `self ^ exp` by squaring and multiplying.
    pub fn try_pow(&self, exp: u64) -> (r: Result<Rate, LendingError>)
        ensures
            rate_res(r) == rate_pow(self@, exp as nat),
            overflow_only(r),
    {
        let mut n = exp;
        let mut base = *self;
        let mut ret = if n % 2 != 0 {
            base
        } else {
            Rate(WAD as u128)
        };
        while n > 0
            invariant
                rate_pow_loop(base@, ret@, n as nat) == rate_pow(self@, exp as nat),
            decreases n,
        {
            let ghost b0 = base@;
            let ghost r0 = ret@;
            let ghost x0 = n as nat;
            n = n / 2;
            base = match base.try_mul(base) {
                Ok(b) => b,
                Err(e) => {
                    assert(rate_pow_loop(b0, r0, x0) is None);
                    return Err(e);
                },
            };
            if n % 2 != 0 {
                ret = match ret.try_mul(base) {
                    Ok(x) => x,
                    Err(e) => {
                        assert(rate_pow_loop(b0, r0, x0) is None);
                        return Err(e);
                    },
                };
            }
        }
        Ok(ret)
    }

    /// Whether `self < other`.
    pub fn lt(&self, other: &Rate) -> (r: bool)
        ensures
            r == (self@ < other@),
    {
        self.0 < other.0
    }
}

} // verus!
