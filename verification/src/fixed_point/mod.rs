//! The `FixedPoint` number type: a 192-bit unsigned integer read with `D` digits after the
//! decimal point.
pub mod test_utils;
pub mod text;

use crate::u192::{
    U192, lemma_pow10_positive, limb_base, pow10, u192_bound,
};
use vstd::prelude::*;

verus! {

/// Whether `10^d` fits in a `U192` (that is, `d <= 57`).
pub open spec fn pow10_fits(d: nat) -> bool {
    pow10(d) < u192_bound()
}

/// The value of `amount`, written with `from` digits after the point, read with `to` digits after
/// the point: digits beyond `to` are cut off.
pub open spec fn rescale(amount: nat, from: nat, to: nat) -> nat {
    if from > to {
        amount / pow10((from - to) as nat)
    } else if from == to {
        amount
    } else {
        amount * pow10((to - from) as nat)
    }
}

/// Whether rescaling `amount` from `from` to `to` digits stays within 2^192, including the power of
/// ten that the computation builds.
pub open spec fn rescale_fits(amount: nat, from: nat, to: nat) -> bool {
    if from > to {
        pow10_fits((from - to) as nat)
    } else if from == to {
        true
    } else {
        pow10_fits((to - from) as nat) && amount * pow10((to - from) as nat) < u192_bound()
    }
}

/// The product of two fixed-point numbers with `d` digits: the raw product with the extra `d`
/// digits cut off.
pub open spec fn fp_mul(a: nat, b: nat, d: nat) -> nat {
    (a * b) / pow10(d)
}

/// The quotient of two fixed-point numbers with `d` digits.
pub open spec fn fp_div(a: nat, b: nat, d: nat) -> nat {
    (a * pow10(d)) / b
}

/// `a + b` when it stays below 2^192.
pub open spec fn checked_add_spec(a: nat, b: nat) -> Option<nat> {
    if a + b < u192_bound() {
        Some(a + b)
    } else {
        None
    }
}

/// `a - b` when it is not negative.
pub open spec fn checked_sub_spec(a: nat, b: nat) -> Option<nat> {
    if b <= a {
        Some((a - b) as nat)
    } else {
        None
    }
}

/// The fixed-point product with `d` digits when the raw product stays below 2^192.
pub open spec fn checked_mul_spec(a: nat, b: nat, d: nat) -> Option<nat> {
    if a * b < u192_bound() {
        Some(fp_mul(a, b, d))
    } else {
        None
    }
}

/// The fixed-point quotient with `d` digits when `a * 10^d` stays below 2^192 and `b` is not zero.
pub open spec fn checked_div_spec(a: nat, b: nat, d: nat) -> Option<nat> {
    if a * pow10(d) < u192_bound() && b > 0 {
        Some(fp_div(a, b, d))
    } else {
        None
    }
}

/// The stored integer of an optional `FixedPoint`.
pub open spec fn fp_opt<const D: u8>(r: Option<FixedPoint<D>>) -> Option<nat> {
    match r {
        Some(x) => Some(x@),
        None => None,
    }
}

/// A number with `D` digits after the decimal point, stored as the integer `value * 10^D`.
#[derive(Clone, Copy, Debug, PartialEq, Eq)]
pub struct FixedPoint<const D: u8>(pub U192);

/// USDC precision (6 digits).
pub type FPUSDC = FixedPoint<6>;

/// High precision for internal calculations (18 digits).
pub type FPInternal = FixedPoint<18>;

impl<const D: u8> View for FixedPoint<D> {
    type V = nat;

    /// The stored integer, `value * 10^D`.
    open spec fn view(&self) -> nat {
        self.0@
    }
}

/// Rescales `amount` from `from` to `to` digits after the point.
fn rescale_u192(amount: &U192, from: u8, to: u8) -> (r: U192)
    requires
        rescale_fits(amount@, from as nat, to as nat),
    ensures
        r@ == rescale(amount@, from as nat, to as nat),
{
    if from > to {
        let divisor = U192::pow10((from - to) as u32);
        proof {
            lemma_pow10_positive((from - to) as nat);
        }
        amount.div_rem(&divisor).0
    } else if from == to {
        *amount
    } else {
        let multiplier = U192::pow10((to - from) as u32);
        match amount.checked_mul(&multiplier) {
            Some(x) => x,
            None => *amount,
        }
    }
}

impl<const D: u8> FixedPoint<D> {
    /// A `FixedPoint` from its stored integer.
    pub fn new(amount: U192) -> (r: Self)
        ensures
            r.0 == amount,
    {
        FixedPoint(amount)
    }

    /// A `FixedPoint` from an integer written with `num_decimals` digits after the point; extra
    /// digits are cut off.
    pub fn from_fixed_point_u64(amount: u64, num_decimals: u8) -> (r: Self)
        requires
            rescale_fits(amount as nat, num_decimals as nat, D as nat),
        ensures
            r@ == rescale(amount as nat, num_decimals as nat, D as nat),
    {
        FixedPoint(rescale_u192(&U192::from_u64(amount), num_decimals, D))
    }

    /// Zero.
    pub fn zero() -> (r: Self)
        ensures
            r@ == 0,
    {
        FixedPoint(U192::zero())
    }

    /// `10^D`, the stored integer of one.
    pub fn decimals_multiplier() -> (r: U192)
        requires
            pow10_fits(D as nat),
        ensures
            r@ == pow10(D as nat),
    {
        U192::pow10(D as u32)
    }

    /// `self + rhs`, or `None` on overflow.
    pub fn checked_add(&self, rhs: Self) -> (r: Option<Self>)
        ensures
            match r {
                Some(x) => x@ == self@ + rhs@,
                None => self@ + rhs@ >= u192_bound(),
            },
            fp_opt(r) == checked_add_spec(self@, rhs@),
    {
        match self.0.checked_add(&rhs.0) {
            Some(x) => Some(FixedPoint(x)),
            None => None,
        }
    }

    /// `self - rhs`, or `None` when `rhs > self`.
    pub fn checked_sub(&self, rhs: Self) -> (r: Option<Self>)
        ensures
            match r {
                Some(x) => x@ == self@ - rhs@,
                None => self@ < rhs@,
            },
            fp_opt(r) == checked_sub_spec(self@, rhs@),
    {
        match self.0.checked_sub(&rhs.0) {
            Some(x) => Some(FixedPoint(x)),
            None => None,
        }
    }

    /// `self * rhs`, cut to `D` digits, or `None` when the raw product overflows.
    pub fn checked_mul(&self, rhs: Self) -> (r: Option<Self>)
        requires
            pow10_fits(D as nat),
        ensures
            match r {
                Some(x) => self@ * rhs@ < u192_bound() && x@ == fp_mul(self@, rhs@, D as nat),
                None => self@ * rhs@ >= u192_bound(),
            },
            fp_opt(r) == checked_mul_spec(self@, rhs@, D as nat),
    {
        match self.0.checked_mul(&rhs.0) {
            Some(x) => {
                let m = Self::decimals_multiplier();
                proof {
                    lemma_pow10_positive(D as nat);
                }
                Some(FixedPoint(x.div_rem(&m).0))
            },
            None => None,
        }
    }

    /// `self / rhs` with `D` digits, or `None` when `self * 10^D` overflows or `rhs` is zero.
    pub fn checked_div(&self, rhs: Self) -> (r: Option<Self>)
        requires
            pow10_fits(D as nat),
        ensures
            match r {
                Some(x) => self@ * pow10(D as nat) < u192_bound() && rhs@ > 0 && x@ == fp_div(
                    self@,
                    rhs@,
                    D as nat,
                ),
                None => self@ * pow10(D as nat) >= u192_bound() || rhs@ == 0,
            },
            fp_opt(r) == checked_div_spec(self@, rhs@, D as nat),
    {
        let m = Self::decimals_multiplier();
        match self.0.checked_mul(&m) {
            Some(x) => match x.checked_div(&rhs.0) {
                Some(q) => Some(FixedPoint(q)),
                None => None,
            },
            None => None,
        }
    }

    /// The same number with `D1` digits after the point; extra digits are cut off.
    pub fn change_precision<const D1: u8>(&self) -> (r: FixedPoint<D1>)
        requires
            rescale_fits(self@, D as nat, D1 as nat),
        ensures
            r@ == rescale(self@, D as nat, D1 as nat),
    {
        FixedPoint(rescale_u192(&self.0, D, D1))
    }

    /// The largest size of a `FixedPoint` in its byte encoding.
    pub fn max_len() -> (r: usize)
        ensures
            r == 24,
    {
        24
    }

    /// The whole part of the number.
    pub fn as_whole_number(&self) -> (r: u64)
        requires
            pow10_fits(D as nat),
            self@ / pow10(D as nat) < limb_base(),
        ensures
            r == self@ / pow10(D as nat),
    {
        let f: FixedPoint<0> = self.change_precision();
        proof {
            if D == 0 {
                assert(pow10(0) == 1);
                assert(self@ / 1 == self@) by (nonlinear_arith);
            } else {
                assert((D - 0) as nat == D as nat);
            }
        }
        f.0.as_u64()
    }

    /// The stored integer of `x` as a whole number: `x * 10^D`.
    pub fn from_u64(x: u64) -> (r: Self)
        requires
            pow10_fits(D as nat),
            pow10(D as nat) * x < u192_bound(),
        ensures
            r@ == pow10(D as nat) * x,
    {
        let m = Self::decimals_multiplier();
        match m.checked_mul(&U192::from_u64(x)) {
            Some(v) => FixedPoint(v),
            None => FixedPoint(m),
        }
    }

    /// `from_u64` for a `u8`.
    pub fn from_u8(x: u8) -> (r: Self)
        requires
            pow10_fits(D as nat),
            pow10(D as nat) * x < u192_bound(),
        ensures
            r@ == pow10(D as nat) * x,
    {
        Self::from_u64(x as u64)
    }

    /// `from_u64` for a `u16`.
    pub fn from_u16(x: u16) -> (r: Self)
        requires
            pow10_fits(D as nat),
            pow10(D as nat) * x < u192_bound(),
        ensures
            r@ == pow10(D as nat) * x,
    {
        Self::from_u64(x as u64)
    }

    /// `from_u64` for a `u32`.
    pub fn from_u32(x: u32) -> (r: Self)
        requires
            pow10_fits(D as nat),
            pow10(D as nat) * x < u192_bound(),
        ensures
            r@ == pow10(D as nat) * x,
    {
        Self::from_u64(x as u64)
    }

    /// The number as a `u64` in USDC format (6 digits after the point).
    pub fn as_usdc(self) -> (r: u64)
        requires
            rescale_fits(self@, D as nat, 6),
            rescale(self@, D as nat, 6) < limb_base(),
        ensures
            r == rescale(self@, D as nat, 6),
    {
        let f: FixedPoint<6> = self.change_precision();
        f.0.as_u64()
    }

    /// A number from a `u64` in USDC format (6 digits after the point).
    pub fn from_usdc(x: u64) -> (r: Self)
        requires
            rescale_fits(x as nat, 6, D as nat),
        ensures
            r@ == rescale(x as nat, 6, D as nat),
    {
        Self::from_fixed_point_u64(x, 6)
    }

    /// A number from a whole `u64`.
    pub fn from_whole_number(x: u64) -> (r: Self)
        requires
            rescale_fits(x as nat, 0, D as nat),
        ensures
            r@ == rescale(x as nat, 0, D as nat),
    {
        Self::from_fixed_point_u64(x, 0)
    }

    /// The number in USDC format as an `i64`; it must fit.
    pub fn as_usdc_i64(self) -> (r: i64)
        requires
            rescale_fits(self@, D as nat, 6),
            rescale(self@, D as nat, 6) <= i64::MAX,
        ensures
            r == rescale(self@, D as nat, 6),
    {
        self.as_usdc() as i64
    }
}

/// Rescaling to more digits and back gives the number back: no digit is lost on the way up
/// (so changing precision up and down, or `from_usdc` then `as_usdc`, is the identity).
pub proof fn lemma_rescale_round_trip(a: nat, from: nat, to: nat)
    requires
        from <= to,
    ensures
        rescale(rescale(a, from, to), to, from) == a,
{
    if from < to {
        let k = (to - from) as nat;
        lemma_pow10_positive(k);
        vstd::arithmetic::div_mod::lemma_div_multiples_vanish(a as int, pow10(k) as int);
        assert(a * pow10(k) == pow10(k) * a) by (nonlinear_arith);
    }
}

/// Subtracting what was added gives the number back.
pub proof fn lemma_add_then_sub(a: nat, b: nat)
    requires
        checked_add_spec(a, b) is Some,
    ensures
        checked_sub_spec(checked_add_spec(a, b)->0, b) == Some(a),
{
}

/// Multiplying or dividing by one (`10^d` with `d` digits) gives the number back.
pub proof fn lemma_one_is_neutral(a: nat, d: nat)
    ensures
        checked_mul_spec(a, pow10(d), d) matches Some(x) ==> x == a,
        checked_div_spec(a, pow10(d), d) matches Some(x) ==> x == a,
{
    lemma_pow10_positive(d);
    vstd::arithmetic::div_mod::lemma_div_multiples_vanish(a as int, pow10(d) as int);
    assert(a * pow10(d) == pow10(d) * a) by (nonlinear_arith);
}

} // verus!
