//! Return rate calculations.
use crate::fixed_point::{
    FPInternal, FixedPoint, checked_div_spec, checked_mul_spec, fp_opt, pow10_fits, rescale,
    rescale_fits,
};
use crate::u192::{lemma_floor_div_bounds, lemma_pow10_57, lemma_pow10_monotone, pow10, u192_bound};
use vstd::prelude::*;

verus! {

/// `10^18` fits in a `U192`, so the 18-digit internal precision is usable.
pub proof fn lemma_internal_precision_fits()
    ensures
        pow10_fits(18),
        pow10(18) == 1_000_000_000_000_000_000nat,
{
    lemma_pow10_57();
    lemma_pow10_monotone(18, 57);
    reveal_with_fuel(pow10, 19);
}

/// The product of all per-epoch return rates so far (see `FloatingBalance`).
#[derive(Clone, Copy, Debug, PartialEq, Eq)]
pub struct CumulativeReturnRate(pub FPInternal);

/// A ratio of two fixed-point numbers.
pub struct Ratio<const D: u8> {
    pub numerator: FixedPoint<D>,
    pub denominator: FixedPoint<D>,
}

/// `rate * numerator / denominator`, each step a checked 18-digit operation.
pub open spec fn scaled_rate(rate: nat, numerator: nat, denominator: nat) -> Option<nat> {
    match checked_mul_spec(rate, numerator, 18) {
        Some(x) => checked_div_spec(x, denominator, 18),
        None => None,
    }
}

/// Scaling a rate by a ratio multiplies it by `numerator / denominator`, rounding down: the
/// result times the denominator is at most `rate * numerator`, and falls short of it by less
/// than one denominator plus one unit of the 18-digit precision.
pub proof fn lemma_scaled_rate_is_product(rate: nat, numerator: nat, denominator: nat)
    requires
        scaled_rate(rate, numerator, denominator) is Some,
    ensures
        scaled_rate(rate, numerator, denominator)->0 * denominator <= rate * numerator,
        rate * numerator < (scaled_rate(rate, numerator, denominator)->0 + 1) * denominator
            + 1_000_000_000_000_000_000nat,
{
    lemma_internal_precision_fits();
    let w = 1_000_000_000_000_000_000nat;
    let p = rate * numerator;
    let y = p / w;
    let d = denominator;
    let x = scaled_rate(rate, numerator, denominator)->0;
    assert(d > 0);
    assert(x == (y * w) / d);
    lemma_floor_div_bounds(p, w);
    lemma_floor_div_bounds(y * w, d);
    assert(x * d <= y * w);
    assert(y * w <= p);
    assert(y * w < (x + 1) * d);
    assert(p < (y + 1) * w);
    assert((y + 1) * w == y * w + w) by (nonlinear_arith);
}

/// At a whole-number rate `k` (stored as `k * 10^18`), scaling by a ratio only rounds in the
/// final division: the result is `k * numerator * 10^18 / denominator`. So a ratio of at least
/// one never lowers the rate, and a ratio of exactly one leaves it as it was.
pub proof fn lemma_scaled_whole_rate(k: nat, numerator: nat, denominator: nat)
    requires
        scaled_rate(k * 1_000_000_000_000_000_000nat, numerator, denominator) is Some,
    ensures
        scaled_rate(k * 1_000_000_000_000_000_000nat, numerator, denominator)->0 == (k * numerator
            * 1_000_000_000_000_000_000nat) / denominator,
        numerator >= denominator ==> scaled_rate(
            k * 1_000_000_000_000_000_000nat,
            numerator,
            denominator,
        )->0 >= k * 1_000_000_000_000_000_000nat,
        numerator == denominator ==> scaled_rate(
            k * 1_000_000_000_000_000_000nat,
            numerator,
            denominator,
        )->0 == k * 1_000_000_000_000_000_000nat,
{
    lemma_internal_precision_fits();
    let w = 1_000_000_000_000_000_000nat;
    let d = denominator;
    let n = numerator;
    assert(d > 0);
    assert(k * w * n == (k * n) * w) by (nonlinear_arith);
    vstd::arithmetic::div_mod::lemma_div_multiples_vanish((k * n) as int, w as int);
    assert((k * w * n) / w == k * n);
    assert(k * n * w == (k * n) * w);
    if n >= d {
        assert(k * n * w >= (k * w) * d) by (nonlinear_arith)
            requires
                n >= d,
        ;
        vstd::arithmetic::div_mod::lemma_div_is_ordered(
            ((k * w) * d) as int,
            (k * n * w) as int,
            d as int,
        );
        vstd::arithmetic::div_mod::lemma_div_multiples_vanish((k * w) as int, d as int);
        assert(((k * w) * d) / d == k * w) by {
            assert((k * w) * d == d * (k * w)) by (nonlinear_arith);
        }
        if n == d {
            assert(k * n * w == (k * w) * d) by (nonlinear_arith)
                requires
                    n == d,
            ;
        }
    }
}

impl CumulativeReturnRate {
    /// A rate from a nonzero number; `None` for zero.
    pub fn new(rate: FPInternal) -> (r: Option<Self>)
        ensures
            match r {
                Some(x) => rate@ != 0 && x.0 == rate,
                None => rate@ == 0,
            },
    {
        if rate.0.is_zero() {
            None
        } else {
            Some(CumulativeReturnRate(rate))
        }
    }

    /// The rate one.
    pub fn unity() -> (r: Self)
        ensures
            r.0@ == pow10(18),
    {
        proof {
            lemma_internal_precision_fits();
        }
        CumulativeReturnRate(FPInternal::from_u8(1))
    }

    /// The rate scaled by `numerator / denominator`, or `None` when an operation overflows or the
    /// denominator is zero.
    pub fn checked_mul<const D1: u8>(self, other: Ratio<D1>) -> (r: Option<Self>)
        requires
            rescale_fits(other.numerator@, D1 as nat, 18),
            rescale_fits(other.denominator@, D1 as nat, 18),
        ensures
            match r {
                Some(x) => Some(x.0@) == scaled_rate(
                    self.0@,
                    rescale(other.numerator@, D1 as nat, 18),
                    rescale(other.denominator@, D1 as nat, 18),
                ),
                None => scaled_rate(
                    self.0@,
                    rescale(other.numerator@, D1 as nat, 18),
                    rescale(other.denominator@, D1 as nat, 18),
                ) is None,
            },
    {
        proof {
            lemma_internal_precision_fits();
        }
        let n: FPInternal = other.numerator.change_precision();
        let d: FPInternal = other.denominator.change_precision();
        match self.0.checked_mul(n) {
            Some(x) => match x.checked_div(d) {
                Some(y) => Some(CumulativeReturnRate(y)),
                None => None,
            },
            None => None,
        }
    }

    /// The largest size of the byte encoding.
    pub fn max_len() -> (r: usize)
        ensures
            r == 24,
    {
        FPInternal::max_len()
    }
}

impl core::ops::Deref for CumulativeReturnRate {
    type Target = FPInternal;

    /// The rate as a number.
    fn deref(&self) -> (r: &FPInternal)
        ensures
            *r == self.0,
    {
        &self.0
    }
}

} // verus!
