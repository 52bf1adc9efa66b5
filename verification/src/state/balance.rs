//! Stake balances that follow the cumulative return rate.
//!
//! A balance stores an amount together with the cumulative return rate at which it was last
//! updated. Its current value is `amount * current_rate / starting_rate`, so no stake account has
//! to be touched when an epoch's returns change the rate.
use crate::fixed_point::{
    FPInternal, checked_add_spec, checked_div_spec, checked_mul_spec, checked_sub_spec, fp_div,
    fp_mul, fp_opt,
};
use crate::state::return_rate::{CumulativeReturnRate, lemma_internal_precision_fits};
use crate::u192::{pow10, u192_bound};
use vstd::arithmetic::div_mod::{lemma_div_is_ordered, lemma_div_multiples_vanish, lemma_fundamental_div_mod};
use vstd::prelude::*;

verus! {

/// The value of `amount`, stored at rate `starting`, read at rate `current`: the checked 18-digit
/// product `amount * current`, then the checked 18-digit quotient by `starting`.
pub open spec fn amount_at(amount: nat, starting: nat, current: nat) -> Option<nat> {
    match checked_mul_spec(amount, current, 18) {
        Some(x) => checked_div_spec(x, starting, 18),
        None => None,
    }
}

/// A stake balance: an amount and the cumulative return rate it was stored at.
#[derive(Clone, Copy, Debug, PartialEq, Eq)]
pub struct FloatingBalance {
    pub amount: FPInternal,
    pub starting_rate: CumulativeReturnRate,
}

impl FloatingBalance {
    /// A balance of `amount` stored at `starting_rate`.
    pub fn new(amount: FPInternal, starting_rate: CumulativeReturnRate) -> (r: Self)
        ensures
            r.amount == amount,
            r.starting_rate == starting_rate,
    {
        FloatingBalance { amount, starting_rate }
    }

    /// The value of the balance at `current_rate`, or `None` on overflow or a zero starting rate.
    pub fn get_amount(&self, current_rate: CumulativeReturnRate) -> (r: Option<FPInternal>)
        ensures
            fp_opt(r) == amount_at(self.amount@, self.starting_rate.0@, current_rate.0@),
    {
        proof {
            lemma_internal_precision_fits();
        }
        match self.amount.checked_mul(current_rate.0) {
            Some(x) => x.checked_div(self.starting_rate.0),
            None => None,
        }
    }

    /// The same balance re-stored at `current_rate`.
    pub fn apply_current_rate(&self, current_rate: CumulativeReturnRate) -> (r: Option<Self>)
        ensures
            match r {
                Some(b) => b.starting_rate == current_rate && amount_at(
                    self.amount@,
                    self.starting_rate.0@,
                    current_rate.0@,
                ) == Some(b.amount@),
                None => amount_at(self.amount@, self.starting_rate.0@, current_rate.0@) is None,
            },
    {
        let amount = match self.get_amount(current_rate) {
            Some(a) => a,
            None => return None,
        };
        Some(FloatingBalance { amount, starting_rate: current_rate })
    }

    /// The balance re-stored at `current_rate` with `amount` added.
    pub fn checked_add(&self, amount: FPInternal, current_rate: CumulativeReturnRate) -> (r: Option<
        Self,
    >)
        ensures
            match r {
                Some(b) => b.starting_rate == current_rate && match amount_at(
                    self.amount@,
                    self.starting_rate.0@,
                    current_rate.0@,
                ) {
                    Some(v) => checked_add_spec(v, amount@) == Some(b.amount@),
                    None => false,
                },
                None => match amount_at(self.amount@, self.starting_rate.0@, current_rate.0@) {
                    Some(v) => checked_add_spec(v, amount@) is None,
                    None => true,
                },
            },
    {
        let mut x = match self.apply_current_rate(current_rate) {
            Some(b) => b,
            None => return None,
        };
        x.amount = match x.amount.checked_add(amount) {
            Some(a) => a,
            None => return None,
        };
        Some(x)
    }

    /// The balance re-stored at `current_rate` with `amount` taken away.
    pub fn checked_sub(&self, amount: FPInternal, current_rate: CumulativeReturnRate) -> (r: Option<
        Self,
    >)
        ensures
            match r {
                Some(b) => b.starting_rate == current_rate && match amount_at(
                    self.amount@,
                    self.starting_rate.0@,
                    current_rate.0@,
                ) {
                    Some(v) => checked_sub_spec(v, amount@) == Some(b.amount@),
                    None => false,
                },
                None => match amount_at(self.amount@, self.starting_rate.0@, current_rate.0@) {
                    Some(v) => checked_sub_spec(v, amount@) is None,
                    None => true,
                },
            },
    {
        let mut x = match self.apply_current_rate(current_rate) {
            Some(b) => b,
            None => return None,
        };
        x.amount = match x.amount.checked_sub(amount) {
            Some(a) => a,
            None => return None,
        };
        Some(x)
    }

    /// The largest size of the byte encoding.
    pub fn max_len() -> (r: usize)
        ensures
            r == 48,
    {
        FPInternal::max_len() + CumulativeReturnRate::max_len()
    }
}

/// Reading a balance at the rate it was stored at never gives more than the stored amount: the
/// truncations of the two fixed-point steps only ever round down.
pub proof fn lemma_amount_at_own_rate_never_grows(amount: nat, rate: nat)
    requires
        rate > 0,
    ensures
        match amount_at(amount, rate, rate) {
            Some(v) => v <= amount,
            None => true,
        },
{
    lemma_internal_precision_fits();
    let w = pow10(18);
    if amount * rate < u192_bound() {
        let x = fp_mul(amount, rate, 18);
        // x * w <= amount * rate
        lemma_fundamental_div_mod((amount * rate) as int, w as int);
        assert(x * w <= amount * rate) by (nonlinear_arith)
            requires
                x == (amount * rate) / w,
                amount * rate == w * ((amount * rate) / w) + (amount * rate) % w,
                (amount * rate) % w >= 0,
        ;
        lemma_div_is_ordered((x * w) as int, (amount * rate) as int, rate as int);
        lemma_div_multiples_vanish(amount as int, rate as int);
        assert((amount * rate) / rate == amount) by (nonlinear_arith)
            requires
                (rate * amount) / rate == amount,
        ;
    }
}

/// At a whole-number rate `k` (stored as `k * 10^18`), reading a balance at the rate it was
/// stored at gives back exactly the stored amount.
pub proof fn lemma_amount_at_whole_rate(amount: nat, k: nat)
    requires
        k >= 1,
        amount * (k * pow10(18)) < u192_bound(),
    ensures
        amount_at(amount, k * pow10(18), k * pow10(18)) == Some(amount),
{
    lemma_internal_precision_fits();
    let w = pow10(18);
    let rate = k * w;
    assert(amount * rate == (amount * k) * w) by (nonlinear_arith)
        requires
            rate == k * w,
    ;
    lemma_div_multiples_vanish((amount * k) as int, w as int);
    assert(((amount * k) * w) / w == amount * k) by (nonlinear_arith)
        requires
            (w * (amount * k)) / w == amount * k,
    ;
    assert(fp_mul(amount, rate, 18) == amount * k);
    assert((amount * k) * w == amount * rate) by (nonlinear_arith)
        requires
            rate == k * w,
    ;
    lemma_div_multiples_vanish(amount as int, rate as int);
    assert((amount * rate) / rate == amount) by (nonlinear_arith)
        requires
            (rate * amount) / rate == amount,
    ;
    assert(fp_div(amount * k, rate, 18) == amount);
}

/// Depositing `x` into a balance at a whole-number rate and reading it back at that rate gives
/// the balance's old value plus `x`.
pub proof fn lemma_deposit_then_read(balance: FloatingBalance, x: nat, k: nat, new_amount: nat)
    requires
        k >= 1,
        amount_at(balance.amount@, balance.starting_rate.0@, k * pow10(18)) is Some,
        checked_add_spec(
            amount_at(balance.amount@, balance.starting_rate.0@, k * pow10(18))->0,
            x,
        ) == Some(new_amount),
        new_amount * (k * pow10(18)) < u192_bound(),
    ensures
        amount_at(new_amount, k * pow10(18), k * pow10(18)) == Some(
            amount_at(balance.amount@, balance.starting_rate.0@, k * pow10(18))->0 + x,
        ),
{
    lemma_amount_at_whole_rate(new_amount, k);
}

} // verus!
