//! A 192-bit unsigned integer made of three little-endian 64-bit limbs.
//!
//! Every operation is specified over `@`, the mathematical value of the number.
use vstd::arithmetic::div_mod::lemma_fundamental_div_mod_converse;
use vstd::prelude::*;

verus! {

/// 2^64, the base of one limb.
#[verifier::inline]
pub open spec fn limb_base() -> nat {
    18446744073709551616nat
}

/// 2^128.
#[verifier::inline]
pub open spec fn limb_base2() -> nat {
    340282366920938463463374607431768211456nat
}

/// 2^192: every value of a `U192` is below it.
#[verifier::inline]
pub open spec fn u192_bound() -> nat {
    6277101735386680763835789423207666416102355444464034512896nat
}

/// `10^n`.
pub open spec fn pow10(n: nat) -> nat
    decreases n,
{
    if n == 0 {
        1
    } else {
        10 * pow10((n - 1) as nat)
    }
}

/// `2^n`.
pub open spec fn pow2n(n: nat) -> nat
    decreases n,
{
    if n == 0 {
        1
    } else {
        2 * pow2n((n - 1) as nat)
    }
}

/// `10^n` is at least one.
pub proof fn lemma_pow10_positive(n: nat)
    ensures
        pow10(n) >= 1,
    decreases n,
{
    if n > 0 {
        lemma_pow10_positive((n - 1) as nat);
    }
}

/// `10^n` grows with `n`.
pub proof fn lemma_pow10_monotone(a: nat, b: nat)
    requires
        a <= b,
    ensures
        pow10(a) <= pow10(b),
    decreases b,
{
    if a < b {
        lemma_pow10_monotone(a, (b - 1) as nat);
        lemma_pow10_positive((b - 1) as nat);
    }
}

/// `10^(a + b) == 10^a * 10^b`.
pub proof fn lemma_pow10_add(a: nat, b: nat)
    ensures
        pow10(a + b) == pow10(a) * pow10(b),
    decreases b,
{
    let x = pow10(a);
    if b > 0 {
        lemma_pow10_add(a, (b - 1) as nat);
        let y = pow10((b - 1) as nat);
        assert((a + b - 1) as nat == a + (b - 1) as nat);
        assert(pow10(a + b) == 10 * (x * y));
        assert(pow10(b) == 10 * y);
        assert(10 * (x * y) == x * (10 * y)) by (nonlinear_arith);
    } else {
        assert(x * 1 == x) by (nonlinear_arith);
    }
}

/// `10^57` is the largest power of ten below 2^192.
pub proof fn lemma_pow10_57()
    ensures
        pow10(57) < u192_bound(),
        pow10(58) >= u192_bound(),
{
    reveal_with_fuel(pow10, 20);
    assert(pow10(19) == 10000000000000000000nat);
    lemma_pow10_add(19, 19);
    lemma_pow10_add(38, 19);
    lemma_pow10_add(57, 1);
    assert(pow10(1) == 10);
}

/// `2^n` is at least one.
pub proof fn lemma_pow2n_positive(n: nat)
    ensures
        pow2n(n) >= 1,
    decreases n,
{
    if n > 0 {
        lemma_pow2n_positive((n - 1) as nat);
    }
}

/// A 192-bit unsigned integer; `self.0[0]` is the least significant limb.
#[derive(Clone, Copy, Debug, PartialEq, Eq)]
pub struct U192(pub [u64; 3]);

impl View for U192 {
    type V = nat;

    /// The number that the limbs stand for.
    open spec fn view(&self) -> nat {
        self.0[0] as nat + self.0[1] as nat * limb_base() + self.0[2] as nat * limb_base2()
    }
}

/// `a / b` rounds down: it times `b` is at most `a`, and one more times `b` is above `a`.
pub(crate) proof fn lemma_floor_div_bounds(a: nat, b: nat)
    requires
        b > 0,
    ensures
        (a / b) * b <= a,
        a < (a / b + 1) * b,
{
    vstd::arithmetic::div_mod::lemma_fundamental_div_mod(a as int, b as int);
    vstd::arithmetic::div_mod::lemma_mod_bound(a as int, b as int);
    let q = a / b;
    let r = a % b;
    assert(q * b <= a && a < (q + 1) * b) by (nonlinear_arith)
        requires
            a == b * q + r,
            0 <= r < b,
    ;
}

/// Every `U192` is below 2^192.
pub proof fn lemma_u192_bound(x: U192)
    ensures
        x@ < u192_bound(),
{
}

/// Two numbers with the same value have the same limbs.
pub proof fn lemma_u192_view_injective(x: U192, y: U192)
    requires
        x@ == y@,
    ensures
        x == y,
{
    assert(x.0[2] == y.0[2]);
    assert(x.0[1] == y.0[1]);
    assert(x.0[0] == y.0[0]);
    assert(x.0 =~= y.0);
}

/// Splits a value below 2^128 into its low and high 64 bits.
fn split_u128(p: u128) -> (r: (u64, u64))
    ensures
        p == r.0 as nat + r.1 as nat * limb_base(),
{
    let lo = (p % 0x1_0000_0000_0000_0000u128) as u64;
    let hi = (p / 0x1_0000_0000_0000_0000u128) as u64;
    (lo, hi)
}

impl U192 {
    /// Zero.
    pub fn zero() -> (r: U192)
        ensures
            r@ == 0,
    {
        U192([0, 0, 0])
    }

    /// One.
    pub fn one() -> (r: U192)
        ensures
            r@ == 1,
    {
        U192([1, 0, 0])
    }

    /// The value of a `u64`.
    pub fn from_u64(x: u64) -> (r: U192)
        ensures
            r@ == x,
    {
        U192([x, 0, 0])
    }

    /// The value of a `u128`.
    pub fn from_u128(x: u128) -> (r: U192)
        ensures
            r@ == x,
    {
        let (lo, hi) = split_u128(x);
        U192([lo, hi, 0])
    }

    /// Whether the value is zero.
    pub fn is_zero(&self) -> (r: bool)
        ensures
            r == (self@ == 0),
    {
        self.0[0] == 0 && self.0[1] == 0 && self.0[2] == 0
    }

    /// Whether `self < other`.
    pub fn lt(&self, other: &U192) -> (r: bool)
        ensures
            r == (self@ < other@),
    {
        if self.0[2] != other.0[2] {
            self.0[2] < other.0[2]
        } else if self.0[1] != other.0[1] {
            self.0[1] < other.0[1]
        } else {
            self.0[0] < other.0[0]
        }
    }

    /// Whether `self <= other`.
    pub fn le(&self, other: &U192) -> (r: bool)
        ensures
            r == (self@ <= other@),
    {
        !other.lt(self)
    }

    /// Whether the two values are equal.
    pub fn eq_value(&self, other: &U192) -> (r: bool)
        ensures
            r == (self@ == other@),
    {
        self.0[0] == other.0[0] && self.0[1] == other.0[1] && self.0[2] == other.0[2]
    }

    /// The value as a `u64`; the value must fit.
    pub fn as_u64(&self) -> (r: u64)
        requires
            self@ < limb_base(),
        ensures
            r == self@,
    {
        self.0[0]
    }

    /// The value as a `u128`; the value must fit.
    pub fn as_u128(&self) -> (r: u128)
        requires
            self@ < limb_base2(),
        ensures
            r == self@,
    {
        self.0[0] as u128 + (self.0[1] as u128) * 0x1_0000_0000_0000_0000u128
    }

    /// The value as a `u64` when it fits.
    pub fn try_to_u64(&self) -> (r: Option<u64>)
        ensures
            match r {
                Some(x) => self@ < limb_base() && x == self@,
                None => self@ >= limb_base(),
            },
    {
        if self.0[1] == 0 && self.0[2] == 0 {
            Some(self.0[0])
        } else {
            None
        }
    }

    /// The value as a `u128` when it fits.
    pub fn try_to_u128(&self) -> (r: Option<u128>)
        ensures
            match r {
                Some(x) => self@ < limb_base2() && x == self@,
                None => self@ >= limb_base2(),
            },
    {
        if self.0[2] == 0 {
            Some(self.as_u128())
        } else {
            None
        }
    }

    /// `self + other`, or `None` when the sum reaches 2^192.
    pub fn checked_add(&self, other: &U192) -> (r: Option<U192>)
        ensures
            match r {
                Some(x) => x@ == self@ + other@,
                None => self@ + other@ >= u192_bound(),
            },
    {
        let (r0, c0) = split_u128(self.0[0] as u128 + other.0[0] as u128);
        let (r1, c1) = split_u128(self.0[1] as u128 + other.0[1] as u128 + c0 as u128);
        let (r2, c2) = split_u128(self.0[2] as u128 + other.0[2] as u128 + c1 as u128);
        if c2 != 0 {
            None
        } else {
            Some(U192([r0, r1, r2]))
        }
    }

    /// `self - other`, or `None` when `other > self`.
    pub fn checked_sub(&self, other: &U192) -> (r: Option<U192>)
        ensures
            match r {
                Some(x) => x@ == self@ - other@,
                None => self@ < other@,
            },
    {
        if self.lt(other) {
            return None;
        }
        // Add the complement of each limb plus a borrow, as in schoolbook subtraction.
        let (r0, c0) = split_u128(
            self.0[0] as u128 + 0x1_0000_0000_0000_0000u128 - other.0[0] as u128,
        );
        let (r1, c1) = split_u128(
            self.0[1] as u128 + 0xFFFF_FFFF_FFFF_FFFFu128 - other.0[1] as u128 + c0 as u128,
        );
        let (r2, c2) = split_u128(
            self.0[2] as u128 + 0xFFFF_FFFF_FFFF_FFFFu128 - other.0[2] as u128 + c1 as u128,
        );
        Some(U192([r0, r1, r2]))
    }

    /// `self * s` for a one-limb factor, or `None` when the product reaches 2^192.
    pub fn checked_mul_u64(&self, s: u64) -> (r: Option<U192>)
        ensures
            match r {
                Some(x) => x@ == self@ * s,
                None => self@ * s >= u192_bound(),
            },
    {
        let a0 = self.0[0];
        let a1 = self.0[1];
        let a2 = self.0[2];
        proof {
            assert(a0 * s <= 0xFFFF_FFFF_FFFF_FFFF * 0xFFFF_FFFF_FFFF_FFFF) by (nonlinear_arith)
                requires
                    a0 <= 0xFFFF_FFFF_FFFF_FFFFu64,
                    s <= 0xFFFF_FFFF_FFFF_FFFFu64,
            ;
            assert(a1 * s <= 0xFFFF_FFFF_FFFF_FFFF * 0xFFFF_FFFF_FFFF_FFFF) by (nonlinear_arith)
                requires
                    a1 <= 0xFFFF_FFFF_FFFF_FFFFu64,
                    s <= 0xFFFF_FFFF_FFFF_FFFFu64,
            ;
            assert(a2 * s <= 0xFFFF_FFFF_FFFF_FFFF * 0xFFFF_FFFF_FFFF_FFFF) by (nonlinear_arith)
                requires
                    a2 <= 0xFFFF_FFFF_FFFF_FFFFu64,
                    s <= 0xFFFF_FFFF_FFFF_FFFFu64,
            ;
        }
        let (r0, c0) = split_u128((a0 as u128) * (s as u128));
        let (r1, c1) = split_u128((a1 as u128) * (s as u128) + c0 as u128);
        let (r2, c2) = split_u128((a2 as u128) * (s as u128) + c1 as u128);
        proof {
            let t0 = a0 as int * s as int;
            let t1 = a1 as int * s as int;
            let t2 = a2 as int * s as int;
            assert(self@ * s == t0 + t1 * limb_base() + t2 * limb_base2()) by (nonlinear_arith)
                requires
                    self@ == a0 as int + a1 as int * limb_base() + a2 as int * limb_base2(),
                    t0 == a0 as int * s as int,
                    t1 == a1 as int * s as int,
                    t2 == a2 as int * s as int,
            ;
            assert(self@ * s == r0 + r1 * limb_base() + r2 * limb_base2() + c2 * u192_bound());
        }
        if c2 != 0 {
            None
        } else {
            Some(U192([r0, r1, r2]))
        }
    }

    /// `self * 2^64`, or `None` when it reaches 2^192.
    fn checked_shift_limb(&self) -> (r: Option<U192>)
        ensures
            match r {
                Some(x) => x@ == self@ * limb_base(),
                None => self@ * limb_base() >= u192_bound(),
            },
    {
        if self.0[2] != 0 {
            None
        } else {
            Some(U192([0, self.0[0], self.0[1]]))
        }
    }

    /// `self * other`, or `None` when the product reaches 2^192.
    pub fn checked_mul(&self, other: &U192) -> (r: Option<U192>)
        ensures
            match r {
                Some(x) => x@ == self@ * other@,
                None => self@ * other@ >= u192_bound(),
            },
    {
        let b0 = other.0[0];
        let b1 = other.0[1];
        let b2 = other.0[2];
        let ghost a = self@;
        proof {
            assert(a * other@ == a * b0 + (a * b1) * limb_base() + ((a * b2) * limb_base())
                * limb_base()) by (nonlinear_arith)
                requires
                    other@ == b0 as int + b1 as int * limb_base() + b2 as int * limb_base2(),
                    limb_base2() == limb_base() * limb_base(),
            ;
            assert(a * b0 <= a * other@) by (nonlinear_arith)
                requires
                    other@ == b0 as int + b1 as int * limb_base() + b2 as int * limb_base2(),
                    a >= 0,
            ;
            assert((a * b1) * limb_base() <= a * other@) by (nonlinear_arith)
                requires
                    other@ == b0 as int + b1 as int * limb_base() + b2 as int * limb_base2(),
                    a >= 0,
            ;
            assert(a * b1 <= (a * b1) * limb_base()) by (nonlinear_arith)
                requires
                    a >= 0,
            ;
            assert(((a * b2) * limb_base()) * limb_base() <= a * other@) by (nonlinear_arith)
                requires
                    other@ == b0 as int + b1 as int * limb_base() + b2 as int * limb_base2(),
                    a >= 0,
            ;
            assert(a * b2 <= (a * b2) * limb_base()) by (nonlinear_arith)
                requires
                    a >= 0,
            ;
            assert((a * b2) * limb_base() <= ((a * b2) * limb_base()) * limb_base())
                by (nonlinear_arith)
                requires
                    a >= 0,
            ;
        }
        let t0 = match self.checked_mul_u64(b0) {
            Some(t) => t,
            None => return None,
        };
        let t1 = match self.checked_mul_u64(b1) {
            Some(t) => t,
            None => return None,
        };
        let t1s = match t1.checked_shift_limb() {
            Some(t) => t,
            None => return None,
        };
        let t2 = match self.checked_mul_u64(b2) {
            Some(t) => t,
            None => return None,
        };
        let t2s = match t2.checked_shift_limb() {
            Some(t) => t,
            None => return None,
        };
        let t2ss = match t2s.checked_shift_limb() {
            Some(t) => t,
            None => return None,
        };
        let s1 = match t0.checked_add(&t1s) {
            Some(t) => t,
            None => return None,
        };
        s1.checked_add(&t2ss)
    }

    /// `floor(self / 2)`.
    fn half(&self) -> (r: U192)
        ensures
            r@ == self@ / 2,
            r@ * 2 + self@ % 2 == self@,
    {
        let a0 = self.0[0];
        let a1 = self.0[1];
        let a2 = self.0[2];
        let r2 = a2 / 2;
        let r1 = a1 / 2 + (a2 % 2) * 0x8000_0000_0000_0000u64;
        let r0 = a0 / 2 + (a1 % 2) * 0x8000_0000_0000_0000u64;
        let r = U192([r0, r1, r2]);
        proof {
            assert(r@ * 2 + a0 % 2 == self@);
            assert(self@ % 2 == a0 % 2);
        }
        r
    }

    /// Quotient and remainder of `self / d` for a nonzero `d`.
    pub fn div_rem(&self, d: &U192) -> (r: (U192, U192))
        requires
            d@ > 0,
        ensures
            r.0@ == self@ / d@,
            r.1@ == self@ % d@,
    {
        if self.lt(d) {
            proof {
                lemma_fundamental_div_mod_converse(self@ as int, d@ as int, 0, self@ as int);
            }
            return (U192::zero(), *self);
        }
        // Find the largest multiple `d * 2^k` that does not exceed `self`.
        let mut dd = *d;
        let mut k: u32 = 0;
        proof {
            assert(pow2n(0) == 1);
            assert(d@ * pow2n(0) == d@) by (nonlinear_arith)
                requires
                    pow2n(0) == 1,
            ;
        }
        loop
            invariant
                dd@ == d@ * pow2n(k as nat),
                dd@ <= self@,
                d@ > 0,
                k <= 192,
            ensures
                dd@ == d@ * pow2n(k as nat),
                dd@ <= self@,
                self@ < dd@ * 2,
            decreases 192 - k,
        {
            proof {
                lemma_pow2n_positive(k as nat);
                assert(d@ * pow2n(k as nat) >= pow2n(k as nat)) by (nonlinear_arith)
                    requires
                        d@ >= 1,
                ;
                lemma_pow2n_192_bound(k as nat);
            }
            match dd.checked_mul_u64(2) {
                Some(next) => {
                    if next.le(self) {
                        proof {
                            assert(d@ * pow2n((k + 1) as nat) == d@ * pow2n(k as nat) * 2)
                                by (nonlinear_arith)
                                requires
                                    pow2n((k + 1) as nat) == 2 * pow2n(k as nat),
                            ;
                            lemma_pow2n_192_bound((k + 1) as nat);
                            assert(pow2n((k + 1) as nat) <= d@ * pow2n((k + 1) as nat))
                                by (nonlinear_arith)
                                requires
                                    d@ >= 1,
                            ;
                        }
                        dd = next;
                        k = k + 1;
                    } else {
                        break ;
                    }
                },
                None => {
                    break ;
                },
            }
        }
        // Shift and subtract, from the largest multiple down to `d` itself.
        let mut q = U192::zero();
        let mut rem = *self;
        let mut i: u32 = k;
        loop
            invariant
                dd@ == d@ * pow2n(i as nat),
                self@ == q@ * dd@ + rem@,
                rem@ < dd@ * 2,
                d@ > 0,
            decreases i,
        {
            if dd.le(&rem) {
                proof {
                    assert((q@ + 1) * dd@ <= self@) by (nonlinear_arith)
                        requires
                            self@ == q@ * dd@ + rem@,
                            dd@ <= rem@,
                    ;
                    assert(q@ + 1 <= (q@ + 1) * dd@) by (nonlinear_arith)
                        requires
                            dd@ >= 1,
                            q@ >= 0,
                        ;
                    lemma_u192_bound(*self);
                }
                let q1 = q.checked_add(&U192::one());
                rem = match rem.checked_sub(&dd) {
                    Some(x) => x,
                    None => rem,
                };
                q = match q1 {
                    Some(x) => x,
                    None => q,
                };
                proof {
                    assert(self@ == q@ * dd@ + rem@) by (nonlinear_arith)
                        requires
                            self@ == (q@ - 1) * dd@ + rem@ + dd@,
                    ;
                }
            }
            // Here `rem < dd`.
            if i == 0 {
                proof {
                    assert(pow2n(0) == 1);
                    assert(dd@ == d@) by (nonlinear_arith)
                        requires
                            dd@ == d@ * pow2n(0),
                            pow2n(0) == 1,
                    ;
                    lemma_fundamental_div_mod_converse(
                        self@ as int,
                        d@ as int,
                        q@ as int,
                        rem@ as int,
                    );
                }
                return (q, rem);
            }
            proof {
                assert(pow2n(i as nat) == 2 * pow2n((i - 1) as nat));
                assert(dd@ == 2 * (d@ * pow2n((i - 1) as nat))) by (nonlinear_arith)
                    requires
                        dd@ == d@ * pow2n(i as nat),
                        pow2n(i as nat) == 2 * pow2n((i - 1) as nat),
                ;
                lemma_pow2n_positive((i - 1) as nat);
                assert(d@ * pow2n((i - 1) as nat) >= 1) by (nonlinear_arith)
                    requires
                        d@ >= 1,
                        pow2n((i - 1) as nat) >= 1,
                ;
                assert(q@ * 2 <= self@) by (nonlinear_arith)
                    requires
                        self@ == q@ * dd@ + rem@,
                        dd@ >= 2,
                        q@ >= 0,
                ;
                lemma_u192_bound(*self);
            }
            let half = dd.half();
            let q2 = q.checked_mul_u64(2);
            q = match q2 {
                Some(x) => x,
                None => q,
            };
            dd = half;
            i = i - 1;
            proof {
                assert(self@ == q@ * dd@ + rem@) by (nonlinear_arith)
                    requires
                        self@ == (q@ / 2) * (dd@ * 2) + rem@,
                        q@ % 2 == 0,
                ;
            }
        }
    }

    /// `self / d`, or `None` when `d` is zero.
    pub fn checked_div(&self, d: &U192) -> (r: Option<U192>)
        ensures
            match r {
                Some(x) => d@ > 0 && x@ == self@ / d@,
                None => d@ == 0,
            },
    {
        if d.is_zero() {
            None
        } else {
            Some(self.div_rem(d).0)
        }
    }

    /// `10^n`; it must be below 2^192 (that is, `n <= 57`).
    pub fn pow10(n: u32) -> (r: U192)
        requires
            pow10(n as nat) < u192_bound(),
        ensures
            r@ == pow10(n as nat),
    {
        let mut acc = U192::one();
        let mut i: u32 = 0;
        while i < n
            invariant
                i <= n,
                acc@ == pow10(i as nat),
                pow10(n as nat) < u192_bound(),
            decreases n - i,
        {
            proof {
                lemma_pow10_monotone((i + 1) as nat, n as nat);
            }
            acc = match acc.checked_mul_u64(10) {
                Some(x) => x,
                None => acc,
            };
            i = i + 1;
        }
        acc
    }
}

/// `2^(a + b) == 2^a * 2^b`.
proof fn lemma_pow2n_add(a: nat, b: nat)
    ensures
        pow2n(a + b) == pow2n(a) * pow2n(b),
    decreases b,
{
    let x = pow2n(a);
    if b > 0 {
        lemma_pow2n_add(a, (b - 1) as nat);
        let y = pow2n((b - 1) as nat);
        assert((a + b - 1) as nat == a + (b - 1) as nat);
        assert(pow2n(a + b) == 2 * (x * y));
        assert(pow2n(b) == 2 * y);
        assert(2 * (x * y) == x * (2 * y)) by (nonlinear_arith);
    } else {
        assert(x * 1 == x) by (nonlinear_arith);
    }
}

/// `2^n` grows with `n`.
proof fn lemma_pow2n_monotone(a: nat, b: nat)
    requires
        a <= b,
    ensures
        pow2n(a) <= pow2n(b),
    decreases b,
{
    if a < b {
        lemma_pow2n_monotone(a, (b - 1) as nat);
        lemma_pow2n_positive((b - 1) as nat);
    }
}

/// `2^n` reaches 2^192 from `n == 192` on.
proof fn lemma_pow2n_192_bound(n: nat)
    ensures
        n >= 192 ==> pow2n(n) >= u192_bound(),
{
    reveal_with_fuel(pow2n, 17);
    assert(pow2n(16) == 65536);
    lemma_pow2n_add(16, 16);
    lemma_pow2n_add(32, 32);
    lemma_pow2n_add(64, 64);
    lemma_pow2n_add(128, 64);
    assert(pow2n(32) == 4294967296nat);
    assert(pow2n(64) == 18446744073709551616nat) by (nonlinear_arith)
        requires
            pow2n(64) == pow2n(32) * pow2n(32),
            pow2n(32) == 4294967296nat,
    ;
    assert(pow2n(128) == 340282366920938463463374607431768211456nat) by (nonlinear_arith)
        requires
            pow2n(128) == pow2n(64) * pow2n(64),
            pow2n(64) == 18446744073709551616nat,
    ;
    assert(pow2n(192) == u192_bound()) by (nonlinear_arith)
        requires
            pow2n(192) == pow2n(128) * pow2n(64),
            pow2n(64) == 18446744073709551616nat,
            pow2n(128) == 340282366920938463463374607431768211456nat,
    ;
    if n >= 192 {
        lemma_pow2n_monotone(192, n);
    }
}

} // verus!
