//! The decimal text form of `FixedPoint` numbers: writing them out and reading them back.
use crate::fixed_point::FixedPoint;
use crate::u192::{U192, lemma_pow10_monotone, lemma_pow10_positive, pow10, u192_bound};
use vstd::prelude::*;
use vstd::string::StrSliceExecFns;
use vstd::string::StringExecFns;

verus! {

/// The character of a decimal digit.
pub open spec fn digit_char(d: nat) -> char {
    if d == 0 {
        '0'
    } else if d == 1 {
        '1'
    } else if d == 2 {
        '2'
    } else if d == 3 {
        '3'
    } else if d == 4 {
        '4'
    } else if d == 5 {
        '5'
    } else if d == 6 {
        '6'
    } else if d == 7 {
        '7'
    } else if d == 8 {
        '8'
    } else {
        '9'
    }
}

/// The decimal digits of `n`, without leading zeros (`0` is written `"0"`).
pub open spec fn int_digits(n: nat) -> Seq<char>
    decreases n,
{
    if n < 10 {
        seq![digit_char(n)]
    } else {
        int_digits(n / 10).push(digit_char(n % 10))
    }
}

/// The last `k` decimal digits of `n`, most significant first, with leading zeros.
pub open spec fn frac_digits(n: nat, k: nat) -> Seq<char>
    decreases k,
{
    if k == 0 {
        seq![]
    } else {
        frac_digits(n / 10, (k - 1) as nat).push(digit_char(n % 10))
    }
}

/// The text of a fixed-point number with `d` digits after the point: the whole part, a point,
/// and exactly `d` digits.
pub open spec fn fixed_point_text(v: nat, d: nat) -> Seq<char> {
    int_digits(v / pow10(d)) + seq!['.'] + frac_digits(v, d)
}

/// Whether a character is a decimal digit.
pub open spec fn is_digit(c: char) -> bool {
    '0' <= c && c <= '9'
}

/// The value of a decimal digit character.
pub open spec fn char_digit(c: char) -> nat {
    ((c as u32) - ('0' as u32)) as nat
}

/// The message for a second decimal point.
pub open spec fn multiple_points_message() -> Seq<char> {
    "More than 1 decimal points found"@
}

/// The message for a character that is neither a digit, a point nor an underscore.
pub open spec fn invalid_char_message(c: char) -> Seq<char> {
    "Invalid char "@ + seq![c]
}

/// Reading one more character: a digit shifts it into the number and counts one more decimal
/// after a point; the first point starts counting decimals, a second one is an error; an
/// underscore is skipped; anything else is an error.
pub open spec fn scan_step(v: nat, dot: Option<nat>, c: char) -> Result<(nat, Option<nat>), Seq<char>> {
    if is_digit(c) {
        Ok(
            (
                v * 10 + char_digit(c),
                match dot {
                    Some(k) => Some(k + 1),
                    None => None,
                },
            ),
        )
    } else if c == '.' {
        if dot is None {
            Ok((v, Some(0nat)))
        } else {
            Err(multiple_points_message())
        }
    } else if c == '_' {
        Ok((v, dot))
    } else {
        Err(invalid_char_message(c))
    }
}

/// The digits of a text read as one integer, with the number of digits after the point if
/// there is one, or the first error.
pub open spec fn scan(s: Seq<char>) -> Result<(nat, Option<nat>), Seq<char>>
    decreases s.len(),
{
    if s.len() == 0 {
        Ok((0, None))
    } else {
        match scan(s.drop_last()) {
            Err(m) => Err(m),
            Ok((v, dot)) => scan_step(v, dot, s.last()),
        }
    }
}

/// Whether the reading of the first `k` characters stays in range: the number below 2^192 and
/// the count of decimals at most 255.
pub open spec fn scan_prefix_fits(s: Seq<char>, k: int) -> bool {
    scan(s.take(k)) matches Ok((v, dot)) ==> v < u192_bound() && (dot matches Some(n) ==> n <= 255)
}

/// The number that `v` with `dot` decimals stands for with `decimals` digits after the point:
/// missing decimals are filled with zeros, extra ones are cut off.
pub open spec fn scaled_value(v: nat, dot: Option<nat>, decimals: nat) -> nat {
    let d = match dot {
        Some(k) => k,
        None => 0,
    };
    if decimals > d {
        v * pow10((decimals - d) as nat)
    } else if decimals < d {
        v / pow10((d - decimals) as nat)
    } else {
        v
    }
}

/// Whether rescaling stays in range: the power of ten fits in a `u64`, and a scaled-up number
/// stays below 2^192.
pub open spec fn scale_fits(v: nat, dot: Option<nat>, decimals: nat) -> bool {
    let d = match dot {
        Some(k) => k,
        None => 0,
    };
    if decimals > d {
        decimals - d <= 19 && v * pow10((decimals - d) as nat) < u192_bound()
    } else if decimals < d {
        d - decimals <= 19
    } else {
        true
    }
}

/// Whether reading a text as a number with `decimals` digits after the point stays in range.
pub open spec fn parse_defined(s: Seq<char>, decimals: nat) -> bool {
    &&& forall|k: int| 0 <= k <= s.len() ==> #[trigger] scan_prefix_fits(s, k)
    &&& scan(s) matches Ok((v, dot)) ==> scale_fits(v, dot, decimals)
}

/// The count of decimals as a number.
pub open spec fn dot_count(dot: Option<u8>) -> Option<nat> {
    match dot {
        Some(k) => Some(k as nat),
        None => None,
    }
}

/// Once reading fails, reading more characters fails with the same error.
proof fn lemma_scan_error_stays(s: Seq<char>, k: int, j: int)
    requires
        0 <= k <= j <= s.len(),
        scan(s.take(k)) is Err,
    ensures
        scan(s.take(j)) == scan(s.take(k)),
    decreases j - k,
{
    if j > k {
        lemma_scan_error_stays(s, k, j - 1);
        assert(s.take(j).drop_last() =~= s.take(j - 1));
    }
}

/// `10^k` for `k <= 19`, which fits in a `u64`.
proof fn lemma_pow10_19()
    ensures
        pow10(19) == 10_000_000_000_000_000_000nat,
        pow10(19) < u192_bound(),
{
    reveal_with_fuel(pow10, 20);
}

/// The character of a digit below ten.
fn digit_str(d: u64) -> (r: &'static str)
    requires
        d < 10,
    ensures
        r@ == seq![digit_char(d as nat)],
{
    match d {
        0 => {
            proof {
                reveal_strlit("0");
            }
            "0"
        },
        1 => {
            proof {
                reveal_strlit("1");
            }
            "1"
        },
        2 => {
            proof {
                reveal_strlit("2");
            }
            "2"
        },
        3 => {
            proof {
                reveal_strlit("3");
            }
            "3"
        },
        4 => {
            proof {
                reveal_strlit("4");
            }
            "4"
        },
        5 => {
            proof {
                reveal_strlit("5");
            }
            "5"
        },
        6 => {
            proof {
                reveal_strlit("6");
            }
            "6"
        },
        7 => {
            proof {
                reveal_strlit("7");
            }
            "7"
        },
        8 => {
            proof {
                reveal_strlit("8");
            }
            "8"
        },
        _ => {
            proof {
                reveal_strlit("9");
            }
            "9"
        },
    }
}

/// Appends the decimal digits of `n`.
fn push_int_digits(s: &mut String, n: &U192)
    ensures
        final(s)@ == old(s)@ + int_digits(n@),
    decreases n@,
{
    let ten = U192::from_u64(10);
    if n.lt(&ten) {
        s.append(digit_str(n.as_u64()));
    } else {
        let (q, r) = n.div_rem(&ten);
        push_int_digits(s, &q);
        s.append(digit_str(r.as_u64()));
        assert(final(s)@ =~= old(s)@ + int_digits(n@));
    }
}

/// Appends the last `k` decimal digits of `n`.
fn push_frac_digits(s: &mut String, n: &U192, k: u8)
    ensures
        final(s)@ == old(s)@ + frac_digits(n@, k as nat),
    decreases k,
{
    if k > 0 {
        let ten = U192::from_u64(10);
        let (q, r) = n.div_rem(&ten);
        push_frac_digits(s, &q, k - 1);
        s.append(digit_str(r.as_u64()));
        assert(final(s)@ =~= old(s)@ + frac_digits(n@, k as nat));
    } else {
        assert(final(s)@ =~= old(s)@ + frac_digits(n@, k as nat));
    }
}

/// The error message for an invalid character, made by std's `format!` with the pattern
/// `"Invalid char {}"`. The contract claims what std documents of `Display` for `char`: it
/// writes the character itself, so the text is `Invalid char ` followed by `c`.
#[verifier::external_body]
fn invalid_char_text(c: char) -> (r: String)
    ensures
        r@ == invalid_char_message(c),
{
    format!("Invalid char {}", c)
}

/// Reads the characters of `s`: the result is `None` where the number or the count of decimals
/// leaves its range.
fn scan_text(s: &str) -> (r: Option<Result<(U192, Option<u8>), String>>)
    ensures
        r is None <==> !(forall|k: int| 0 <= k <= s@.len() ==> #[trigger] scan_prefix_fits(s@, k)),
        r matches Some(Ok((v, dot))) ==> scan(s@) == Ok::<(nat, Option<nat>), Seq<char>>(
            (v@, dot_count(dot)),
        ),
        r matches Some(Err(m)) ==> scan(s@) == Err::<(nat, Option<nat>), Seq<char>>(m@),
{
    let n = s.unicode_len();
    let ten = U192::from_u64(10);
    let mut acc = U192::zero();
    let mut dot: Option<u8> = None;
    let mut i: usize = 0;
    assert(s@.take(0) =~= Seq::<char>::empty());
    while i < n
        invariant
            i <= n,
            n == s@.len(),
            ten@ == 10,
            scan(s@.take(i as int)) == Ok::<(nat, Option<nat>), Seq<char>>((acc@, dot_count(dot))),
            forall|k: int| 0 <= k <= i ==> #[trigger] scan_prefix_fits(s@, k),
        decreases n - i,
    {
        let c = s.get_char(i);
        let ghost prev = s@.take(i as int);
        let ghost next = s@.take(i + 1);
        assert(next.drop_last() =~= prev);
        assert(next.last() == c);
        if '0' <= c && c <= '9' {
            let digit = (c as u32 - '0' as u32) as u64;
            let shifted = match acc.checked_mul_u64(10) {
                Some(x) => x,
                None => {
                    assert(!scan_prefix_fits(s@, i + 1));
                    return None;
                },
            };
            let sum = match shifted.checked_add(&U192::from_u64(digit)) {
                Some(x) => x,
                None => {
                    assert(!scan_prefix_fits(s@, i + 1));
                    return None;
                },
            };
            acc = sum;
            match dot {
                Some(k) => {
                    if k == 255 {
                        assert(!scan_prefix_fits(s@, i + 1));
                        return None;
                    }
                    dot = Some(k + 1);
                },
                None => {},
            }
        } else if c == '.' {
            match dot {
                None => {
                    dot = Some(0);
                },
                Some(_) => {
                    proof {
                        reveal_strlit("More than 1 decimal points found");
                    }
                    let mut m = String::new();
                    m.append("More than 1 decimal points found");
                    proof {
                        assert forall|k: int| 0 <= k <= s@.len() implies #[trigger] scan_prefix_fits(
                            s@,
                            k,
                        ) by {
                            if k > i {
                                lemma_scan_error_stays(s@, i + 1, k);
                            }
                        }
                        lemma_scan_error_stays(s@, i + 1, s@.len() as int);
                        assert(s@.take(s@.len() as int) =~= s@);
                    }
                    return Some(Err(m));
                },
            }
        } else if c == '_' {
        } else {
            let m = invalid_char_text(c);
            proof {
                assert forall|k: int| 0 <= k <= s@.len() implies #[trigger] scan_prefix_fits(s@, k) by {
                    if k > i {
                        lemma_scan_error_stays(s@, i + 1, k);
                    }
                }
                lemma_scan_error_stays(s@, i + 1, s@.len() as int);
                assert(s@.take(s@.len() as int) =~= s@);
            }
            return Some(Err(m));
        }
        i = i + 1;
        assert(scan_prefix_fits(s@, i as int));
    }
    assert(s@.take(n as int) =~= s@);
    Some(Ok((acc, dot)))
}

impl<const D: u8> FixedPoint<D> {
    /// The number written in decimal: the whole part, a point, and exactly `D` digits.
    pub fn to_string(&self) -> (r: String)
        ensures
            r@ == fixed_point_text(self.0@, D as nat),
    {
        let ten = U192::from_u64(10);
        let mut whole = self.0;
        let mut i: u8 = 0;
        assert(pow10(0) == 1);
        assert(self.0@ / 1 == self.0@);
        while i < D
            invariant
                i <= D,
                ten@ == 10,
                whole@ == self.0@ / pow10(i as nat),
            decreases D - i,
        {
            let (q, _) = whole.div_rem(&ten);
            proof {
                lemma_pow10_positive(i as nat);
                vstd::arithmetic::div_mod::lemma_div_denominator(
                    self.0@ as int,
                    pow10(i as nat) as int,
                    10,
                );
                assert(pow10((i + 1) as nat) == pow10(i as nat) * 10);
            }
            whole = q;
            i = i + 1;
        }
        let mut s = String::new();
        push_int_digits(&mut s, &whole);
        proof {
            reveal_strlit(".");
        }
        s.append(".");
        push_frac_digits(&mut s, &self.0, D);
        assert(s@ =~= fixed_point_text(self.0@, D as nat));
        s
    }

    /// Reads a number written in decimal, with `_` allowed between digits: the result has `D`
    /// digits after the point, missing ones filled with zeros and extra ones cut off. A second
    /// point or any other character is an error with its message. The result is `None` where
    /// the number does not fit in 192 bits, or it has more than 255 decimals, or its decimals
    /// differ from `D` by more than 19.
    pub fn from_text(s: &str) -> (r: Option<Result<FixedPoint<D>, String>>)
        ensures
            r is None <==> !parse_defined(s@, D as nat),
            r matches Some(Ok(fp)) ==> scan(s@) matches Ok((v, dot)) && fp.0@ == scaled_value(
                v,
                dot,
                D as nat,
            ),
            r matches Some(Err(m)) ==> scan(s@) matches Err(e) && m@ == e,
    {
        let (v, dot) = match scan_text(s) {
            None => return None,
            Some(Err(m)) => return Some(Err(m)),
            Some(Ok(x)) => x,
        };
        let d: u8 = match dot {
            Some(k) => k,
            None => 0,
        };
        proof {
            lemma_pow10_19();
        }
        if D > d {
            let k = D - d;
            if k > 19 {
                return None;
            }
            proof {
                lemma_pow10_monotone(k as nat, 19);
            }
            let m = U192::pow10(k as u32);
            match v.checked_mul(&m) {
                Some(x) => Some(Ok(FixedPoint(x))),
                None => None,
            }
        } else if D < d {
            let k = d - D;
            if k > 19 {
                return None;
            }
            proof {
                lemma_pow10_monotone(k as nat, 19);
                lemma_pow10_positive(k as nat);
            }
            let m = U192::pow10(k as u32);
            Some(Ok(FixedPoint(v.div_rem(&m).0)))
        } else {
            Some(Ok(FixedPoint(v)))
        }
    }
}

impl<const D: u8> core::str::FromStr for FixedPoint<D> {
    type Err = String;

    fn from_str(s: &str) -> (r: Result<FixedPoint<D>, String>)
        ensures
            !parse_defined(s@, D as nat) ==> (r matches Err(m) && m@ == "Number out of range"@),
            parse_defined(s@, D as nat) ==> match scan(s@) {
                Ok((v, dot)) => (r matches Ok(fp) && fp.0@ == scaled_value(v, dot, D as nat)),
                Err(e) => (r matches Err(m) && m@ == e),
            },
    {
        match FixedPoint::<D>::from_text(s) {
            Some(r) => r,
            None => {
                let mut m = String::new();
                m.append("Number out of range");
                proof {
                    reveal_strlit("Number out of range");
                    assert(m@ =~= "Number out of range"@);
                }
                Err(m)
            },
        }
    }
}

/// Whether a count of decimals is at most another: no point before a point, and fewer decimals
/// before more.
pub open spec fn dot_le(a: Option<nat>, b: Option<nat>) -> bool {
    match a {
        None => true,
        Some(x) => b matches Some(y) && x <= y,
    }
}

/// The digit characters read back as their digits.
proof fn lemma_digit_char(d: nat)
    requires
        d < 10,
    ensures
        is_digit(digit_char(d)),
        char_digit(digit_char(d)) == d,
{
}

/// Reading more characters never makes the number or the count of decimals smaller: every
/// prefix of a text that reads to `v` reads to at most `v`.
proof fn lemma_scan_prefix_bounded(s: Seq<char>, k: int)
    requires
        0 <= k <= s.len(),
        scan(s) is Ok,
    ensures
        scan(s.take(k)) is Ok,
        scan(s.take(k))->Ok_0.0 <= scan(s)->Ok_0.0,
        dot_le(scan(s.take(k))->Ok_0.1, scan(s)->Ok_0.1),
    decreases s.len(),
{
    if k == s.len() {
        assert(s.take(k) =~= s);
        match scan(s)->Ok_0.1 {
            Some(_) => {},
            None => {},
        }
    } else {
        let t = s.drop_last();
        assert(t.take(k) =~= s.take(k));
        lemma_scan_prefix_bounded(t, k);
        let (v1, d1) = scan(t)->Ok_0;
        let (w, e) = scan(t.take(k))->Ok_0;
        assert(v1 <= scan(s)->Ok_0.0) by (nonlinear_arith)
            requires
                is_digit(s.last()) ==> scan(s)->Ok_0.0 == v1 * 10 + char_digit(s.last()),
                !is_digit(s.last()) ==> scan(s)->Ok_0.0 == v1,
        ;
    }
}

/// The decimal digits of `n` read back as `n`.
proof fn lemma_scan_int_digits(n: nat)
    ensures
        scan(int_digits(n)) == Ok::<(nat, Option<nat>), Seq<char>>((n, None)),
    decreases n,
{
    let s = int_digits(n);
    if n < 10 {
        lemma_digit_char(n);
        assert(s.drop_last() =~= Seq::<char>::empty());
        assert(scan(Seq::<char>::empty()) == Ok::<(nat, Option<nat>), Seq<char>>((0, None)));
        assert(s.last() == digit_char(n));
        assert(scan(s) == scan_step(0, None, digit_char(n)));
    } else {
        lemma_scan_int_digits(n / 10);
        lemma_digit_char(n % 10);
        assert(s.drop_last() =~= int_digits(n / 10));
        assert(s.last() == digit_char(n % 10));
        assert(scan(s) == scan_step(n / 10, None, digit_char(n % 10)));
    }
}

/// `n % (10 m)` is the last digit of `n` plus ten times `(n / 10) % m`.
proof fn lemma_mod_shift(n: nat, m: nat)
    requires
        m > 0,
    ensures
        n % (10 * m) == ((n / 10) % m) * 10 + n % 10,
{
    let q = n / 10;
    let r = n % 10;
    let q2 = q / m;
    let r2 = q % m;
    vstd::arithmetic::div_mod::lemma_fundamental_div_mod(n as int, 10);
    vstd::arithmetic::div_mod::lemma_fundamental_div_mod(q as int, m as int);
    assert(n == q2 * (10 * m) + (r2 * 10 + r)) by (nonlinear_arith)
        requires
            n == 10 * q + r,
            q == m * q2 + r2,
    ;
    assert(0 <= r2 * 10 + r < 10 * m) by (nonlinear_arith)
        requires
            0 <= r < 10,
            0 <= r2 < m,
    ;
    vstd::arithmetic::div_mod::lemma_fundamental_div_mod_converse(
        n as int,
        (10 * m) as int,
        q2 as int,
        (r2 * 10 + r) as int,
    );
}

/// After a point, the last `k` digits of `n` add `n % 10^k` to the number shifted by `k` digits,
/// and count `k` decimals.
proof fn lemma_scan_frac_digits(p: Seq<char>, w: nat, n: nat, k: nat)
    requires
        scan(p) == Ok::<(nat, Option<nat>), Seq<char>>((w, Some(0nat))),
    ensures
        scan(p + frac_digits(n, k)) == Ok::<(nat, Option<nat>), Seq<char>>(
            (w * pow10(k) + n % pow10(k), Some(k)),
        ),
    decreases k,
{
    if k == 0 {
        assert(p + frac_digits(n, k) =~= p);
        assert(pow10(0) == 1);
        assert(n % 1 == 0);
        assert(w * 1 == w);
    } else {
        let k1 = (k - 1) as nat;
        lemma_scan_frac_digits(p, w, n / 10, k1);
        lemma_digit_char(n % 10);
        let s = p + frac_digits(n, k);
        assert(s.drop_last() =~= p + frac_digits(n / 10, k1));
        assert(s.last() == digit_char(n % 10));
        assert(scan(s) == scan_step(
            w * pow10(k1) + (n / 10) % pow10(k1),
            Some(k1),
            digit_char(n % 10),
        ));
        lemma_pow10_positive(k1);
        lemma_mod_shift(n, pow10(k1));
        let big_p = pow10(k1);
        let low = (n / 10) % big_p;
        assert(pow10(k) == 10 * big_p);
        assert((w * big_p + low) * 10 == w * (10 * big_p) + low * 10) by (nonlinear_arith);
    }
}

/// Reading back the text of a number gives the number: the text of `v` with `d` decimals reads,
/// in range, to `v` with `d` decimals.
pub proof fn lemma_text_round_trip(v: nat, d: nat)
    requires
        v < u192_bound(),
        d <= 255,
    ensures
        parse_defined(fixed_point_text(v, d), d),
        scan(fixed_point_text(v, d)) == Ok::<(nat, Option<nat>), Seq<char>>((v, Some(d))),
        scaled_value(v, Some(d), d) == v,
{
    lemma_pow10_positive(d);
    let whole = int_digits(v / pow10(d));
    let p = whole + seq!['.'];
    lemma_scan_int_digits(v / pow10(d));
    assert(p.drop_last() =~= whole);
    lemma_scan_frac_digits(p, v / pow10(d), v, d);
    vstd::arithmetic::div_mod::lemma_fundamental_div_mod(v as int, pow10(d) as int);
    let s = fixed_point_text(v, d);
    assert(s =~= p + frac_digits(v, d));
    assert forall|k: int| 0 <= k <= s.len() implies #[trigger] scan_prefix_fits(s, k) by {
        lemma_scan_prefix_bounded(s, k);
    }
}

} // verus!
