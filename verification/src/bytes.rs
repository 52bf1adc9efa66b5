//! Little-endian encoding of integers in byte sequences.
use vstd::prelude::*;

verus! {

/// `256^n`.
pub open spec fn pow256(n: nat) -> nat
    decreases n,
{
    if n == 0 {
        1
    } else {
        256 * pow256((n - 1) as nat)
    }
}

/// The number that little-endian bytes stand for.
pub open spec fn le_value(s: Seq<u8>) -> nat
    decreases s.len(),
{
    if s.len() == 0 {
        0
    } else {
        (s[0] as nat) + 256 * le_value(s.subrange(1, s.len() as int))
    }
}

/// The `n` low bytes of `x`, least significant first.
pub open spec fn le_bytes(x: nat, n: nat) -> Seq<u8>
    decreases n,
{
    if n == 0 {
        seq![]
    } else {
        seq![(x % 256) as u8] + le_bytes(x / 256, (n - 1) as nat)
    }
}

/// `256^n` is positive.
pub proof fn lemma_pow256_positive(n: nat)
    ensures
        pow256(n) >= 1,
    decreases n,
{
    if n > 0 {
        lemma_pow256_positive((n - 1) as nat);
    }
}

/// `n` bytes stand for a number below `256^n`.
pub proof fn lemma_le_value_bound(s: Seq<u8>)
    ensures
        le_value(s) < pow256(s.len()),
    decreases s.len(),
{
    if s.len() > 0 {
        let t = s.subrange(1, s.len() as int);
        lemma_le_value_bound(t);
        assert(pow256(s.len()) == 256 * pow256(t.len()));
        assert(s[0] + 256 * le_value(t) < 256 * pow256(t.len())) by (nonlinear_arith)
            requires
                s[0] < 256,
                le_value(t) < pow256(t.len()),
        ;
    }
}

/// The encoding has `n` bytes.
pub proof fn lemma_le_bytes_len(x: nat, n: nat)
    ensures
        le_bytes(x, n).len() == n,
    decreases n,
{
    if n > 0 {
        lemma_le_bytes_len(x / 256, (n - 1) as nat);
    }
}

/// Reading an encoding gives back the number, when it fits in `n` bytes.
pub proof fn lemma_le_value_of_bytes(x: nat, n: nat)
    requires
        x < pow256(n),
    ensures
        le_value(le_bytes(x, n)) == x,
    decreases n,
{
    lemma_le_bytes_len(x, n);
    if n > 0 {
        let s = le_bytes(x, n);
        let t = le_bytes(x / 256, (n - 1) as nat);
        assert(s.subrange(1, s.len() as int) =~= t);
        assert(x / 256 < pow256((n - 1) as nat)) by (nonlinear_arith)
            requires
                x < 256 * pow256((n - 1) as nat),
        ;
        lemma_le_value_of_bytes(x / 256, (n - 1) as nat);
    } else {
        assert(x == 0);
    }
}

/// Encoding the number that bytes stand for gives back the bytes.
pub proof fn lemma_le_bytes_of_value(s: Seq<u8>)
    ensures
        le_bytes(le_value(s), s.len()) == s,
    decreases s.len(),
{
    if s.len() > 0 {
        let t = s.subrange(1, s.len() as int);
        lemma_le_bytes_of_value(t);
        let v = le_value(s);
        assert(v % 256 == s[0] as nat && v / 256 == le_value(t)) by (nonlinear_arith)
            requires
                v == s[0] + 256 * le_value(t),
                s[0] < 256,
        ;
        assert(le_bytes(v, s.len()) =~= s);
    }
}

/// Reads `n <= 16` little-endian bytes of `input` starting at `off`.
pub fn read_le(input: &[u8], off: usize, n: usize) -> (r: u128)
    requires
        n <= 16,
        off + n <= input@.len(),
    ensures
        r == le_value(input@.subrange(off as int, off + n)),
{
    let mut acc: u128 = 0;
    let mut i: usize = n;
    while i > 0
        invariant
            i <= n <= 16,
            off + n <= input@.len(),
            input@.len() == input.len(),
            acc == le_value(input@.subrange(off + i, off + n)),
            acc < pow256((n - i) as nat),
        decreases i,
    {
        let ghost prev = input@.subrange(off + i, off + n);
        i = i - 1;
        let ghost cur = input@.subrange(off + i, off + n);
        proof {
            assert(cur.subrange(1, cur.len() as int) =~= prev);
            assert(pow256((n - i) as nat) == 256 * pow256((n - i - 1) as nat));
            lemma_pow256_16();
            lemma_pow256_monotone((n - i) as nat, 16);
            assert(input@[off + i as int] + 256 * acc < pow256((n - i) as nat)) by (nonlinear_arith)
                requires
                    acc < pow256((n - i - 1) as nat),
                    input@[off + i as int] < 256,
                    pow256((n - i) as nat) == 256 * pow256((n - i - 1) as nat),
            ;
        }
        let b = input[off + i];
        assert(b == input@[off + i as int]);
        assert(b + 256 * acc < pow256(16));
        acc = b as u128 + 256 * acc;
    }
    acc
}

/// Appends the `n <= 16` low bytes of `x`, least significant first.
pub fn push_le(out: &mut Vec<u8>, x: u128, n: usize)
    requires
        n <= 16,
    ensures
        final(out)@ == old(out)@ + le_bytes(x as nat, n as nat),
{
    let mut v = x;
    let mut i: usize = 0;
    while i < n
        invariant
            i <= n,
            out@ + le_bytes(v as nat, (n - i) as nat) == old(out)@ + le_bytes(x as nat, n as nat),
        decreases n - i,
    {
        let ghost before = out@;
        out.push((v % 256) as u8);
        proof {
            assert(le_bytes(v as nat, (n - i) as nat) == seq![(v % 256) as u8] + le_bytes(
                (v / 256) as nat,
                (n - i - 1) as nat,
            ));
            assert(out@ + le_bytes((v / 256) as nat, (n - i - 1) as nat) =~= before + le_bytes(
                v as nat,
                (n - i) as nat,
            ));
        }
        v = v / 256;
        i = i + 1;
    }
    proof {
        assert(out@ =~= out@ + le_bytes(v as nat, 0));
    }
}

/// `256^n` grows with `n`.
pub proof fn lemma_pow256_monotone(a: nat, b: nat)
    requires
        a <= b,
    ensures
        pow256(a) <= pow256(b),
    decreases b,
{
    if a < b {
        lemma_pow256_monotone(a, (b - 1) as nat);
        lemma_pow256_positive((b - 1) as nat);
    }
}

/// `256^8 == 2^64` and `256^16 == 2^128`.
pub proof fn lemma_pow256_16()
    ensures
        pow256(1) == 256,
        pow256(2) == 65536,
        pow256(8) == 18446744073709551616nat,
        pow256(16) == 340282366920938463463374607431768211456nat,
{
    reveal_with_fuel(pow256, 17);
}

/// Appends the 32 bytes of `b`.
pub fn push_bytes32(out: &mut Vec<u8>, b: &[u8; 32])
    ensures
        final(out)@ == old(out)@ + b@,
{
    let mut i: usize = 0;
    while i < 32
        invariant
            i <= 32,
            out@ == old(out)@ + b@.subrange(0, i as int),
        decreases 32 - i,
    {
        out.push(b[i]);
        assert(b@.subrange(0, i + 1) =~= b@.subrange(0, i as int).push(b@[i as int]));
        i = i + 1;
    }
    assert(b@.subrange(0, 32) =~= b@);
}

/// The 32 bytes of `input` starting at `off`.
pub fn read_bytes32(input: &[u8], off: usize) -> (r: [u8; 32])
    requires
        off + 32 <= input@.len(),
    ensures
        r@ == input@.subrange(off as int, off + 32),
{
    let mut r = [0u8; 32];
    let mut i: usize = 0;
    while i < 32
        invariant
            i <= 32,
            off + 32 <= input@.len(),
            input@.len() == input.len(),
            forall|k: int| 0 <= k < i ==> r@[k] == input@[off + k],
        decreases 32 - i,
    {
        r[i] = input[off + i];
        i = i + 1;
    }
    assert(r@ =~= input@.subrange(off as int, off + 32));
    r
}

/// Writes `src` over the first bytes of `output`, leaving the rest as it was.
pub fn write_prefix(output: &mut [u8], src: &Vec<u8>)
    requires
        src@.len() <= old(output)@.len(),
    ensures
        final(output)@ == src@ + old(output)@.subrange(src@.len() as int, old(output)@.len() as int),
{
    let mut i: usize = 0;
    while i < src.len()
        invariant
            i <= src@.len() <= old(output)@.len(),
            output@.len() == old(output)@.len(),
            forall|k: int| 0 <= k < i ==> output@[k] == src@[k],
            forall|k: int| i <= k < output@.len() ==> output@[k] == old(output)@[k],
        decreases src@.len() - i,
    {
        output[i] = src[i];
        i = i + 1;
    }
    assert(output@ =~= src@ + old(output)@.subrange(src@.len() as int, old(output)@.len() as int));
}

} // verus!
