use vstd::prelude::*;

verus! {

/// Value of a little-endian byte sequence.
pub open spec fn le_value(s: Seq<u8>) -> nat
    decreases s.len(),
{
    if s.len() == 0 {
        0
    } else {
        s[0] as nat + 256 * le_value(s.drop_first())
    }
}

/// Every little-endian value of `n` bytes is below `256^n`.
pub proof fn lemma_le_value_bound(s: Seq<u8>)
    ensures
        le_value(s) < pow256(s.len()),
    decreases s.len(),
{
    if s.len() > 0 {
        lemma_le_value_bound(s.drop_first());
        let r = le_value(s.drop_first());
        let p = pow256((s.len() - 1) as nat);
        assert(s[0] as nat + 256 * r < 256 * p) by (nonlinear_arith)
            requires
                r < p,
                s[0] < 256,
        ;
    }
}

pub open spec fn pow256(n: nat) -> nat
    decreases n,
{
    if n == 0 {
        1
    } else {
        256 * pow256((n - 1) as nat)
    }
}

/// Splitting off the last byte of a little-endian sequence.
pub proof fn lemma_le_value_push_front(s: Seq<u8>, k: int, e: int)
    requires
        0 <= k < e <= s.len(),
    ensures
        le_value(s.subrange(k, e)) == s[k] as nat + 256 * le_value(s.subrange(k + 1, e)),
{
    assert(s.subrange(k, e).drop_first() =~= s.subrange(k + 1, e));
}

/// Reads `n` bytes at `off` as a little-endian unsigned integer.
pub fn read_le(bytes: &[u8], off: usize, n: usize) -> (r: u64)
    requires
        n <= 8,
        off + n <= bytes@.len(),
    ensures
        r as nat == le_value(bytes@.subrange(off as int, off + n)),
{
    let len = bytes.len();
    let mut v: u64 = 0;
    let mut k: usize = n;
    proof {
        assert(bytes@.subrange(off + n, off + n).len() == 0);
    }
    while k > 0
        invariant
            k <= n <= 8,
            off + n <= bytes@.len(),
            bytes@.len() == len,
            v as nat == le_value(bytes@.subrange(off + k, off + n)),
        decreases k,
    {
        proof {
            lemma_le_value_bound(bytes@.subrange(off + k, off + n));
            lemma_pow256_mono((n - k) as nat, 7);
            lemma_pow256_7();
            lemma_le_value_push_front(bytes@, off + k - 1, off + n);
        }
        let b = bytes[off + k - 1];
        assert(v * 256 + b < 0x1_0000_0000_0000_0000) by (nonlinear_arith)
            requires
                v < 0x100_0000_0000_0000,
                b < 256,
        ;
        v = v * 256 + b as u64;
        k = k - 1;
    }
    v
}

pub proof fn lemma_pow256_mono(a: nat, b: nat)
    requires
        a <= b,
    ensures
        pow256(a) <= pow256(b),
    decreases b,
{
    if a < b {
        lemma_pow256_mono(a, (b - 1) as nat);
    }
}

pub proof fn lemma_pow256_7()
    ensures
        pow256(7) == 0x100_0000_0000_0000,
{
    reveal_with_fuel(pow256, 8);
}

} // verus!
