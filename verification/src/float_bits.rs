//! The IEEE-754 binary64 bit pattern of a whole number, for numbers that a
//! `f64` holds exactly. Coordinates are kept as such patterns.

use vstd::prelude::*;
use vstd::arithmetic::power2::{lemma_pow2_adds, lemma_pow2_strictly_increases, lemma_pow2_unfold, pow2};

verus! {

/// The position of the highest set bit of `n` (0 for 0 and 1).
pub open spec fn ilog2(n: nat) -> nat
    decreases n,
{
    if n < 2 {
        0
    } else {
        1 + ilog2(n / 2)
    }
}

/// The bits of the `f64` equal to `n`: sign 0, biased exponent `1023 + e`
/// where `2^e <= n < 2^(e+1)`, and the 52 bits of `n` below its highest one.
pub open spec fn f64_bits_of(n: nat) -> nat {
    if n == 0 {
        0
    } else {
        let e = ilog2(n);
        ((1023 + e) * pow2(52) + (n - pow2(e)) * pow2((52 - e) as nat)) as nat
    }
}

pub proof fn lemma_ilog2_bounds(n: nat)
    requires
        n >= 1,
    ensures
        pow2(ilog2(n)) <= n < pow2(ilog2(n) + 1),
    decreases n,
{
    lemma_pow2_unfold(ilog2(n) + 1);
    if n >= 2 {
        lemma_ilog2_bounds(n / 2);
        lemma_pow2_unfold(ilog2(n));
        lemma_pow2_unfold(ilog2(n / 2) + 1);
    } else {
        vstd::arithmetic::power2::lemma2_to64();
    }
}

pub proof fn lemma_ilog2_unique(n: nat, e: nat)
    requires
        pow2(e) <= n < pow2(e + 1),
    ensures
        e == ilog2(n),
{
    vstd::arithmetic::power2::lemma_pow2_pos(e);
    lemma_ilog2_bounds(n);
    let k = ilog2(n);
    if e < k {
        if e + 1 < k {
            lemma_pow2_strictly_increases(e + 1, k);
        }
    } else if k < e {
        if k + 1 < e {
            lemma_pow2_strictly_increases(k + 1, e);
        }
    }
}

/// The bit pattern of the `f64` equal to `n`.
pub fn f64_bits(n: u64) -> (b: u64)
    requires
        n < 0x20_0000_0000_0000,
    ensures
        b == f64_bits_of(n as nat),
{
    if n == 0 {
        return 0;
    }
    proof {
        vstd::arithmetic::power2::lemma2_to64();
        vstd::arithmetic::power2::lemma2_to64_rest();
    }
    let mut e: u64 = 0;
    let mut p: u64 = 1;
    let mut q: u64 = 0x10_0000_0000_0000;
    while p <= n / 2
        invariant
            1 <= p <= n < 0x20_0000_0000_0000,
            e <= 52,
            p == pow2(e as nat),
            q == pow2((52 - e) as nat),
            pow2(52) == 0x10_0000_0000_0000,
            pow2(53) == 0x20_0000_0000_0000,
        decreases n - p,
    {
        proof {
            if e == 52 {
                assert(p * 2 <= n);
            }
            lemma_pow2_unfold((e + 1) as nat);
            lemma_pow2_unfold((52 - e) as nat);
        }
        p = p * 2;
        q = q / 2;
        e = e + 1;
    }
    proof {
        lemma_pow2_unfold((e + 1) as nat);
        lemma_ilog2_unique(n as nat, e as nat);
        lemma_pow2_adds(e as nat, (52 - e) as nat);
        assert(p * q == 0x10_0000_0000_0000);
        assert((n - p) * q < p * q) by (nonlinear_arith)
            requires
                n - p < p,
                q > 0,
        ;
    }
    let frac = (n - p) * q;
    (1023 + e) * 0x10_0000_0000_0000 + frac
}

} // verus!
