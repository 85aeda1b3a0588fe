//! Single-precision bit patterns of the values that the benchmark kernels read.

use vstd::arithmetic::power2::{lemma_pow2_unfold, pow2};
use vstd::prelude::*;

verus! {

/// Bit pattern of the single-precision value 1.0.
pub const ONE_BITS: u32 = 0x3F80_0000;

/// Bit pattern of the single-precision value 2.0.
pub const TWO_BITS: u32 = 0x4000_0000;

/// Bit pattern of the single-precision value 3.0.
pub const THREE_BITS: u32 = 0x4040_0000;

/// Integers below this bound are exactly representable in single precision.
pub const EXACT_LIMIT: u32 = 0x0100_0000;

/// Position of the highest set bit of a positive integer.
pub open spec fn log2(i: nat) -> nat
    decreases i,
{
    if i < 2 {
        0
    } else {
        1 + log2(i / 2)
    }
}

/// The single-precision encoding of a natural number below 2^24: sign bit clear,
/// biased exponent `127 + e`, and the 23 fraction bits that follow the leading one.
pub open spec fn single_bits(i: nat) -> nat {
    if i == 0 {
        0
    } else {
        let e = log2(i);
        ((127 + e) * pow2(23) + (i - pow2(e)) * pow2((23 - e) as nat)) as nat
    }
}

proof fn lemma_log2_bounds(i: nat)
    requires
        i >= 1,
    ensures
        pow2(log2(i)) <= i < pow2(log2(i) + 1),
    decreases i,
{
    lemma_pow2_unfold(log2(i) + 1);
    if i >= 2 {
        lemma_log2_bounds(i / 2);
        lemma_pow2_unfold(log2(i));
    } else {
        reveal(vstd::arithmetic::power::pow);
        assert(pow2(0) == 1) by { vstd::arithmetic::power2::lemma2_to64(); }
    }
}

/// The single-precision bit pattern of `i`, for `i` below 2^24.
pub fn single_bits_of_index(i: u32) -> (r: u32)
    requires
        i < EXACT_LIMIT,
    ensures
        r as nat == single_bits(i as nat),
{
    if i == 0 {
        return 0;
    }
    proof {
        vstd::arithmetic::power2::lemma2_to64();
        lemma_log2_bounds(i as nat);
    }
    let ghost e = log2(i as nat);
    proof {
        if e > 23 {
            vstd::arithmetic::power2::lemma_pow2_strictly_increases(24, e);
        }
    }
    // Shift the value up until its leading one sits at bit 23.
    let mut m: u32 = i;
    let mut k: u32 = 0;
    while m < 0x0080_0000
        invariant
            1 <= i < 0x0100_0000,
            pow2(e) <= i < pow2(e + 1),
            e <= 23,
            k + e <= 23,
            m as nat == i as nat * pow2(k as nat),
            pow2((e + k) as nat) <= m < pow2((e + k + 1) as nat),
            pow2(23) == 0x0080_0000,
            pow2(24) == 0x0100_0000,
        decreases 23 - k - e,
    {
        proof {
            if e + k >= 23 {
                if e + k > 23 {
                    vstd::arithmetic::power2::lemma_pow2_strictly_increases(23, (e + k) as nat);
                }
                assert(false);
            }
            lemma_pow2_unfold((k + 1) as nat);
            lemma_pow2_unfold((e + k + 1) as nat);
            lemma_pow2_unfold((e + k + 2) as nat);
        }
        m = m * 2;
        k = k + 1;
        proof {
            assert(m as nat == i as nat * pow2(k as nat)) by (nonlinear_arith)
                requires m as nat == 2 * (i as nat * pow2((k - 1) as nat)), pow2(k as nat) == 2 * pow2((k - 1) as nat);
        }
    }
    proof {
        if e + k < 23 {
            vstd::arithmetic::power2::lemma_pow2_strictly_increases((e + k + 1) as nat, 23);
        }
        if e + k > 23 {
            vstd::arithmetic::power2::lemma_pow2_strictly_increases(24, (e + k) as nat);
        }
        assert(e + k == 23);
        vstd::arithmetic::power2::lemma_pow2_adds(e, k as nat);
        assert((i - pow2(e)) * pow2(k as nat) == m - pow2(23)) by (nonlinear_arith)
            requires m == i * pow2(k as nat), pow2(23) == pow2(e) * pow2(k as nat);
        vstd::arithmetic::power2::lemma_pow2_adds(e, k as nat);
    }
    let exp: u32 = 150 - k;
    exp * 0x0080_0000 + (m - 0x0080_0000)
}

} // verus!
