//! The circuit's size parameter: the row count the layout needs and the
//! least power-of-two exponent that covers it, consumed by a proving system
//! to size its evaluation domain.

use vstd::prelude::*;

use vstd::arithmetic::power2::pow2;

verus! {

/// The rows the circuit needs for `n` terms: one for the public value, two
/// for the private loads, and two per step.
pub open spec fn rows_required(n: int) -> int {
    3 + 2 * n
}

/// `k` fits `n` exactly when `2^k` covers the required rows and `k` is the
/// least such exponent.
pub open spec fn is_k_for(k: int, n: int) -> bool {
    &&& k >= 0
    &&& pow2(k as nat) >= rows_required(n)
    &&& k > 0 ==> pow2((k - 1) as nat) < rows_required(n)
}

/// The least `k` with `2^k >= rows_required(n)`.
pub fn calc_k(n: usize) -> (r: u32)
    ensures
        is_k_for(r as int, n as int),
{
    let rows: u128 = 3 + 2 * (n as u128);
    let mut k: u32 = 0;
    let mut p: u128 = 1;
    proof {
        vstd::arithmetic::power2::lemma2_to64();
    }
    while p < rows
        invariant
            rows == rows_required(n as int),
            p == pow2(k as nat),
            k <= 66,
            k > 0 ==> pow2((k - 1) as nat) < rows,
        decreases 67 - k,
    {
        proof {
            vstd::arithmetic::power2::lemma2_to64();
            vstd::arithmetic::power2::lemma_pow2_adds(64, 2);
            assert(pow2(66) == pow2(64) * pow2(2));
            assert(rows < pow2(66));
            assert(k < 66);
            vstd::arithmetic::power2::lemma_pow2_adds(k as nat, 1);
            assert(pow2((k + 1) as nat) == pow2(k as nat) * 2);
        }
        p = p * 2;
        k = k + 1;
    }
    k
}

/// The size parameter never shrinks as the term count grows; that `2^k`
/// covers the required rows is part of `is_k_for` itself.
pub proof fn lemma_k_monotone(n1: int, n2: int, k1: int, k2: int)
    requires
        0 <= n1 <= n2,
        is_k_for(k1, n1),
        is_k_for(k2, n2),
    ensures
        k1 <= k2,
{
    if k1 > k2 {
        if k1 - 1 > k2 {
            vstd::arithmetic::power2::lemma_pow2_strictly_increases(k2 as nat, (k1 - 1) as nat);
        }
        assert(pow2((k1 - 1) as nat) >= pow2(k2 as nat));
        assert(false);
    }
}

} // verus!
