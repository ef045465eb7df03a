//! Powers of two.

use vstd::prelude::*;

verus! {

/// `2^n`, and 1 for a negative `n`.
pub open spec fn two_pow(n: int) -> int
    decreases n,
{
    if n <= 0 {
        1
    } else {
        2 * two_pow(n - 1)
    }
}

/// Every power of two is at least 1.
pub proof fn lemma_two_pow_positive(n: int)
    ensures
        two_pow(n) >= 1,
    decreases n,
{
    if n > 0 {
        lemma_two_pow_positive(n - 1);
    }
}

/// The exponents of a product add up.
pub proof fn lemma_two_pow_adds(a: int, b: int)
    requires
        a >= 0,
        b >= 0,
    ensures
        two_pow(a + b) == two_pow(a) * two_pow(b),
    decreases a,
{
    if a > 0 {
        lemma_two_pow_adds(a - 1, b);
        assert(two_pow(a + b) == 2 * two_pow(a - 1 + b));
        assert(2 * (two_pow(a - 1) * two_pow(b)) == (2 * two_pow(a - 1)) * two_pow(b))
            by (nonlinear_arith);
    } else {
        assert(two_pow(a) == 1);
        assert(1 * two_pow(b) == two_pow(b));
    }
}

/// A larger exponent gives no smaller power.
pub proof fn lemma_two_pow_monotonic(a: int, b: int)
    requires
        a <= b,
    ensures
        two_pow(a) <= two_pow(b),
    decreases b,
{
    lemma_two_pow_positive(a);
    lemma_two_pow_positive(b);
    if b > 0 && a < b {
        lemma_two_pow_monotonic(a, b - 1);
    }
}

/// The powers of two that the proofs below compare with.
pub proof fn lemma_two_pow_values()
    ensures
        two_pow(0) == 1,
        two_pow(1) == 2,
        two_pow(8) == 0x100,
        two_pow(16) == 0x1_0000,
        two_pow(23) == 0x80_0000,
        two_pow(24) == 0x100_0000,
        two_pow(31) == 0x8000_0000,
        two_pow(32) == 0x1_0000_0000,
        two_pow(33) == 0x2_0000_0000,
{
    assert(two_pow(1) == 2) by {
        reveal_with_fuel(two_pow, 2);
    }
    assert(two_pow(8) == 0x100) by {
        reveal_with_fuel(two_pow, 9);
    }
    lemma_two_pow_adds(8, 8);
    lemma_two_pow_adds(16, 8);
    assert(two_pow(23) == 0x80_0000) by {
        assert(two_pow(24) == 2 * two_pow(23));
    }
    lemma_two_pow_adds(16, 16);
    assert(two_pow(31) == 0x8000_0000) by {
        assert(two_pow(32) == 2 * two_pow(31));
    }
    assert(two_pow(33) == 2 * two_pow(32));
}

} // verus!
