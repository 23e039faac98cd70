//! Alignment arithmetic: powers of two and rounding down to a multiple.

use vstd::arithmetic::div_mod::{lemma_mod_breakdown, lemma_mod_decreases, lemma_mod_pos_bound};
use vstd::arithmetic::power2::is_pow2;
use vstd::prelude::*;

verus! {

/// The largest multiple of `align` that does not exceed `n`.
pub open spec fn align_down(n: nat, align: nat) -> nat
    recommends
        align > 0,
{
    (n - n % align) as nat
}

/// One halving step of the power-of-two test, on the bit level.
proof fn lemma_single_bit_halves(n: usize)
    requires
        n > 1,
    ensures
        (n & ((n - 1) as usize) == 0) <==> (n % 2 == 0 && (n / 2) & ((n / 2 - 1) as usize) == 0),
{
    assert((n & ((n - 1) as usize) == 0) <==> (n % 2 == 0 && (n / 2) & ((n / 2 - 1) as usize) == 0))
        by (bit_vector)
        requires
            n > 1,
    ;
}

/// A word is a power of two exactly when it is not zero and shares no bit
/// with its predecessor.
pub proof fn lemma_pow2_single_bit(n: usize)
    ensures
        is_pow2(n as int) <==> (n != 0 && n & ((n - 1) as usize) == 0),
    decreases n,
{
    reveal(is_pow2);
    if n == 0 {
    } else if n == 1 {
        assert(1usize & 0usize == 0) by (bit_vector);
    } else {
        lemma_single_bit_halves(n);
        lemma_pow2_single_bit(n / 2);
    }
}

/// The bits of `n` below a power of two are its remainder by that power.
proof fn lemma_low_bits_are_remainder(n: usize, align: usize)
    requires
        is_pow2(align as int),
    ensures
        n & ((align - 1) as usize) == n % align,
    decreases align,
{
    reveal(is_pow2);
    if align == 1 {
        assert(n & 0usize == 0) by (bit_vector);
    } else {
        let half: usize = align / 2;
        lemma_low_bits_are_remainder(n / 2, half);
        assert(n & ((align - 1) as usize) == 2 * ((n / 2) & ((align / 2 - 1) as usize)) + n % 2)
            by (bit_vector)
            requires
                align % 2 == 0,
                align >= 2,
        ;
        lemma_mod_breakdown(n as int, 2, half as int);
    }
}

/// Rounding down lands on a multiple of `align`, at most `n`, and gives up
/// less than `align`.
pub proof fn lemma_align_down(n: nat, align: nat)
    requires
        align > 0,
    ensures
        align_down(n, align) % align == 0,
        align_down(n, align) <= n,
        n - align_down(n, align) < align,
{
    lemma_mod_pos_bound(n as int, align as int);
    lemma_mod_decreases(n, align);
    assert((n - n % align) % (align as int) == 0) by (nonlinear_arith)
        requires
            align > 0,
    ;
}

/// A power of two is positive.
pub proof fn lemma_pow2_positive(align: int)
    requires
        is_pow2(align),
    ensures
        align > 0,
{
    reveal(is_pow2);
}

/// Clearing the bits below a power of two rounds down to a multiple of it.
pub proof fn lemma_mask_rounds_down(n: usize, align: usize)
    requires
        is_pow2(align as int),
    ensures
        n & !((align - 1) as usize) == align_down(n as nat, align as nat),
{
    lemma_pow2_positive(align as int);
    let low: usize = (align - 1) as usize;
    lemma_low_bits_are_remainder(n, align);
    assert(n & !low == n - (n & low)) by (bit_vector);
}

/// Tells whether `n` is a power of two.
pub fn is_power_of_two(n: usize) -> (yes: bool)
    ensures
        yes == is_pow2(n as int),
{
    proof {
        lemma_pow2_single_bit(n);
    }
    n != 0 && n & (n - 1) == 0
}

} // verus!
