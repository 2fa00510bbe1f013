//! Bounds for the 128-bit intermediates of the fixed-point arithmetic.
use vstd::arithmetic::mul::lemma_mul_inequality;
use vstd::prelude::*;

verus! {

/// The product of two 64-bit values fits in 128 bits.
pub proof fn lemma_product_fits(a: u64, b: u64)
    ensures
        a * b <= u128::MAX,
{
    lemma_mul_inequality(a as int, u64::MAX as int, b as int);
    lemma_mul_inequality(b as int, u64::MAX as int, u64::MAX as int);
    assert(u64::MAX * u64::MAX <= u128::MAX) by (nonlinear_arith);
}

} // verus!
