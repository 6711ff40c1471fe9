//! Shared integer helpers for the proportional conversions the facades do:
//! luminosity to duty, position to duty, position to target.

use vstd::arithmetic::div_mod::{lemma_div_is_ordered, lemma_div_multiples_vanish};
use vstd::arithmetic::mul::{
    lemma_mul_inequality, lemma_mul_is_commutative, lemma_mul_upper_bound,
};
use vstd::prelude::*;

verus! {

/// A product scaled down by a factor at least as large as one operand
/// never exceeds the other operand.
pub proof fn lemma_mul_div_le(a: int, b: int, d: int)
    requires
        0 <= a,
        0 <= b <= d,
        0 < d,
    ensures
        (a * b) / d <= a,
{
    lemma_mul_inequality(b, d, a);
    lemma_mul_is_commutative(b, a);
    lemma_mul_is_commutative(d, a);
    lemma_div_is_ordered(a * b, d * a, d);
    lemma_div_multiples_vanish(a, d);
}

/// Compute `a * b / d` exactly in 64-bit intermediate arithmetic. One of
/// the factors staying within the divisor bounds the result by the other.
pub fn mul_div_u32(a: u32, b: u32, d: u32) -> (r: u32)
    requires
        d > 0,
        a <= d || b <= d,
    ensures
        r == (a as int * b as int) / (d as int),
        b <= d ==> r <= a,
        a <= d ==> r <= b,
{
    proof {
        lemma_mul_upper_bound(a as int, 0xFFFF_FFFF, b as int, 0xFFFF_FFFF);
        if b <= d {
            lemma_mul_div_le(a as int, b as int, d as int);
        }
        if a <= d {
            lemma_mul_is_commutative(a as int, b as int);
            lemma_mul_div_le(b as int, a as int, d as int);
        }
    }
    (((a as u64) * (b as u64)) / (d as u64)) as u32
}

} // verus!
