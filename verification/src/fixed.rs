//! Saturating fixed-point arithmetic over `u64` micro-units.
//!
//! All combat quantities are integers counting millionths: `SCALE` stands for
//! 1.0.  Operations saturate rather than wrap, so every function here is total
//! and its result is pinned exactly by its contract.

use vstd::prelude::*;
use crate::SCALE;

verus! {

/// `a + b`, clamped to `u64::MAX`.
pub open spec fn sat_add_spec(a: u64, b: u64) -> u64 {
    if a + b > u64::MAX { u64::MAX } else { (a + b) as u64 }
}

/// `a - b`, clamped to zero.
pub open spec fn sat_sub_spec(a: u64, b: u64) -> u64 {
    if a >= b { (a - b) as u64 } else { 0 }
}

/// `a * b`, clamped to `u64::MAX`.
pub open spec fn sat_mul_spec(a: u64, b: u64) -> u64 {
    if a * b > u64::MAX { u64::MAX } else { (a * b) as u64 }
}

/// Fixed-point product: `a * b / SCALE`, clamped to `u64::MAX`.
pub open spec fn fp_mul_spec(a: u64, b: u64) -> u64 {
    if a * b / (SCALE as int) > u64::MAX { u64::MAX } else { (a * b / (SCALE as int)) as u64 }
}

/// The smaller of two values.
pub open spec fn min_spec(a: u64, b: u64) -> u64 {
    if a <= b { a } else { b }
}

pub proof fn lemma_u64_product_fits(a: u64, b: u64)
    ensures
        a * b <= u128::MAX,
{
    assert(a * b <= (u64::MAX as int) * (u64::MAX as int)) by (nonlinear_arith)
        requires
            a <= u64::MAX,
            b <= u64::MAX,
    ;
}

/// A fixed-point factor of at most one never enlarges a quantity.
pub proof fn lemma_fp_mul_le_one(a: u64, b: u64)
    requires
        b <= SCALE,
    ensures
        fp_mul_spec(a, b) <= a,
{
    let s = SCALE as int;
    assert(a * b <= a * s) by (nonlinear_arith)
        requires
            b <= s,
            0 <= a,
    ;
    vstd::arithmetic::div_mod::lemma_div_is_ordered((a * b) as int, (a * s) as int, s);
    vstd::arithmetic::div_mod::lemma_div_by_multiple(a as int, s);
}

/// A fixed-point factor of at least one never shrinks a quantity.
pub proof fn lemma_fp_mul_ge_one(a: u64, b: u64)
    requires
        b >= SCALE,
    ensures
        fp_mul_spec(a, b) >= a,
{
    let s = SCALE as int;
    assert(a * s <= a * b) by (nonlinear_arith)
        requires
            s <= b,
            0 <= a,
    ;
    vstd::arithmetic::div_mod::lemma_div_is_ordered((a * s) as int, (a * b) as int, s);
    vstd::arithmetic::div_mod::lemma_div_by_multiple(a as int, s);
}

/// Fixed-point scaling is monotone in the quantity scaled.
pub proof fn lemma_fp_mul_le_left(a1: u64, a2: u64, b: u64)
    requires
        a1 <= a2,
    ensures
        fp_mul_spec(a1, b) <= fp_mul_spec(a2, b),
{
    let s = SCALE as int;
    vstd::arithmetic::mul::lemma_mul_inequality(a1 as int, a2 as int, b as int);
    vstd::arithmetic::div_mod::lemma_div_is_ordered((a1 * b) as int, (a2 * b) as int, s);
}

pub fn sat_add(a: u64, b: u64) -> (r: u64)
    ensures
        r == sat_add_spec(a, b),
{
    if b > u64::MAX - a {
        u64::MAX
    } else {
        a + b
    }
}

pub fn sat_sub(a: u64, b: u64) -> (r: u64)
    ensures
        r == sat_sub_spec(a, b),
{
    if a >= b {
        a - b
    } else {
        0
    }
}

pub fn sat_mul(a: u64, b: u64) -> (r: u64)
    ensures
        r == sat_mul_spec(a, b),
{
    proof {
        lemma_u64_product_fits(a, b);
    }
    let p: u128 = (a as u128) * (b as u128);
    if p > u64::MAX as u128 {
        u64::MAX
    } else {
        p as u64
    }
}

pub fn fp_mul(a: u64, b: u64) -> (r: u64)
    ensures
        r == fp_mul_spec(a, b),
{
    proof {
        lemma_u64_product_fits(a, b);
    }
    let p: u128 = (a as u128) * (b as u128) / (SCALE as u128);
    if p > u64::MAX as u128 {
        u64::MAX
    } else {
        p as u64
    }
}

pub fn min64(a: u64, b: u64) -> (r: u64)
    ensures
        r == min_spec(a, b),
{
    if a <= b {
        a
    } else {
        b
    }
}

} // verus!
