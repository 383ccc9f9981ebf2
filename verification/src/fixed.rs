//! Signed fixed-point scalars.
//!
//! A scalar is an `i64` holding `v * ONE` for a real value `v`.  The one
//! nontrivial operation is the product, which rescales by `ONE` and rounds
//! toward zero, exactly as the spec function [`fxs`] says.

use vstd::arithmetic::div_mod::{lemma_div_is_ordered, lemma_div_multiples_vanish};
use vstd::prelude::*;

verus! {

/// The fixed-point scale: the representation of the real number one.
pub const ONE: i64 = 4096;

/// Largest magnitude `fx_mul` accepts; the product of two such values
/// fits in an `i64`.
pub const FX_IN_MAX: i64 = 0x7fff_ffff;

/// Largest magnitude `fx_mul` can return under its precondition:
/// `FX_IN_MAX * FX_IN_MAX / ONE` rounded up to a power of two.
pub const FX_OUT_MAX: i64 = 0x4_0000_0000_0000;

/// The fixed-point product of `a` and `b`: their integer product scaled
/// back down by `ONE`, rounded toward zero.
pub open spec fn fxs(a: int, b: int) -> int {
    if a * b >= 0 {
        (a * b) / (ONE as int)
    } else {
        -((-(a * b)) / (ONE as int))
    }
}

/// The product of two values bounded by `FX_IN_MAX` stays within `i64`.
proof fn lemma_product_fits(a: int, b: int)
    requires
        -FX_IN_MAX <= a <= FX_IN_MAX,
        -FX_IN_MAX <= b <= FX_IN_MAX,
    ensures
        -0x3fff_ffff_0000_0001 <= a * b <= 0x3fff_ffff_0000_0001,
{
    assert(-0x3fff_ffff_0000_0001 <= a * b <= 0x3fff_ffff_0000_0001) by (nonlinear_arith)
        requires
            -FX_IN_MAX <= a <= FX_IN_MAX,
            -FX_IN_MAX <= b <= FX_IN_MAX,
    ;
}

/// A bound on the inputs of `fxs` gives a bound on its result.
pub proof fn lemma_fxs_bound(a: int, b: int, ba: int, bb: int)
    requires
        -ba <= a <= ba,
        -bb <= b <= bb,
    ensures
        -((ba * bb) / (ONE as int)) <= fxs(a, b) <= (ba * bb) / (ONE as int),
{
    assert(0 <= ba && 0 <= bb);
    assert(-(ba * bb) <= a * b && a * b <= ba * bb) by (nonlinear_arith)
        requires
            -ba <= a <= ba,
            -bb <= b <= bb,
            0 <= ba,
            0 <= bb,
    ;
    let p = a * b;
    if p >= 0 {
        lemma_div_is_ordered(p, ba * bb, ONE as int);
        assert((ba * bb) / (ONE as int) >= 0) by {
            lemma_div_is_ordered(0, ba * bb, ONE as int);
        }
    } else {
        lemma_div_is_ordered(-p, ba * bb, ONE as int);
        assert((-p) / (ONE as int) >= 0) by {
            lemma_div_is_ordered(0, -p, ONE as int);
        }
    }
}

/// The fixed-point product does not depend on the order of its factors.
pub proof fn lemma_fxs_comm(a: int, b: int)
    ensures
        fxs(a, b) == fxs(b, a),
{
    vstd::arithmetic::mul::lemma_mul_is_commutative(a, b);
}

/// Zero is absorbing for the fixed-point product.
pub proof fn lemma_fxs_zero(b: int)
    ensures
        fxs(0, b) == 0,
        fxs(b, 0) == 0,
{
    vstd::arithmetic::div_mod::lemma_div_basics(ONE as int);
}

/// One is neutral for the fixed-point product.
pub proof fn lemma_fxs_one(b: int)
    ensures
        fxs(ONE as int, b) == b,
        fxs(b, ONE as int) == b,
{
    let one = ONE as int;
    lemma_div_multiples_vanish(b, one);
    lemma_div_multiples_vanish(-b, one);
    assert(b * one == one * b);
    if one * b < 0 {
        assert(-(one * b) == one * (-b));
    }
}

/// Fixed-point product, rounded toward zero.
pub fn fx_mul(a: i64, b: i64) -> (r: i64)
    requires
        -FX_IN_MAX <= a <= FX_IN_MAX,
        -FX_IN_MAX <= b <= FX_IN_MAX,
    ensures
        r == fxs(a as int, b as int),
        -FX_OUT_MAX <= r <= FX_OUT_MAX,
{
    proof {
        lemma_product_fits(a as int, b as int);
    }
    let p: i64 = a * b;
    if p >= 0 {
        let q: u64 = (p as u64) / (ONE as u64);
        proof {
            lemma_div_is_ordered(p as int, 0x3fff_ffff_0000_0001, ONE as int);
        }
        q as i64
    } else {
        let q: u64 = ((-p) as u64) / (ONE as u64);
        proof {
            lemma_div_is_ordered(-(p as int), 0x3fff_ffff_0000_0001, ONE as int);
        }
        -(q as i64)
    }
}

} // verus!
