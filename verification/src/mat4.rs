//! 4x4 fixed-point matrices.
//!
//! A matrix stores sixteen fixed-point scalars in column-major order: the
//! entry in row `r` and column `c` sits at index `c * 4 + r`, and a
//! translation sits in the fourth column.  The view of a matrix is the
//! sequence of its entries as mathematical integers, and every operation is
//! specified as a function on such sequences.

use crate::fixed::{fx_mul, fxs, lemma_fxs_bound, lemma_fxs_one, lemma_fxs_zero, FX_IN_MAX, ONE};
use vstd::array::ArrayAdditionalSpecFns;
use vstd::prelude::*;

verus! {

/// A 4x4 matrix of fixed-point scalars in column-major order.
pub struct Mat4 {
    pub e: [i64; 16],
}

impl View for Mat4 {
    type V = Seq<int>;

    open spec fn view(&self) -> Seq<int> {
        Seq::new(16, |i: int| self.e[i] as int)
    }
}

/// The entry of `m` in row `r`, column `c`.
pub open spec fn entry(m: Seq<int>, r: int, c: int) -> int {
    m[c * 4 + r]
}

/// All sixteen entries of `m` lie within `-b ..= b`.
pub open spec fn mat_bounded(m: Seq<int>, b: int) -> bool {
    m.len() == 16 && forall|i: int| 0 <= i < 16 ==> -b <= #[trigger] m[i] <= b
}

/// A bound on a matrix also holds for any larger bound.
pub proof fn lemma_mat_bounded_widen(m: Seq<int>, b1: int, b2: int)
    requires
        mat_bounded(m, b1),
        b1 <= b2,
    ensures
        mat_bounded(m, b2),
{
}

/// The fixed-point inner product of row `r` of `a` with column `c` of `b`.
pub open spec fn dot_s(a: Seq<int>, b: Seq<int>, r: int, c: int) -> int {
    fxs(a[r], b[c * 4]) + fxs(a[4 + r], b[c * 4 + 1]) + fxs(a[8 + r], b[c * 4 + 2]) + fxs(
        a[12 + r],
        b[c * 4 + 3],
    )
}

/// The fixed-point matrix product of `a` and `b`.
pub open spec fn mul_s(a: Seq<int>, b: Seq<int>) -> Seq<int> {
    Seq::new(16, |i: int| dot_s(a, b, i % 4, i / 4))
}

/// Bounds on two matrices give a bound on their product.
pub proof fn lemma_mul_s_bounded(a: Seq<int>, b: Seq<int>, ba: int, bb: int)
    requires
        mat_bounded(a, ba),
        mat_bounded(b, bb),
    ensures
        mat_bounded(mul_s(a, b), 4 * ((ba * bb) / (ONE as int))),
{
    let bound = 4 * ((ba * bb) / (ONE as int));
    assert forall|i: int| 0 <= i < 16 implies -bound <= #[trigger] mul_s(a, b)[i] <= bound by {
        let r = i % 4;
        let c = i / 4;
        assert(0 <= r < 4 && 0 <= c < 4);
        lemma_fxs_bound(a[r], b[c * 4], ba, bb);
        lemma_fxs_bound(a[4 + r], b[c * 4 + 1], ba, bb);
        lemma_fxs_bound(a[8 + r], b[c * 4 + 2], ba, bb);
        lemma_fxs_bound(a[12 + r], b[c * 4 + 3], ba, bb);
    }
}

/// The fixed-point inner product of row `r` of `a` with column `c` of `b`.
fn dot(a: &Mat4, b: &Mat4, r: usize, c: usize) -> (d: i64)
    requires
        r < 4,
        c < 4,
        mat_bounded(a@, FX_IN_MAX as int),
        mat_bounded(b@, FX_IN_MAX as int),
    ensures
        d == dot_s(a@, b@, r as int, c as int),
{
    proof {
        let fx = FX_IN_MAX as int;
        assert forall|i: int| 0 <= i < 16 implies -fx <= #[trigger] (a.e[i] as int) <= fx by {
            assert(a@[i] == a.e[i] as int);
        }
        assert forall|i: int| 0 <= i < 16 implies -fx <= #[trigger] (b.e[i] as int) <= fx by {
            assert(b@[i] == b.e[i] as int);
        }
    }
    let t0 = fx_mul(a.e[r], b.e[c * 4]);
    let t1 = fx_mul(a.e[4 + r], b.e[c * 4 + 1]);
    let t2 = fx_mul(a.e[8 + r], b.e[c * 4 + 2]);
    let t3 = fx_mul(a.e[12 + r], b.e[c * 4 + 3]);
    t0 + t1 + t2 + t3
}

/// The fixed-point matrix product of `a` and `b`.
pub fn mat_mul(a: &Mat4, b: &Mat4) -> (r: Mat4)
    requires
        mat_bounded(a@, FX_IN_MAX as int),
        mat_bounded(b@, FX_IN_MAX as int),
    ensures
        r@ == mul_s(a@, b@),
{
    let e: [i64; 16] = [
        dot(a, b, 0, 0),
        dot(a, b, 1, 0),
        dot(a, b, 2, 0),
        dot(a, b, 3, 0),
        dot(a, b, 0, 1),
        dot(a, b, 1, 1),
        dot(a, b, 2, 1),
        dot(a, b, 3, 1),
        dot(a, b, 0, 2),
        dot(a, b, 1, 2),
        dot(a, b, 2, 2),
        dot(a, b, 3, 2),
        dot(a, b, 0, 3),
        dot(a, b, 1, 3),
        dot(a, b, 2, 3),
        dot(a, b, 3, 3),
    ];
    let m = Mat4 { e };
    proof {
        assert forall|i: int| 0 <= i < 16 implies m@[i] == #[trigger] mul_s(a@, b@)[i] by {
            assert(0 <= i % 4 < 4 && 0 <= i / 4 < 4);
        }
        assert(m@ =~= mul_s(a@, b@));
    }
    m
}

/// The identity matrix.
pub open spec fn identity_s() -> Seq<int> {
    seq![
        ONE as int, 0, 0, 0,
        0, ONE as int, 0, 0,
        0, 0, ONE as int, 0,
        0, 0, 0, ONE as int,
    ]
}

/// The identity matrix.
pub fn identity() -> (r: Mat4)
    ensures
        r@ == identity_s(),
{
    let m = Mat4 { e: [ONE, 0, 0, 0, 0, ONE, 0, 0, 0, 0, ONE, 0, 0, 0, 0, ONE] };
    proof {
        assert(m@ =~= identity_s());
    }
    m
}

/// The identity is exactly neutral for the fixed-point product: scaling
/// by one and adding zero terms loses no precision.
pub proof fn lemma_mul_s_identity(m: Seq<int>)
    requires
        m.len() == 16,
    ensures
        mul_s(identity_s(), m) == m,
        mul_s(m, identity_s()) == m,
{
    assert forall|i: int| 0 <= i < 16 implies #[trigger] mul_s(identity_s(), m)[i] == m[i] by {
        let c = i / 4;
        lemma_fxs_one(m[c * 4 + 0]);
        lemma_fxs_one(m[c * 4 + 1]);
        lemma_fxs_one(m[c * 4 + 2]);
        lemma_fxs_one(m[c * 4 + 3]);
        lemma_fxs_zero(m[c * 4 + 0]);
        lemma_fxs_zero(m[c * 4 + 1]);
        lemma_fxs_zero(m[c * 4 + 2]);
        lemma_fxs_zero(m[c * 4 + 3]);
    }
    assert forall|i: int| 0 <= i < 16 implies #[trigger] mul_s(m, identity_s())[i] == m[i] by {
        let r = i % 4;
        lemma_fxs_one(m[0 + r]);
        lemma_fxs_one(m[4 + r]);
        lemma_fxs_one(m[8 + r]);
        lemma_fxs_one(m[12 + r]);
        lemma_fxs_zero(m[0 + r]);
        lemma_fxs_zero(m[4 + r]);
        lemma_fxs_zero(m[8 + r]);
        lemma_fxs_zero(m[12 + r]);
    }
    assert(mul_s(identity_s(), m) =~= m);
    assert(mul_s(m, identity_s()) =~= m);
}

/// A translation by `(x, y, z)`: the identity with the offset in the
/// fourth column.
pub open spec fn translation_s(x: int, y: int, z: int) -> Seq<int> {
    seq![
        ONE as int, 0, 0, 0,
        0, ONE as int, 0, 0,
        0, 0, ONE as int, 0,
        x, y, z, ONE as int,
    ]
}

/// A translation by `(x, y, z)`.
pub fn from_translation(x: i64, y: i64, z: i64) -> (r: Mat4)
    ensures
        r@ == translation_s(x as int, y as int, z as int),
{
    let m = Mat4 { e: [ONE, 0, 0, 0, 0, ONE, 0, 0, 0, 0, ONE, 0, x, y, z, ONE] };
    proof {
        assert(m@ =~= translation_s(x as int, y as int, z as int));
    }
    m
}

/// A uniform scale by `k` of the three spatial axes.
pub open spec fn scale_s(k: int) -> Seq<int> {
    seq![
        k, 0, 0, 0,
        0, k, 0, 0,
        0, 0, k, 0,
        0, 0, 0, ONE as int,
    ]
}

/// A uniform scale by `k`.
pub fn from_scale(k: i64) -> (r: Mat4)
    ensures
        r@ == scale_s(k as int),
{
    let m = Mat4 { e: [k, 0, 0, 0, 0, k, 0, 0, 0, 0, k, 0, 0, 0, 0, ONE] };
    proof {
        assert(m@ =~= scale_s(k as int));
    }
    m
}

/// A rotation about the X axis whose angle has sine `s` and cosine `c`.
pub open spec fn rotation_x_s(s: int, c: int) -> Seq<int> {
    seq![
        ONE as int, 0, 0, 0,
        0, c, s, 0,
        0, -s, c, 0,
        0, 0, 0, ONE as int,
    ]
}

/// A rotation about the X axis whose angle has sine `s` and cosine `c`.
pub fn from_rotation_x(s: i64, c: i64) -> (r: Mat4)
    requires
        -ONE <= s <= ONE,
        -ONE <= c <= ONE,
    ensures
        r@ == rotation_x_s(s as int, c as int),
        mat_bounded(r@, ONE as int),
{
    let m = Mat4 { e: [ONE, 0, 0, 0, 0, c, s, 0, 0, -s, c, 0, 0, 0, 0, ONE] };
    proof {
        assert(m@ =~= rotation_x_s(s as int, c as int));
    }
    m
}

/// A rotation about the Y axis whose angle has sine `s` and cosine `c`.
pub open spec fn rotation_y_s(s: int, c: int) -> Seq<int> {
    seq![
        c, 0, -s, 0,
        0, ONE as int, 0, 0,
        s, 0, c, 0,
        0, 0, 0, ONE as int,
    ]
}

/// A rotation about the Y axis whose angle has sine `s` and cosine `c`.
pub fn from_rotation_y(s: i64, c: i64) -> (r: Mat4)
    requires
        -ONE <= s <= ONE,
        -ONE <= c <= ONE,
    ensures
        r@ == rotation_y_s(s as int, c as int),
        mat_bounded(r@, ONE as int),
{
    let m = Mat4 { e: [c, 0, -s, 0, 0, ONE, 0, 0, s, 0, c, 0, 0, 0, 0, ONE] };
    proof {
        assert(m@ =~= rotation_y_s(s as int, c as int));
    }
    m
}

} // verus!
