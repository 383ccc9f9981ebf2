//! Per-frame transforms.
//!
//! Every animated demo redraws with a model-view-projection transform
//! rebuilt each frame from the elapsed time `t`.  The trigonometric values
//! are evaluated by the caller and handed in as fixed-point scalars; from
//! there on everything is exact integer arithmetic:
//!
//! * the projection is a right-handed perspective with a square aspect,
//! * the view backs the camera along the Z axis,
//! * the model rotates about an axis `(a, b, 0)` in the XY plane by a fixed
//!   angle, given through the sine `sh` and cosine `ch` of its half, and
//!   then translates.
//!
//! [`Frame`] keeps all three factors next to their product, so a caller can
//! see, and a proof can state, which factor carries the time.

use crate::fixed::{fx_mul, fxs, lemma_fxs_bound, lemma_fxs_one, lemma_fxs_zero, FX_IN_MAX, ONE};
use crate::mat4::{
    from_translation, lemma_mat_bounded_widen, lemma_mul_s_bounded, mat_bounded, mat_mul, mul_s,
    rotation_y_s, translation_s, Mat4,
};
use vstd::arithmetic::div_mod::{lemma_div_is_ordered, lemma_fundamental_div_mod, lemma_mod_bound};
use vstd::arithmetic::mul::{lemma_mul_inequality_converse, lemma_mul_is_commutative};
use vstd::prelude::*;

verus! {

/// A right-handed perspective projection for a square viewport, for a
/// focal scale `f` (the reciprocal tangent of half the vertical field of
/// view) and the near and far plane distances.
pub open spec fn perspective_s(f: int, near: int, far: int) -> Seq<int> {
    let q = -((far * (ONE as int)) / (far - near));
    seq![
        f, 0, 0, 0,
        0, f, 0, 0,
        0, 0, q, -(ONE as int),
        0, 0, fxs(q, near), 0,
    ]
}

/// A right-handed perspective projection for a square viewport.
pub fn perspective(f: i64, near: i64, far: i64) -> (r: Mat4)
    requires
        0 < f <= 4 * ONE,
        0 < near <= 16 * ONE,
        2 * near <= far <= 4096 * ONE,
    ensures
        r@ == perspective_s(f as int, near as int, far as int),
        mat_bounded(r@, 131072),
{
    let num: i64 = far * ONE;
    let den: i64 = far - near;
    let qpos: u64 = (num as u64) / (den as u64);
    proof {
        let fi = far as int;
        let d = fi - near;
        let n = fi * (ONE as int);
        lemma_fundamental_div_mod(n, d);
        lemma_mod_bound(n, d);
        assert(d * (n / d) <= d * 8192);
        lemma_mul_is_commutative(d, n / d);
        lemma_mul_is_commutative(d, 8192);
        lemma_mul_inequality_converse(n / d, 8192, d);
        lemma_div_is_ordered(0, n, d);
    }
    let q: i64 = -(qpos as i64);
    let m32: i64 = fx_mul(q, near);
    proof {
        lemma_fxs_bound(q as int, near as int, 8192, 65536);
    }
    let m = Mat4 { e: [f, 0, 0, 0, 0, f, 0, 0, 0, 0, q, -ONE, 0, 0, m32, 0] };
    proof {
        assert(m@ =~= perspective_s(f as int, near as int, far as int));
    }
    m
}

/// The model transform of the rotating demos: a rotation about the axis
/// `(a, b, 0)` by the angle whose half has sine `sh` and cosine `ch`,
/// followed by a translation by `(tx, ty, 0)`.
///
/// The rotation is the matrix of the quaternion
/// `(a * sh, b * sh, 0, ch)`, the axis-angle form for an axis in the XY
/// plane.
pub open spec fn model_axis_s(a: int, b: int, sh: int, ch: int, tx: int, ty: int) -> Seq<int> {
    let x = fxs(a, sh);
    let y = fxs(b, sh);
    seq![
        (ONE as int) - 2 * fxs(y, y), 2 * fxs(x, y), -(2 * fxs(y, ch)), 0,
        2 * fxs(x, y), (ONE as int) - 2 * fxs(x, x), 2 * fxs(x, ch), 0,
        2 * fxs(y, ch), -(2 * fxs(x, ch)), (ONE as int) - 2 * fxs(x, x) - 2 * fxs(y, y), 0,
        tx, ty, 0, ONE as int,
    ]
}

/// The model transform of the rotating demos.
pub fn model_from_axis_xy(a: i64, b: i64, sh: i64, ch: i64, tx: i64, ty: i64) -> (r: Mat4)
    requires
        -ONE <= a <= ONE,
        -ONE <= b <= ONE,
        -ONE <= sh <= ONE,
        -ONE <= ch <= ONE,
        -15 * ONE <= tx <= 15 * ONE,
        -15 * ONE <= ty <= 15 * ONE,
    ensures
        r@ == model_axis_s(a as int, b as int, sh as int, ch as int, tx as int, ty as int),
        mat_bounded(r@, 61440),
{
    proof {
        lemma_fxs_bound(a as int, sh as int, ONE as int, ONE as int);
        lemma_fxs_bound(b as int, sh as int, ONE as int, ONE as int);
    }
    let x = fx_mul(a, sh);
    let y = fx_mul(b, sh);
    proof {
        lemma_fxs_bound(x as int, x as int, ONE as int, ONE as int);
        lemma_fxs_bound(y as int, y as int, ONE as int, ONE as int);
        lemma_fxs_bound(x as int, y as int, ONE as int, ONE as int);
        lemma_fxs_bound(x as int, ch as int, ONE as int, ONE as int);
        lemma_fxs_bound(y as int, ch as int, ONE as int, ONE as int);
    }
    let xx = fx_mul(x, x);
    let yy = fx_mul(y, y);
    let xy = fx_mul(x, y);
    let xw = fx_mul(x, ch);
    let yw = fx_mul(y, ch);
    let m = Mat4 {
        e: [
            ONE - 2 * yy,
            2 * xy,
            -(2 * yw),
            0,
            2 * xy,
            ONE - 2 * xx,
            2 * xw,
            0,
            2 * yw,
            -(2 * xw),
            ONE - 2 * xx - 2 * yy,
            0,
            tx,
            ty,
            0,
            ONE,
        ],
    };
    proof {
        assert(m@ =~= model_axis_s(a as int, b as int, sh as int, ch as int, tx as int, ty as int));
    }
    m
}

/// The factors of one frame's transform beside their product.
pub struct Frame {
    pub proj: Mat4,
    pub view: Mat4,
    pub model: Mat4,
    pub mvp: Mat4,
}

/// The mathematical content of a [`Frame`].
pub struct FrameS {
    pub proj: Seq<int>,
    pub view: Seq<int>,
    pub model: Seq<int>,
    pub mvp: Seq<int>,
}

impl View for Frame {
    type V = FrameS;

    open spec fn view(&self) -> FrameS {
        FrameS { proj: self.proj@, view: self.view@, model: self.model@, mvp: self.mvp@ }
    }
}

/// A frame assembled from its three factors: the product is
/// projection times view times model.
pub open spec fn frame_s(proj: Seq<int>, view: Seq<int>, model: Seq<int>) -> FrameS {
    FrameS { proj, view, model, mvp: mul_s(mul_s(proj, view), model) }
}

/// The frame of a cube demo: a perspective lens, a camera moved `vz`
/// along the Z axis, and a rotating model translated by `(tx, ty, 0)`.
pub open spec fn cube_frame_s(
    a: int,
    b: int,
    sh: int,
    ch: int,
    f: int,
    vz: int,
    tx: int,
    ty: int,
    near: int,
    far: int,
) -> FrameS {
    frame_s(
        perspective_s(f, near, far),
        translation_s(0, 0, vz),
        model_axis_s(a, b, sh, ch, tx, ty),
    )
}

/// Builds the frame of a cube demo.
pub fn camera_cube_frame(
    a: i64,
    b: i64,
    sh: i64,
    ch: i64,
    f: i64,
    vz: i64,
    tx: i64,
    ty: i64,
    near: i64,
    far: i64,
) -> (r: Frame)
    requires
        -ONE <= a <= ONE,
        -ONE <= b <= ONE,
        -ONE <= sh <= ONE,
        -ONE <= ch <= ONE,
        0 < f <= 4 * ONE,
        -15 * ONE <= vz <= 0,
        -15 * ONE <= tx <= 15 * ONE,
        -15 * ONE <= ty <= 15 * ONE,
        0 < near <= 16 * ONE,
        2 * near <= far <= 4096 * ONE,
    ensures
        r@ == cube_frame_s(
            a as int,
            b as int,
            sh as int,
            ch as int,
            f as int,
            vz as int,
            tx as int,
            ty as int,
            near as int,
            far as int,
        ),
{
    let proj = perspective(f, near, far);
    let view = from_translation(0, 0, vz);
    let model = model_from_axis_xy(a, b, sh, ch, tx, ty);
    proof {
        assert(mat_bounded(view@, 61440));
        lemma_mat_bounded_widen(proj@, 131072, FX_IN_MAX as int);
        lemma_mat_bounded_widen(view@, 61440, FX_IN_MAX as int);
    }
    let pv = mat_mul(&proj, &view);
    proof {
        lemma_mul_s_bounded(proj@, view@, 131072, 61440);
        lemma_mat_bounded_widen(pv@, 7864320, FX_IN_MAX as int);
        lemma_mat_bounded_widen(model@, 61440, FX_IN_MAX as int);
    }
    let mvp = mat_mul(&pv, &model);
    Frame { proj, view, model, mvp }
}

/// The projection and the view of a cube frame never depend on the
/// elapsed time: two frames that differ only in their rotation axis — the
/// one place the time enters — share them, and their products differ only
/// through the model factor.
pub proof fn lemma_projection_time_independent(
    a1: int,
    b1: int,
    a2: int,
    b2: int,
    sh: int,
    ch: int,
    f: int,
    vz: int,
    tx: int,
    ty: int,
    near: int,
    far: int,
)
    ensures
        cube_frame_s(a1, b1, sh, ch, f, vz, tx, ty, near, far).proj == cube_frame_s(
            a2,
            b2,
            sh,
            ch,
            f,
            vz,
            tx,
            ty,
            near,
            far,
        ).proj,
        cube_frame_s(a1, b1, sh, ch, f, vz, tx, ty, near, far).view == cube_frame_s(
            a2,
            b2,
            sh,
            ch,
            f,
            vz,
            tx,
            ty,
            near,
            far,
        ).view,
        cube_frame_s(a1, b1, sh, ch, f, vz, tx, ty, near, far).mvp == mul_s(
            mul_s(perspective_s(f, near, far), translation_s(0, 0, vz)),
            model_axis_s(a1, b1, sh, ch, tx, ty),
        ),
{
}

/// At time zero the rotation axis is exactly the Y axis, because
/// `sin 0 == 0` and `cos 0` is one: the model reduces to a pure rotation
/// about Y — one fixed, known orientation, with no translation.
pub proof fn lemma_model_at_time_zero(sh: int, ch: int)
    ensures
        model_axis_s(0, ONE as int, sh, ch, 0, 0) == rotation_y_s(
            2 * fxs(sh, ch),
            (ONE as int) - 2 * fxs(sh, sh),
        ),
{
    let one = ONE as int;
    lemma_fxs_one(sh);
    let y = fxs(one, sh);
    lemma_fxs_zero(sh);
    lemma_fxs_zero(y);
    lemma_fxs_zero(ch);
    lemma_fxs_zero(0);
    assert(model_axis_s(0, one, sh, ch, 0, 0) =~= rotation_y_s(
        2 * fxs(sh, ch),
        one - 2 * fxs(sh, sh),
    ));
}

} // verus!
