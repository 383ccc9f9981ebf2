//! A skybox: the camera inside a huge cube sampling a cubemap texture.
//!
//! The model tilts about X by an angle that itself oscillates with the
//! time, spins slowly about Y, and scales a thousandfold so the cube
//! encloses the camera, which stays at the origin.  Both angles' sines
//! and cosines arrive precomputed as fixed-point scalars.

use crate::fixed::{FX_IN_MAX, ONE};
use crate::mat4::{
    from_rotation_x, from_rotation_y, from_scale, from_translation, lemma_mat_bounded_widen,
    lemma_mul_s_bounded, mat_bounded, mat_mul, mul_s, rotation_x_s, rotation_y_s, scale_s,
    translation_s,
};
use crate::transform::{frame_s, perspective, perspective_s, Frame, FrameS};
use vstd::prelude::*;

verus! {

/// The model of one frame: tilt about X, spin about Y, thousandfold
/// scale, composed in that order.
pub open spec fn cubemap_model_s(sx: int, cx: int, sy: int, cy: int) -> Seq<int> {
    mul_s(rotation_x_s(sx, cx), mul_s(rotation_y_s(sy, cy), scale_s(1000 * (ONE as int))))
}

/// The frame of this demo: far plane at three thousand units, camera at
/// the origin.
pub open spec fn cubemap_frame_s(sx: int, cx: int, sy: int, cy: int, f: int) -> FrameS {
    frame_s(
        perspective_s(f, ONE as int, 3000 * (ONE as int)),
        translation_s(0, 0, 0),
        cubemap_model_s(sx, cx, sy, cy),
    )
}

/// The skybox demo.
pub struct Cubemap;

impl Cubemap {
    /// The square canvas the demo paints on, in pixels.
    pub fn canvas_size() -> (r: (u32, u32))
        ensures
            r.0 == 800,
            r.1 == r.0,
    {
        (800, 800)
    }

    /// The number of faces of the cubemap texture, one image each.
    pub fn face_count() -> (n: u32)
        ensures
            n == 6,
    {
        6
    }

    /// The transform of one frame.  `sx`, `cx` are the sine and cosine of
    /// the oscillating tilt angle; `sy`, `cy` those of the spin angle.
    pub fn get_mvp_matrix(sx: i64, cx: i64, sy: i64, cy: i64, f: i64) -> (r: Frame)
        requires
            -ONE <= sx <= ONE,
            -ONE <= cx <= ONE,
            -ONE <= sy <= ONE,
            -ONE <= cy <= ONE,
            0 < f <= 4 * ONE,
        ensures
            r@ == cubemap_frame_s(sx as int, cx as int, sy as int, cy as int, f as int),
    {
        let proj = perspective(f, ONE, 3000 * ONE);
        let view = from_translation(0, 0, 0);
        let rx = from_rotation_x(sx, cx);
        let ry = from_rotation_y(sy, cy);
        let sc = from_scale(1000 * ONE);
        proof {
            assert(mat_bounded(sc@, 4096000));
            lemma_mat_bounded_widen(ry@, ONE as int, FX_IN_MAX as int);
            lemma_mat_bounded_widen(sc@, 4096000, FX_IN_MAX as int);
        }
        let inner = mat_mul(&ry, &sc);
        proof {
            lemma_mul_s_bounded(ry@, sc@, ONE as int, 4096000);
            lemma_mat_bounded_widen(inner@, 16384000, FX_IN_MAX as int);
            lemma_mat_bounded_widen(rx@, ONE as int, FX_IN_MAX as int);
        }
        let model = mat_mul(&rx, &inner);
        proof {
            lemma_mul_s_bounded(rx@, inner@, ONE as int, 16384000);
            assert(mat_bounded(view@, 4096));
            lemma_mat_bounded_widen(proj@, 131072, FX_IN_MAX as int);
            lemma_mat_bounded_widen(view@, 4096, FX_IN_MAX as int);
        }
        let pv = mat_mul(&proj, &view);
        proof {
            lemma_mul_s_bounded(proj@, view@, 131072, 4096);
            lemma_mat_bounded_widen(pv@, 524288, FX_IN_MAX as int);
            lemma_mat_bounded_widen(model@, 65536000, FX_IN_MAX as int);
        }
        let mvp = mat_mul(&pv, &model);
        Frame { proj, view, model, mvp }
    }

    /// The uniform buffer: 256 bytes allocated, of which each frame
    /// rewrites the one 64-byte matrix at its start.
    pub fn uniform_layout() -> (r: (u64, u64))
        ensures
            r.0 == 256,
            r.1 == 64,
            r.1 <= r.0,
    {
        (256, 64)
    }
}

} // verus!
