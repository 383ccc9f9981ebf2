//! A four-by-four grid of cubes drawn as one instanced call.
//!
//! Instance `x * 4 + y` rotates about the axis
//! `(sin ((x + 1/2) t), cos ((y + 1/2) t), 0)` and stands at four-unit
//! steps from the grid centre; the camera sits twelve units back.  The
//! sixteen per-instance sine and cosine pairs arrive precomputed, indexed
//! the same way.

use crate::fixed::{FX_IN_MAX, ONE};
use crate::mat4::{
    from_translation, lemma_mat_bounded_widen, lemma_mul_s_bounded, mat_bounded, mat_mul, mul_s,
    translation_s, Mat4,
};
use crate::transform::{model_axis_s, model_from_axis_xy, perspective, perspective_s};
use vstd::prelude::*;

verus! {

/// The shared projection-view factor: the demo's lens and a camera
/// twelve units back.
pub open spec fn instanced_pv_s(f: int) -> Seq<int> {
    mul_s(
        perspective_s(f, ONE as int, 100 * (ONE as int)),
        translation_s(0, 0, -12 * (ONE as int)),
    )
}

/// The model of the instance at grid position `(x, y)`.
pub open spec fn instanced_model_s(a: int, b: int, sh: int, ch: int, x: int, y: int) -> Seq<int> {
    model_axis_s(a, b, sh, ch, (4 * x - 6) * (ONE as int), (4 * y - 6) * (ONE as int))
}

/// The full transform of the instance at grid position `(x, y)`.
pub open spec fn instanced_mvp_s(
    a: int,
    b: int,
    sh: int,
    ch: int,
    f: int,
    x: int,
    y: int,
) -> Seq<int> {
    mul_s(instanced_pv_s(f), instanced_model_s(a, b, sh, ch, x, y))
}

/// The instanced-grid demo.
pub struct InstancedCube;

impl InstancedCube {
    /// The square canvas the demo paints on, in pixels.
    pub fn canvas_size() -> (r: (u32, u32))
        ensures
            r.0 == 600,
            r.1 == r.0,
    {
        (600, 600)
    }

    /// The grid: four columns of four cubes.
    pub fn grid_size() -> (r: (usize, usize))
        ensures
            r.0 == 4,
            r.1 == 4,
    {
        (4, 4)
    }

    /// Index of the instance at grid position `(x, y)`.
    pub fn instance_index(x: usize, y: usize) -> (i: usize)
        requires
            x < 4,
            y < 4,
        ensures
            i == x * 4 + y,
            i < 16,
    {
        x * 4 + y
    }

    /// The sixteen transforms of one frame.  `trigs[x * 4 + y]` holds the
    /// sine and cosine pair of the instance at `(x, y)`.
    pub fn update_mvp_matrix(trigs: &Vec<(i64, i64)>, sh: i64, ch: i64, f: i64) -> (r: Vec<Mat4>)
        requires
            trigs@.len() == 16,
            forall|j: int|
                0 <= j < 16 ==> -ONE <= (#[trigger] trigs@[j]).0 <= ONE && -ONE <= trigs@[j].1
                    <= ONE,
            -ONE <= sh <= ONE,
            -ONE <= ch <= ONE,
            0 < f <= 4 * ONE,
        ensures
            r@.len() == 16,
            forall|x: int, y: int|
                0 <= x < 4 && 0 <= y < 4 ==> (#[trigger] r@[x * 4 + y])@ == instanced_mvp_s(
                    trigs@[x * 4 + y].0 as int,
                    trigs@[x * 4 + y].1 as int,
                    sh as int,
                    ch as int,
                    f as int,
                    x,
                    y,
                ),
    {
        let proj = perspective(f, ONE, 100 * ONE);
        let view = from_translation(0, 0, -12 * ONE);
        proof {
            assert(mat_bounded(view@, 61440));
            lemma_mat_bounded_widen(proj@, 131072, FX_IN_MAX as int);
            lemma_mat_bounded_widen(view@, 61440, FX_IN_MAX as int);
        }
        let pv = mat_mul(&proj, &view);
        proof {
            lemma_mul_s_bounded(proj@, view@, 131072, 61440);
        }
        let mut out: Vec<Mat4> = Vec::new();
        let mut i: usize = 0;
        while i < 16
            invariant
                i <= 16,
                out@.len() == i as int,
                trigs@.len() == 16,
                forall|j: int|
                    0 <= j < 16 ==> -ONE <= (#[trigger] trigs@[j]).0 <= ONE && -ONE
                        <= trigs@[j].1 <= ONE,
                -ONE <= sh <= ONE,
                -ONE <= ch <= ONE,
                0 < f <= 4 * ONE,
                pv@ == instanced_pv_s(f as int),
                mat_bounded(pv@, 7864320),
                forall|j: int|
                    0 <= j < i as int ==> (#[trigger] out@[j])@ == instanced_mvp_s(
                        trigs@[j].0 as int,
                        trigs@[j].1 as int,
                        sh as int,
                        ch as int,
                        f as int,
                        j / 4,
                        j % 4,
                    ),
            decreases 16 - i,
        {
            let (a, b) = trigs[i];
            let x = i / 4;
            let y = i % 4;
            let tx: i64 = (4 * (x as i64) - 6) * ONE;
            let ty: i64 = (4 * (y as i64) - 6) * ONE;
            let model = model_from_axis_xy(a, b, sh, ch, tx, ty);
            proof {
                lemma_mat_bounded_widen(pv@, 7864320, FX_IN_MAX as int);
                lemma_mat_bounded_widen(model@, 61440, FX_IN_MAX as int);
            }
            let mvp = mat_mul(&pv, &model);
            out.push(mvp);
            i += 1;
        }
        proof {
            assert forall|x: int, y: int| 0 <= x < 4 && 0 <= y < 4 implies (#[trigger] out@[x * 4
                + y])@ == instanced_mvp_s(
                trigs@[x * 4 + y].0 as int,
                trigs@[x * 4 + y].1 as int,
                sh as int,
                ch as int,
                f as int,
                x,
                y,
            ) by {
                let j = x * 4 + y;
                assert(0 <= j < 16);
                assert(j / 4 == x && j % 4 == y);
            }
        }
        out
    }

    /// The uniform buffer: 4096 bytes allocated, of which each frame
    /// rewrites the sixteen 64-byte matrices at its start.
    pub fn uniform_layout() -> (r: (u64, u64))
        ensures
            r.0 == 4096,
            r.1 == 16 * 64,
            r.1 <= r.0,
    {
        (4096, 1024)
    }
}

} // verus!
