//! Two cubes sharing one uniform buffer through dynamic offsets.
//!
//! Both cubes share the camera, seven units back.  At any instant the two
//! transforms are mirror images: the second cube rotates about the axis
//! with the sine and cosine swapped, and the two models sit two units to
//! either side of the origin.  Each transform is a function of its own
//! factors alone — the demo computes them one after the other, with no
//! state shared beyond the inputs.

use crate::fixed::{fxs, lemma_fxs_comm, ONE};
use crate::mat4::entry;
use crate::transform::{camera_cube_frame, cube_frame_s, model_axis_s, Frame, FrameS};
use vstd::prelude::*;

verus! {

/// The frame of the left cube: rotation axis `(a, b, 0)`, model two units
/// toward negative X.
pub open spec fn two_cubes_first_s(a: int, b: int, sh: int, ch: int, f: int) -> FrameS {
    cube_frame_s(
        a,
        b,
        sh,
        ch,
        f,
        -7 * (ONE as int),
        -2 * (ONE as int),
        0,
        ONE as int,
        100 * (ONE as int),
    )
}

/// The frame of the right cube: rotation axis `(b, a, 0)`, model two
/// units toward positive X.
pub open spec fn two_cubes_second_s(a: int, b: int, sh: int, ch: int, f: int) -> FrameS {
    cube_frame_s(
        b,
        a,
        sh,
        ch,
        f,
        -7 * (ONE as int),
        2 * (ONE as int),
        0,
        ONE as int,
        100 * (ONE as int),
    )
}

/// The two-cubes demo.
pub struct TwoCubes;

impl TwoCubes {
    /// The square canvas the demo paints on, in pixels.
    pub fn canvas_size() -> (r: (u32, u32))
        ensures
            r.0 == 600,
            r.1 == r.0,
    {
        (600, 600)
    }

    /// The two transforms of one frame, from the sine `a` and cosine `b`
    /// of the elapsed time.
    pub fn get_mvp_matrix(a: i64, b: i64, sh: i64, ch: i64, f: i64) -> (r: (Frame, Frame))
        requires
            -ONE <= a <= ONE,
            -ONE <= b <= ONE,
            -ONE <= sh <= ONE,
            -ONE <= ch <= ONE,
            0 < f <= 4 * ONE,
        ensures
            r.0@ == two_cubes_first_s(a as int, b as int, sh as int, ch as int, f as int),
            r.1@ == two_cubes_second_s(a as int, b as int, sh as int, ch as int, f as int),
    {
        let first = camera_cube_frame(a, b, sh, ch, f, -7 * ONE, -2 * ONE, 0, ONE, 100 * ONE);
        let second = camera_cube_frame(b, a, sh, ch, f, -7 * ONE, 2 * ONE, 0, ONE, 100 * ONE);
        (first, second)
    }

    /// The shared uniform buffer: 1280 bytes allocated, one 64-byte matrix
    /// slot per cube, the second at the 256-byte alignment boundary.
    pub fn uniform_layout() -> (r: (u64, u64, u64, u64))
        ensures
            r.0 == 1280,
            r.1 == 0,
            r.2 == 256,
            r.3 == 64,
            r.2 % 256 == 0,
            r.1 + r.3 <= r.2,
            r.2 + r.3 <= r.0,
    {
        (1280, 0, 256, 64)
    }
}

/// At any instant the two transforms of the demo are independent mirror
/// images of one another.
///
/// Both share the camera, so only the model factors differ.  The second
/// model rotates about the axis with the sine and cosine swapped, which
/// exchanges the roles of the X and Y axes in the rotation block, and its
/// X offset is the negation of the first's: minus two units against plus
/// two.
pub proof fn lemma_two_cubes_mirrored(a: int, b: int, sh: int, ch: int, f: int)
    ensures
        two_cubes_first_s(a, b, sh, ch, f).proj == two_cubes_second_s(a, b, sh, ch, f).proj,
        two_cubes_first_s(a, b, sh, ch, f).view == two_cubes_second_s(a, b, sh, ch, f).view,
        two_cubes_first_s(a, b, sh, ch, f).model == model_axis_s(
            a,
            b,
            sh,
            ch,
            -2 * (ONE as int),
            0,
        ),
        two_cubes_second_s(a, b, sh, ch, f).model == model_axis_s(
            b,
            a,
            sh,
            ch,
            2 * (ONE as int),
            0,
        ),
        entry(two_cubes_first_s(a, b, sh, ch, f).model, 0, 3) == -2 * (ONE as int),
        entry(two_cubes_second_s(a, b, sh, ch, f).model, 0, 3) == 2 * (ONE as int),
        entry(two_cubes_second_s(a, b, sh, ch, f).model, 0, 3) == -entry(
            two_cubes_first_s(a, b, sh, ch, f).model,
            0,
            3,
        ),
        entry(two_cubes_second_s(a, b, sh, ch, f).model, 0, 0) == entry(
            two_cubes_first_s(a, b, sh, ch, f).model,
            1,
            1,
        ),
        entry(two_cubes_second_s(a, b, sh, ch, f).model, 1, 1) == entry(
            two_cubes_first_s(a, b, sh, ch, f).model,
            0,
            0,
        ),
        entry(two_cubes_second_s(a, b, sh, ch, f).model, 2, 2) == entry(
            two_cubes_first_s(a, b, sh, ch, f).model,
            2,
            2,
        ),
        entry(two_cubes_second_s(a, b, sh, ch, f).model, 1, 0) == entry(
            two_cubes_first_s(a, b, sh, ch, f).model,
            1,
            0,
        ),
        entry(two_cubes_second_s(a, b, sh, ch, f).model, 2, 0) == -entry(
            two_cubes_first_s(a, b, sh, ch, f).model,
            2,
            1,
        ),
        entry(two_cubes_second_s(a, b, sh, ch, f).model, 2, 1) == -entry(
            two_cubes_first_s(a, b, sh, ch, f).model,
            2,
            0,
        ),
{
    let x = fxs(a, sh);
    let y = fxs(b, sh);
    lemma_fxs_comm(y, x);
}

} // verus!
