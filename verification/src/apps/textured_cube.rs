//! The spinning cube with an image sampled over its faces.
//!
//! The transform is the same as the plain spinning cube's; what the demo
//! adds — decoding the image and uploading it as an RGBA texture — happens
//! at the GPU edge and leaves no mathematics behind beyond the row pitch
//! in [`crate::layout::rgba_bytes_per_row`].

use crate::fixed::ONE;
use crate::transform::{camera_cube_frame, cube_frame_s, Frame, FrameS};
use vstd::prelude::*;

verus! {

/// The frame of this demo; it shares the spinning cube's camera.
pub open spec fn textured_cube_frame_s(a: int, b: int, sh: int, ch: int, f: int) -> FrameS {
    cube_frame_s(a, b, sh, ch, f, -4 * (ONE as int), 0, 0, ONE as int, 100 * (ONE as int))
}

/// The textured spinning-cube demo.
pub struct TexturedCube;

impl TexturedCube {
    /// The square canvas the demo paints on, in pixels.
    pub fn canvas_size() -> (r: (u32, u32))
        ensures
            r.0 == 600,
            r.1 == r.0,
    {
        (600, 600)
    }

    /// The transform of one frame, from the sine `a` and cosine `b` of the
    /// elapsed time.
    pub fn get_mvp_matrix(a: i64, b: i64, sh: i64, ch: i64, f: i64) -> (r: Frame)
        requires
            -ONE <= a <= ONE,
            -ONE <= b <= ONE,
            -ONE <= sh <= ONE,
            -ONE <= ch <= ONE,
            0 < f <= 4 * ONE,
        ensures
            r@ == textured_cube_frame_s(a as int, b as int, sh as int, ch as int, f as int),
    {
        camera_cube_frame(a, b, sh, ch, f, -4 * ONE, 0, 0, ONE, 100 * ONE)
    }

    /// The uniform buffer: 256 bytes allocated, of which each frame
    /// rewrites the one 64-byte matrix at its start.
    pub fn uniform_layout() -> (r: (u64, u64))
        ensures
            r.0 == 256,
            r.1 == 64,
            r.1 <= r.0,
    {
        (256, 64)
    }
}

} // verus!
