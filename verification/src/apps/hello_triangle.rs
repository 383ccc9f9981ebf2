//! A single static triangle: the simplest pipeline of the gallery.
//!
//! The demo uploads nothing and animates nothing; its shader produces the
//! three vertices itself, so the one draw call covers exactly three.

use vstd::prelude::*;

verus! {

/// The static-triangle demo.
pub struct HelloTriangle;

impl HelloTriangle {
    /// The square canvas the demo paints on, in pixels.
    pub fn canvas_size() -> (r: (u32, u32))
        ensures
            r.0 == 600,
            r.1 == r.0,
    {
        (600, 600)
    }

    /// The vertex range of the one draw call: three vertices, one triangle.
    pub fn draw_range() -> (r: (u32, u32))
        ensures
            r.0 == 0,
            r.1 == 3,
    {
        (0, 3)
    }
}

} // verus!
