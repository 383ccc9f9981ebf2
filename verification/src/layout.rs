//! GPU buffer layouts shared by the demos.
//!
//! The one invariant the demos owe the GPU is that every buffer they bind
//! matches the layout their shaders expect.  The functions here pin those
//! sizes and offsets down, together with the facts that make the bindings
//! valid: attributes tile the vertex stride, and uniform slots respect the
//! offset alignment.

use vstd::prelude::*;

verus! {

/// Byte layout of one cube vertex: a four-float position, a four-float
/// color and a two-float texture coordinate, packed in that order.
pub struct VertexLayout {
    pub stride: u64,
    pub position_offset: u64,
    pub color_offset: u64,
    pub uv_offset: u64,
}

/// The three attributes sit in order and fit inside the stride.
pub open spec fn vertex_layout_wf(l: VertexLayout) -> bool {
    &&& l.position_offset == 0
    &&& l.position_offset + 16 <= l.color_offset
    &&& l.color_offset + 16 <= l.uv_offset
    &&& l.uv_offset + 8 <= l.stride
}

/// The vertex layout every cube demo uploads: ten floats, forty bytes.
pub fn cube_vertex_layout() -> (l: VertexLayout)
    ensures
        l.stride == 40,
        l.position_offset == 0,
        l.color_offset == 16,
        l.uv_offset == 32,
        vertex_layout_wf(l),
{
    VertexLayout { stride: 40, position_offset: 0, color_offset: 16, uv_offset: 32 }
}

/// Bytes of one 4x4 matrix of 32-bit floats: what each frame writes
/// into a uniform buffer.
pub fn mat4_bytes() -> (n: u64)
    ensures
        n == 64,
{
    64
}

/// The alignment every dynamic uniform-buffer offset must honour.
pub fn uniform_offset_alignment() -> (n: u64)
    ensures
        n == 256,
{
    256
}

/// Bytes per row of a tightly packed eight-bit RGBA image, as texture
/// uploads describe it.
pub fn rgba_bytes_per_row(width: u32) -> (n: u64)
    ensures
        n == 4 * width,
{
    4 * (width as u64)
}

} // verus!
