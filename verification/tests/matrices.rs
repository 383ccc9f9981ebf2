use gpu_gallery::fixed::ONE;
use gpu_gallery::layout::{cube_vertex_layout, mat4_bytes, rgba_bytes_per_row, uniform_offset_alignment};
use gpu_gallery::mat4::{from_rotation_x, from_rotation_y, from_scale, from_translation, identity, mat_mul};
use gpu_gallery::transform::perspective;

#[test]
fn identity_is_neutral_for_multiplication() {
    let id = identity();
    let t = from_translation(3 * ONE, -5 * ONE, 7 * ONE);
    let left = mat_mul(&id, &t);
    let right = mat_mul(&t, &id);
    assert_eq!(left.e, t.e);
    assert_eq!(right.e, t.e);
}

#[test]
fn translation_sits_in_fourth_column() {
    let t = from_translation(3 * ONE, -5 * ONE, 7 * ONE);
    assert_eq!(t.e[12], 3 * ONE);
    assert_eq!(t.e[13], -5 * ONE);
    assert_eq!(t.e[14], 7 * ONE);
    assert_eq!(t.e[15], ONE);
    assert_eq!(t.e[0], ONE);
    assert_eq!(t.e[5], ONE);
    assert_eq!(t.e[10], ONE);
    assert_eq!(t.e[1], 0);
}

#[test]
fn translations_compose_by_addition() {
    let a = from_translation(ONE, 2 * ONE, 3 * ONE);
    let b = from_translation(4 * ONE, -2 * ONE, -3 * ONE);
    let ab = mat_mul(&a, &b);
    assert_eq!(ab.e[12], 5 * ONE);
    assert_eq!(ab.e[13], 0);
    assert_eq!(ab.e[14], 0);
    assert_eq!(ab.e[15], ONE);
}

#[test]
fn rotation_entries_sit_on_their_axes() {
    // An exact 90-degree rotation: sine one, cosine zero.
    let rx = from_rotation_x(ONE, 0);
    assert_eq!(rx.e[0], ONE);
    assert_eq!(rx.e[5], 0);
    assert_eq!(rx.e[6], ONE);
    assert_eq!(rx.e[9], -ONE);
    assert_eq!(rx.e[10], 0);
    let ry = from_rotation_y(ONE, 0);
    assert_eq!(ry.e[5], ONE);
    assert_eq!(ry.e[0], 0);
    assert_eq!(ry.e[8], ONE);
    assert_eq!(ry.e[2], -ONE);
}

#[test]
fn scale_scales_the_spatial_diagonal() {
    let s = from_scale(1000 * ONE);
    assert_eq!(s.e[0], 1000 * ONE);
    assert_eq!(s.e[5], 1000 * ONE);
    assert_eq!(s.e[10], 1000 * ONE);
    assert_eq!(s.e[15], ONE);
    assert_eq!(s.e[12], 0);
}

#[test]
fn perspective_exact_entries() {
    // Near plane at one unit, far plane at one hundred:
    // the depth scale is -(100 * ONE * ONE) / (99 * ONE) truncated, and
    // with near == ONE the depth offset equals it.
    let f = 5650;
    let p = perspective(f, ONE, 100 * ONE);
    assert_eq!(p.e[0], f);
    assert_eq!(p.e[5], f);
    assert_eq!(p.e[10], -4137);
    assert_eq!(p.e[11], -ONE);
    assert_eq!(p.e[14], -4137);
    assert_eq!(p.e[1], 0);
    assert_eq!(p.e[4], 0);
    assert_eq!(p.e[12], 0);
    assert_eq!(p.e[15], 0);
}

#[test]
fn vertex_layout_tiles_the_stride() {
    let l = cube_vertex_layout();
    assert_eq!(l.stride, 40);
    assert_eq!(l.position_offset, 0);
    assert_eq!(l.color_offset, 16);
    assert_eq!(l.uv_offset, 32);
    assert!(l.uv_offset + 8 <= l.stride);
}

#[test]
fn uniform_constants() {
    assert_eq!(mat4_bytes(), 64);
    assert_eq!(uniform_offset_alignment(), 256);
    assert_eq!(rgba_bytes_per_row(256), 1024);
    assert_eq!(rgba_bytes_per_row(0), 0);
}
