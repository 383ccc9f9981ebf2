use gpu_gallery::apps::cubemap::Cubemap;
use gpu_gallery::apps::hello_triangle::HelloTriangle;
use gpu_gallery::apps::instanced_cube::InstancedCube;
use gpu_gallery::apps::rotating_cube::RotatingCube;
use gpu_gallery::apps::textured_cube::TexturedCube;
use gpu_gallery::apps::two_cubes::TwoCubes;
use gpu_gallery::fixed::ONE;
use gpu_gallery::mat4::{from_translation, mat_mul};
use gpu_gallery::transform::{model_from_axis_xy, perspective};

/// Fixed-point value of a float, as the surrounding application computes it.
fn fx(v: f32) -> i64 {
    (v * ONE as f32) as i64
}

// Half-angle sine and cosine of the fixed rotation angle of one radian.
fn half_angle() -> (i64, i64) {
    (fx((0.5f32).sin()), fx((0.5f32).cos()))
}

// The focal scale of the demos' lens: a field of view of 2*pi/5.
fn focal() -> i64 {
    fx(1.0 / (0.2f32 * std::f32::consts::PI).tan())
}

#[test]
fn projection_is_time_independent() {
    let (sh, ch) = half_angle();
    let f = focal();
    // Frames at two different elapsed times.
    let early = RotatingCube::get_mvp_matrix(fx(0.1f32.sin()), fx(0.1f32.cos()), sh, ch, f);
    let late = RotatingCube::get_mvp_matrix(fx(2.9f32.sin()), fx(2.9f32.cos()), sh, ch, f);
    assert_eq!(early.proj.e, late.proj.e);
    assert_eq!(early.view.e, late.view.e);
    assert_ne!(early.model.e, late.model.e);
    assert_ne!(early.mvp.e, late.mvp.e);
}

#[test]
fn model_at_time_zero_is_a_pure_y_rotation() {
    // sin 0 == 0 and cos 0 == 1 exactly, in fixed point too.
    let (sh, ch) = half_angle();
    assert_eq!((sh, ch), (1963, 3594));
    let f = focal();
    let frame = RotatingCube::get_mvp_matrix(0, ONE, sh, ch, f);
    let m = frame.model.e;
    // The Y axis maps to itself ...
    assert_eq!(m[5], ONE);
    assert_eq!(m[1], 0);
    assert_eq!(m[4], 0);
    assert_eq!(m[6], 0);
    assert_eq!(m[9], 0);
    // ... X and Z turn by the full angle: cosine 4096 - 2*940, sine 2*1722 ...
    assert_eq!(m[0], 2216);
    assert_eq!(m[10], 2216);
    assert_eq!(m[8], 3444);
    assert_eq!(m[2], -3444);
    // ... and nothing is translated.
    assert_eq!(&m[12..16], &[0, 0, 0, ONE]);
}

#[test]
fn textured_cube_shares_the_rotating_cube_transform() {
    let (sh, ch) = half_angle();
    let f = focal();
    let (a, b) = (fx(1.3f32.sin()), fx(1.3f32.cos()));
    let plain = RotatingCube::get_mvp_matrix(a, b, sh, ch, f);
    let textured = TexturedCube::get_mvp_matrix(a, b, sh, ch, f);
    assert_eq!(plain.mvp.e, textured.mvp.e);
}

#[test]
fn two_cubes_swap_axes_and_mirror_offsets() {
    let (sh, ch) = half_angle();
    let f = focal();
    let (a, b) = (fx(1.0f32.sin()), fx(1.0f32.cos()));
    let (first, second) = TwoCubes::get_mvp_matrix(a, b, sh, ch, f);
    // Opposite X offsets of two units.
    assert_eq!(first.model.e[12], -2 * ONE);
    assert_eq!(second.model.e[12], 2 * ONE);
    assert_eq!(first.model.e[13], 0);
    assert_eq!(second.model.e[13], 0);
    // Swapping sine and cosine on the axis swaps the X and Y behaviour.
    assert_eq!(second.model.e[0], first.model.e[5]);
    assert_eq!(second.model.e[5], first.model.e[0]);
    assert_eq!(second.model.e[10], first.model.e[10]);
    assert_eq!(second.model.e[8], first.model.e[6]);
    assert_eq!(second.model.e[2], -first.model.e[6]);
    // The camera is shared.
    assert_eq!(first.proj.e, second.proj.e);
    assert_eq!(first.view.e, second.view.e);
    // The transforms themselves differ.
    assert_ne!(first.mvp.e, second.mvp.e);
}

#[test]
fn instanced_grid_matches_straight_line_composition() {
    let (sh, ch) = half_angle();
    let f = focal();
    let t = 0.7f32;
    let mut trigs: Vec<(i64, i64)> = Vec::new();
    for x in 0..4 {
        for y in 0..4 {
            let a = ((x as f32 + 0.5) * t).sin();
            let b = ((y as f32 + 0.5) * t).cos();
            trigs.push((fx(a), fx(b)));
        }
    }
    let mvps = InstancedCube::update_mvp_matrix(&trigs, sh, ch, f);
    assert_eq!(mvps.len(), 16);

    let proj = perspective(f, ONE, 100 * ONE);
    let view = from_translation(0, 0, -12 * ONE);
    let pv = mat_mul(&proj, &view);
    for x in 0..4usize {
        for y in 0..4usize {
            let i = InstancedCube::instance_index(x, y);
            let (a, b) = trigs[i];
            let tx = (4 * x as i64 - 6) * ONE;
            let ty = (4 * y as i64 - 6) * ONE;
            let model = model_from_axis_xy(a, b, sh, ch, tx, ty);
            let expected = mat_mul(&pv, &model);
            assert_eq!(mvps[i].e, expected.e);
        }
    }
}

#[test]
fn cubemap_unrotated_model_is_the_scale() {
    let f = focal();
    let frame = Cubemap::get_mvp_matrix(0, ONE, 0, ONE, f);
    let m = frame.model.e;
    assert_eq!(m[0], 1000 * ONE);
    assert_eq!(m[5], 1000 * ONE);
    assert_eq!(m[10], 1000 * ONE);
    assert_eq!(m[15], ONE);
    assert_eq!(m[12], 0);
    // The camera stays at the origin.
    assert_eq!(frame.view.e[14], 0);
}

#[test]
fn canvas_sizes_are_square() {
    assert_eq!(HelloTriangle::canvas_size(), (600, 600));
    assert_eq!(RotatingCube::canvas_size(), (600, 600));
    assert_eq!(TexturedCube::canvas_size(), (600, 600));
    assert_eq!(TwoCubes::canvas_size(), (600, 600));
    assert_eq!(InstancedCube::canvas_size(), (600, 600));
    assert_eq!(Cubemap::canvas_size(), (800, 800));
}

#[test]
fn per_demo_buffer_layouts() {
    assert_eq!(HelloTriangle::draw_range(), (0, 3));
    assert_eq!(RotatingCube::uniform_layout(), (256, 64));
    assert_eq!(TexturedCube::uniform_layout(), (256, 64));
    assert_eq!(Cubemap::uniform_layout(), (256, 64));
    assert_eq!(Cubemap::face_count(), 6);
    let (buffer, slot0, slot1, slot) = TwoCubes::uniform_layout();
    assert_eq!((buffer, slot0, slot1, slot), (1280, 0, 256, 64));
    assert_eq!(slot1 % 256, 0);
    assert_eq!(InstancedCube::uniform_layout(), (4096, 1024));
    assert_eq!(InstancedCube::grid_size(), (4, 4));
    assert_eq!(InstancedCube::instance_index(2, 3), 11);
}
