use softrender::camera::{Camera, PITCH_LIMIT};
use softrender::color::Color;
use softrender::fixed::{FX_ONE, HALF_PI_FX, TWO_PI_FX, fx_mul, fx_sin, fx_cos, fx_abs, isqrt};
use softrender::fragment::Fragment;
use softrender::framebuffer::{Framebuffer, DepthMode, DEPTH_FAR};
use softrender::mat::Mat4;
use softrender::noise::NoiseField;
use softrender::pipeline::{render, render_skybox, create_viewport_matrix,
    create_perspective_matrix, create_model_matrix, create_view_matrix, check_collision,
    is_in_frustum};
use softrender::ray_intersect::{Sphere, RayIntersect, Intersect};
use softrender::shaders::{Uniforms, ShaderType, vertex_shader, fragment_shader,
    gas_giant_shader, cold_gas_giant_shader, solar_shader, rocky_planet_shader,
    rocky_planet_variant_shader, alien_planet_shader, glacial_textured_shader, moon_shader,
    blue_shader};
use softrender::texture::Texture;
use softrender::triangle::triangle;
use softrender::vector::Vec3;
use softrender::vertex::{Vertex, Vec2};

fn identity_uniforms(time: u32) -> Uniforms {
    Uniforms {
        model_matrix: Mat4::identity(),
        view_matrix: Mat4::identity(),
        projection_matrix: Mat4::identity(),
        viewport_matrix: Mat4::identity(),
        time,
        noise: NoiseField::new(1337),
    }
}

fn sample_fragment() -> Fragment {
    Fragment::new(
        3,
        4,
        FX_ONE / 2,
        Vec3::new(0, FX_ONE, 0),
        Vec3::new(FX_ONE / 3, -FX_ONE / 4, FX_ONE / 5),
        FX_ONE,
    )
}

#[test]
fn orbit_preserves_radius_and_center() {
    let mut cam = Camera::new(Vec3::new(0, 0, 0), 0, 0, 150 * FX_ONE, Vec3::new(0, FX_ONE, 0));
    for k in 0..50 {
        cam.orbit(3277 * (k % 7), -1311 * (k % 5));
    }
    assert_eq!(cam.radius, 150 * FX_ONE);
    assert_eq!(cam.center, Vec3::new(0, 0, 0));
}

#[test]
fn orbit_pitch_stays_strictly_inside_quarter_turn() {
    let mut cam = Camera::new(Vec3::new(0, 0, 0), 0, 0, 10 * FX_ONE, Vec3::new(0, FX_ONE, 0));
    for _ in 0..100 {
        cam.orbit(0, 50000);
    }
    assert!(cam.pitch < HALF_PI_FX);
    assert_eq!(cam.pitch, PITCH_LIMIT);
    for _ in 0..300 {
        cam.orbit(0, -50000);
    }
    assert!(cam.pitch > -HALF_PI_FX);
    assert_eq!(cam.pitch, -PITCH_LIMIT);
}

#[test]
fn orbit_wraps_yaw_into_one_turn() {
    let mut cam = Camera::new(Vec3::new(0, 0, 0), 0, 0, 10 * FX_ONE, Vec3::new(0, FX_ONE, 0));
    cam.orbit(TWO_PI_FX - 1, 0);
    cam.orbit(2, 0);
    assert_eq!(cam.yaw, 1);
}

#[test]
fn camera_motions_mark_changed_except_lateral_pan() {
    let mut cam = Camera::new(Vec3::new(0, 0, 0), 0, 0, 10 * FX_ONE, Vec3::new(0, FX_ONE, 0));
    cam.has_changed = false;
    cam.move_center(Vec3::new(FX_ONE, 0, FX_ONE));
    assert!(!cam.has_changed);
    assert_eq!(cam.up, Vec3::new(0, FX_ONE, 0));
    cam.move_vertical(FX_ONE);
    assert!(cam.has_changed);
    cam.has_changed = false;
    cam.zoom(FX_ONE);
    assert!(cam.has_changed);
    assert_eq!(cam.radius, 9 * FX_ONE);
}

#[test]
fn camera_eye_matches_spherical_state() {
    let cam = Camera::new(Vec3::new(FX_ONE, 2 * FX_ONE, 0), 0, 0, 100 * FX_ONE,
        Vec3::new(0, FX_ONE, 0));
    let eye = cam.eye();
    // pitch is zero, so the eye stays at the center height exactly
    assert_eq!(eye.y, 2 * FX_ONE);
    // the offset length approximates the radius closely
    let off = eye.sub(&cam.center);
    let m = off.magnitude();
    let err = fx_abs(m - 100 * FX_ONE);
    assert!(err < FX_ONE, "offset magnitude {} too far from radius", m);
}

#[test]
fn triangle_fully_outside_produces_no_fragments() {
    let u = identity_uniforms(0);
    // left of the framebuffer
    let a = vertex_shader(&plain_vertex(-20 * FX_ONE, FX_ONE, 0, 0, FX_ONE, 0), &u);
    let b = vertex_shader(&plain_vertex(-10 * FX_ONE, 5 * FX_ONE, 0, 0, FX_ONE, 0), &u);
    let c = vertex_shader(&plain_vertex(-15 * FX_ONE, 9 * FX_ONE, 0, 0, FX_ONE, 0), &u);
    let frags = triangle(&a, &b, &c, 64, 64);
    assert_eq!(frags.len(), 0);
}

#[test]
fn triangle_inside_covers_roughly_its_area() {
    let u = identity_uniforms(0);
    // a right triangle with both legs 10 pixels: area 50
    let a = vertex_shader(&plain_vertex(2 * FX_ONE, 2 * FX_ONE, 0, 0, FX_ONE, 0), &u);
    let b = vertex_shader(&plain_vertex(12 * FX_ONE, 2 * FX_ONE, 0, 0, FX_ONE, 0), &u);
    let c = vertex_shader(&plain_vertex(2 * FX_ONE, 12 * FX_ONE, 0, 0, FX_ONE, 0), &u);
    let frags = triangle(&a, &b, &c, 64, 64);
    let n = frags.len();
    assert!(n >= 40 && n <= 80, "fragment count {} far from the area", n);
    for f in frags.iter() {
        assert!(f.x < 64 && f.y < 64);
    }
}

#[test]
fn degenerate_triangle_produces_no_fragments() {
    let u = identity_uniforms(0);
    let v = Vertex::new(Vec3::new(FX_ONE, FX_ONE, 0), Vec3::new(0, FX_ONE, 0),
        Vec2 { u: 0, v: 0 });
    let t = vertex_shader(&v, &u);
    let frags = triangle(&t, &t, &t, 64, 64);
    assert_eq!(frags.len(), 0);
}

fn plain_vertex(x: i64, y: i64, z: i64, nx: i64, ny: i64, nz: i64) -> Vertex {
    Vertex::new(Vec3::new(x, y, z), Vec3::new(nx, ny, nz), Vec2 { u: 0, v: 0 })
}

fn overlap_scene(first_near: bool, mode: DepthMode) -> u32 {
    // two triangles covering pixel (2, 2); the near one at depth 0, the far
    // one well behind it; normals differ so their colors differ.
    let mut fb = Framebuffer::new(8, 8);
    fb.set_mode(mode);
    let u = identity_uniforms(0);
    let near: Vec<Vertex> = vec![
        plain_vertex(0, 0, 0, 0, FX_ONE, 0),
        plain_vertex(6 * FX_ONE, 0, 0, 0, FX_ONE, 0),
        plain_vertex(0, 6 * FX_ONE, 0, 0, FX_ONE, 0),
    ];
    let far: Vec<Vertex> = vec![
        plain_vertex(0, 0, FX_ONE / 2, 0, 0, FX_ONE),
        plain_vertex(6 * FX_ONE, 0, FX_ONE / 2, 0, 0, FX_ONE),
        plain_vertex(0, 6 * FX_ONE, FX_ONE / 2, 0, 0, FX_ONE),
    ];
    if first_near {
        render(&mut fb, &u, &near, &ShaderType::Spaceship);
        render(&mut fb, &u, &far, &ShaderType::Spaceship);
    } else {
        render(&mut fb, &u, &far, &ShaderType::Spaceship);
        render(&mut fb, &u, &near, &ShaderType::Spaceship);
    }
    fb.buffer[2 * 8 + 2]
}

#[test]
fn zbuffer_mode_keeps_nearer_color_in_either_order() {
    let a = overlap_scene(true, DepthMode::ZBuffer);
    let b = overlap_scene(false, DepthMode::ZBuffer);
    assert_eq!(a, b, "draw order changed the z-buffered result");
    // and painter mode differs between orders: the last-drawn wins
    let p1 = overlap_scene(true, DepthMode::Painter);
    let p2 = overlap_scene(false, DepthMode::Painter);
    assert_ne!(p1, p2, "painter mode should depend on draw order");
    // with z-buffering the nearer triangle's color wins: it equals the
    // result of drawing the near triangle last in painter mode
    assert_eq!(a, p2);
}

#[test]
fn ray_aimed_at_center_hits_at_distance_minus_radius() {
    let sphere = Sphere::new(Vec3::new(0, 0, 0), 100 * FX_ONE);
    let origin = Vec3::new(0, 0, 300 * FX_ONE);
    let dir = Vec3::new(0, 0, -FX_ONE);
    let hit = sphere.ray_intersect(&origin, &dir);
    assert!(hit.hit);
    assert_eq!(hit.distance, 200 * FX_ONE);
    assert_eq!(hit.point, Vec3::new(0, 0, 100 * FX_ONE));
}

#[test]
fn ray_with_offset_beyond_radius_misses() {
    let sphere = Sphere::new(Vec3::new(0, 0, 0), 100 * FX_ONE);
    let origin = Vec3::new(0, 0, 300 * FX_ONE);
    // perpendicular direction: closest approach stays 300 units away
    let dir = Vec3::new(0, FX_ONE, 0);
    let hit = sphere.ray_intersect(&origin, &dir);
    assert!(!hit.hit);
    assert_eq!(hit.distance, 0);
}

#[test]
fn shaders_are_deterministic() {
    let f = sample_fragment();
    let u = identity_uniforms(42);
    let variants = [
        ShaderType::GasGiant,
        ShaderType::ColdGasGiant,
        ShaderType::Solar,
        ShaderType::RockyPlanet,
        ShaderType::RockyPlanetVariant,
        ShaderType::AlienPlanet,
        ShaderType::GlacialTextured,
        ShaderType::Moon,
        ShaderType::Spaceship,
    ];
    for st in variants.iter() {
        let c1 = fragment_shader(&f, &u, st);
        let c2 = fragment_shader(&f, &u, st);
        assert_eq!((c1.r, c1.g, c1.b), (c2.r, c2.g, c2.b));
    }
    let g1 = gas_giant_shader(&f, &u);
    let g2 = gas_giant_shader(&f, &u);
    assert_eq!((g1.r, g1.g, g1.b), (g2.r, g2.g, g2.b));
}

#[test]
fn shader_dispatch_selects_each_variant() {
    let f = sample_fragment();
    let u = identity_uniforms(7);
    let d = fragment_shader(&f, &u, &ShaderType::Moon);
    let m = moon_shader(&f, &u);
    assert_eq!((d.r, d.g, d.b), (m.r, m.g, m.b));
    let d2 = fragment_shader(&f, &u, &ShaderType::ColdGasGiant);
    let c2 = cold_gas_giant_shader(&f, &u);
    assert_eq!((d2.r, d2.g, d2.b), (c2.r, c2.g, c2.b));
    let d3 = fragment_shader(&f, &u, &ShaderType::Solar);
    let s3 = solar_shader(&f, &u);
    assert_eq!((d3.r, d3.g, d3.b), (s3.r, s3.g, s3.b));
    let d4 = fragment_shader(&f, &u, &ShaderType::RockyPlanet);
    let r4 = rocky_planet_shader(&f, &u);
    assert_eq!((d4.r, d4.g, d4.b), (r4.r, r4.g, r4.b));
    let d5 = fragment_shader(&f, &u, &ShaderType::RockyPlanetVariant);
    let r5 = rocky_planet_variant_shader(&f, &u);
    assert_eq!((d5.r, d5.g, d5.b), (r5.r, r5.g, r5.b));
    let d6 = fragment_shader(&f, &u, &ShaderType::AlienPlanet);
    let a6 = alien_planet_shader(&f, &u);
    assert_eq!((d6.r, d6.g, d6.b), (a6.r, a6.g, a6.b));
    let d7 = fragment_shader(&f, &u, &ShaderType::GlacialTextured);
    let g7 = glacial_textured_shader(&f, &u);
    assert_eq!((d7.r, d7.g, d7.b), (g7.r, g7.g, g7.b));
    let d8 = fragment_shader(&f, &u, &ShaderType::Spaceship);
    let b8 = blue_shader(&f, &u);
    assert_eq!((d8.r, d8.g, d8.b), (b8.r, b8.g, b8.b));
}

#[test]
fn identity_pipeline_round_trips_position() {
    let u = identity_uniforms(0);
    let v = Vertex::new(Vec3::new(5 * FX_ONE, -3 * FX_ONE, 7 * FX_ONE),
        Vec3::new(0, FX_ONE, 0), Vec2 { u: 0, v: 0 });
    let out = vertex_shader(&v, &u);
    assert_eq!(out.transformed_position, v.position);
    assert_eq!(out.position, v.position);
    // the identity model matrix leaves the normal unchanged too
    assert_eq!(out.transformed_normal, v.normal);
}

#[test]
fn color_packing_and_blending_are_exact() {
    let c = Color::new(1, 2, 3);
    assert_eq!(c.to_hex(), 0x010203);
    let black = Color::new(0, 0, 0);
    let white = Color::new(255, 255, 255);
    let mid = black.lerp(&white, FX_ONE / 2);
    assert_eq!((mid.r, mid.g, mid.b), (127, 127, 127));
    let c2 = Color::new(100, 10, 200).scale(3 * FX_ONE / 2);
    assert_eq!((c2.r, c2.g, c2.b), (150, 15, 255));
    let c3 = Color::new(10, 200, 30).limit_min(60);
    assert_eq!((c3.r, c3.g, c3.b), (60, 200, 60));
}

#[test]
fn fixed_point_arithmetic_is_exact() {
    assert_eq!(fx_mul(3 * FX_ONE, FX_ONE / 2), 3 * FX_ONE / 2);
    assert_eq!(fx_mul(-3 * FX_ONE, FX_ONE / 2), -(3 * FX_ONE / 2));
    assert_eq!(fx_sin(0), 0);
    for k in -20..20 {
        let s = fx_sin(k * 20000);
        assert!(-FX_ONE <= s && s <= FX_ONE);
        let c = fx_cos(k * 20000);
        assert!(-FX_ONE <= c && c <= FX_ONE);
    }
    // sine is close to the real function: sin(pi/6) = 0.5
    let half = fx_sin(34315);
    assert!((half - FX_ONE / 2).abs() < 700, "sin(pi/6) = {}", half);
    assert_eq!(isqrt(25), 5);
    assert_eq!(isqrt(24), 4);
    let m = Vec3::new(3 * FX_ONE, 4 * FX_ONE, 0).magnitude();
    assert_eq!(m, 5 * FX_ONE);
}

#[test]
fn noise_is_deterministic_and_bounded() {
    let nf = NoiseField::new(2024);
    let a = nf.get_noise_3d(123456, -654321, 42);
    let b = nf.get_noise_3d(123456, -654321, 42);
    assert_eq!(a, b);
    assert!(-FX_ONE <= a && a <= FX_ONE);
    let c = nf.get_noise_2d(98765, -12345);
    let d = nf.get_noise_2d(98765, -12345);
    assert_eq!(c, d);
    assert!(-FX_ONE <= c && c <= FX_ONE);
    // different seeds give different fields somewhere
    let other = NoiseField::new(2025);
    let mut differs = false;
    for k in 0..32 {
        if other.get_noise_3d(k * 70000, 0, 0) != nf.get_noise_3d(k * 70000, 0, 0) {
            differs = true;
        }
    }
    assert!(differs);
}

#[test]
fn framebuffer_point_applies_depth_policy() {
    let mut fb = Framebuffer::new(4, 4);
    fb.set_current_color(0xAA0000);
    fb.point(1, 1, 100);
    assert_eq!(fb.buffer[1 * 4 + 1], 0xAA0000);
    assert_eq!(fb.zbuffer[1 * 4 + 1], 100);
    // a farther fragment beyond the bias is rejected
    fb.set_current_color(0x00BB00);
    fb.point(1, 1, 200);
    assert_eq!(fb.buffer[1 * 4 + 1], 0xAA0000);
    // a nearer fragment is accepted
    fb.point(1, 1, 50);
    assert_eq!(fb.buffer[1 * 4 + 1], 0x00BB00);
    // out-of-bounds coordinates are silently dropped
    fb.point(7, 7, 0);
    // painter mode always paints
    fb.set_mode(DepthMode::Painter);
    fb.set_current_color(0x0000CC);
    fb.point(1, 1, 30000);
    assert_eq!(fb.buffer[1 * 4 + 1], 0x0000CC);
}

#[test]
fn framebuffer_clear_repaints_everything() {
    let mut fb = Framebuffer::new(3, 2);
    fb.set_current_color(0x123456);
    fb.point(0, 0, 0);
    fb.set_background_color(0x000042);
    fb.clear();
    for k in 0..6 {
        assert_eq!(fb.buffer[k], 0x000042);
        assert_eq!(fb.zbuffer[k], DEPTH_FAR);
    }
}

#[test]
fn texture_sampling_wraps_coordinates() {
    // a 2x2 texture: red, green / blue, white
    let data: Vec<u32> = vec![0xFF0000, 0x00FF00, 0x0000FF, 0xFFFFFF];
    let t = Texture::new(2, 2, data);
    let red = t.get_color(0, 0);
    assert_eq!((red.r, red.g, red.b), (255, 0, 0));
    let green = t.get_color(FX_ONE / 2, 0);
    assert_eq!((green.r, green.g, green.b), (0, 255, 0));
    // u = 1.5 wraps to the second column
    let wrapped = t.get_color(3 * FX_ONE / 2, 0);
    assert_eq!((wrapped.r, wrapped.g, wrapped.b), (0, 255, 0));
    let blue = t.get_color(0, FX_ONE / 2);
    assert_eq!((blue.r, blue.g, blue.b), (0, 0, 255));
    // a negative coordinate wraps from the other side
    let neg = t.get_color(-FX_ONE / 2, 0);
    assert_eq!((neg.r, neg.g, neg.b), (0, 255, 0));
}

#[test]
fn skybox_paints_every_pixel_with_the_sky_texture() {
    let mut fb = Framebuffer::new(4, 4);
    let data: Vec<u32> = vec![0xFFFFFF];
    let tex = Texture::new(1, 1, data);
    let u = identity_uniforms(0);
    render_skybox(&mut fb, &Vec3::new(0, 0, 0), &tex, &u);
    for k in 0..16 {
        assert_eq!(fb.buffer[k], 0xFFFFFF, "pixel {} not painted", k);
    }
}

#[test]
fn matrix_builders_produce_well_formed_matrices() {
    let vp = create_viewport_matrix(1000 * FX_ONE, 800 * FX_ONE);
    assert_eq!(vp.m00, 500 * FX_ONE);
    assert_eq!(vp.m11, -400 * FX_ONE);
    assert_eq!(vp.m13, 400 * FX_ONE);
    let p = create_perspective_matrix(1000 * FX_ONE, 800 * FX_ONE);
    assert_eq!(p.m32, -FX_ONE);
    let m = create_model_matrix(Vec3::new(FX_ONE, 0, 0), FX_ONE / 2, 0);
    assert_eq!(m.m03, FX_ONE);
    assert_eq!(m.m11, FX_ONE / 2);
    // rotation angle zero: the cosine terms carry the scale approximately
    assert!((m.m00 - FX_ONE / 2).abs() <= 8);
    let v = create_view_matrix(&Vec3::new(0, 0, 10 * FX_ONE), &Vec3::new(0, 0, 0),
        &Vec3::new(0, FX_ONE, 0));
    // looking down negative z: the third row is the forward direction negated
    assert!(v.m22 > 0);
}

#[test]
fn collision_and_frustum_tests_behave() {
    assert!(check_collision(&Vec3::new(0, 0, 0), &Vec3::new(FX_ONE, 0, 0), 2 * FX_ONE));
    assert!(!check_collision(&Vec3::new(10 * FX_ONE, 0, 0), &Vec3::new(0, 0, 0), 2 * FX_ONE));
    let ident = Mat4::identity();
    assert!(is_in_frustum(&Vec3::new(0, 0, 0), FX_ONE, &ident, &ident));
    assert!(!is_in_frustum(&Vec3::new(100 * FX_ONE, 0, 0), 0, &ident, &ident));
}

#[test]
fn intersect_new_stores_its_parts() {
    let i = Intersect::new(true, 5, Vec3::new(1, 2, 3), Vec3::new(0, FX_ONE, 0), (7, 9));
    assert!(i.hit);
    assert_eq!(i.distance, 5);
    assert_eq!(i.uv, (7, 9));
}
