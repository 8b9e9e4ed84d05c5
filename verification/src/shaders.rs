//! The shader stages: the vertex transform through the
//! model/view/projection/viewport chain, and the dispatch over the
//! procedural surface shaders.

use vstd::prelude::*;
use crate::fixed::{FX_ONE, FX_HALF, clamp_s, fx_mul_s, fx_mul, fx_mul_unit, fx_clamp, fx_abs,
    fx_sin, fx_sin_s, fx_cos, fx_cos_s, fx_div, fx_div_s, emod, fdiv, tdiv};
use crate::vector::{Vec3, dot_fx_s, normalize_s};
use crate::vertex::{Vertex, SCREEN_SAT};
use crate::fragment::Fragment;
use crate::color::{Color, color_lerp_s, color_scale_s, color_limit_min_s};
use crate::mat::{Mat4, Mat3, apply4, apply4_s, apply3, apply3_s, normal_matrix, normal_matrix_s,
    sdiv, sdiv128, mat4_identity_s, lemma_row4_s_bound, lemma_identity_apply4};
use crate::noise::{NoiseField, noise2_s, noise3_s};

verus! {

/// The per-draw-call bundle: the four pipeline matrices, the frame counter,
/// and the noise field the surface shaders sample. Read-only to the pipeline.
pub struct Uniforms {
    pub model_matrix: Mat4,
    pub view_matrix: Mat4,
    pub projection_matrix: Mat4,
    pub viewport_matrix: Mat4,
    pub time: u32,
    pub noise: NoiseField,
}

impl Uniforms {
    /// Well-formedness: all four matrices within entry bounds.
    pub open spec fn wf(self) -> bool {
        &&& self.model_matrix.wf()
        &&& self.view_matrix.wf()
        &&& self.projection_matrix.wf()
        &&& self.viewport_matrix.wf()
    }
}

/// The surface shader variants.
#[derive(Clone, Copy, PartialEq, Eq, Structural, Debug)]
pub enum ShaderType {
    GasGiant,
    ColdGasGiant,
    Solar,
    RockyPlanet,
    RockyPlanetVariant,
    AlienPlanet,
    GlacialTextured,
    Moon,
    Spaceship,
}

/// The clip-space position of a vertex: model, then view, then projection.
pub open spec fn clip_pos_s(v: Vertex, u: Uniforms) -> (int, int, int, int) {
    let p = apply4_s(u.model_matrix, v.position.x as int, v.position.y as int,
        v.position.z as int, FX_ONE as int);
    let q = apply4_s(u.view_matrix, p.0, p.1, p.2, p.3);
    apply4_s(u.projection_matrix, q.0, q.1, q.2, q.3)
}

/// The perspective divide; a zero homogeneous coordinate falls back to the
/// undivided position, so a degenerate projection never aborts rendering.
pub open spec fn ndc_s(c: (int, int, int, int)) -> (int, int, int) {
    if c.3 != 0 {
        (sdiv(c.0 * 65536, c.3), sdiv(c.1 * 65536, c.3), sdiv(c.2 * 65536, c.3))
    } else {
        (c.0, c.1, c.2)
    }
}

/// The screen-space position: clip, divide, viewport, then saturate into the
/// screen bound.
pub open spec fn screen_pos_s(v: Vertex, u: Uniforms) -> Vec3 {
    let n = ndc_s(clip_pos_s(v, u));
    let s = apply4_s(u.viewport_matrix, n.0, n.1, n.2, FX_ONE as int);
    Vec3 {
        x: clamp_s(s.0, -SCREEN_SAT as int, SCREEN_SAT as int) as i64,
        y: clamp_s(s.1, -SCREEN_SAT as int, SCREEN_SAT as int) as i64,
        z: clamp_s(s.2, -SCREEN_SAT as int, SCREEN_SAT as int) as i64,
    }
}

/// The whole vertex stage: a new vertex carrying the original model-space
/// attributes plus the screen position and the remapped normal.
pub open spec fn vertex_shader_s(v: Vertex, u: Uniforms) -> Vertex {
    let n3 = apply3_s(normal_matrix_s(u.model_matrix), v.normal.x as int, v.normal.y as int,
        v.normal.z as int);
    Vertex {
        position: v.position,
        normal: v.normal,
        tex_coords: v.tex_coords,
        color: v.color,
        transformed_position: screen_pos_s(v, u),
        transformed_normal: Vec3 { x: n3.0 as i64, y: n3.1 as i64, z: n3.2 as i64 },
    }
}

/// Maps a model-space vertex to screen space through the
/// model/view/projection/viewport chain, and remaps its normal through the
/// inverse-transpose of the model matrix's linear part (identity when
/// singular). Returns a new vertex; the input is unchanged.
pub fn vertex_shader(vertex: &Vertex, uniforms: &Uniforms) -> (out: Vertex)
    requires
        vertex.wf(),
        uniforms.wf(),
    ensures
        out == vertex_shader_s(*vertex, *uniforms),
        out.wf(),
        out.position == vertex.position,
        out.normal == vertex.normal,
{
    let px: i128 = vertex.position.x as i128;
    let py: i128 = vertex.position.y as i128;
    let pz: i128 = vertex.position.z as i128;
    let p = apply4(&uniforms.model_matrix, px, py, pz, FX_ONE as i128);
    proof {
        let m = uniforms.model_matrix;
        lemma_row4_s_bound(m.m00 as int, m.m01 as int, m.m02 as int, m.m03 as int, px as int,
            py as int, pz as int, 65536, 0x100_0000);
        lemma_row4_s_bound(m.m10 as int, m.m11 as int, m.m12 as int, m.m13 as int, px as int,
            py as int, pz as int, 65536, 0x100_0000);
        lemma_row4_s_bound(m.m20 as int, m.m21 as int, m.m22 as int, m.m23 as int, px as int,
            py as int, pz as int, 65536, 0x100_0000);
        lemma_row4_s_bound(m.m30 as int, m.m31 as int, m.m32 as int, m.m33 as int, px as int,
            py as int, pz as int, 65536, 0x100_0000);
    }
    let q = apply4(&uniforms.view_matrix, p.0, p.1, p.2, p.3);
    proof {
        let m = uniforms.view_matrix;
        lemma_row4_s_bound(m.m00 as int, m.m01 as int, m.m02 as int, m.m03 as int, p.0 as int,
            p.1 as int, p.2 as int, p.3 as int, 0x400_0000_0000);
        lemma_row4_s_bound(m.m10 as int, m.m11 as int, m.m12 as int, m.m13 as int, p.0 as int,
            p.1 as int, p.2 as int, p.3 as int, 0x400_0000_0000);
        lemma_row4_s_bound(m.m20 as int, m.m21 as int, m.m22 as int, m.m23 as int, p.0 as int,
            p.1 as int, p.2 as int, p.3 as int, 0x400_0000_0000);
        lemma_row4_s_bound(m.m30 as int, m.m31 as int, m.m32 as int, m.m33 as int, p.0 as int,
            p.1 as int, p.2 as int, p.3 as int, 0x400_0000_0000);
    }
    let c = apply4(&uniforms.projection_matrix, q.0, q.1, q.2, q.3);
    proof {
        let m = uniforms.projection_matrix;
        lemma_row4_s_bound(m.m00 as int, m.m01 as int, m.m02 as int, m.m03 as int, q.0 as int,
            q.1 as int, q.2 as int, q.3 as int, 0x1000_0000_0000_0000);
        lemma_row4_s_bound(m.m10 as int, m.m11 as int, m.m12 as int, m.m13 as int, q.0 as int,
            q.1 as int, q.2 as int, q.3 as int, 0x1000_0000_0000_0000);
        lemma_row4_s_bound(m.m20 as int, m.m21 as int, m.m22 as int, m.m23 as int, q.0 as int,
            q.1 as int, q.2 as int, q.3 as int, 0x1000_0000_0000_0000);
        lemma_row4_s_bound(m.m30 as int, m.m31 as int, m.m32 as int, m.m33 as int, q.0 as int,
            q.1 as int, q.2 as int, q.3 as int, 0x1000_0000_0000_0000);
    }
    let w: i128 = c.3;
    let (nx, ny, nz): (i128, i128, i128) = if w != 0 {
        (sdiv128(c.0 * 65536, w), sdiv128(c.1 * 65536, w), sdiv128(c.2 * 65536, w))
    } else {
        (c.0, c.1, c.2)
    };
    let s = apply4(&uniforms.viewport_matrix, nx, ny, nz, FX_ONE as i128);
    let sat: i128 = SCREEN_SAT as i128;
    let sx: i64 = (if s.0 < -sat {
        -sat
    } else if s.0 > sat {
        sat
    } else {
        s.0
    }) as i64;
    let sy: i64 = (if s.1 < -sat {
        -sat
    } else if s.1 > sat {
        sat
    } else {
        s.1
    }) as i64;
    let sz: i64 = (if s.2 < -sat {
        -sat
    } else if s.2 > sat {
        sat
    } else {
        s.2
    }) as i64;
    let nm: Mat3 = normal_matrix(&uniforms.model_matrix);
    let tn: (i64, i64, i64) = apply3(&nm, vertex.normal.x, vertex.normal.y, vertex.normal.z);
    Vertex {
        position: vertex.position,
        normal: vertex.normal,
        tex_coords: vertex.tex_coords,
        color: vertex.color,
        transformed_position: Vec3 { x: sx, y: sy, z: sz },
        transformed_normal: Vec3 { x: tn.0, y: tn.1, z: tn.2 },
    }
}

/// Law: with the identity model, view, projection and viewport matrices, the
/// pipeline reproduces the vertex's own position as its screen position,
/// exactly.
pub proof fn lemma_identity_pipeline_round_trip(v: Vertex, u: Uniforms)
    requires
        v.wf(),
        u.model_matrix == mat4_identity_s(),
        u.view_matrix == mat4_identity_s(),
        u.projection_matrix == mat4_identity_s(),
        u.viewport_matrix == mat4_identity_s(),
    ensures
        vertex_shader_s(v, u).transformed_position == v.position,
{
    let px = v.position.x as int;
    let py = v.position.y as int;
    let pz = v.position.z as int;
    lemma_identity_apply4(px, py, pz, FX_ONE as int);
    let c = clip_pos_s(v, u);
    assert(c == (px, py, pz, FX_ONE as int));
    assert(c.3 == 65536);
    crate::fixed::lemma_tdiv_identity(px);
    crate::fixed::lemma_tdiv_identity(py);
    crate::fixed::lemma_tdiv_identity(pz);
    let n = ndc_s(c);
    assert(n == (px, py, pz));
    lemma_identity_apply4(px, py, pz, FX_ONE as int);
    let s = apply4_s(u.viewport_matrix, n.0, n.1, n.2, FX_ONE as int);
    assert(s.0 == px && s.1 == py && s.2 == pz);
}


/// The fixed directional light of the scene, normalized.
pub open spec fn light_dir_s() -> Vec3 {
    Vec3 { x: 33972i64, y: 45313i64, z: 22654i64 }
}

/// Wrap length for time-derived animation offsets.
pub const TIME_WRAP: i64 = 0x400_0000;

/// A time-scaled animation offset, wrapped so it stays small.
pub open spec fn time_scaled_s(time: int, scale: int) -> int {
    (time * scale) % (TIME_WRAP as int)
}

fn time_scaled(time: u32, scale: i64) -> (r: i64)
    requires
        0 <= scale <= 0x10_0000,
    ensures
        r == time_scaled_s(time as int, scale as int),
        0 <= r < TIME_WRAP,
{
    proof {
        crate::fixed::lemma_mul_bound(time as int, scale as int, 0x1_0000_0000,
            0x10_0000);
    }
    emod((time as i64) * scale, TIME_WRAP)
}

/// A 3-space noise sample: the position scaled by a zoom factor, shifted,
/// and fed to the field.
pub open spec fn noise_at3_s(seed: int, p: Vec3, zoom: int, dx: int, dy: int, dz: int) -> int {
    noise3_s(fx_mul_s(p.x as int, zoom) + dx, fx_mul_s(p.y as int, zoom) + dy,
        fx_mul_s(p.z as int, zoom) + dz, seed)
}

fn noise_at3(nf: &NoiseField, p: &Vec3, zoom: i64, dx: i64, dy: i64, dz: i64) -> (r: i64)
    requires
        p.bounded(0x4000_0000),
        0 <= zoom <= 0x4000_0000,
        -0x1000_0000_0000 <= dx <= 0x1000_0000_0000,
        -0x1000_0000_0000 <= dy <= 0x1000_0000_0000,
        -0x1000_0000_0000 <= dz <= 0x1000_0000_0000,
    ensures
        r == noise_at3_s(nf.seed as int, *p, zoom as int, dx as int, dy as int, dz as int),
        -FX_ONE <= r <= FX_ONE,
{
    let sx: i64 = fx_mul(p.x, zoom) + dx;
    let sy: i64 = fx_mul(p.y, zoom) + dy;
    let sz: i64 = fx_mul(p.z, zoom) + dz;
    nf.get_noise_3d(sx, sy, sz)
}

/// A plane noise sample at two already-prepared coordinates.
pub open spec fn noise_at2_s(seed: int, x: int, y: int) -> int {
    noise2_s(x, y, seed)
}

/// The Lambertian shading factor used by the planet shaders: the object-space
/// position re-normalized as the surface normal of the unit sphere, dotted
/// with the fixed light, clamped at zero, and mapped into [0.75, 1].
pub open spec fn lambert_shading_s(p: Vec3) -> int {
    let n = normalize_s(p);
    let lam = clamp_s(dot_fx_s(n, light_dir_s()), 0, FX_ONE as int);
    49152 + fx_mul_s(16384, lam)
}

fn lambert_shading(p: &Vec3) -> (r: i64)
    requires
        p.bounded(0x4000_0000),
    ensures
        r == lambert_shading_s(*p),
        49152 <= r <= FX_ONE,
{
    let n: Vec3 = p.normalize();
    let light: Vec3 = Vec3 { x: 33972, y: 45313, z: 22654 };
    let d: i64 = n.dot(&light);
    let lam: i64 = fx_clamp(d, 0, FX_ONE);
    proof {
        crate::fixed::lemma_fx_mul_range(16384, lam as int, 16384, 65536);
        assert(fx_mul_s(16384, 65536int) == 16384) by {
            crate::fixed::lemma_tdiv_identity(16384);
        }
        assert(fx_mul_s(16384, lam as int) <= fx_mul_s(16384, 65536int)) by {
            crate::fixed::lemma_mul_bound(16384, lam as int, 16384, 65536);
            vstd::arithmetic::div_mod::lemma_div_is_ordered(16384 * lam, 16384int * 65536, 65536);
            vstd::arithmetic::div_mod::lemma_div_pos_is_pos(16384 * lam, 65536);
        }
    }
    49152 + fx_mul(16384, lam)
}

/// The craft shader: a height gradient between two blues, darkened away from
/// upward-facing normals, with a slow time shimmer.
pub open spec fn blue_shader_s(f: Fragment, u: Uniforms) -> Color {
    let base_blue = Color { r: 30u8, g: 30u8, b: 100u8 };
    let highlight_blue = Color { r: 70u8, g: 130u8, b: 180u8 };
    let shadow_black = Color { r: 0u8, g: 0u8, b: 0u8 };
    let dynamic_blue = Color { r: 50u8, g: 50u8, b: 100u8 };
    let gradient = clamp_s((f.y as int) * 6554, 0, FX_ONE as int);
    let tf = fx_mul_s(fx_sin_s(time_scaled_s(u.time as int, 655)), FX_HALF as int)
        + FX_HALF;
    let brightness = clamp_s(if f.normal.y >= 0 { f.normal.y as int } else { -(f.normal.y as int) },
        0, FX_ONE as int);
    let c1 = color_lerp_s(base_blue, highlight_blue, gradient);
    let c2 = color_lerp_s(c1, shadow_black, FX_ONE - brightness);
    color_lerp_s(c2, dynamic_blue, fx_mul_s(tf, 13107))
}

/// Colors a craft fragment. Deterministic in (fragment, uniforms).
pub fn blue_shader(fragment: &Fragment, uniforms: &Uniforms) -> (c: Color)
    requires
        fragment.wf(),
    ensures
        c == blue_shader_s(*fragment, *uniforms),
{
    let base_blue = Color::new(30, 30, 100);
    let highlight_blue = Color::new(70, 130, 180);
    let shadow_black = Color::new(0, 0, 0);
    let dynamic_blue = Color::new(50, 50, 100);
    proof {
        assert(0 <= (fragment.y as int) * 6554 <= 0x1000_0000_0000) by (nonlinear_arith)
            requires
                fragment.y <= 16384,
        ;
    }
    let gradient: i64 = fx_clamp((fragment.y as i64) * 6554, 0, FX_ONE);
    let ts: i64 = time_scaled(uniforms.time, 655);
    let tf: i64 = fx_mul(fx_sin(ts), FX_HALF) + FX_HALF;
    let brightness: i64 = fx_clamp(fx_abs(fragment.normal.y), 0, FX_ONE);
    let c1: Color = base_blue.lerp(&highlight_blue, gradient);
    let c2: Color = c1.lerp(&shadow_black, FX_ONE - brightness);
    c2.lerp(&dynamic_blue, fx_mul(tf, 13107))
}

/// The moon shader: a grey base dented by crater noise, dusted by a drifting
/// layer, with fine surface detail, Lambert shading and the fragment
/// intensity.
pub open spec fn moon_shader_s(f: Fragment, u: Uniforms) -> Color {
    let p = f.vertex_position;
    let seed = u.noise.seed as int;
    let t = time_scaled_s(u.time as int, 66);
    let base_color = Color { r: 180u8, g: 180u8, b: 180u8 };
    let crater_color = Color { r: 100u8, g: 100u8, b: 100u8 };
    let dust_color = Color { r: 150u8, g: 150u8, b: 150u8 };
    let craters = abs_s(noise_at3_s(seed, p, 9830400, 0, 0, 0));
    let dust = noise_at3_s(seed, p, 5242880, t, 0, 0);
    let surface = abs_s(noise_at3_s(seed, p, 13107200, 0, 0, 0));
    let c1 = if craters > 45875 {
        color_lerp_s(base_color, crater_color, 2 * (craters - 45875))
    } else {
        base_color
    };
    let c2 = color_lerp_s(c1, dust_color, fx_mul_s(abs_s(dust), 13107));
    let c3 = if surface > 52429 {
        color_lerp_s(c2, crater_color, tdiv(surface - 52429, 2))
    } else {
        c2
    };
    let shaded = color_scale_s(c3, lambert_shading_s(p));
    color_scale_s(shaded, f.intensity as int)
}

/// Absolute value at the specification level.
pub open spec fn abs_s(x: int) -> int {
    if x >= 0 {
        x
    } else {
        -x
    }
}

/// Colors a moon fragment. Deterministic in (fragment, uniforms).
pub fn moon_shader(fragment: &Fragment, uniforms: &Uniforms) -> (c: Color)
    requires
        fragment.wf(),
    ensures
        c == moon_shader_s(*fragment, *uniforms),
{
    let p: Vec3 = fragment.vertex_position;
    let t: i64 = time_scaled(uniforms.time, 66);
    let base_color = Color::new(180, 180, 180);
    let crater_color = Color::new(100, 100, 100);
    let dust_color = Color::new(150, 150, 150);
    let craters: i64 = fx_abs(noise_at3(&uniforms.noise, &p, 9830400, 0, 0, 0));
    let dust: i64 = noise_at3(&uniforms.noise, &p, 5242880, t, 0, 0);
    let surface: i64 = fx_abs(noise_at3(&uniforms.noise, &p, 13107200, 0, 0, 0));
    let c1: Color = if craters > 45875 {
        base_color.lerp(&crater_color, 2 * (craters - 45875))
    } else {
        base_color
    };
    let c2: Color = c1.lerp(&dust_color, fx_mul(fx_abs(dust), 13107));
    let c3: Color = if surface > 52429 {
        c2.lerp(&crater_color, (surface - 52429) / 2)
    } else {
        c2
    };
    let shaded: Color = c3.scale(lambert_shading(&p));
    shaded.scale(fragment.intensity)
}


/// One of five banded colors, selected by index.
pub open spec fn pick5_s(c0: Color, c1: Color, c2: Color, c3: Color, c4: Color, i: int) -> Color {
    if i == 0 {
        c0
    } else if i == 1 {
        c1
    } else if i == 2 {
        c2
    } else if i == 3 {
        c3
    } else {
        c4
    }
}

fn pick5(c0: Color, c1: Color, c2: Color, c3: Color, c4: Color, i: i64) -> (c: Color)
    ensures
        c == pick5_s(c0, c1, c2, c3, c4, i as int),
{
    if i == 0 {
        c0
    } else if i == 1 {
        c1
    } else if i == 2 {
        c2
    } else if i == 3 {
        c3
    } else {
        c4
    }
}

/// The specular highlight factor of the gas giants: the light reflected about
/// the position-as-normal, measured against the view axis and raised to the
/// tenth power.
pub open spec fn specular10_s(p: Vec3) -> int {
    let n = normalize_s(p);
    let d = clamp_s(dot_fx_s(n, light_dir_s()), -196608, 196608);
    let rz = 2 * fx_mul_s(d, n.z as int) - 22654;
    let sv = clamp_s(rz, 0, FX_ONE as int);
    let s2 = fx_mul_s(sv, sv);
    let s4 = fx_mul_s(s2, s2);
    let s8 = fx_mul_s(s4, s4);
    fx_mul_s(s8, s2)
}

fn specular10(p: &Vec3) -> (r: i64)
    requires
        p.bounded(0x4000_0000),
    ensures
        r == specular10_s(*p),
        0 <= r <= FX_ONE,
{
    let n: Vec3 = p.normalize();
    let light: Vec3 = Vec3 { x: 33972, y: 45313, z: 22654 };
    let d: i64 = fx_clamp(n.dot(&light), -196608, 196608);
    let dz: i64 = fx_mul(d, n.z);
    proof {
        crate::fixed::lemma_fx_mul_range(d as int, n.z as int, 196608, 65536);
    }
    let rz: i64 = 2 * dz - 22654;
    let sv: i64 = fx_clamp(rz, 0, FX_ONE);
    let s2: i64 = fx_mul_unit(sv, sv);
    let s4: i64 = fx_mul_unit(s2, s2);
    let s8: i64 = fx_mul_unit(s4, s4);
    fx_mul_unit(s8, s2)
}

/// The banded giant surface: latitude bands of a five-color palette, wobbled
/// by a drifting distortion field, jittered per position, darkened by band
/// shadows, spotted with storms, Lambert-lit, darkened toward the poles, with
/// a specular sheen, and finally scaled by the fragment intensity.
pub open spec fn banded_giant_s(
    f: Fragment,
    u: Uniforms,
    c0: Color,
    c1: Color,
    c2: Color,
    c3: Color,
    c4: Color,
    storm: Color,
    thresh: int,
    spot_zoom: int,
    wind: int,
) -> Color {
    let p = f.vertex_position;
    let seed = u.noise.seed as int;
    let t = time_scaled_s(u.time as int, 66);
    let dyn_y = p.y + t;
    let distortion = noise2_s(fx_mul_s(p.x as int, 655360), fx_mul_s(dyn_y, 655360), seed);
    let distorted_y = dyn_y + fx_mul_s(p.x as int, wind) + fx_mul_s(distortion, 6554)
        + fx_mul_s(p.x as int, 3277);
    let band_sine = fx_sin_s(fx_mul_s(distorted_y, 2621440));
    let band_variation = fx_mul_s(fx_sin_s(fx_mul_s(p.y as int, 655360)), 19661);
    let bf = clamp_s(tdiv((band_sine + band_variation + FX_ONE) * 5, 2), 0, 327680);
    let bi = (bf / 65536) % 5;
    let frac = bf % 65536;
    let j = noise2_s(fx_mul_s(p.x as int, 19660800), fx_mul_s(p.y as int, 19660800), seed);
    let jf = FX_ONE + fx_mul_s(j, 1966);
    let boost: int = if j > 0 {
        78643
    } else {
        65536
    };
    let base_band = color_scale_s(color_scale_s(pick5_s(c0, c1, c2, c3, c4, bi), jf), boost);
    let next_band = color_scale_s(pick5_s(c0, c1, c2, c3, c4, (bi + 1) % 5), jf);
    let interp = color_lerp_s(base_band, next_band, frac);
    let n1 = noise2_s(fx_mul_s(p.x as int, 5242880), fx_mul_s(p.y as int, 5242880), seed);
    let n2 = noise2_s(fx_mul_s(p.x as int, 2621440), fx_mul_s(p.y as int, 2621440), seed);
    let perturbed = color_scale_s(interp, 62259 + fx_mul_s(n1 + n2, 983));
    let ishadow = fx_mul_s(abs_s(fx_sin_s(fx_mul_s(distorted_y, 262144))), 9830);
    let shaded = color_scale_s(perturbed, FX_ONE - ishadow);
    let sn = noise2_s(fx_mul_s(p.x as int, 3276800), fx_mul_s(p.y as int, 3276800), seed);
    let shadowed = color_scale_s(shaded, FX_ONE - fx_mul_s(sn, 3277));
    let spot = noise2_s(fx_mul_s(p.x as int, spot_zoom), fx_mul_s(p.y as int, spot_zoom), seed);
    let stormy = if spot > thresh {
        color_lerp_s(shadowed, storm, fx_div_s(spot - thresh, FX_ONE - thresh))
    } else {
        shadowed
    };
    let lit = color_scale_s(stormy, lambert_shading_s(p));
    let grad = color_scale_s(lit, FX_ONE - fx_mul_s(abs_s(p.y as int), 9830));
    let white = Color { r: 255u8, g: 255u8, b: 255u8 };
    let hi = color_lerp_s(grad, white, fx_mul_s(specular10_s(p), 9830));
    color_scale_s(hi, f.intensity as int)
}

#[verifier::rlimit(60)]
fn banded_giant(
    fragment: &Fragment,
    uniforms: &Uniforms,
    c0: Color,
    c1: Color,
    c2: Color,
    c3: Color,
    c4: Color,
    storm: Color,
    thresh: i64,
    spot_zoom: i64,
    wind: i64,
) -> (c: Color)
    requires
        fragment.wf(),
        0 < thresh < FX_ONE,
        0 <= spot_zoom <= 0x4000_0000,
        -65536 <= wind <= 65536,
    ensures
        c == banded_giant_s(*fragment, *uniforms, c0, c1, c2, c3, c4, storm, thresh as int,
            spot_zoom as int, wind as int),
{
    let p: Vec3 = fragment.vertex_position;
    let nf: &NoiseField = &uniforms.noise;
    let t: i64 = time_scaled(uniforms.time, 66);
    let dyn_y: i64 = p.y + t;
    let distortion: i64 = nf.get_noise_2d(fx_mul(p.x, 655360), fx_mul(dyn_y, 655360));
    proof {
        crate::fixed::lemma_fx_mul_range(p.x as int, wind as int, 0x100_0000, 65536);
        crate::fixed::lemma_fx_mul_range(p.x as int, 3277, 0x100_0000, 3277);
    }
    let distorted_y: i64 = dyn_y + fx_mul(p.x, wind) + fx_mul(distortion, 6554) + fx_mul(
        p.x,
        3277,
    );
    let band_sine: i64 = fx_sin(fx_mul(distorted_y, 2621440));
    let band_variation: i64 = fx_mul(fx_sin(fx_mul(p.y, 655360)), 19661);
    let bf: i64 = fx_clamp(((band_sine + band_variation + FX_ONE) * 5) / 2, 0, 327680);
    let bi: i64 = emod(fdiv(bf, 65536), 5);
    let frac: i64 = emod(bf, 65536);
    let j: i64 = nf.get_noise_2d(fx_mul(p.x, 19660800), fx_mul(p.y, 19660800));
    let jf: i64 = FX_ONE + fx_mul(j, 1966);
    let boost: i64 = if j > 0 {
        78643
    } else {
        65536
    };
    let base_band: Color = pick5(c0, c1, c2, c3, c4, bi).scale(jf).scale(boost);
    let next_band: Color = pick5(c0, c1, c2, c3, c4, emod(bi + 1, 5)).scale(jf);
    let interp: Color = base_band.lerp(&next_band, frac);
    let n1: i64 = nf.get_noise_2d(fx_mul(p.x, 5242880), fx_mul(p.y, 5242880));
    let n2: i64 = nf.get_noise_2d(fx_mul(p.x, 2621440), fx_mul(p.y, 2621440));
    let perturbed: Color = interp.scale(62259 + fx_mul(n1 + n2, 983));
    let ishadow: i64 = fx_mul(fx_abs(fx_sin(fx_mul(distorted_y, 262144))), 9830);
    proof {
        crate::fixed::lemma_fx_mul_range(
            abs_s(fx_sin_s(fx_mul_s(distorted_y as int, 262144))) as int,
            9830,
            65536,
            9830,
        );
    }
    let shaded: Color = perturbed.scale(FX_ONE - ishadow);
    let sn: i64 = nf.get_noise_2d(fx_mul(p.x, 3276800), fx_mul(p.y, 3276800));
    let shadowed: Color = shaded.scale(FX_ONE - fx_mul(sn, 3277));
    let spot: i64 = nf.get_noise_2d(fx_mul(p.x, spot_zoom), fx_mul(p.y, spot_zoom));
    let stormy: Color = if spot > thresh {
        shadowed.lerp(&storm, fx_div(spot - thresh, FX_ONE - thresh))
    } else {
        shadowed
    };
    let lit: Color = stormy.scale(lambert_shading(&p));
    proof {
        crate::fixed::lemma_fx_mul_range(abs_s(p.y as int) as int, 9830, 0x100_0000, 9830);
    }
    let grad: Color = lit.scale(FX_ONE - fx_mul(fx_abs(p.y), 9830));
    let white: Color = Color::new(255, 255, 255);
    let hi: Color = grad.lerp(&white, fx_mul(specular10(&p), 9830));
    hi.scale(fragment.intensity)
}

/// Colors a warm gas giant fragment: magenta-red bands with pale storms.
pub fn gas_giant_shader(fragment: &Fragment, uniforms: &Uniforms) -> (c: Color)
    requires
        fragment.wf(),
    ensures
        c == gas_giant_shader_s(*fragment, *uniforms),
{
    banded_giant(
        fragment,
        uniforms,
        Color::new(110, 0, 90),
        Color::new(160, 20, 60),
        Color::new(130, 10, 80),
        Color::new(180, 40, 90),
        Color::new(140, 10, 70),
        Color::new(242, 217, 166),
        49152,
        1638400,
        0,
    )
}

/// The warm gas giant at the specification level.
pub open spec fn gas_giant_shader_s(f: Fragment, u: Uniforms) -> Color {
    banded_giant_s(
        f,
        u,
        Color { r: 110u8, g: 0u8, b: 90u8 },
        Color { r: 160u8, g: 20u8, b: 60u8 },
        Color { r: 130u8, g: 10u8, b: 80u8 },
        Color { r: 180u8, g: 40u8, b: 90u8 },
        Color { r: 140u8, g: 10u8, b: 70u8 },
        Color { r: 242u8, g: 217u8, b: 166u8 },
        49152,
        1638400,
        0,
    )
}

/// Colors a cold gas giant fragment: blue bands, wind-tilted, with pale
/// storms.
pub fn cold_gas_giant_shader(fragment: &Fragment, uniforms: &Uniforms) -> (c: Color)
    requires
        fragment.wf(),
    ensures
        c == cold_gas_giant_shader_s(*fragment, *uniforms),
{
    banded_giant(
        fragment,
        uniforms,
        Color::new(100, 150, 180),
        Color::new(120, 180, 200),
        Color::new(90, 140, 170),
        Color::new(130, 190, 210),
        Color::new(80, 120, 160),
        Color::new(191, 217, 242),
        45875,
        983040,
        1311,
    )
}

/// The cold gas giant at the specification level.
pub open spec fn cold_gas_giant_shader_s(f: Fragment, u: Uniforms) -> Color {
    banded_giant_s(
        f,
        u,
        Color { r: 100u8, g: 150u8, b: 180u8 },
        Color { r: 120u8, g: 180u8, b: 200u8 },
        Color { r: 90u8, g: 140u8, b: 170u8 },
        Color { r: 130u8, g: 190u8, b: 210u8 },
        Color { r: 80u8, g: 120u8, b: 160u8 },
        Color { r: 191u8, g: 217u8, b: 242u8 },
        45875,
        983040,
        1311,
    )
}


/// The sun surface: pulsating multi-octave noise blended across a three-color
/// fire palette, with drifting bands and a slow global pulse.
pub open spec fn solar_shader_s(f: Fragment, u: Uniforms) -> Color {
    let p = Vec3 { x: f.vertex_position.x, y: f.vertex_position.y, z: f.depth };
    let seed = u.noise.seed as int;
    let bright = Color { r: 255u8, g: 240u8, b: 70u8 };
    let mid = Color { r: 255u8, g: 100u8, b: 0u8 };
    let dark = Color { r: 70u8, g: 10u8, b: 0u8 };
    let t = time_scaled_s(u.time as int, 1311);
    let base_frequency = 2621 + fx_mul_s(p.x as int, 655);
    let pulsate_amplitude = 39322 + fx_mul_s(p.y as int, 1311);
    let pulsate = fx_mul_s(fx_sin_s(fx_mul_s(t, base_frequency)), pulsate_amplitude);
    let off300 = fx_mul_s(19660800, 98304000);
    let nv1 = noise_at3_s(seed, p, 98304000, 0, 0, fx_mul_s(pulsate, 98304000));
    let nv2 = noise_at3_s(seed, p, 98304000, off300, off300, off300 + fx_mul_s(pulsate,
        98304000));
    let nv = tdiv(nv1 + nv2, 2);
    let fine = noise_at3_s(seed, p, 32768000, 0, 0, fx_mul_s(pulsate, 32768000));
    let adjusted = fx_mul_s(nv + fx_mul_s(fine, 39322), 117964) - 26214;
    let high_freq = fx_mul_s(noise_at3_s(seed, p, 131072000, 0, 0, 0), 1966);
    let bands1 = fx_mul_s(fx_sin_s(fx_mul_s(p.y as int, 393216) + fx_mul_s(nv, 1638400)
        + fx_mul_s(t, 9830)), 13107);
    let bands2 = fx_mul_s(fx_sin_s(fx_mul_s(p.y as int, 655360) + fx_mul_s(nv, 3276800)
        + fx_mul_s(t, 5243)), 6554);
    let combined = bands1 + bands2 + high_freq;
    let color = if adjusted + combined > 26214 {
        color_lerp_s(mid, bright, adjusted + combined - 26214)
    } else {
        color_lerp_s(dark, mid, fx_mul_s(adjusted + combined, 163840))
    };
    let pulse = FX_ONE + fx_mul_s(9830, fx_sin_s(fx_mul_s(t, 98304) + fx_mul_s(p.x as int,
        3277)));
    color_scale_s(color_scale_s(color, pulse), f.intensity as int)
}

/// Colors a sun fragment. Deterministic in (fragment, uniforms).
#[verifier::rlimit(100)]
pub fn solar_shader(fragment: &Fragment, uniforms: &Uniforms) -> (c: Color)
    requires
        fragment.wf(),
    ensures
        c == solar_shader_s(*fragment, *uniforms),
{
    let p: Vec3 = Vec3 {
        x: fragment.vertex_position.x,
        y: fragment.vertex_position.y,
        z: fragment.depth,
    };
    let nf: &NoiseField = &uniforms.noise;
    let bright: Color = Color::new(255, 240, 70);
    let mid: Color = Color::new(255, 100, 0);
    let dark: Color = Color::new(70, 10, 0);
    let t: i64 = time_scaled(uniforms.time, 1311);
    proof {
        crate::fixed::lemma_fx_mul_range(p.x as int, 655, 0x4000_0000, 655);
        crate::fixed::lemma_fx_mul_range(p.y as int, 1311, 0x4000_0000, 1311);
    }
    let base_frequency: i64 = 2621 + fx_mul(p.x, 655);
    let pulsate_amplitude: i64 = 39322 + fx_mul(p.y, 1311);
    let sv: i64 = fx_sin(fx_mul(t, base_frequency));
    proof {
        crate::fixed::lemma_fx_mul_range(sv as int, pulsate_amplitude as int, 65536,
            0x2000_0000);
    }
    let pulsate: i64 = fx_mul(sv, pulsate_amplitude);
    proof {
        crate::fixed::lemma_fx_mul_range(pulsate as int, 98304000, 0x4000_0000, 98304000);
        crate::fixed::lemma_fx_mul_range(pulsate as int, 32768000, 0x4000_0000, 32768000);
    }
    let off300: i64 = fx_mul(19660800, 98304000);
    let pz: i64 = fx_mul(pulsate, 98304000);
    let nv1: i64 = noise_at3(nf, &p, 98304000, 0, 0, pz);
    let nv2: i64 = noise_at3(nf, &p, 98304000, off300, off300, off300 + pz);
    let nv: i64 = (nv1 + nv2) / 2;
    let fine: i64 = noise_at3(nf, &p, 32768000, 0, 0, fx_mul(pulsate, 32768000));
    let adjusted: i64 = fx_mul(nv + fx_mul(fine, 39322), 117964) - 26214;
    proof {
        crate::fixed::lemma_fx_mul_range(
            (nv + fx_mul_s(fine as int, 39322)) as int,
            117964,
            0x4000_0000,
            117964,
        );
    }
    let high_freq: i64 = fx_mul(noise_at3(nf, &p, 131072000, 0, 0, 0), 1966);
    let b1arg: i64 = fx_mul(p.y, 393216) + fx_mul(nv, 1638400) + fx_mul(t, 9830);
    let bands1: i64 = fx_mul(fx_sin(b1arg), 13107);
    let b2arg: i64 = fx_mul(p.y, 655360) + fx_mul(nv, 3276800) + fx_mul(t, 5243);
    let bands2: i64 = fx_mul(fx_sin(b2arg), 6554);
    let combined: i64 = bands1 + bands2 + high_freq;
    proof {
        crate::fixed::lemma_fx_mul_range(fx_sin_s(b1arg as int), 13107, 65536, 13107);
        crate::fixed::lemma_fx_mul_range(fx_sin_s(b2arg as int), 6554, 65536, 6554);
        crate::fixed::lemma_fx_mul_range(
            noise_at3_s(nf.seed as int, p, 131072000, 0, 0, 0),
            1966,
            65536,
            1966,
        );
    }
    let color: Color = if adjusted + combined > 26214 {
        mid.lerp(&bright, adjusted + combined - 26214)
    } else {
        dark.lerp(&mid, fx_mul(adjusted + combined, 163840))
    };
    let pulse: i64 = FX_ONE + fx_mul(9830, fx_sin(fx_mul(t, 98304) + fx_mul(p.x, 3277)));
    color.scale(pulse).scale(fragment.intensity)
}

/// The rocky surface shared by the two rocky planets: layered noise and a
/// crater interference pattern over a three-color palette, time-swept
/// lighting, a slow pulsation and three fine texture layers.
/// The layered surface value of the rocky planets: two base octaves, a
/// crater interference pattern, and two finer octaves, clamped into [0, 1].
pub open spec fn rocky_surface_value_s(f: Fragment, u: Uniforms, zoom: int) -> int {
    let p = Vec3 { x: f.vertex_position.x, y: f.vertex_position.y, z: f.depth };
    let seed = u.noise.seed as int;
    let off400 = fx_mul_s(26214400, zoom);
    let nv1 = noise_at3_s(seed, p, zoom, 0, 0, 0);
    let nv2 = noise_at3_s(seed, p, zoom, off400, off400, off400);
    let nv = tdiv(nv1 + nv2, 2);
    let cx = fx_mul_s(p.x as int, 98304);
    let cy = fx_mul_s(p.y as int, 98304);
    let crater = fx_mul_s(fx_mul_s(fx_sin_s(cx + cy), fx_cos_s(cx - cy)), 131072);
    let c1 = clamp_s(nv + crater, 0, FX_ONE as int);
    let fine = fx_mul_s(noise_at3_s(seed, p, 104857600, 0, 0, 0), 19661);
    let c2 = clamp_s(c1 + fine, 0, FX_ONE as int);
    let fract = fx_mul_s(noise_at3_s(seed, p, 131072000, 0, 0, 0), 9830);
    clamp_s(c2 + fract, 0, FX_ONE as int)
}

fn rocky_surface_value(fragment: &Fragment, uniforms: &Uniforms, zoom: i64) -> (v: i64)
    requires
        fragment.wf(),
        0 <= zoom <= 0x1000_0000,
    ensures
        v == rocky_surface_value_s(*fragment, *uniforms, zoom as int),
        0 <= v <= FX_ONE,
{
    let p: Vec3 = Vec3 {
        x: fragment.vertex_position.x,
        y: fragment.vertex_position.y,
        z: fragment.depth,
    };
    let nf: &NoiseField = &uniforms.noise;
    let off400: i64 = fx_mul(26214400, zoom);
    let nv1: i64 = noise_at3(nf, &p, zoom, 0, 0, 0);
    let nv2: i64 = noise_at3(nf, &p, zoom, off400, off400, off400);
    let nv: i64 = (nv1 + nv2) / 2;
    proof {
        crate::fixed::lemma_fx_mul_range(p.x as int, 98304, 0x4000_0000, 98304);
        crate::fixed::lemma_fx_mul_range(p.y as int, 98304, 0x4000_0000, 98304);
    }
    let cx: i64 = fx_mul(p.x, 98304);
    let cy: i64 = fx_mul(p.y, 98304);
    let sc: i64 = fx_mul(fx_sin(cx + cy), fx_cos(cx - cy));
    proof {
        crate::fixed::lemma_fx_mul_range(fx_sin_s((cx + cy) as int), fx_cos_s((cx - cy) as int),
            65536, 65536);
    }
    let crater: i64 = fx_mul(sc, 131072);
    let c1: i64 = fx_clamp(nv + crater, 0, FX_ONE);
    let fine: i64 = fx_mul(noise_at3(nf, &p, 104857600, 0, 0, 0), 19661);
    let c2: i64 = fx_clamp(c1 + fine, 0, FX_ONE);
    let fract: i64 = fx_mul(noise_at3(nf, &p, 131072000, 0, 0, 0), 9830);
    fx_clamp(c2 + fract, 0, FX_ONE)
}

/// The rocky surface shared by the two rocky planets: the layered surface
/// value mapped through a three-color palette, time-swept lighting, a slow
/// pulsation and three fine texture layers.
pub open spec fn rocky_core_s(
    f: Fragment,
    u: Uniforms,
    bright: Color,
    mid: Color,
    dark: Color,
    zoom: int,
    pfreq: int,
    pamp: int,
) -> Color {
    let p = Vec3 { x: f.vertex_position.x, y: f.vertex_position.y, z: f.depth };
    let seed = u.noise.seed as int;
    let c3 = rocky_surface_value_s(f, u, zoom);
    let color = if c3 > 32768 {
        color_lerp_s(mid, bright, fx_mul_s(c3 - 32768, 98304))
    } else {
        color_lerp_s(dark, mid, 2 * c3)
    };
    let light_factor = FX_ONE + fx_mul_s(fx_sin_s(fx_mul_s(p.y as int, 32768)
        + time_scaled_s(u.time as int, 98)), 6554);
    let directional = FX_ONE + fx_mul_s(fx_cos_s(fx_mul_s(p.x as int, 19661)
        + time_scaled_s(u.time as int, 131)), 3277);
    let lit = color_scale_s(color_scale_s(color, light_factor), directional);
    let pulsate = fx_mul_s(fx_sin_s(time_scaled_s(u.time as int, pfreq) + fx_mul_s(p.x as int,
        1311) + fx_mul_s(p.y as int, 1311)), pamp);
    let pulsed = color_scale_s(lit, FX_ONE + pulsate);
    let t1 = fx_mul_s(noise_at3_s(seed, p, 163840000, 0, 0, 0), 19661);
    let t2 = fx_mul_s(noise_at3_s(seed, p, 196608000, 0, 0, 0), 16384);
    let t3 = fx_mul_s(noise_at3_s(seed, p, 229376000, 0, 0, 0), 6554);
    let textured = color_scale_s(color_scale_s(color_scale_s(pulsed, FX_ONE + t1), FX_ONE + t2),
        FX_ONE + t3);
    color_scale_s(textured, f.intensity as int)
}

#[verifier::rlimit(100)]
fn rocky_core(
    fragment: &Fragment,
    uniforms: &Uniforms,
    bright: Color,
    mid: Color,
    dark: Color,
    zoom: i64,
    pfreq: i64,
    pamp: i64,
) -> (c: Color)
    requires
        fragment.wf(),
        0 <= zoom <= 0x1000_0000,
        0 <= pfreq <= 0x10_0000,
        0 <= pamp <= 65536,
    ensures
        c == rocky_core_s(*fragment, *uniforms, bright, mid, dark, zoom as int, pfreq as int,
            pamp as int),
{
    let p: Vec3 = Vec3 {
        x: fragment.vertex_position.x,
        y: fragment.vertex_position.y,
        z: fragment.depth,
    };
    let nf: &NoiseField = &uniforms.noise;
    let c3: i64 = rocky_surface_value(fragment, uniforms, zoom);
    let color: Color = if c3 > 32768 {
        mid.lerp(&bright, fx_mul(c3 - 32768, 98304))
    } else {
        dark.lerp(&mid, 2 * c3)
    };
    let light_factor: i64 = FX_ONE + fx_mul(
        fx_sin(fx_mul(p.y, 32768) + time_scaled(uniforms.time, 98)),
        6554,
    );
    let directional: i64 = FX_ONE + fx_mul(
        fx_cos(fx_mul(p.x, 19661) + time_scaled(uniforms.time, 131)),
        3277,
    );
    let lit: Color = color.scale(light_factor).scale(directional);
    let pulsate: i64 = fx_mul(
        fx_sin(time_scaled(uniforms.time, pfreq) + fx_mul(p.x, 1311) + fx_mul(p.y, 1311)),
        pamp,
    );
    let pulsed: Color = lit.scale(FX_ONE + pulsate);
    let t1: i64 = fx_mul(noise_at3(nf, &p, 163840000, 0, 0, 0), 19661);
    let t2: i64 = fx_mul(noise_at3(nf, &p, 196608000, 0, 0, 0), 16384);
    let t3: i64 = fx_mul(noise_at3(nf, &p, 229376000, 0, 0, 0), 6554);
    proof {
        let seed = nf.seed as int;
        crate::fixed::lemma_fx_mul_range(noise_at3_s(seed, p, 163840000, 0, 0, 0), 19661, 65536,
            19661);
        crate::fixed::lemma_fx_mul_range(noise_at3_s(seed, p, 196608000, 0, 0, 0), 16384, 65536,
            16384);
        crate::fixed::lemma_fx_mul_range(noise_at3_s(seed, p, 229376000, 0, 0, 0), 6554, 65536,
            6554);
    }
    let textured: Color = pulsed.scale(FX_ONE + t1).scale(FX_ONE + t2).scale(FX_ONE + t3);
    textured.scale(fragment.intensity)
}

/// Colors a rocky planet fragment: warm orange palette.
pub fn rocky_planet_shader(fragment: &Fragment, uniforms: &Uniforms) -> (c: Color)
    requires
        fragment.wf(),
    ensures
        c == rocky_planet_shader_s(*fragment, *uniforms),
{
    rocky_core(fragment, uniforms, Color::new(230, 120, 70), Color::new(140, 70, 40),
        Color::new(30, 10, 5), 78643200, 3932, 6554)
}

/// The warm rocky planet at the specification level.
pub open spec fn rocky_planet_shader_s(f: Fragment, u: Uniforms) -> Color {
    rocky_core_s(f, u, Color { r: 230u8, g: 120u8, b: 70u8 }, Color { r: 140u8, g: 70u8,
        b: 40u8 }, Color { r: 30u8, g: 10u8, b: 5u8 }, 78643200, 3932, 6554)
}

/// Colors the sandy rocky planet variant: a desert palette with a slower
/// pulsation.
pub fn rocky_planet_variant_shader(fragment: &Fragment, uniforms: &Uniforms) -> (c: Color)
    requires
        fragment.wf(),
    ensures
        c == rocky_planet_variant_shader_s(*fragment, *uniforms),
{
    rocky_core(fragment, uniforms, Color::new(237, 201, 175), Color::new(193, 154, 107),
        Color::new(139, 108, 66), 65536000, 2621, 5243)
}

/// The sandy rocky planet variant at the specification level.
pub open spec fn rocky_planet_variant_shader_s(f: Fragment, u: Uniforms) -> Color {
    rocky_core_s(f, u, Color { r: 237u8, g: 201u8, b: 175u8 }, Color { r: 193u8, g: 154u8,
        b: 107u8 }, Color { r: 139u8, g: 108u8, b: 66u8 }, 65536000, 2621, 5243)
}


/// The summed fine texture of the alien world: six noise octaves at rising
/// zooms and falling weights, clamped into [0, 1].
pub open spec fn alien_texture_s(f: Fragment, u: Uniforms) -> int {
    let p = Vec3 { x: f.vertex_position.x, y: f.vertex_position.y, z: f.depth };
    let seed = u.noise.seed as int;
    let t1 = fx_mul_s(noise_at3_s(seed, p, 45875200, 0, 0, 0), 19661);
    let t2 = fx_mul_s(noise_at3_s(seed, p, 65536000, 0, 0, 0), 16384);
    let t3 = fx_mul_s(noise_at3_s(seed, p, 98304000, 0, 0, 0), 13107);
    let t4 = fx_mul_s(noise_at3_s(seed, p, 131072000, 0, 0, 0), 9830);
    let t5 = fx_mul_s(noise_at3_s(seed, p, 163840000, 0, 0, 0), 9830);
    let t6 = fx_mul_s(noise_at3_s(seed, p, 229376000, 0, 0, 0), 6554);
    clamp_s(t1 + t2 + t3 + t4 + t5 + t6, 0, FX_ONE as int)
}

#[verifier::rlimit(100)]
fn alien_texture(fragment: &Fragment, uniforms: &Uniforms) -> (v: i64)
    requires
        fragment.wf(),
    ensures
        v == alien_texture_s(*fragment, *uniforms),
        0 <= v <= FX_ONE,
{
    let p: Vec3 = Vec3 {
        x: fragment.vertex_position.x,
        y: fragment.vertex_position.y,
        z: fragment.depth,
    };
    let nf: &NoiseField = &uniforms.noise;
    let t1: i64 = fx_mul(noise_at3(nf, &p, 45875200, 0, 0, 0), 19661);
    let t2: i64 = fx_mul(noise_at3(nf, &p, 65536000, 0, 0, 0), 16384);
    let t3: i64 = fx_mul(noise_at3(nf, &p, 98304000, 0, 0, 0), 13107);
    let t4: i64 = fx_mul(noise_at3(nf, &p, 131072000, 0, 0, 0), 9830);
    let t5: i64 = fx_mul(noise_at3(nf, &p, 163840000, 0, 0, 0), 9830);
    let t6: i64 = fx_mul(noise_at3(nf, &p, 229376000, 0, 0, 0), 6554);
    proof {
        let seed = nf.seed as int;
        crate::fixed::lemma_fx_mul_range(noise_at3_s(seed, p, 45875200, 0, 0, 0), 19661, 65536,
            19661);
        crate::fixed::lemma_fx_mul_range(noise_at3_s(seed, p, 65536000, 0, 0, 0), 16384, 65536,
            16384);
        crate::fixed::lemma_fx_mul_range(noise_at3_s(seed, p, 98304000, 0, 0, 0), 13107, 65536,
            13107);
        crate::fixed::lemma_fx_mul_range(noise_at3_s(seed, p, 131072000, 0, 0, 0), 9830, 65536,
            9830);
        crate::fixed::lemma_fx_mul_range(noise_at3_s(seed, p, 163840000, 0, 0, 0), 9830, 65536,
            9830);
        crate::fixed::lemma_fx_mul_range(noise_at3_s(seed, p, 229376000, 0, 0, 0), 6554, 65536,
            6554);
    }
    fx_clamp(t1 + t2 + t3 + t4 + t5 + t6, 0, FX_ONE)
}

/// The alien world: drifting noise picks ocean, flora or glow; fine texture
/// brightens the base; lighting sweeps slowly; dark regions are floored so
/// the night side never goes black.
pub open spec fn alien_planet_shader_s(f: Fragment, u: Uniforms) -> Color {
    let p = Vec3 { x: f.vertex_position.x, y: f.vertex_position.y, z: f.depth };
    let seed = u.noise.seed as int;
    let ocean = Color { r: 25u8, g: 25u8, b: 112u8 };
    let flora = Color { r: 110u8, g: 62u8, b: 136u8 };
    let alien = Color { r: 13u8, g: 246u8, b: 243u8 };
    let tfac = time_scaled_s(u.time as int, 9830);
    let off300 = fx_mul_s(19660800, 29491200);
    let nv1 = noise_at3_s(seed, p, 29491200, tfac, tfac, tfac);
    let nv2 = noise_at3_s(seed, p, 29491200, off300 + tfac, off300 + tfac, off300 + tfac);
    let nv = tdiv(nv1 + nv2, 2);
    let drift = noise_at3_s(seed, p, 3277, tfac, tfac, tfac);
    let combined = clamp_s(nv + fx_mul_s(drift, 26214), 0, FX_ONE as int);
    let base = if combined > 49152 {
        alien
    } else if combined > 26214 {
        flora
    } else {
        ocean
    };
    let texturized = color_scale_s(base, FX_ONE + alien_texture_s(f, u));
    let limited = color_limit_min_s(texturized, 50);
    let light_factor = FX_ONE + fx_mul_s(fx_sin_s(fx_mul_s(p.y as int, 32768)
        + time_scaled_s(u.time as int, 66)), 13107);
    let directional = FX_ONE + fx_mul_s(fx_cos_s(fx_mul_s(p.x as int, 26214)
        + time_scaled_s(u.time as int, 98)), 13107);
    let illuminated = color_scale_s(color_scale_s(limited, light_factor), directional);
    let floored = color_limit_min_s(illuminated, 50);
    color_scale_s(floored, f.intensity as int)
}

/// Colors an alien world fragment. Deterministic in (fragment, uniforms).
#[verifier::rlimit(100)]
pub fn alien_planet_shader(fragment: &Fragment, uniforms: &Uniforms) -> (c: Color)
    requires
        fragment.wf(),
    ensures
        c == alien_planet_shader_s(*fragment, *uniforms),
{
    let p: Vec3 = Vec3 {
        x: fragment.vertex_position.x,
        y: fragment.vertex_position.y,
        z: fragment.depth,
    };
    let nf: &NoiseField = &uniforms.noise;
    let ocean: Color = Color::new(25, 25, 112);
    let flora: Color = Color::new(110, 62, 136);
    let alien: Color = Color::new(13, 246, 243);
    let tfac: i64 = time_scaled(uniforms.time, 9830);
    let off300: i64 = fx_mul(19660800, 29491200);
    let nv1: i64 = noise_at3(nf, &p, 29491200, tfac, tfac, tfac);
    let nv2: i64 = noise_at3(nf, &p, 29491200, off300 + tfac, off300 + tfac, off300 + tfac);
    let nv: i64 = (nv1 + nv2) / 2;
    let drift: i64 = noise_at3(nf, &p, 3277, tfac, tfac, tfac);
    let combined: i64 = fx_clamp(nv + fx_mul(drift, 26214), 0, FX_ONE);
    let base: Color = if combined > 49152 {
        alien
    } else if combined > 26214 {
        flora
    } else {
        ocean
    };
    let texturized: Color = base.scale(FX_ONE + alien_texture(fragment, uniforms));
    let limited: Color = texturized.limit_min(50);
    let light_factor: i64 = FX_ONE + fx_mul(
        fx_sin(fx_mul(p.y, 32768) + time_scaled(uniforms.time, 66)),
        13107,
    );
    let directional: i64 = FX_ONE + fx_mul(
        fx_cos(fx_mul(p.x, 26214) + time_scaled(uniforms.time, 98)),
        13107,
    );
    let illuminated: Color = limited.scale(light_factor).scale(directional);
    let floored: Color = illuminated.limit_min(50);
    floored.scale(fragment.intensity)
}

/// The glacial world: an ice blue brightened by four noise octaves, with a
/// slow two-axis flicker and a floor that keeps the ice from going black.
pub open spec fn glacial_textured_shader_s(f: Fragment, u: Uniforms) -> Color {
    let p = Vec3 { x: f.vertex_position.x, y: f.vertex_position.y, z: f.depth };
    let seed = u.noise.seed as int;
    let ice_blue = Color { r: 173u8, g: 216u8, b: 230u8 };
    let tfac = time_scaled_s(u.time as int, 6554);
    let base = fx_mul_s(noise_at3_s(seed, p, 6553600, 0, 0, 0), 39322);
    let d1 = fx_mul_s(noise_at3_s(seed, p, 45875200, 0, 0, 0), 32768);
    let d2 = fx_mul_s(noise_at3_s(seed, p, 78643200, tfac, tfac, tfac), 26214);
    let fine = fx_mul_s(noise_at3_s(seed, p, 163840000, 0, 0, 0), 19661);
    let combined = clamp_s(base + d1 + d2 + fine, 0, FX_ONE as int);
    let texturized = color_scale_s(ice_blue, FX_ONE + combined);
    let flicker = fx_mul_s(fx_sin_s(fx_mul_s(p.x as int, 3277) + time_scaled_s(u.time as int,
        328)), 6554) + 58982;
    let flicker_light = fx_mul_s(fx_cos_s(fx_mul_s(p.y as int, 1966) + time_scaled_s(
        u.time as int, 459)), 6554) + 62259;
    let illuminated = color_scale_s(color_scale_s(texturized, flicker), flicker_light);
    let floored = color_limit_min_s(illuminated, 60);
    color_scale_s(floored, f.intensity as int)
}

/// Colors a glacial world fragment. Deterministic in (fragment, uniforms).
#[verifier::rlimit(100)]
pub fn glacial_textured_shader(fragment: &Fragment, uniforms: &Uniforms) -> (c: Color)
    requires
        fragment.wf(),
    ensures
        c == glacial_textured_shader_s(*fragment, *uniforms),
{
    let p: Vec3 = Vec3 {
        x: fragment.vertex_position.x,
        y: fragment.vertex_position.y,
        z: fragment.depth,
    };
    let nf: &NoiseField = &uniforms.noise;
    let ice_blue: Color = Color::new(173, 216, 230);
    let tfac: i64 = time_scaled(uniforms.time, 6554);
    let base: i64 = fx_mul(noise_at3(nf, &p, 6553600, 0, 0, 0), 39322);
    let d1: i64 = fx_mul(noise_at3(nf, &p, 45875200, 0, 0, 0), 32768);
    let d2: i64 = fx_mul(noise_at3(nf, &p, 78643200, tfac, tfac, tfac), 26214);
    let fine: i64 = fx_mul(noise_at3(nf, &p, 163840000, 0, 0, 0), 19661);
    proof {
        let seed = nf.seed as int;
        crate::fixed::lemma_fx_mul_range(noise_at3_s(seed, p, 6553600, 0, 0, 0), 39322, 65536,
            39322);
        crate::fixed::lemma_fx_mul_range(noise_at3_s(seed, p, 45875200, 0, 0, 0), 32768, 65536,
            32768);
        crate::fixed::lemma_fx_mul_range(noise_at3_s(seed, p, 78643200, tfac as int, tfac as int,
            tfac as int), 26214, 65536, 26214);
        crate::fixed::lemma_fx_mul_range(noise_at3_s(seed, p, 163840000, 0, 0, 0), 19661, 65536,
            19661);
    }
    let combined: i64 = fx_clamp(base + d1 + d2 + fine, 0, FX_ONE);
    let texturized: Color = ice_blue.scale(FX_ONE + combined);
    let flicker: i64 = fx_mul(
        fx_sin(fx_mul(p.x, 3277) + time_scaled(uniforms.time, 328)),
        6554,
    ) + 58982;
    let flicker_light: i64 = fx_mul(
        fx_cos(fx_mul(p.y, 1966) + time_scaled(uniforms.time, 459)),
        6554,
    ) + 62259;
    let illuminated: Color = texturized.scale(flicker).scale(flicker_light);
    let floored: Color = illuminated.limit_min(60);
    floored.scale(fragment.intensity)
}

/// The whole shading dispatch at the specification level.
pub open spec fn fragment_shader_s(f: Fragment, u: Uniforms, st: ShaderType) -> Color {
    match st {
        ShaderType::GasGiant => gas_giant_shader_s(f, u),
        ShaderType::ColdGasGiant => cold_gas_giant_shader_s(f, u),
        ShaderType::Solar => solar_shader_s(f, u),
        ShaderType::RockyPlanet => rocky_planet_shader_s(f, u),
        ShaderType::RockyPlanetVariant => rocky_planet_variant_shader_s(f, u),
        ShaderType::AlienPlanet => alien_planet_shader_s(f, u),
        ShaderType::GlacialTextured => glacial_textured_shader_s(f, u),
        ShaderType::Moon => moon_shader_s(f, u),
        ShaderType::Spaceship => blue_shader_s(f, u),
    }
}

/// Dispatches a fragment to the surface shader selected by the variant tag.
pub fn fragment_shader(fragment: &Fragment, uniforms: &Uniforms, shader_type: &ShaderType) -> (c:
    Color)
    requires
        fragment.wf(),
    ensures
        c == fragment_shader_s(*fragment, *uniforms, *shader_type),
{
    match shader_type {
        ShaderType::GasGiant => gas_giant_shader(fragment, uniforms),
        ShaderType::ColdGasGiant => cold_gas_giant_shader(fragment, uniforms),
        ShaderType::Solar => solar_shader(fragment, uniforms),
        ShaderType::RockyPlanet => rocky_planet_shader(fragment, uniforms),
        ShaderType::RockyPlanetVariant => rocky_planet_variant_shader(fragment, uniforms),
        ShaderType::AlienPlanet => alien_planet_shader(fragment, uniforms),
        ShaderType::GlacialTextured => glacial_textured_shader(fragment, uniforms),
        ShaderType::Moon => moon_shader(fragment, uniforms),
        ShaderType::Spaceship => blue_shader(fragment, uniforms),
    }
}

/// Law: every surface shader is a pure function of the fragment, the
/// uniforms and the variant tag. `fragment_shader` promises its result equals
/// `fragment_shader_s` of its arguments, so any two calls on identical
/// arguments return bit-identical colors.
pub proof fn lemma_shader_deterministic(
    f: Fragment,
    u: Uniforms,
    st: ShaderType,
    c1: Color,
    c2: Color,
)
    requires
        c1 == fragment_shader_s(f, u, st),
        c2 == fragment_shader_s(f, u, st),
    ensures
        c1 == c2,
{
}

} // verus!
