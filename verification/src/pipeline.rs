//! The per-draw pipeline: matrix builders, the frustum and collision tests,
//! the triangle render pass and the sky background pass. Both passes write
//! through the framebuffer's single depth-tested plotting primitive.

use vstd::prelude::*;
use crate::fixed::{FX_ONE, tdiv, clamp_s, fx_mul_s, fx_mul, fx_div, fx_div_s, fx_sin, fx_cos,
    fx_sin_s, fx_cos_s, fx_clamp, lemma_fx_mul_range};
use crate::vector::{Vec3, dot_fx_s, normalize_s, cross_fx_s, mag_s, dot_raw_s};
use crate::mat::{Mat4, apply4, apply4_s, sdiv, sdiv128, mat4_identity_s, lemma_row4_s_bound,
    MAT_LIMIT};
use crate::vertex::{Vertex, POS_LIMIT};
use crate::fragment::Fragment;
use crate::color::{Color, to_hex_s};
use crate::framebuffer::{Framebuffer, DepthMode, plot_s, DEPTH_FAR};
use crate::shaders::{Uniforms, ShaderType, vertex_shader, vertex_shader_s, fragment_shader,
    fragment_shader_s};
use crate::triangle::{triangle, raster_s};
use crate::texture::{Texture, tex_color_s};
use crate::ray_intersect::{Sphere, RayIntersect, sphere_hit_s, RAY_POS_LIMIT};

verus! {

/// The sky dome radius.
pub const SKY_RADIUS: i64 = 131072000;

/// 1 / tan(fov / 2) for the fixed 75 degree field of view.
pub const PERSPECTIVE_F: i64 = 85410;

/// The depth-range entry of the perspective matrix.
pub const PERSPECTIVE_M22: i64 = -65549;

/// The depth-offset entry of the perspective matrix.
pub const PERSPECTIVE_M23: i64 = -13110;

/// Whether a ship at `position` would touch a body of the given radius at
/// `target_position`: the center distance is below the radius plus one unit
/// of hull clearance.
pub open spec fn check_collision_s(position: Vec3, target_position: Vec3, radius: int) -> bool {
    let d = Vec3 {
        x: (position.x - target_position.x) as i64,
        y: (position.y - target_position.y) as i64,
        z: (position.z - target_position.z) as i64,
    };
    mag_s(d) < radius + FX_ONE
}

/// Tests a ship position against a body.
pub fn check_collision(position: &Vec3, target_position: &Vec3, radius: i64) -> (r: bool)
    requires
        position.bounded(0x2000_0000),
        target_position.bounded(0x2000_0000),
        0 <= radius <= 0x2000_0000,
    ensures
        r == check_collision_s(*position, *target_position, radius as int),
{
    let d: Vec3 = position.sub(target_position);
    let m: i64 = d.magnitude();
    m < radius + FX_ONE
}

/// Whether a body at `position` with the given scale lies inside the view
/// frustum, with a margin proportional to the scale. A degenerate
/// homogeneous coordinate counts as outside.
pub open spec fn in_frustum_s(position: Vec3, scale: int, view: Mat4, projection: Mat4) -> bool {
    let v = apply4_s(view, position.x as int, position.y as int, position.z as int,
        FX_ONE as int);
    let c = apply4_s(projection, v.0, v.1, v.2, v.3);
    let margin = fx_mul_s(scale, 98304);
    if c.3 == 0 {
        false
    } else {
        let nx = sdiv(c.0 * 65536, c.3);
        let ny = sdiv(c.1 * 65536, c.3);
        let nz = sdiv(c.2 * 65536, c.3);
        &&& -(FX_ONE + margin) <= nx <= FX_ONE + margin
        &&& -(FX_ONE + margin) <= ny <= FX_ONE + margin
        &&& -(FX_ONE + margin) <= nz <= FX_ONE + margin
    }
}

/// Tests a body against the view frustum.
pub fn is_in_frustum(position: &Vec3, scale: i64, view_matrix: &Mat4, projection_matrix: &Mat4)
    -> (r: bool)
    requires
        position.bounded(POS_LIMIT as int),
        0 <= scale <= 0x4000_0000,
        view_matrix.wf(),
        projection_matrix.wf(),
    ensures
        r == in_frustum_s(*position, scale as int, *view_matrix, *projection_matrix),
{
    let v = apply4(view_matrix, position.x as i128, position.y as i128, position.z as i128,
        FX_ONE as i128);
    proof {
        let m = *view_matrix;
        lemma_row4_s_bound(m.m00 as int, m.m01 as int, m.m02 as int, m.m03 as int,
            position.x as int, position.y as int, position.z as int, 65536, 0x100_0000);
        lemma_row4_s_bound(m.m10 as int, m.m11 as int, m.m12 as int, m.m13 as int,
            position.x as int, position.y as int, position.z as int, 65536, 0x100_0000);
        lemma_row4_s_bound(m.m20 as int, m.m21 as int, m.m22 as int, m.m23 as int,
            position.x as int, position.y as int, position.z as int, 65536, 0x100_0000);
        lemma_row4_s_bound(m.m30 as int, m.m31 as int, m.m32 as int, m.m33 as int,
            position.x as int, position.y as int, position.z as int, 65536, 0x100_0000);
    }
    let c = apply4(projection_matrix, v.0, v.1, v.2, v.3);
    proof {
        let m = *projection_matrix;
        lemma_row4_s_bound(m.m00 as int, m.m01 as int, m.m02 as int, m.m03 as int, v.0 as int,
            v.1 as int, v.2 as int, v.3 as int, 0x400_0000_0000);
        lemma_row4_s_bound(m.m10 as int, m.m11 as int, m.m12 as int, m.m13 as int, v.0 as int,
            v.1 as int, v.2 as int, v.3 as int, 0x400_0000_0000);
        lemma_row4_s_bound(m.m20 as int, m.m21 as int, m.m22 as int, m.m23 as int, v.0 as int,
            v.1 as int, v.2 as int, v.3 as int, 0x400_0000_0000);
        lemma_row4_s_bound(m.m30 as int, m.m31 as int, m.m32 as int, m.m33 as int, v.0 as int,
            v.1 as int, v.2 as int, v.3 as int, 0x400_0000_0000);
    }
    let margin: i64 = fx_mul(scale, 98304);
    if c.3 == 0 {
        false
    } else {
        let nx: i128 = sdiv128(c.0 * 65536, c.3);
        let ny: i128 = sdiv128(c.1 * 65536, c.3);
        let nz: i128 = sdiv128(c.2 * 65536, c.3);
        let lo: i128 = -((FX_ONE + margin) as i128);
        let hi: i128 = (FX_ONE + margin) as i128;
        lo <= nx && nx <= hi && lo <= ny && ny <= hi && lo <= nz && nz <= hi
    }
}

/// The model matrix of a scene object: translation after a rotation about
/// the vertical axis after a uniform scale.
pub open spec fn model_matrix_s(translation: Vec3, scale: int, angle: int) -> Mat4 {
    let c = fx_cos_s(angle);
    let sn = fx_sin_s(angle);
    Mat4 {
        m00: fx_mul_s(scale, c) as i64, m01: 0i64, m02: fx_mul_s(scale, sn) as i64,
        m03: translation.x,
        m10: 0i64, m11: scale as i64, m12: 0i64, m13: translation.y,
        m20: (-fx_mul_s(scale, sn)) as i64, m21: 0i64, m22: fx_mul_s(scale, c) as i64,
        m23: translation.z,
        m30: 0i64, m31: 0i64, m32: 0i64, m33: FX_ONE,
    }
}

/// Builds a model matrix.
pub fn create_model_matrix(translation: Vec3, scale: i64, rotation_angle: i64) -> (m: Mat4)
    requires
        translation.bounded(MAT_LIMIT as int),
        0 <= scale <= 0x100_0000,
        -0x1000_0000_0000 <= rotation_angle <= 0x1000_0000_0000,
    ensures
        m == model_matrix_s(translation, scale as int, rotation_angle as int),
        m.wf(),
{
    let c: i64 = fx_cos(rotation_angle);
    let sn: i64 = fx_sin(rotation_angle);
    proof {
        lemma_fx_mul_range(scale as int, c as int, 0x100_0000, 65536);
        lemma_fx_mul_range(scale as int, sn as int, 0x100_0000, 65536);
    }
    let sc: i64 = fx_mul(scale, c);
    let ss: i64 = fx_mul(scale, sn);
    Mat4 {
        m00: sc, m01: 0, m02: ss, m03: translation.x,
        m10: 0, m11: scale, m12: 0, m13: translation.y,
        m20: -ss, m21: 0, m22: sc, m23: translation.z,
        m30: 0, m31: 0, m32: 0, m33: FX_ONE,
    }
}

/// The perspective projection for the fixed field of view and clip planes,
/// at a given aspect ratio.
pub open spec fn perspective_matrix_s(width: int, height: int) -> Mat4 {
    let aspect = clamp_s(fx_div_s(width, height), -0x4000_0000, 0x4000_0000);
    let m00 = if aspect == 0 {
        PERSPECTIVE_F as int
    } else {
        clamp_s(fx_div_s(PERSPECTIVE_F as int, aspect), -MAT_LIMIT as int, MAT_LIMIT as int)
    };
    Mat4 {
        m00: m00 as i64, m01: 0i64, m02: 0i64, m03: 0i64,
        m10: 0i64, m11: PERSPECTIVE_F, m12: 0i64, m13: 0i64,
        m20: 0i64, m21: 0i64, m22: PERSPECTIVE_M22, m23: PERSPECTIVE_M23,
        m30: 0i64, m31: 0i64, m32: (-FX_ONE) as i64, m33: 0i64,
    }
}

/// Builds the perspective matrix for a window extent.
pub fn create_perspective_matrix(window_width: i64, window_height: i64) -> (m: Mat4)
    requires
        0 < window_width <= 0x4000_0000,
        0 < window_height <= 0x4000_0000,
    ensures
        m == perspective_matrix_s(window_width as int, window_height as int),
        m.wf(),
{
    let aspect: i64 = fx_clamp(fx_div(window_width, window_height), -0x4000_0000, 0x4000_0000);
    let m00: i64 = if aspect == 0 {
        PERSPECTIVE_F
    } else {
        fx_clamp(fx_div(PERSPECTIVE_F, aspect), -MAT_LIMIT, MAT_LIMIT)
    };
    Mat4 {
        m00, m01: 0, m02: 0, m03: 0,
        m10: 0, m11: PERSPECTIVE_F, m12: 0, m13: 0,
        m20: 0, m21: 0, m22: PERSPECTIVE_M22, m23: PERSPECTIVE_M23,
        m30: 0, m31: 0, m32: -FX_ONE, m33: 0,
    }
}

/// The viewport transform of a framebuffer extent: x scaled into columns,
/// y flipped and scaled into rows, depth passed through.
pub open spec fn viewport_matrix_s(width: int, height: int) -> Mat4 {
    Mat4 {
        m00: tdiv(width, 2) as i64, m01: 0i64, m02: 0i64, m03: tdiv(width, 2) as i64,
        m10: 0i64, m11: (-tdiv(height, 2)) as i64, m12: 0i64, m13: tdiv(height, 2) as i64,
        m20: 0i64, m21: 0i64, m22: FX_ONE, m23: 0i64,
        m30: 0i64, m31: 0i64, m32: 0i64, m33: FX_ONE,
    }
}

/// Builds the viewport matrix for a framebuffer extent in fixed-point pixels.
pub fn create_viewport_matrix(width: i64, height: i64) -> (m: Mat4)
    requires
        0 <= width <= MAT_LIMIT,
        0 <= height <= MAT_LIMIT,
    ensures
        m == viewport_matrix_s(width as int, height as int),
        m.wf(),
{
    let hw: i64 = width / 2;
    let hh: i64 = height / 2;
    Mat4 {
        m00: hw, m01: 0, m02: 0, m03: hw,
        m10: 0, m11: -hh, m12: 0, m13: hh,
        m20: 0, m21: 0, m22: FX_ONE, m23: 0,
        m30: 0, m31: 0, m32: 0, m33: FX_ONE,
    }
}

/// The view matrix of an eye looking at a center with an up hint; a
/// degenerate basis falls back to the identity so a bad camera state never
/// aborts rendering.
pub open spec fn view_matrix_s(eye: Vec3, center: Vec3, up: Vec3) -> Mat4 {
    let f = normalize_s(Vec3 {
        x: (center.x - eye.x) as i64,
        y: (center.y - eye.y) as i64,
        z: (center.z - eye.z) as i64,
    });
    let sv = normalize_s(cross_fx_s(f, up));
    if f == (Vec3 { x: 0i64, y: 0i64, z: 0i64 }) || sv == (Vec3 { x: 0i64, y: 0i64, z: 0i64 }) {
        mat4_identity_s()
    } else {
        let u2 = cross_fx_s(sv, f);
        Mat4 {
            m00: sv.x, m01: sv.y, m02: sv.z,
            m03: clamp_s(-dot_fx_s(sv, eye), -MAT_LIMIT as int, MAT_LIMIT as int) as i64,
            m10: u2.x, m11: u2.y, m12: u2.z,
            m13: clamp_s(-dot_fx_s(u2, eye), -MAT_LIMIT as int, MAT_LIMIT as int) as i64,
            m20: (-f.x) as i64, m21: (-f.y) as i64, m22: (-f.z) as i64,
            m23: clamp_s(dot_fx_s(f, eye), -MAT_LIMIT as int, MAT_LIMIT as int) as i64,
            m30: 0i64, m31: 0i64, m32: 0i64, m33: FX_ONE,
        }
    }
}

/// Builds the view matrix of a camera pose.
pub fn create_view_matrix(eye: &Vec3, center: &Vec3, up: &Vec3) -> (m: Mat4)
    requires
        eye.bounded(0x800_0000),
        center.bounded(0x800_0000),
        up.bounded(2 * FX_ONE as int),
    ensures
        m == view_matrix_s(*eye, *center, *up),
        m.wf(),
{
    let f: Vec3 = center.sub(eye).normalize();
    let cf: Vec3 = f.cross(up);
    proof {
        lemma_cross_small_bounded(f, *up);
    }
    let sv: Vec3 = cf.normalize();
    let zero: bool = (f.x == 0 && f.y == 0 && f.z == 0) || (sv.x == 0 && sv.y == 0 && sv.z
        == 0);
    if zero {
        Mat4::identity()
    } else {
        let u2: Vec3 = sv.cross(&f);
        proof {
            lemma_cross_unit_bounded(sv, f);
        }
        proof {
            lemma_dot_small(sv, *eye);
            lemma_dot_small(u2, *eye);
            lemma_dot_small(f, *eye);
        }
        let tx: i64 = fx_clamp(-sv.dot(eye), -MAT_LIMIT, MAT_LIMIT);
        let ty: i64 = fx_clamp(-u2.dot(eye), -MAT_LIMIT, MAT_LIMIT);
        let tz: i64 = fx_clamp(f.dot(eye), -MAT_LIMIT, MAT_LIMIT);
        Mat4 {
            m00: sv.x, m01: sv.y, m02: sv.z, m03: tx,
            m10: u2.x, m11: u2.y, m12: u2.z, m13: ty,
            m20: -f.x, m21: -f.y, m22: -f.z, m23: tz,
            m30: 0, m31: 0, m32: 0, m33: FX_ONE,
        }
    }
}

proof fn lemma_cross_unit_bounded(a: Vec3, b: Vec3)
    requires
        a.bounded(FX_ONE as int),
        b.bounded(FX_ONE as int),
    ensures
        cross_fx_s(a, b).bounded(3 * FX_ONE as int),
{
    crate::fixed::lemma_mul_bound(a.y as int, b.z as int, 65536, 65536);
    crate::fixed::lemma_mul_bound(a.z as int, b.y as int, 65536, 65536);
    crate::fixed::lemma_mul_bound(a.z as int, b.x as int, 65536, 65536);
    crate::fixed::lemma_mul_bound(a.x as int, b.z as int, 65536, 65536);
    crate::fixed::lemma_mul_bound(a.x as int, b.y as int, 65536, 65536);
    crate::fixed::lemma_mul_bound(a.y as int, b.x as int, 65536, 65536);
    crate::fixed::lemma_tdiv_bound((a.y as int) * (b.z as int) - (a.z as int) * (b.y as int),
        65536, 0x2_0000_0000);
    crate::fixed::lemma_tdiv_bound((a.z as int) * (b.x as int) - (a.x as int) * (b.z as int),
        65536, 0x2_0000_0000);
    crate::fixed::lemma_tdiv_bound((a.x as int) * (b.y as int) - (a.y as int) * (b.x as int),
        65536, 0x2_0000_0000);
}

/// The plotting of one shaded fragment onto the color and depth planes.
pub open spec fn shade_plot_one_s(
    colors: Seq<u32>,
    depths: Seq<i64>,
    w: int,
    h: int,
    mode: DepthMode,
    f: Fragment,
    u: Uniforms,
    st: ShaderType,
) -> (Seq<u32>, Seq<i64>) {
    plot_s(colors, depths, w, h, mode, to_hex_s(fragment_shader_s(f, u, st)) as u32, f.x as int,
        f.y as int, f.depth as int)
}

/// The plotting of a fragment sequence from index `i` onward.
pub open spec fn shade_plot_from_s(
    colors: Seq<u32>,
    depths: Seq<i64>,
    w: int,
    h: int,
    mode: DepthMode,
    frags: Seq<Fragment>,
    i: int,
    u: Uniforms,
    st: ShaderType,
) -> (Seq<u32>, Seq<i64>)
    decreases frags.len() - i,
{
    if i < 0 || i >= frags.len() {
        (colors, depths)
    } else {
        let sp = shade_plot_one_s(colors, depths, w, h, mode, frags[i], u, st);
        shade_plot_from_s(sp.0, sp.1, w, h, mode, frags, i + 1, u, st)
    }
}

/// The whole render pass from vertex index `i` onward: each consecutive
/// vertex triple is transformed, rasterized, shaded and plotted; a residual
/// tail of fewer than three vertices draws nothing.
pub open spec fn render_from_s(
    colors: Seq<u32>,
    depths: Seq<i64>,
    w: int,
    h: int,
    mode: DepthMode,
    verts: Seq<Vertex>,
    i: int,
    u: Uniforms,
    st: ShaderType,
) -> (Seq<u32>, Seq<i64>)
    decreases verts.len() - i,
{
    if i < 0 || i + 3 > verts.len() {
        (colors, depths)
    } else {
        let t0 = vertex_shader_s(verts[i], u);
        let t1 = vertex_shader_s(verts[i + 1], u);
        let t2 = vertex_shader_s(verts[i + 2], u);
        let frags = raster_s(t0, t1, t2, w, h);
        let sp = shade_plot_from_s(colors, depths, w, h, mode, frags, 0, u, st);
        render_from_s(sp.0, sp.1, w, h, mode, verts, i + 3, u, st)
    }
}

/// Renders a vertex array through the whole pipeline: consecutive triples
/// are transformed by the vertex stage, rasterized, shaded by the selected
/// surface shader, and plotted under the framebuffer's depth policy.
pub fn render(
    framebuffer: &mut Framebuffer,
    uniforms: &Uniforms,
    vertex_array: &Vec<Vertex>,
    shader_type: &ShaderType,
)
    requires
        old(framebuffer).wf(),
        uniforms.wf(),
        vertex_array@.len() <= 0x1000_0000,
        forall|k: int| 0 <= k < vertex_array@.len() ==> (#[trigger] vertex_array@[k]).wf(),
    ensures
        final(framebuffer).wf(),
        final(framebuffer).width == old(framebuffer).width,
        final(framebuffer).height == old(framebuffer).height,
        final(framebuffer).mode == old(framebuffer).mode,
        final(framebuffer).background_color == old(framebuffer).background_color,
        (final(framebuffer).buffer@, final(framebuffer).zbuffer@) == render_from_s(
            old(framebuffer).buffer@,
            old(framebuffer).zbuffer@,
            old(framebuffer).width as int,
            old(framebuffer).height as int,
            old(framebuffer).mode,
            vertex_array@,
            0,
            *uniforms,
            *shader_type,
        ),
{
    let n: usize = vertex_array.len();
    let ghost total: (Seq<u32>, Seq<i64>) = render_from_s(
        old(framebuffer).buffer@,
        old(framebuffer).zbuffer@,
        old(framebuffer).width as int,
        old(framebuffer).height as int,
        old(framebuffer).mode,
        vertex_array@,
        0,
        *uniforms,
        *shader_type,
    );
    let mut i: usize = 0;
    while i + 3 <= n
        invariant
            uniforms.wf(),
            vertex_array@.len() == n,
            n <= 0x1000_0000,
            forall|k: int| 0 <= k < vertex_array@.len() ==> (#[trigger] vertex_array@[k]).wf(),
            i <= n + 3,
            framebuffer.wf(),
            framebuffer.width == old(framebuffer).width,
            framebuffer.height == old(framebuffer).height,
            framebuffer.mode == old(framebuffer).mode,
            framebuffer.background_color == old(framebuffer).background_color,
            render_from_s(framebuffer.buffer@, framebuffer.zbuffer@, framebuffer.width as int,
                framebuffer.height as int, framebuffer.mode, vertex_array@, i as int, *uniforms,
                *shader_type) == total,
        decreases n - i,
    {
        let t0: Vertex = vertex_shader(&vertex_array[i], uniforms);
        let t1: Vertex = vertex_shader(&vertex_array[i + 1], uniforms);
        let t2: Vertex = vertex_shader(&vertex_array[i + 2], uniforms);
        let frags: Vec<Fragment> = triangle(&t0, &t1, &t2, framebuffer.width,
            framebuffer.height);
        let m: usize = frags.len();
        let ghost fb_at_tri: (Seq<u32>, Seq<i64>) = (framebuffer.buffer@, framebuffer.zbuffer@);
        let mut j: usize = 0;
        while j < m
            invariant
                uniforms.wf(),
                j <= m,
                m == frags@.len(),
                forall|k: int|
                    0 <= k < frags@.len() ==> (#[trigger] frags@[k]).wf() && frags@[k].x
                        < framebuffer.width && frags@[k].y < framebuffer.height,
                framebuffer.wf(),
                framebuffer.width == old(framebuffer).width,
                framebuffer.height == old(framebuffer).height,
                framebuffer.mode == old(framebuffer).mode,
                framebuffer.background_color == old(framebuffer).background_color,
                shade_plot_from_s(framebuffer.buffer@, framebuffer.zbuffer@,
                    framebuffer.width as int, framebuffer.height as int, framebuffer.mode,
                    frags@, j as int, *uniforms, *shader_type) == shade_plot_from_s(fb_at_tri.0,
                    fb_at_tri.1, framebuffer.width as int, framebuffer.height as int,
                    framebuffer.mode, frags@, 0, *uniforms, *shader_type),
            decreases m - j,
        {
            let f: Fragment = frags[j];
            let col: Color = fragment_shader(&f, uniforms, shader_type);
            let hex: u32 = col.to_hex();
            framebuffer.set_current_color(hex);
            framebuffer.point(f.x, f.y, f.depth);
            j = j + 1;
        }
        proof {
            assert(render_from_s(fb_at_tri.0, fb_at_tri.1, framebuffer.width as int,
                framebuffer.height as int, framebuffer.mode, vertex_array@, i as int, *uniforms,
                *shader_type) == total);
        }
        i = i + 3;
    }
}

/// One sky pixel: the camera ray through it, tested against the sky dome;
/// a hit paints the texture sample at the far depth, so later geometry
/// always wins the depth test.
pub open spec fn sky_pixel_s(
    colors: Seq<u32>,
    depths: Seq<i64>,
    w: int,
    h: int,
    mode: DepthMode,
    proj: Mat4,
    eye: Vec3,
    tex: Texture,
    px: int,
    py: int,
) -> (Seq<u32>, Seq<i64>) {
    let ndc_x = sdiv((2 * px - w) * 65536 * 65536, w);
    let ndc_y = sdiv((h - 2 * py) * 65536 * 65536, h);
    let rd = apply4_s(proj, ndc_x, ndc_y, FX_ONE as int, 0);
    let dir = normalize_s(Vec3 {
        x: clamp_s(rd.0, -0x4000_0000, 0x4000_0000) as i64,
        y: clamp_s(rd.1, -0x4000_0000, 0x4000_0000) as i64,
        z: clamp_s(rd.2, -0x4000_0000, 0x4000_0000) as i64,
    });
    if dir == (Vec3 { x: 0i64, y: 0i64, z: 0i64 }) {
        (colors, depths)
    } else {
        let hit = sphere_hit_s(Sphere { center: eye, radius: SKY_RADIUS }, eye, dir);
        if hit.hit {
            plot_s(colors, depths, w, h, mode, to_hex_s(tex_color_s(tex, clamp_s(
                hit.uv.0 as int, -0x4000_0000, 0x4000_0000), clamp_s(hit.uv.1 as int,
                -0x4000_0000, 0x4000_0000))) as u32, px, py, DEPTH_FAR as int)
        } else {
            (colors, depths)
        }
    }
}

/// The sky pass from pixel (px, py) onward, in row-major order.
pub open spec fn sky_from_s(
    colors: Seq<u32>,
    depths: Seq<i64>,
    w: int,
    h: int,
    mode: DepthMode,
    proj: Mat4,
    eye: Vec3,
    tex: Texture,
    px: int,
    py: int,
) -> (Seq<u32>, Seq<i64>)
    decreases h - py, w - px,
{
    if py >= h {
        (colors, depths)
    } else if px >= w {
        sky_from_s(colors, depths, w, h, mode, proj, eye, tex, 0, py + 1)
    } else {
        let sp = sky_pixel_s(colors, depths, w, h, mode, proj, eye, tex, px, py);
        sky_from_s(sp.0, sp.1, w, h, mode, proj, eye, tex, px + 1, py)
    }
}

/// Paints the sky: for every pixel, a camera-space ray through the inverse
/// projection direction is tested against a huge sphere centered on the eye;
/// hits sample the sky texture and are written at the far depth.
pub fn render_skybox(
    framebuffer: &mut Framebuffer,
    eye: &Vec3,
    skybox_texture: &Texture,
    uniforms: &Uniforms,
)
    requires
        old(framebuffer).wf(),
        uniforms.wf(),
        skybox_texture.wf(),
        eye.bounded(RAY_POS_LIMIT as int),
    ensures
        final(framebuffer).wf(),
        final(framebuffer).width == old(framebuffer).width,
        final(framebuffer).height == old(framebuffer).height,
        final(framebuffer).mode == old(framebuffer).mode,
        final(framebuffer).background_color == old(framebuffer).background_color,
        (final(framebuffer).buffer@, final(framebuffer).zbuffer@) == sky_from_s(
            old(framebuffer).buffer@,
            old(framebuffer).zbuffer@,
            old(framebuffer).width as int,
            old(framebuffer).height as int,
            old(framebuffer).mode,
            uniforms.projection_matrix,
            *eye,
            *skybox_texture,
            0,
            0,
        ),
{
    let w: usize = framebuffer.width;
    let h: usize = framebuffer.height;
    let ghost total: (Seq<u32>, Seq<i64>) = sky_from_s(
        old(framebuffer).buffer@,
        old(framebuffer).zbuffer@,
        w as int,
        h as int,
        old(framebuffer).mode,
        uniforms.projection_matrix,
        *eye,
        *skybox_texture,
        0,
        0,
    );
    let mut py: usize = 0;
    while py < h
        invariant
            uniforms.wf(),
            skybox_texture.wf(),
            eye.bounded(RAY_POS_LIMIT as int),
            py <= h,
            framebuffer.wf(),
            framebuffer.width == w,
            framebuffer.height == h,
            framebuffer.width == old(framebuffer).width,
            framebuffer.height == old(framebuffer).height,
            framebuffer.mode == old(framebuffer).mode,
            framebuffer.background_color == old(framebuffer).background_color,
            sky_from_s(framebuffer.buffer@, framebuffer.zbuffer@, w as int, h as int,
                framebuffer.mode, uniforms.projection_matrix, *eye, *skybox_texture, 0,
                py as int) == total,
        decreases h - py,
    {
        let mut px: usize = 0;
        while px < w
            invariant
                uniforms.wf(),
                skybox_texture.wf(),
                eye.bounded(RAY_POS_LIMIT as int),
                px <= w,
                py < h,
                framebuffer.wf(),
                framebuffer.width == w,
                framebuffer.height == h,
                framebuffer.width == old(framebuffer).width,
                framebuffer.height == old(framebuffer).height,
                framebuffer.mode == old(framebuffer).mode,
                framebuffer.background_color == old(framebuffer).background_color,
                sky_from_s(framebuffer.buffer@, framebuffer.zbuffer@, w as int, h as int,
                    framebuffer.mode, uniforms.projection_matrix, *eye, *skybox_texture,
                    px as int, py as int) == total,
            decreases w - px,
        {
            sky_pixel(framebuffer, eye, skybox_texture, uniforms, px, py);
            px = px + 1;
        }
        py = py + 1;
    }
}

fn sky_pixel(
    framebuffer: &mut Framebuffer,
    eye: &Vec3,
    skybox_texture: &Texture,
    uniforms: &Uniforms,
    px: usize,
    py: usize,
)
    requires
        old(framebuffer).wf(),
        uniforms.wf(),
        skybox_texture.wf(),
        eye.bounded(RAY_POS_LIMIT as int),
        px < old(framebuffer).width,
        py < old(framebuffer).height,
    ensures
        final(framebuffer).wf(),
        final(framebuffer).width == old(framebuffer).width,
        final(framebuffer).height == old(framebuffer).height,
        final(framebuffer).mode == old(framebuffer).mode,
        final(framebuffer).background_color == old(framebuffer).background_color,
        (final(framebuffer).buffer@, final(framebuffer).zbuffer@) == sky_pixel_s(
            old(framebuffer).buffer@,
            old(framebuffer).zbuffer@,
            old(framebuffer).width as int,
            old(framebuffer).height as int,
            old(framebuffer).mode,
            uniforms.projection_matrix,
            *eye,
            *skybox_texture,
            px as int,
            py as int,
        ),
{
    let w: usize = framebuffer.width;
    let h: usize = framebuffer.height;
    let nxn: i128 = (2 * (px as i128) - (w as i128)) * 65536 * 65536;
    let nyn: i128 = ((h as i128) - 2 * (py as i128)) * 65536 * 65536;
    let ndc_x: i128 = sdiv128(nxn, w as i128);
    let ndc_y: i128 = sdiv128(nyn, h as i128);
    let rd = apply4(&uniforms.projection_matrix, ndc_x, ndc_y, FX_ONE as i128, 0);
    let sat: i128 = 0x4000_0000;
    let dx: i64 = (if rd.0 < -sat {
        -sat
    } else if rd.0 > sat {
        sat
    } else {
        rd.0
    }) as i64;
    let dy: i64 = (if rd.1 < -sat {
        -sat
    } else if rd.1 > sat {
        sat
    } else {
        rd.1
    }) as i64;
    let dz: i64 = (if rd.2 < -sat {
        -sat
    } else if rd.2 > sat {
        sat
    } else {
        rd.2
    }) as i64;
    let dir: Vec3 = Vec3 { x: dx, y: dy, z: dz }.normalize();
    if dir.x == 0 && dir.y == 0 && dir.z == 0 {
    } else {
        proof {
            lemma_nonzero_norm(dir);
        }
        let sky: Sphere = Sphere { center: *eye, radius: SKY_RADIUS };
        let hit = sky.ray_intersect(eye, &dir);
        if hit.hit {
            let c: Color = skybox_texture.get_color(
                fx_clamp(hit.uv.0, -0x4000_0000, 0x4000_0000),
                fx_clamp(hit.uv.1, -0x4000_0000, 0x4000_0000),
            );
            let hex: u32 = c.to_hex();
            framebuffer.set_current_color(hex);
            framebuffer.point(px, py, DEPTH_FAR);
        }
    }
}


proof fn lemma_cross_small_bounded(a: Vec3, b: Vec3)
    requires
        a.bounded(FX_ONE as int),
        b.bounded(2 * FX_ONE as int),
    ensures
        cross_fx_s(a, b).bounded(0x8_0000),
{
    crate::fixed::lemma_mul_bound(a.y as int, b.z as int, 0x1_0000, 0x2_0000);
    crate::fixed::lemma_mul_bound(a.z as int, b.y as int, 0x1_0000, 0x2_0000);
    crate::fixed::lemma_mul_bound(a.z as int, b.x as int, 0x1_0000, 0x2_0000);
    crate::fixed::lemma_mul_bound(a.x as int, b.z as int, 0x1_0000, 0x2_0000);
    crate::fixed::lemma_mul_bound(a.x as int, b.y as int, 0x1_0000, 0x2_0000);
    crate::fixed::lemma_mul_bound(a.y as int, b.x as int, 0x1_0000, 0x2_0000);
    crate::fixed::lemma_tdiv_bound((a.y as int) * (b.z as int) - (a.z as int) * (b.y as int),
        65536, 0x8_0000_0000);
    crate::fixed::lemma_tdiv_bound((a.z as int) * (b.x as int) - (a.x as int) * (b.z as int),
        65536, 0x8_0000_0000);
    crate::fixed::lemma_tdiv_bound((a.x as int) * (b.y as int) - (a.y as int) * (b.x as int),
        65536, 0x8_0000_0000);
    vstd::arithmetic::div_mod::lemma_div_is_ordered((if (a.y as int) * (b.z as int) - (
    a.z as int) * (b.y as int) >= 0 {
        (a.y as int) * (b.z as int) - (a.z as int) * (b.y as int)
    } else {
        -((a.y as int) * (b.z as int) - (a.z as int) * (b.y as int))
    }), 0x8_0000_0000, 65536);
    vstd::arithmetic::div_mod::lemma_div_is_ordered((if (a.z as int) * (b.x as int) - (
    a.x as int) * (b.z as int) >= 0 {
        (a.z as int) * (b.x as int) - (a.x as int) * (b.z as int)
    } else {
        -((a.z as int) * (b.x as int) - (a.x as int) * (b.z as int))
    }), 0x8_0000_0000, 65536);
    vstd::arithmetic::div_mod::lemma_div_is_ordered((if (a.x as int) * (b.y as int) - (
    a.y as int) * (b.x as int) >= 0 {
        (a.x as int) * (b.y as int) - (a.y as int) * (b.x as int)
    } else {
        -((a.x as int) * (b.y as int) - (a.y as int) * (b.x as int))
    }), 0x8_0000_0000, 65536);
    assert(0x8_0000_0000int / 65536 == 0x8_0000);
}

proof fn lemma_dot_small(a: Vec3, b: Vec3)
    requires
        a.bounded(0x4_0000),
        b.bounded(0x800_0000),
    ensures
        -0x6000_0000_0000 <= dot_fx_s(a, b) <= 0x6000_0000_0000,
{
    crate::fixed::lemma_mul_bound(a.x as int, b.x as int, 0x4_0000, 0x800_0000);
    crate::fixed::lemma_mul_bound(a.y as int, b.y as int, 0x4_0000, 0x800_0000);
    crate::fixed::lemma_mul_bound(a.z as int, b.z as int, 0x4_0000, 0x800_0000);
    crate::fixed::lemma_tdiv_bound(dot_raw_s(a, b), 65536, 0x6000_0000_0000);
}

proof fn lemma_nonzero_norm(v: Vec3)
    requires
        !(v.x == 0 && v.y == 0 && v.z == 0),
    ensures
        dot_raw_s(v, v) > 0,
{
    crate::vector::lemma_norm_sq_nonneg(v);
    if v.x != 0 {
        assert((v.x as int) * (v.x as int) > 0) by (nonlinear_arith)
            requires
                v.x != 0,
        ;
        assert((v.y as int) * (v.y as int) >= 0) by (nonlinear_arith);
        assert((v.z as int) * (v.z as int) >= 0) by (nonlinear_arith);
    } else if v.y != 0 {
        assert((v.y as int) * (v.y as int) > 0) by (nonlinear_arith)
            requires
                v.y != 0,
        ;
        assert((v.x as int) * (v.x as int) >= 0) by (nonlinear_arith);
        assert((v.z as int) * (v.z as int) >= 0) by (nonlinear_arith);
    } else {
        assert((v.z as int) * (v.z as int) > 0) by (nonlinear_arith)
            requires
                v.z != 0,
        ;
        assert((v.x as int) * (v.x as int) >= 0) by (nonlinear_arith);
        assert((v.y as int) * (v.y as int) >= 0) by (nonlinear_arith);
    }
}

} // verus!
