//! The triangle rasterizer: scans the screen-space bounding box of three
//! transformed vertices, clamped to the framebuffer, and emits one fragment
//! per pixel whose barycentric weights all share the triangle's orientation.
//! Depth, normal and object-space position are interpolated linearly by the
//! weights; degenerate triangles emit nothing.

use vstd::prelude::*;
use crate::fixed::{FX_ONE, tdiv, clamp_s, fx_min, fx_max, fx_clamp, fdiv};
use crate::vector::Vec3;
use crate::vertex::{Vertex, POS_LIMIT, SCREEN_SAT};
use crate::fragment::Fragment;
use crate::mat::{sdiv, sdiv128, NORMAL_LIMIT};

verus! {

/// The doubled signed area spanned by an edge (a, b) and a point p.
pub open spec fn edge_s(ax: int, ay: int, bx: int, by: int, px: int, py: int) -> int {
    (bx - ax) * (py - ay) - (by - ay) * (px - ax)
}

/// Twice the signed area of the triangle in screen space.
pub open spec fn tri_area2_s(v0: Vertex, v1: Vertex, v2: Vertex) -> int {
    edge_s(v0.transformed_position.x as int, v0.transformed_position.y as int,
        v1.transformed_position.x as int, v1.transformed_position.y as int,
        v2.transformed_position.x as int, v2.transformed_position.y as int)
}

/// The three edge weights of a pixel center against the triangle.
pub open spec fn weights_s(v0: Vertex, v1: Vertex, v2: Vertex, px: int, py: int) -> (int, int,
    int) {
    let sx = px * 65536;
    let sy = py * 65536;
    (
        edge_s(v1.transformed_position.x as int, v1.transformed_position.y as int,
            v2.transformed_position.x as int, v2.transformed_position.y as int, sx, sy),
        edge_s(v2.transformed_position.x as int, v2.transformed_position.y as int,
            v0.transformed_position.x as int, v0.transformed_position.y as int, sx, sy),
        edge_s(v0.transformed_position.x as int, v0.transformed_position.y as int,
            v1.transformed_position.x as int, v1.transformed_position.y as int, sx, sy),
    )
}

/// Whether a pixel center lies inside the triangle: the triangle is not
/// degenerate and all three weights carry the orientation's sign.
pub open spec fn covered_s(v0: Vertex, v1: Vertex, v2: Vertex, px: int, py: int) -> bool {
    let area = tri_area2_s(v0, v1, v2);
    let w = weights_s(v0, v1, v2, px, py);
    let esum = w.0 + w.1 + w.2;
    area != 0 && esum != 0 && (if area > 0 {
        w.0 >= 0 && w.1 >= 0 && w.2 >= 0
    } else {
        w.0 <= 0 && w.1 <= 0 && w.2 <= 0
    })
}

/// A weighted average of one attribute over the three vertices.
pub open spec fn interp_s(a0: int, a1: int, a2: int, w: (int, int, int)) -> int {
    sdiv(w.0 * a0 + w.1 * a1 + w.2 * a2, w.0 + w.1 + w.2)
}

/// The light intensity of a fragment: the fixed light dotted with the
/// interpolated normal, clamped to a floor so no fragment goes fully dark.
pub open spec fn intensity_s(nx: int, ny: int, nz: int) -> int {
    clamp_s(tdiv(33972 * nx + 45313 * ny + 22654 * nz, 65536), 6554, FX_ONE as int)
}

/// The fragment emitted at a covered pixel.
pub open spec fn frag_at_s(v0: Vertex, v1: Vertex, v2: Vertex, px: int, py: int) -> Fragment {
    let w = weights_s(v0, v1, v2, px, py);
    let depth = clamp_s(interp_s(v0.transformed_position.z as int,
        v1.transformed_position.z as int, v2.transformed_position.z as int, w),
        -SCREEN_SAT as int, SCREEN_SAT as int);
    let nx = clamp_s(interp_s(v0.transformed_normal.x as int, v1.transformed_normal.x as int,
        v2.transformed_normal.x as int, w), -NORMAL_LIMIT as int, NORMAL_LIMIT as int);
    let ny = clamp_s(interp_s(v0.transformed_normal.y as int, v1.transformed_normal.y as int,
        v2.transformed_normal.y as int, w), -NORMAL_LIMIT as int, NORMAL_LIMIT as int);
    let nz = clamp_s(interp_s(v0.transformed_normal.z as int, v1.transformed_normal.z as int,
        v2.transformed_normal.z as int, w), -NORMAL_LIMIT as int, NORMAL_LIMIT as int);
    let ox = clamp_s(interp_s(v0.position.x as int, v1.position.x as int, v2.position.x as int,
        w), -POS_LIMIT as int, POS_LIMIT as int);
    let oy = clamp_s(interp_s(v0.position.y as int, v1.position.y as int, v2.position.y as int,
        w), -POS_LIMIT as int, POS_LIMIT as int);
    let oz = clamp_s(interp_s(v0.position.z as int, v1.position.z as int, v2.position.z as int,
        w), -POS_LIMIT as int, POS_LIMIT as int);
    Fragment {
        x: px as usize,
        y: py as usize,
        depth: depth as i64,
        normal: Vec3 { x: nx as i64, y: ny as i64, z: nz as i64 },
        vertex_position: Vec3 { x: ox as i64, y: oy as i64, z: oz as i64 },
        intensity: intensity_s(nx, ny, nz) as i64,
    }
}

/// The scan of the clamped bounding box from pixel (px, py) onward, with the
/// fragments already emitted in `acc`.
pub open spec fn raster_from_s(
    v0: Vertex,
    v1: Vertex,
    v2: Vertex,
    x_lo: int,
    x_hi: int,
    y_hi: int,
    px: int,
    py: int,
    acc: Seq<Fragment>,
) -> Seq<Fragment>
    decreases y_hi - py, x_hi - px,
{
    if py >= y_hi {
        acc
    } else if px >= x_hi {
        raster_from_s(v0, v1, v2, x_lo, x_hi, y_hi, x_lo, py + 1, acc)
    } else if covered_s(v0, v1, v2, px, py) {
        raster_from_s(v0, v1, v2, x_lo, x_hi, y_hi, px + 1, py, acc.push(frag_at_s(v0, v1, v2,
            px, py)))
    } else {
        raster_from_s(v0, v1, v2, x_lo, x_hi, y_hi, px + 1, py, acc)
    }
}

/// Smallest of three scalars.
pub open spec fn min3_s(a: int, b: int, c: int) -> int {
    if a <= b && a <= c {
        a
    } else if b <= c {
        b
    } else {
        c
    }
}

/// Largest of three scalars.
pub open spec fn max3_s(a: int, b: int, c: int) -> int {
    if a >= b && a >= c {
        a
    } else if b >= c {
        b
    } else {
        c
    }
}

/// The left edge of the clamped scan range.
pub open spec fn x_lo_s(v0: Vertex, v1: Vertex, v2: Vertex, w: int) -> int {
    clamp_s(min3_s(v0.transformed_position.x as int, v1.transformed_position.x as int,
        v2.transformed_position.x as int) / 65536, 0, w)
}

/// The exclusive right edge of the clamped scan range.
pub open spec fn x_hi_s(v0: Vertex, v1: Vertex, v2: Vertex, w: int) -> int {
    clamp_s(max3_s(v0.transformed_position.x as int, v1.transformed_position.x as int,
        v2.transformed_position.x as int) / 65536 + 1, 0, w)
}

/// The top edge of the clamped scan range.
pub open spec fn y_lo_s(v0: Vertex, v1: Vertex, v2: Vertex, h: int) -> int {
    clamp_s(min3_s(v0.transformed_position.y as int, v1.transformed_position.y as int,
        v2.transformed_position.y as int) / 65536, 0, h)
}

/// The exclusive bottom edge of the clamped scan range.
pub open spec fn y_hi_s(v0: Vertex, v1: Vertex, v2: Vertex, h: int) -> int {
    clamp_s(max3_s(v0.transformed_position.y as int, v1.transformed_position.y as int,
        v2.transformed_position.y as int) / 65536 + 1, 0, h)
}

/// The whole fragment sequence of a triangle against a w-by-h framebuffer.
pub open spec fn raster_s(v0: Vertex, v1: Vertex, v2: Vertex, w: int, h: int) -> Seq<Fragment> {
    raster_from_s(v0, v1, v2, x_lo_s(v0, v1, v2, w), x_hi_s(v0, v1, v2, w), y_hi_s(v0, v1, v2,
        h), x_lo_s(v0, v1, v2, w), y_lo_s(v0, v1, v2, h), Seq::empty())
}

/// An empty scan range adds nothing.
pub proof fn lemma_raster_empty_range(
    v0: Vertex,
    v1: Vertex,
    v2: Vertex,
    x_lo: int,
    x_hi: int,
    y_hi: int,
    py: int,
    acc: Seq<Fragment>,
)
    requires
        x_lo >= x_hi,
    ensures
        raster_from_s(v0, v1, v2, x_lo, x_hi, y_hi, x_lo, py, acc) == acc,
    decreases y_hi - py,
{
    if py < y_hi {
        lemma_raster_empty_range(v0, v1, v2, x_lo, x_hi, y_hi, py + 1, acc);
    }
}

/// A degenerate triangle covers no pixel, so the scan adds nothing.
pub proof fn lemma_raster_degenerate(
    v0: Vertex,
    v1: Vertex,
    v2: Vertex,
    x_lo: int,
    x_hi: int,
    y_hi: int,
    px: int,
    py: int,
    acc: Seq<Fragment>,
)
    requires
        tri_area2_s(v0, v1, v2) == 0,
    ensures
        raster_from_s(v0, v1, v2, x_lo, x_hi, y_hi, px, py, acc) == acc,
    decreases y_hi - py, x_hi - px,
{
    if py >= y_hi {
    } else if px >= x_hi {
        lemma_raster_degenerate(v0, v1, v2, x_lo, x_hi, y_hi, x_lo, py + 1, acc);
    } else {
        lemma_raster_degenerate(v0, v1, v2, x_lo, x_hi, y_hi, px + 1, py, acc);
    }
}

/// Law: a triangle entirely outside the framebuffer produces no fragments:
/// if all three screen x coordinates lie left of column zero or at or beyond
/// the last column, or all three y coordinates lie above row zero or at or
/// beyond the last row, the scan range collapses and the result is empty.
pub proof fn lemma_triangle_outside_empty(v0: Vertex, v1: Vertex, v2: Vertex, w: int, h: int)
    requires
        0 <= w,
        0 <= h,
        (v0.transformed_position.x < 0 && v1.transformed_position.x < 0
            && v2.transformed_position.x < 0) || (v0.transformed_position.x >= w * 65536
            && v1.transformed_position.x >= w * 65536 && v2.transformed_position.x >= w * 65536)
            || (v0.transformed_position.y < 0 && v1.transformed_position.y < 0
            && v2.transformed_position.y < 0) || (v0.transformed_position.y >= h * 65536
            && v1.transformed_position.y >= h * 65536 && v2.transformed_position.y >= h * 65536),
    ensures
        raster_s(v0, v1, v2, w, h).len() == 0,
{
    let x_lo = x_lo_s(v0, v1, v2, w);
    let x_hi = x_hi_s(v0, v1, v2, w);
    let y_lo = y_lo_s(v0, v1, v2, h);
    let y_hi = y_hi_s(v0, v1, v2, h);
    let mnx = min3_s(v0.transformed_position.x as int, v1.transformed_position.x as int,
        v2.transformed_position.x as int);
    let mxx = max3_s(v0.transformed_position.x as int, v1.transformed_position.x as int,
        v2.transformed_position.x as int);
    let mny = min3_s(v0.transformed_position.y as int, v1.transformed_position.y as int,
        v2.transformed_position.y as int);
    let mxy = max3_s(v0.transformed_position.y as int, v1.transformed_position.y as int,
        v2.transformed_position.y as int);
    if v0.transformed_position.x < 0 && v1.transformed_position.x < 0
        && v2.transformed_position.x < 0 {
        lemma_floor_div_negative(mxx);
        lemma_raster_empty_range(v0, v1, v2, x_lo, x_hi, y_hi, y_lo, Seq::empty());
    } else if v0.transformed_position.x >= w * 65536 && v1.transformed_position.x >= w * 65536
        && v2.transformed_position.x >= w * 65536 {
        lemma_floor_div_at_least(mnx, w);
        lemma_raster_empty_range(v0, v1, v2, x_lo, x_hi, y_hi, y_lo, Seq::empty());
    } else if v0.transformed_position.y < 0 && v1.transformed_position.y < 0
        && v2.transformed_position.y < 0 {
        lemma_floor_div_negative(mxy);
        lemma_raster_from_y_done(v0, v1, v2, x_lo, x_hi, y_hi, y_lo, Seq::empty());
    } else {
        lemma_floor_div_at_least(mny, h);
        lemma_raster_from_y_done(v0, v1, v2, x_lo, x_hi, y_hi, y_lo, Seq::empty());
    }
}

proof fn lemma_raster_from_y_done(
    v0: Vertex,
    v1: Vertex,
    v2: Vertex,
    x_lo: int,
    x_hi: int,
    y_hi: int,
    py: int,
    acc: Seq<Fragment>,
)
    requires
        py >= y_hi,
    ensures
        raster_from_s(v0, v1, v2, x_lo, x_hi, y_hi, x_lo, py, acc) == acc,
{
}

proof fn lemma_floor_div_negative(x: int)
    requires
        x < 0,
    ensures
        x / 65536 + 1 <= 0,
{
    vstd::arithmetic::div_mod::lemma_fundamental_div_mod(x, 65536);
    vstd::arithmetic::div_mod::lemma_mod_bound(x, 65536);
    let q = x / 65536;
    let r = x % 65536;
    assert(q < 0) by (nonlinear_arith)
        requires
            x == 65536 * q + r,
            0 <= r < 65536,
            x < 0,
    ;
}

proof fn lemma_floor_div_at_least(x: int, w: int)
    requires
        x >= w * 65536,
        w >= 0,
    ensures
        x / 65536 >= w,
{
    vstd::arithmetic::div_mod::lemma_div_is_ordered(w * 65536, x, 65536);
    vstd::arithmetic::div_mod::lemma_div_multiples_vanish(w, 65536);
    assert(w * 65536 == 65536 * w) by (nonlinear_arith);
}

/// Rasterizes one triangle against a w-by-h framebuffer: the exact fragment
/// sequence of the bounding-box scan, every fragment well formed and inside
/// the framebuffer; a degenerate or fully outside triangle yields none.
#[verifier::rlimit(100)]
pub fn triangle(v0: &Vertex, v1: &Vertex, v2: &Vertex, width: usize, height: usize) -> (r: Vec<
    Fragment>)
    requires
        v0.wf(),
        v1.wf(),
        v2.wf(),
        width <= 16384,
        height <= 16384,
    ensures
        r@ == raster_s(*v0, *v1, *v2, width as int, height as int),
        forall|i: int|
            0 <= i < r@.len() ==> (#[trigger] r@[i]).wf() && r@[i].x < width && r@[i].y < height,
        tri_area2_s(*v0, *v1, *v2) == 0 ==> r@.len() == 0,
{
    let x0: i64 = v0.transformed_position.x;
    let y0: i64 = v0.transformed_position.y;
    let x1: i64 = v1.transformed_position.x;
    let y1: i64 = v1.transformed_position.y;
    let x2: i64 = v2.transformed_position.x;
    let y2: i64 = v2.transformed_position.y;
    let x_lo: i64 = fx_clamp(fdiv(fx_min(fx_min(x0, x1), x2), 65536), 0, width as i64);
    let x_hi: i64 = fx_clamp(fdiv(fx_max(fx_max(x0, x1), x2), 65536) + 1, 0, width as i64);
    let y_lo: i64 = fx_clamp(fdiv(fx_min(fx_min(y0, y1), y2), 65536), 0, height as i64);
    let y_hi: i64 = fx_clamp(fdiv(fx_max(fx_max(y0, y1), y2), 65536) + 1, 0, height as i64);
    let mut frags: Vec<Fragment> = Vec::new();
    let ghost total: Seq<Fragment> = raster_s(*v0, *v1, *v2, width as int, height as int);
    proof {
        assert(x_lo == x_lo_s(*v0, *v1, *v2, width as int));
        assert(x_hi == x_hi_s(*v0, *v1, *v2, width as int));
        assert(y_lo == y_lo_s(*v0, *v1, *v2, height as int));
        assert(y_hi == y_hi_s(*v0, *v1, *v2, height as int));
        vstd::arithmetic::div_mod::lemma_div_is_ordered(
            min3_s(x0 as int, x1 as int, x2 as int),
            max3_s(x0 as int, x1 as int, x2 as int),
            65536,
        );
        vstd::arithmetic::div_mod::lemma_div_is_ordered(
            min3_s(y0 as int, y1 as int, y2 as int),
            max3_s(y0 as int, y1 as int, y2 as int),
            65536,
        );
    }
    let mut py: i64 = y_lo;
    while py < y_hi
        invariant
            v0.wf(),
            v1.wf(),
            v2.wf(),
            width <= 16384,
            height <= 16384,
            x0 == v0.transformed_position.x,
            y0 == v0.transformed_position.y,
            x1 == v1.transformed_position.x,
            y1 == v1.transformed_position.y,
            x2 == v2.transformed_position.x,
            y2 == v2.transformed_position.y,
            0 <= x_lo <= x_hi <= width,
            0 <= y_lo <= py <= y_hi <= height,
            raster_from_s(*v0, *v1, *v2, x_lo as int, x_hi as int, y_hi as int, x_lo as int,
                py as int, frags@) == total,
            forall|i: int|
                0 <= i < frags@.len() ==> (#[trigger] frags@[i]).wf() && frags@[i].x < width
                    && frags@[i].y < height,
        decreases y_hi - py,
    {
        let mut px: i64 = x_lo;
        while px < x_hi
            invariant
                v0.wf(),
                v1.wf(),
                v2.wf(),
                width <= 16384,
                height <= 16384,
                x0 == v0.transformed_position.x,
                y0 == v0.transformed_position.y,
                x1 == v1.transformed_position.x,
                y1 == v1.transformed_position.y,
                x2 == v2.transformed_position.x,
                y2 == v2.transformed_position.y,
                0 <= x_lo <= px <= x_hi <= width,
                0 <= y_lo <= py < y_hi <= height,
                raster_from_s(*v0, *v1, *v2, x_lo as int, x_hi as int, y_hi as int, px as int,
                    py as int, frags@) == total,
                forall|i: int|
                    0 <= i < frags@.len() ==> (#[trigger] frags@[i]).wf() && frags@[i].x < width
                        && frags@[i].y < height,
            decreases x_hi - px,
        {
            let sx: i128 = (px as i128) * 65536;
            let sy: i128 = (py as i128) * 65536;
            proof {
                lemma_edge_bounds(x0 as int, y0 as int, x1 as int, y1 as int, x2 as int,
                    y2 as int, px as int, py as int);
            }
            let e0: i128 = ((x2 - x1) as i128) * (sy - y1 as i128) - ((y2 - y1) as i128) * (sx
                - x1 as i128);
            let e1: i128 = ((x0 - x2) as i128) * (sy - y2 as i128) - ((y0 - y2) as i128) * (sx
                - x2 as i128);
            let e2: i128 = ((x1 - x0) as i128) * (sy - y0 as i128) - ((y1 - y0) as i128) * (sx
                - x0 as i128);
            let area: i128 = ((x1 - x0) as i128) * ((y2 - y0) as i128) - ((y1 - y0) as i128) * ((
            x2 - x0) as i128);
            let esum: i128 = e0 + e1 + e2;
            let inside: bool = area != 0 && esum != 0 && (if area > 0 {
                e0 >= 0 && e1 >= 0 && e2 >= 0
            } else {
                e0 <= 0 && e1 <= 0 && e2 <= 0
            });
            if inside {
                let depth: i64 = interp_clamped(e0, e1, e2, esum, v0.transformed_position.z,
                    v1.transformed_position.z, v2.transformed_position.z, SCREEN_SAT);
                let nx: i64 = interp_clamped(e0, e1, e2, esum, v0.transformed_normal.x,
                    v1.transformed_normal.x, v2.transformed_normal.x, NORMAL_LIMIT);
                let ny: i64 = interp_clamped(e0, e1, e2, esum, v0.transformed_normal.y,
                    v1.transformed_normal.y, v2.transformed_normal.y, NORMAL_LIMIT);
                let nz: i64 = interp_clamped(e0, e1, e2, esum, v0.transformed_normal.z,
                    v1.transformed_normal.z, v2.transformed_normal.z, NORMAL_LIMIT);
                let ox: i64 = interp_clamped(e0, e1, e2, esum, v0.position.x, v1.position.x,
                    v2.position.x, POS_LIMIT);
                let oy: i64 = interp_clamped(e0, e1, e2, esum, v0.position.y, v1.position.y,
                    v2.position.y, POS_LIMIT);
                let oz: i64 = interp_clamped(e0, e1, e2, esum, v0.position.z, v1.position.z,
                    v2.position.z, POS_LIMIT);
                let inten: i64 = intensity(nx, ny, nz);
                let f: Fragment = Fragment {
                    x: px as usize,
                    y: py as usize,
                    depth,
                    normal: Vec3 { x: nx, y: ny, z: nz },
                    vertex_position: Vec3 { x: ox, y: oy, z: oz },
                    intensity: inten,
                };
                proof {
                    assert(f == frag_at_s(*v0, *v1, *v2, px as int, py as int));
                    assert(covered_s(*v0, *v1, *v2, px as int, py as int));
                }
                frags.push(f);
            } else {
                proof {
                    assert(!covered_s(*v0, *v1, *v2, px as int, py as int));
                }
            }
            px = px + 1;
        }
        py = py + 1;
    }
    proof {
        if tri_area2_s(*v0, *v1, *v2) == 0 {
            lemma_raster_degenerate(*v0, *v1, *v2, x_lo_s(*v0, *v1, *v2, width as int),
                x_hi_s(*v0, *v1, *v2, width as int), y_hi_s(*v0, *v1, *v2, height as int),
                x_lo_s(*v0, *v1, *v2, width as int), y_lo_s(*v0, *v1, *v2, height as int),
                Seq::empty());
        }
    }
    frags
}

proof fn lemma_edge_bounds(x0: int, y0: int, x1: int, y1: int, x2: int, y2: int, px: int,
    py: int)
    requires
        -0x4000_0000 <= x0 <= 0x4000_0000,
        -0x4000_0000 <= y0 <= 0x4000_0000,
        -0x4000_0000 <= x1 <= 0x4000_0000,
        -0x4000_0000 <= y1 <= 0x4000_0000,
        -0x4000_0000 <= x2 <= 0x4000_0000,
        -0x4000_0000 <= y2 <= 0x4000_0000,
        0 <= px <= 16384,
        0 <= py <= 16384,
    ensures
        -0x1_0000_0000_0000_0000 <= (x2 - x1) * (py * 65536 - y1) <= 0x1_0000_0000_0000_0000,
        -0x1_0000_0000_0000_0000 <= (y2 - y1) * (px * 65536 - x1) <= 0x1_0000_0000_0000_0000,
        -0x1_0000_0000_0000_0000 <= (x0 - x2) * (py * 65536 - y2) <= 0x1_0000_0000_0000_0000,
        -0x1_0000_0000_0000_0000 <= (y0 - y2) * (px * 65536 - x2) <= 0x1_0000_0000_0000_0000,
        -0x1_0000_0000_0000_0000 <= (x1 - x0) * (py * 65536 - y0) <= 0x1_0000_0000_0000_0000,
        -0x1_0000_0000_0000_0000 <= (y1 - y0) * (px * 65536 - x0) <= 0x1_0000_0000_0000_0000,
        -0x1_0000_0000_0000_0000 <= (x1 - x0) * (y2 - y0) <= 0x1_0000_0000_0000_0000,
        -0x1_0000_0000_0000_0000 <= (y1 - y0) * (x2 - x0) <= 0x1_0000_0000_0000_0000,
        -0x4_0000_0000_0000_0000 <= edge_s(x1, y1, x2, y2, px * 65536, py * 65536)
            <= 0x4_0000_0000_0000_0000,
        -0x4_0000_0000_0000_0000 <= edge_s(x2, y2, x0, y0, px * 65536, py * 65536)
            <= 0x4_0000_0000_0000_0000,
        -0x4_0000_0000_0000_0000 <= edge_s(x0, y0, x1, y1, px * 65536, py * 65536)
            <= 0x4_0000_0000_0000_0000,
        -0x4_0000_0000_0000_0000 <= (x1 - x0) * (y2 - y0) - (y1 - y0) * (x2 - x0)
            <= 0x4_0000_0000_0000_0000,
{
    crate::fixed::lemma_mul_bound(x2 - x1, py * 65536 - y1, 0x1_0000_0000, 0x1_0000_0000);
    crate::fixed::lemma_mul_bound(y2 - y1, px * 65536 - x1, 0x1_0000_0000, 0x1_0000_0000);
    crate::fixed::lemma_mul_bound(x0 - x2, py * 65536 - y2, 0x1_0000_0000, 0x1_0000_0000);
    crate::fixed::lemma_mul_bound(y0 - y2, px * 65536 - x2, 0x1_0000_0000, 0x1_0000_0000);
    crate::fixed::lemma_mul_bound(x1 - x0, py * 65536 - y0, 0x1_0000_0000, 0x1_0000_0000);
    crate::fixed::lemma_mul_bound(y1 - y0, px * 65536 - x0, 0x1_0000_0000, 0x1_0000_0000);
    crate::fixed::lemma_mul_bound(x1 - x0, y2 - y0, 0x1_0000_0000, 0x1_0000_0000);
    crate::fixed::lemma_mul_bound(y1 - y0, x2 - x0, 0x1_0000_0000, 0x1_0000_0000);
}

fn interp_clamped(e0: i128, e1: i128, e2: i128, esum: i128, a0: i64, a1: i64, a2: i64, lim: i64)
    -> (r: i64)
    requires
        esum == e0 + e1 + e2,
        esum != 0,
        -0x4_0000_0000_0000_0000 <= e0 <= 0x4_0000_0000_0000_0000,
        -0x4_0000_0000_0000_0000 <= e1 <= 0x4_0000_0000_0000_0000,
        -0x4_0000_0000_0000_0000 <= e2 <= 0x4_0000_0000_0000_0000,
        -0x4000_0000 <= a0 <= 0x4000_0000,
        -0x4000_0000 <= a1 <= 0x4000_0000,
        -0x4000_0000 <= a2 <= 0x4000_0000,
        0 < lim,
    ensures
        r == clamp_s(interp_s(a0 as int, a1 as int, a2 as int, (e0 as int, e1 as int,
            e2 as int)), -lim as int, lim as int),
        -lim <= r <= lim,
{
    proof {
        crate::fixed::lemma_mul_bound(e0 as int, a0 as int, 0x4_0000_0000_0000_0000,
            0x4000_0000);
        crate::fixed::lemma_mul_bound(e1 as int, a1 as int, 0x4_0000_0000_0000_0000,
            0x4000_0000);
        crate::fixed::lemma_mul_bound(e2 as int, a2 as int, 0x4_0000_0000_0000_0000,
            0x4000_0000);
    }
    let num: i128 = e0 * (a0 as i128) + e1 * (a1 as i128) + e2 * (a2 as i128);
    let v: i128 = sdiv128(num, esum);
    let c: i128 = if v < -(lim as i128) {
        -(lim as i128)
    } else if v > lim as i128 {
        lim as i128
    } else {
        v
    };
    c as i64
}

fn intensity(nx: i64, ny: i64, nz: i64) -> (r: i64)
    requires
        -NORMAL_LIMIT <= nx <= NORMAL_LIMIT,
        -NORMAL_LIMIT <= ny <= NORMAL_LIMIT,
        -NORMAL_LIMIT <= nz <= NORMAL_LIMIT,
    ensures
        r == intensity_s(nx as int, ny as int, nz as int),
        6554 <= r <= FX_ONE,
{
    let d: i128 = 33972 * (nx as i128) + 45313 * (ny as i128) + 22654 * (nz as i128);
    let q: i128 = if d >= 0 {
        d / 65536
    } else {
        -((-d) / 65536)
    };
    proof {
        crate::fixed::lemma_tdiv_bound(d as int, 65536, 0x1_0000_0000_0000);
    }
    let qi: i64 = q as i64;
    fx_clamp(qi, 6554, FX_ONE)
}

} // verus!
