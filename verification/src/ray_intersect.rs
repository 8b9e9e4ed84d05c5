//! Ray-sphere intersection: the quadratic test that paints the sky
//! background. A ray either misses (negative discriminant) or hits at the
//! nearer real root, yielding a hit point, an outward normal and spherical
//! texture coordinates.

use vstd::prelude::*;
use crate::fixed::{FX_ONE, FX_HALF, PI_FX, TWO_PI_FX, clamp_s, fx_mul_s, fx_mul, fx_div,
    fx_div_s, fx_clamp, fx_atan2, fx_atan2_s, fx_asin, fx_asin_s, isqrt, isqrt_s,
    lemma_mul_bound};
use crate::vector::{Vec3, dot_raw_s, normalize_s};
use crate::mat::sdiv;

verus! {

/// Bound on ray origins and sphere centers (1024 units).
pub const RAY_POS_LIMIT: i64 = 0x400_0000;

/// Bound on sphere radii (2048 units).
pub const RAY_RADIUS_LIMIT: i64 = 0x800_0000;

/// Bound on ray direction components (two units: directions are normalized).
pub const RAY_DIR_LIMIT: i64 = 0x20000;

/// Saturation bound for returned hit distances (4096 units).
pub const RAY_DIST_SAT: i64 = 0x1000_0000;

/// The record a ray query produces: whether it hit, how far along the ray,
/// where, the outward surface normal there, and spherical texture
/// coordinates.
#[derive(Clone, Copy, Debug)]
pub struct Intersect {
    pub hit: bool,
    pub distance: i64,
    pub point: Vec3,
    pub normal: Vec3,
    pub uv: (i64, i64),
}

impl Intersect {
    /// An intersection record from its parts.
    pub fn new(hit: bool, distance: i64, point: Vec3, normal: Vec3, uv: (i64, i64)) -> (r:
        Intersect)
        ensures
            r == (Intersect { hit, distance, point, normal, uv }),
    {
        Intersect { hit, distance, point, normal, uv }
    }
}

/// Anything a ray can be tested against: the object says when it is well
/// formed and what record a query must produce.
pub trait RayIntersect {
    /// When the object accepts ray queries.
    spec fn ray_wf(&self) -> bool;

    /// The record the object promises for a given ray.
    spec fn ray_result(&self, o: Vec3, d: Vec3) -> Intersect;

    /// Tests a ray, given by its origin and a normalized direction, against
    /// the object.
    fn ray_intersect(&self, ray_origin: &Vec3, ray_direction: &Vec3) -> (r: Intersect)
        requires
            self.ray_wf(),
            ray_origin.bounded(RAY_POS_LIMIT as int),
            ray_direction.bounded(RAY_DIR_LIMIT as int),
            dot_raw_s(*ray_direction, *ray_direction) > 0,
        ensures
            r == self.ray_result(*ray_origin, *ray_direction),
    ;
}

/// A sphere, used as the sky dome.
#[derive(Clone, Copy, PartialEq, Eq, Structural, Debug)]
pub struct Sphere {
    pub center: Vec3,
    pub radius: i64,
}

impl Sphere {
    /// A sphere from its center and radius.
    pub fn new(center: Vec3, radius: i64) -> (s: Sphere)
        ensures
            s == (Sphere { center, radius }),
    {
        Sphere { center, radius }
    }

    /// Well-formedness: bounded center, positive bounded radius.
    pub open spec fn wf(self) -> bool {
        &&& self.center.bounded(RAY_POS_LIMIT as int)
        &&& 0 < self.radius <= RAY_RADIUS_LIMIT
    }
}

/// The offset from the sphere center to the ray origin.
pub open spec fn ray_oc_s(s: Sphere, o: Vec3) -> Vec3 {
    Vec3 {
        x: (o.x - s.center.x) as i64,
        y: (o.y - s.center.y) as i64,
        z: (o.z - s.center.z) as i64,
    }
}

/// The three quadratic coefficients of the ray-sphere equation, in raw
/// (twice-scaled) units.
pub open spec fn ray_a_s(d: Vec3) -> int {
    dot_raw_s(d, d)
}

pub open spec fn ray_b_s(oc: Vec3, d: Vec3) -> int {
    2 * dot_raw_s(oc, d)
}

pub open spec fn ray_c_s(oc: Vec3, r: int) -> int {
    dot_raw_s(oc, oc) - r * r
}

/// The discriminant of the ray-sphere quadratic.
pub open spec fn ray_disc_s(s: Sphere, o: Vec3, d: Vec3) -> int {
    let oc = ray_oc_s(s, o);
    ray_b_s(oc, d) * ray_b_s(oc, d) - 4 * ray_a_s(d) * ray_c_s(oc, s.radius as int)
}

/// The saturated hit distance: the nearer real root of the quadratic.
pub open spec fn ray_dist_s(s: Sphere, o: Vec3, d: Vec3) -> int {
    let oc = ray_oc_s(s, o);
    let sq = isqrt_s(ray_disc_s(s, o, d) as nat) as int;
    clamp_s(sdiv((-ray_b_s(oc, d) - sq) * 65536, 2 * ray_a_s(d)), -RAY_DIST_SAT as int,
        RAY_DIST_SAT as int)
}

/// The full intersection record of a ray against a sphere.
pub open spec fn sphere_hit_s(s: Sphere, o: Vec3, d: Vec3) -> Intersect {
    if ray_disc_s(s, o, d) < 0 {
        Intersect {
            hit: false,
            distance: 0i64,
            point: Vec3 { x: 0i64, y: 0i64, z: 0i64 },
            normal: Vec3 { x: 0i64, y: 0i64, z: 0i64 },
            uv: (0i64, 0i64),
        }
    } else {
        let dist = ray_dist_s(s, o, d);
        let point = Vec3 {
            x: (o.x + fx_mul_s(d.x as int, dist)) as i64,
            y: (o.y + fx_mul_s(d.y as int, dist)) as i64,
            z: (o.z + fx_mul_s(d.z as int, dist)) as i64,
        };
        let normal = normalize_s(Vec3 {
            x: (point.x - s.center.x) as i64,
            y: (point.y - s.center.y) as i64,
            z: (point.z - s.center.z) as i64,
        });
        let uv = (
            (FX_HALF + fx_div_s(fx_atan2_s(normal.z as int, normal.x as int),
                TWO_PI_FX as int)) as i64,
            (FX_HALF - fx_div_s(fx_asin_s(clamp_s(normal.y as int, -FX_ONE as int,
                FX_ONE as int)), PI_FX as int)) as i64,
        );
        Intersect { hit: true, distance: dist as i64, point, normal, uv }
    }
}

impl RayIntersect for Sphere {
    open spec fn ray_wf(&self) -> bool {
        self.wf()
    }

    open spec fn ray_result(&self, o: Vec3, d: Vec3) -> Intersect {
        sphere_hit_s(*self, o, d)
    }

    /// Solves the ray-sphere quadratic: a negative discriminant is a miss;
    /// otherwise the nearer root gives the hit distance, point, outward
    /// normal, and spherical texture coordinates.
    fn ray_intersect(&self, ray_origin: &Vec3, ray_direction: &Vec3) -> (r: Intersect) {
        sphere_ray_intersect(self, ray_origin, ray_direction)
    }
}

/// The sphere intersection routine with its full contract: the trait method
/// above forwards here.
#[verifier::rlimit(100)]
pub fn sphere_ray_intersect(s: &Sphere, ray_origin: &Vec3, ray_direction: &Vec3) -> (r: Intersect)
    requires
        s.wf(),
        ray_origin.bounded(RAY_POS_LIMIT as int),
        ray_direction.bounded(RAY_DIR_LIMIT as int),
        dot_raw_s(*ray_direction, *ray_direction) > 0,
    ensures
        r == sphere_hit_s(*s, *ray_origin, *ray_direction),
        r.hit <==> ray_disc_s(*s, *ray_origin, *ray_direction) >= 0,
{
    let oc: Vec3 = ray_origin.sub(&s.center);
    let a: i128 = oc_dot(ray_direction, ray_direction);
    let b: i128 = 2 * oc_dot(&oc, ray_direction);
    let rad: i128 = s.radius as i128;
    proof {
        lemma_mul_bound(s.radius as int, s.radius as int, 0x800_0000, 0x800_0000);
    }
    let c: i128 = oc_dot(&oc, &oc) - rad * rad;
    proof {
        lemma_mul_bound(b as int, b as int, 0x6000_0000_0000_0000, 0x6000_0000_0000_0000);
        lemma_mul_bound(a as int, c as int, 0x4000_0000_0000_0000, 0x4000_0000_0000_0000);
    }
    let disc: i128 = b * b - 4 * (a * c);
    proof {
        assert(4 * (ray_a_s(*ray_direction) * ray_c_s(oc, s.radius as int)) == 4 * ray_a_s(
            *ray_direction) * ray_c_s(oc, s.radius as int)) by (nonlinear_arith);
    }
    if disc < 0 {
        Intersect {
            hit: false,
            distance: 0,
            point: Vec3 { x: 0, y: 0, z: 0 },
            normal: Vec3 { x: 0, y: 0, z: 0 },
            uv: (0, 0),
        }
    } else {
        let sq: u64 = isqrt(disc as u128);
        proof {
            assert((sq as nat) * (sq as nat) <= 0x8000_0000_0000_0000_0000_0000_0000_0000nat
                ==> sq <= 0xffff_ffff_ffff_ffff) by (nonlinear_arith);
        }
        let num: i128 = (-b - sq as i128) * 65536;
        let dr: i128 = crate::mat::sdiv128(num, 2 * a);
        let dist: i64 = (if dr < -(RAY_DIST_SAT as i128) {
            -(RAY_DIST_SAT as i128)
        } else if dr > RAY_DIST_SAT as i128 {
            RAY_DIST_SAT as i128
        } else {
            dr
        }) as i64;
        let point: Vec3 = Vec3 {
            x: ray_origin.x + fx_mul(ray_direction.x, dist),
            y: ray_origin.y + fx_mul(ray_direction.y, dist),
            z: ray_origin.z + fx_mul(ray_direction.z, dist),
        };
        proof {
            crate::fixed::lemma_fx_mul_range(ray_direction.x as int, dist as int, 0x20000,
                0x1000_0000);
            crate::fixed::lemma_fx_mul_range(ray_direction.y as int, dist as int, 0x20000,
                0x1000_0000);
            crate::fixed::lemma_fx_mul_range(ray_direction.z as int, dist as int, 0x20000,
                0x1000_0000);
        }
        let pc: Vec3 = point.sub(&s.center);
        let normal: Vec3 = pc.normalize();
        let u: i64 = FX_HALF + fx_div(fx_atan2(normal.z, normal.x), TWO_PI_FX);
        let v: i64 = FX_HALF - fx_div(fx_asin(fx_clamp(normal.y, -FX_ONE, FX_ONE)), PI_FX);
        Intersect { hit: true, distance: dist, point, normal, uv: (u, v) }
    }
}

fn oc_dot(a: &Vec3, b: &Vec3) -> (r: i128)
    requires
        a.bounded(0x2000_0000),
        b.bounded(0x2000_0000),
    ensures
        r == dot_raw_s(*a, *b),
        -0x3000_0000_0000_0000 <= r <= 0x3000_0000_0000_0000,
{
    proof {
        lemma_mul_bound(a.x as int, b.x as int, 0x2000_0000, 0x2000_0000);
        lemma_mul_bound(a.y as int, b.y as int, 0x2000_0000, 0x2000_0000);
        lemma_mul_bound(a.z as int, b.z as int, 0x2000_0000, 0x2000_0000);
    }
    (a.x as i128) * (b.x as i128) + (a.y as i128) * (b.y as i128) + (a.z as i128) * (b.z as i128)
}

/// The squared magnitude of the raw cross product of two vectors: the square
/// of the parallelogram area they span.
pub open spec fn cross_sq_raw_s(a: Vec3, b: Vec3) -> int {
    let cx = (a.y as int) * (b.z as int) - (a.z as int) * (b.y as int);
    let cy = (a.z as int) * (b.x as int) - (a.x as int) * (b.z as int);
    let cz = (a.x as int) * (b.y as int) - (a.y as int) * (b.x as int);
    cx * cx + cy * cy + cz * cz
}

proof fn lemma_sq_mul(x: int, y: int)
    by (nonlinear_arith)
    ensures
        (x * y) * (x * y) == (x * x) * (y * y),
{
}

proof fn lemma_sq_diff(p: int, q: int)
    by (nonlinear_arith)
    ensures
        (p - q) * (p - q) == p * p - 2 * (p * q) + q * q,
{
}

proof fn lemma_swap(ai: int, aj: int, bi: int, bj: int)
    by (nonlinear_arith)
    ensures
        (ai * bj) * (aj * bi) == (ai * bi) * (aj * bj),
{
}

proof fn lemma_pair(ai: int, aj: int, bi: int, bj: int)
    ensures
        (ai * bj - aj * bi) * (ai * bj - aj * bi) == (ai * ai) * (bj * bj) + (aj * aj) * (bi
            * bi) - 2 * ((ai * bi) * (aj * bj)),
{
    lemma_sq_diff(ai * bj, aj * bi);
    lemma_sq_mul(ai, bj);
    lemma_sq_mul(aj, bi);
    lemma_swap(ai, aj, bi, bj);
}

proof fn lemma_dist3(p: int, q: int, r: int, s: int)
    by (nonlinear_arith)
    ensures
        (p + q + r) * s == p * s + q * s + r * s,
        s * (p + q + r) == s * p + s * q + s * r,
{
}

proof fn lemma_sq_sum3(u: int, v: int, w: int)
    by (nonlinear_arith)
    ensures
        (u + v + w) * (u + v + w) == u * u + v * v + w * w + 2 * (u * v) + 2 * (u * w) + 2 * (v
            * w),
{
}

/// The Lagrange identity in three dimensions: the squared cross product is
/// the product of the squared norms minus the squared dot product.
pub proof fn lemma_lagrange_identity(a: Vec3, b: Vec3)
    ensures
        cross_sq_raw_s(a, b) == dot_raw_s(a, a) * dot_raw_s(b, b) - dot_raw_s(a, b) * dot_raw_s(
            a, b),
{
    let ax = a.x as int;
    let ay = a.y as int;
    let az = a.z as int;
    let bx = b.x as int;
    let by = b.y as int;
    let bz = b.z as int;
    let bb = bx * bx + by * by + bz * bz;
    lemma_dist3(ax * ax, ay * ay, az * az, bb);
    lemma_dist3(bx * bx, by * by, bz * bz, ax * ax);
    lemma_dist3(bx * bx, by * by, bz * bz, ay * ay);
    lemma_dist3(bx * bx, by * by, bz * bz, az * az);
    lemma_sq_sum3(ax * bx, ay * by, az * bz);
    lemma_sq_mul(ax, bx);
    lemma_sq_mul(ay, by);
    lemma_sq_mul(az, bz);
    lemma_pair(ay, az, by, bz);
    lemma_pair(az, ax, bz, bx);
    lemma_pair(ax, ay, bx, by);
}

/// Law: a ray misses the sphere exactly when its perpendicular offset from
/// the center exceeds the radius; stated squared and scaled by the direction
/// norm, the discriminant is negative exactly when the squared cross product
/// of offset and direction exceeds the squared radius times the direction
/// norm.
pub proof fn lemma_miss_iff_offset_exceeds_radius(s: Sphere, o: Vec3, d: Vec3)
    requires
        s.wf(),
        o.bounded(RAY_POS_LIMIT as int),
        d.bounded(RAY_DIR_LIMIT as int),
        dot_raw_s(d, d) > 0,
    ensures
        sphere_hit_s(s, o, d).hit <==> cross_sq_raw_s(ray_oc_s(s, o), d) <= ray_a_s(d) * ((
        s.radius as int) * (s.radius as int)),
{
    let oc = ray_oc_s(s, o);
    lemma_lagrange_identity(oc, d);
    assert(ray_disc_s(s, o, d) == 4 * (ray_a_s(d) * ((s.radius as int) * (s.radius as int))
        - cross_sq_raw_s(oc, d))) by (nonlinear_arith)
        requires
            cross_sq_raw_s(oc, d) == dot_raw_s(oc, oc) * dot_raw_s(d, d) - dot_raw_s(oc, d)
                * dot_raw_s(oc, d),
            ray_disc_s(s, o, d) == (2 * dot_raw_s(oc, d)) * (2 * dot_raw_s(oc, d)) - 4
                * dot_raw_s(d, d) * (dot_raw_s(oc, oc) - (s.radius as int) * (s.radius as int)),
            ray_a_s(d) == dot_raw_s(d, d),
    ;
    assert(ray_a_s(d) > 0);
}


/// Law: a ray aimed directly at the sphere's center, that is, with its
/// direction parallel to the axis from origin to center, always hits: its
/// perpendicular offset is zero, which never exceeds the radius.
pub proof fn lemma_ray_toward_center_hits(s: Sphere, o: Vec3, d: Vec3)
    requires
        s.wf(),
        o.bounded(RAY_POS_LIMIT as int),
        d.bounded(RAY_DIR_LIMIT as int),
        dot_raw_s(d, d) > 0,
        cross_sq_raw_s(ray_oc_s(s, o), d) == 0,
    ensures
        sphere_hit_s(s, o, d).hit,
{
    lemma_miss_iff_offset_exceeds_radius(s, o, d);
    assert(ray_a_s(d) * ((s.radius as int) * (s.radius as int)) >= 0) by (nonlinear_arith)
        requires
            ray_a_s(d) > 0,
    ;
}

} // verus!
