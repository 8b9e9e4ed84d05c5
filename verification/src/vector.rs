//! Three-component fixed-point vectors: the geometric values of the renderer.

use vstd::prelude::*;
use crate::fixed::{FX_ONE, tdiv, fx_mul_s, fx_mul, isqrt, isqrt_s, lemma_isqrt_s_property,
    lemma_mul_bound, lemma_tdiv_bound};

verus! {

/// Bound on the components accepted by most vector operations.
pub const VEC_LIMIT: i64 = 0x4000_0000;

/// A vector of three fixed-point scalars.
#[derive(Clone, Copy, PartialEq, Eq, Structural, Debug)]
pub struct Vec3 {
    pub x: i64,
    pub y: i64,
    pub z: i64,
}

impl Vec3 {
    /// All components within [-b, b].
    pub open spec fn bounded(self, b: int) -> bool {
        -b <= self.x <= b && -b <= self.y <= b && -b <= self.z <= b
    }

    /// A vector from its components.
    pub fn new(x: i64, y: i64, z: i64) -> (v: Vec3)
        ensures
            v == (Vec3 { x, y, z }),
    {
        Vec3 { x, y, z }
    }

    /// The zero vector.
    pub fn zeros() -> (v: Vec3)
        ensures
            v == (Vec3 { x: 0i64, y: 0i64, z: 0i64 }),
    {
        Vec3 { x: 0, y: 0, z: 0 }
    }

    /// Component-wise sum.
    pub fn add(&self, o: &Vec3) -> (v: Vec3)
        requires
            self.bounded(0x2000_0000_0000_0000),
            o.bounded(0x2000_0000_0000_0000),
        ensures
            v.x == self.x + o.x,
            v.y == self.y + o.y,
            v.z == self.z + o.z,
    {
        Vec3 { x: self.x + o.x, y: self.y + o.y, z: self.z + o.z }
    }

    /// Component-wise difference.
    pub fn sub(&self, o: &Vec3) -> (v: Vec3)
        requires
            self.bounded(0x2000_0000_0000_0000),
            o.bounded(0x2000_0000_0000_0000),
        ensures
            v.x == self.x - o.x,
            v.y == self.y - o.y,
            v.z == self.z - o.z,
    {
        Vec3 { x: self.x - o.x, y: self.y - o.y, z: self.z - o.z }
    }

    /// Scaling by a fixed-point factor.
    pub fn scale(&self, f: i64) -> (v: Vec3)
        requires
            self.bounded(VEC_LIMIT as int),
            -VEC_LIMIT <= f <= VEC_LIMIT,
        ensures
            v.x == fx_mul_s(self.x as int, f as int),
            v.y == fx_mul_s(self.y as int, f as int),
            v.z == fx_mul_s(self.z as int, f as int),
    {
        Vec3 { x: fx_mul(self.x, f), y: fx_mul(self.y, f), z: fx_mul(self.z, f) }
    }

    /// Fixed-point dot product.
    pub fn dot(&self, o: &Vec3) -> (r: i64)
        requires
            self.bounded(VEC_LIMIT as int),
            o.bounded(VEC_LIMIT as int),
        ensures
            r == dot_fx_s(*self, *o),
    {
        let w: i128 = dot_wide(*self, *o);
        let q: i128 = if w >= 0 {
            w / 65536
        } else {
            -((-w) / 65536)
        };
        proof {
            lemma_tdiv_bound(w as int, FX_ONE as int, 0x3000_0000_0000_0000);
        }
        q as i64
    }

    /// Raw dot product, at twice the fixed-point scale.
    pub fn dot_raw(&self, o: &Vec3) -> (r: i128)
        requires
            self.bounded(VEC_LIMIT as int),
            o.bounded(VEC_LIMIT as int),
        ensures
            r == dot_raw_s(*self, *o),
            -0x3000_0000_0000_0000 <= r <= 0x3000_0000_0000_0000,
    {
        dot_wide(*self, *o)
    }

    /// Fixed-point cross product.
    pub fn cross(&self, o: &Vec3) -> (v: Vec3)
        requires
            self.bounded(VEC_LIMIT as int),
            o.bounded(VEC_LIMIT as int),
        ensures
            v == cross_fx_s(*self, *o),
    {
        proof {
            lemma_cross_products_bounded(*self, *o);
        }
        let cx: i128 = (self.y as i128) * (o.z as i128) - (self.z as i128) * (o.y as i128);
        let cy: i128 = (self.z as i128) * (o.x as i128) - (self.x as i128) * (o.z as i128);
        let cz: i128 = (self.x as i128) * (o.y as i128) - (self.y as i128) * (o.x as i128);
        proof {
            lemma_tdiv_bound(cx as int, FX_ONE as int, 0x2000_0000_0000_0000);
            lemma_tdiv_bound(cy as int, FX_ONE as int, 0x2000_0000_0000_0000);
            lemma_tdiv_bound(cz as int, FX_ONE as int, 0x2000_0000_0000_0000);
        }
        let rx: i128 = if cx >= 0 {
            cx / 65536
        } else {
            -((-cx) / 65536)
        };
        let ry: i128 = if cy >= 0 {
            cy / 65536
        } else {
            -((-cy) / 65536)
        };
        let rz: i128 = if cz >= 0 {
            cz / 65536
        } else {
            -((-cz) / 65536)
        };
        Vec3 { x: rx as i64, y: ry as i64, z: rz as i64 }
    }

    /// Length of the vector, at the fixed-point scale.
    pub fn magnitude(&self) -> (r: i64)
        requires
            self.bounded(VEC_LIMIT as int),
        ensures
            r == mag_s(*self),
            0 <= r <= 0x8000_0000,
            (r as int) * (r as int) <= norm_sq_s(*self),
            norm_sq_s(*self) < ((r + 1) as int) * ((r + 1) as int),
    {
        proof {
            lemma_norm_sq_nonneg(*self);
        }
        let ns: i128 = dot_wide(*self, *self);
        let m: u64 = isqrt(ns as u128);
        proof {
            assert((m as nat) * (m as nat) <= 0x3000_0000_0000_0000nat);
            assert(m <= 0x8000_0000) by (nonlinear_arith)
                requires
                    (m as nat) * (m as nat) <= 0x3000_0000_0000_0000nat,
            ;
        }
        m as i64
    }

    /// The vector rescaled to (approximately) unit length; zero stays zero.
    pub fn normalize(&self) -> (v: Vec3)
        requires
            self.bounded(VEC_LIMIT as int),
        ensures
            v == normalize_s(*self),
            v.bounded(FX_ONE as int),
    {
        let m: i64 = self.magnitude();
        if m == 0 {
            proof {
                lemma_normalize_zero(*self);
            }
            Vec3 { x: 0, y: 0, z: 0 }
        } else {
            proof {
                lemma_components_within_magnitude(*self, m as int);
            }
            let nx: i64 = div_by_mag(self.x, m);
            let ny: i64 = div_by_mag(self.y, m);
            let nz: i64 = div_by_mag(self.z, m);
            Vec3 { x: nx, y: ny, z: nz }
        }
    }
}

/// Raw (unscaled) dot product of two vectors.
pub open spec fn dot_raw_s(a: Vec3, b: Vec3) -> int {
    (a.x as int) * (b.x as int) + (a.y as int) * (b.y as int) + (a.z as int) * (b.z as int)
}

/// Fixed-point dot product: the raw product rescaled.
pub open spec fn dot_fx_s(a: Vec3, b: Vec3) -> int {
    tdiv(dot_raw_s(a, b), FX_ONE as int)
}

/// Fixed-point cross product.
pub open spec fn cross_fx_s(a: Vec3, b: Vec3) -> Vec3 {
    Vec3 {
        x: tdiv((a.y as int) * (b.z as int) - (a.z as int) * (b.y as int), FX_ONE as int) as i64,
        y: tdiv((a.z as int) * (b.x as int) - (a.x as int) * (b.z as int), FX_ONE as int) as i64,
        z: tdiv((a.x as int) * (b.y as int) - (a.y as int) * (b.x as int), FX_ONE as int) as i64,
    }
}

/// Squared length, at twice the fixed-point scale.
pub open spec fn norm_sq_s(v: Vec3) -> int {
    dot_raw_s(v, v)
}

/// Length, at the fixed-point scale.
pub open spec fn mag_s(v: Vec3) -> int {
    isqrt_s(norm_sq_s(v) as nat) as int
}

/// Unit-length rescaling; the zero vector stays zero.
pub open spec fn normalize_s(v: Vec3) -> Vec3 {
    let m = mag_s(v);
    if m == 0 {
        Vec3 { x: 0i64, y: 0i64, z: 0i64 }
    } else {
        Vec3 {
            x: tdiv((v.x as int) * (FX_ONE as int), m) as i64,
            y: tdiv((v.y as int) * (FX_ONE as int), m) as i64,
            z: tdiv((v.z as int) * (FX_ONE as int), m) as i64,
        }
    }
}

fn dot_wide(a: Vec3, b: Vec3) -> (r: i128)
    requires
        a.bounded(VEC_LIMIT as int),
        b.bounded(VEC_LIMIT as int),
    ensures
        r == dot_raw_s(a, b),
        -0x3000_0000_0000_0000 <= r <= 0x3000_0000_0000_0000,
{
    proof {
        lemma_mul_bound(a.x as int, b.x as int, VEC_LIMIT as int, VEC_LIMIT as int);
        lemma_mul_bound(a.y as int, b.y as int, VEC_LIMIT as int, VEC_LIMIT as int);
        lemma_mul_bound(a.z as int, b.z as int, VEC_LIMIT as int, VEC_LIMIT as int);
    }
    (a.x as i128) * (b.x as i128) + (a.y as i128) * (b.y as i128) + (a.z as i128) * (b.z as i128)
}

proof fn lemma_cross_products_bounded(a: Vec3, b: Vec3)
    requires
        a.bounded(VEC_LIMIT as int),
        b.bounded(VEC_LIMIT as int),
    ensures
        -0x2000_0000_0000_0000 <= (a.y as int) * (b.z as int) - (a.z as int) * (b.y as int)
            <= 0x2000_0000_0000_0000,
        -0x2000_0000_0000_0000 <= (a.z as int) * (b.x as int) - (a.x as int) * (b.z as int)
            <= 0x2000_0000_0000_0000,
        -0x2000_0000_0000_0000 <= (a.x as int) * (b.y as int) - (a.y as int) * (b.x as int)
            <= 0x2000_0000_0000_0000,
        -0x1000_0000_0000_0000 <= (a.x as int) * (b.y as int) <= 0x1000_0000_0000_0000,
        -0x1000_0000_0000_0000 <= (a.x as int) * (b.z as int) <= 0x1000_0000_0000_0000,
        -0x1000_0000_0000_0000 <= (a.y as int) * (b.x as int) <= 0x1000_0000_0000_0000,
        -0x1000_0000_0000_0000 <= (a.y as int) * (b.z as int) <= 0x1000_0000_0000_0000,
        -0x1000_0000_0000_0000 <= (a.z as int) * (b.x as int) <= 0x1000_0000_0000_0000,
        -0x1000_0000_0000_0000 <= (a.z as int) * (b.y as int) <= 0x1000_0000_0000_0000,
{
    lemma_mul_bound(a.x as int, b.y as int, VEC_LIMIT as int, VEC_LIMIT as int);
    lemma_mul_bound(a.x as int, b.z as int, VEC_LIMIT as int, VEC_LIMIT as int);
    lemma_mul_bound(a.y as int, b.x as int, VEC_LIMIT as int, VEC_LIMIT as int);
    lemma_mul_bound(a.y as int, b.z as int, VEC_LIMIT as int, VEC_LIMIT as int);
    lemma_mul_bound(a.z as int, b.x as int, VEC_LIMIT as int, VEC_LIMIT as int);
    lemma_mul_bound(a.z as int, b.y as int, VEC_LIMIT as int, VEC_LIMIT as int);
}

/// A sum of squares is never negative.
pub proof fn lemma_norm_sq_nonneg(v: Vec3)
    ensures
        norm_sq_s(v) >= 0,
{
    assert((v.x as int) * (v.x as int) >= 0) by (nonlinear_arith);
    assert((v.y as int) * (v.y as int) >= 0) by (nonlinear_arith);
    assert((v.z as int) * (v.z as int) >= 0) by (nonlinear_arith);
}

proof fn lemma_normalize_zero(v: Vec3)
    requires
        mag_s(v) == 0,
        norm_sq_s(v) >= 0,
    ensures
        normalize_s(v) == (Vec3 { x: 0i64, y: 0i64, z: 0i64 }),
{
}

proof fn lemma_components_within_magnitude(v: Vec3, m: int)
    requires
        m == mag_s(v),
        m >= 1,
    ensures
        -m <= v.x <= m,
        -m <= v.y <= m,
        -m <= v.z <= m,
{
    lemma_norm_sq_nonneg(v);
    lemma_isqrt_s_property(norm_sq_s(v) as nat);
    lemma_component_sq_le_norm(v);
    lemma_abs_le_sqrt(v.x as int, m, norm_sq_s(v));
    lemma_abs_le_sqrt(v.y as int, m, norm_sq_s(v));
    lemma_abs_le_sqrt(v.z as int, m, norm_sq_s(v));
}

proof fn lemma_component_sq_le_norm(v: Vec3)
    by (nonlinear_arith)
    ensures
        (v.x as int) * (v.x as int) <= norm_sq_s(v),
        (v.y as int) * (v.y as int) <= norm_sq_s(v),
        (v.z as int) * (v.z as int) <= norm_sq_s(v),
{
}

proof fn lemma_abs_le_sqrt(c: int, m: int, ns: int)
    by (nonlinear_arith)
    requires
        c * c <= ns,
        ns < (m + 1) * (m + 1),
        m >= 0,
    ensures
        -m <= c <= m,
{
}

fn div_by_mag(c: i64, m: i64) -> (r: i64)
    requires
        -VEC_LIMIT <= c <= VEC_LIMIT,
        1 <= m,
        -m <= c <= m,
    ensures
        r == tdiv((c as int) * (FX_ONE as int), m as int),
        -FX_ONE <= r <= FX_ONE,
{
    let w: i128 = (c as i128) * 65536;
    let q: i128 = if w >= 0 {
        w / (m as i128)
    } else {
        -((-w) / (m as i128))
    };
    proof {
        let wi = w as int;
        let mi = m as int;
        if w >= 0 {
            assert(wi <= mi * 65536) by (nonlinear_arith)
                requires
                    wi == (c as int) * 65536,
                    c <= mi,
            ;
            vstd::arithmetic::div_mod::lemma_div_is_ordered(wi, mi * 65536, mi);
            vstd::arithmetic::div_mod::lemma_div_multiples_vanish(65536, mi);
            vstd::arithmetic::div_mod::lemma_div_pos_is_pos(wi, mi);
        } else {
            assert(-wi <= mi * 65536) by (nonlinear_arith)
                requires
                    wi == (c as int) * 65536,
                    -mi <= c,
            ;
            vstd::arithmetic::div_mod::lemma_div_is_ordered(-wi, mi * 65536, mi);
            vstd::arithmetic::div_mod::lemma_div_multiples_vanish(65536, mi);
            vstd::arithmetic::div_mod::lemma_div_pos_is_pos(-wi, mi);
        }
    }
    q as i64
}

} // verus!
