//! Fixed-point 4x4 matrices for the transform pipeline, and the 3x3
//! inverse-transpose used to remap normals under non-uniform scale.

use vstd::prelude::*;
use crate::fixed::{FX_ONE, tdiv, clamp_s, lemma_mul_bound, lemma_tdiv_bound};

verus! {

/// Bound on matrix entries (4096 in fixed-point units).
pub const MAT_LIMIT: i64 = 0x1000_0000;

/// Bound on normal vector components after remapping.
pub const NORMAL_LIMIT: i64 = 0x100000;

/// Bound on the 4-vector components accepted by `apply4`.
pub const APPLY4_IN_LIMIT: i128 = 0x1000_0000_0000_0000_0000_0000;

/// Bound on the 4-vector components produced by `apply4`.
pub const APPLY4_OUT_LIMIT: i128 = 0x400_0000_0000_0000_0000_0000_0000_0000;

/// A 4x4 fixed-point matrix, row major.
#[derive(Clone, Copy, PartialEq, Eq, Structural, Debug)]
pub struct Mat4 {
    pub m00: i64, pub m01: i64, pub m02: i64, pub m03: i64,
    pub m10: i64, pub m11: i64, pub m12: i64, pub m13: i64,
    pub m20: i64, pub m21: i64, pub m22: i64, pub m23: i64,
    pub m30: i64, pub m31: i64, pub m32: i64, pub m33: i64,
}

/// A 3x3 fixed-point matrix, row major.
#[derive(Clone, Copy, PartialEq, Eq, Structural, Debug)]
pub struct Mat3 {
    pub m00: i64, pub m01: i64, pub m02: i64,
    pub m10: i64, pub m11: i64, pub m12: i64,
    pub m20: i64, pub m21: i64, pub m22: i64,
}

/// Truncating division for an arbitrary nonzero divisor.
pub open spec fn sdiv(a: int, b: int) -> int {
    if b > 0 {
        tdiv(a, b)
    } else {
        tdiv(-a, -b)
    }
}

impl Mat4 {
    /// All entries within the matrix entry bound.
    pub open spec fn wf(self) -> bool {
        &&& -MAT_LIMIT <= self.m00 <= MAT_LIMIT && -MAT_LIMIT <= self.m01 <= MAT_LIMIT
        &&& -MAT_LIMIT <= self.m02 <= MAT_LIMIT && -MAT_LIMIT <= self.m03 <= MAT_LIMIT
        &&& -MAT_LIMIT <= self.m10 <= MAT_LIMIT && -MAT_LIMIT <= self.m11 <= MAT_LIMIT
        &&& -MAT_LIMIT <= self.m12 <= MAT_LIMIT && -MAT_LIMIT <= self.m13 <= MAT_LIMIT
        &&& -MAT_LIMIT <= self.m20 <= MAT_LIMIT && -MAT_LIMIT <= self.m21 <= MAT_LIMIT
        &&& -MAT_LIMIT <= self.m22 <= MAT_LIMIT && -MAT_LIMIT <= self.m23 <= MAT_LIMIT
        &&& -MAT_LIMIT <= self.m30 <= MAT_LIMIT && -MAT_LIMIT <= self.m31 <= MAT_LIMIT
        &&& -MAT_LIMIT <= self.m32 <= MAT_LIMIT && -MAT_LIMIT <= self.m33 <= MAT_LIMIT
    }

    /// The identity transform.
    pub fn identity() -> (m: Mat4)
        ensures
            m == mat4_identity_s(),
            m.wf(),
    {
        Mat4 {
            m00: FX_ONE, m01: 0, m02: 0, m03: 0,
            m10: 0, m11: FX_ONE, m12: 0, m13: 0,
            m20: 0, m21: 0, m22: FX_ONE, m23: 0,
            m30: 0, m31: 0, m32: 0, m33: FX_ONE,
        }
    }
}

/// The identity transform at the specification level.
pub open spec fn mat4_identity_s() -> Mat4 {
    Mat4 {
        m00: FX_ONE, m01: 0i64, m02: 0i64, m03: 0i64,
        m10: 0i64, m11: FX_ONE, m12: 0i64, m13: 0i64,
        m20: 0i64, m21: 0i64, m22: FX_ONE, m23: 0i64,
        m30: 0i64, m31: 0i64, m32: 0i64, m33: FX_ONE,
    }
}

/// One row of a matrix application: the rescaled scalar product.
pub open spec fn row4_s(a: int, b: int, c: int, d: int, x: int, y: int, z: int, w: int) -> int {
    tdiv(a * x + b * y + c * z + d * w, FX_ONE as int)
}

/// A matrix applied to a homogeneous 4-vector.
pub open spec fn apply4_s(m: Mat4, x: int, y: int, z: int, w: int) -> (int, int, int, int) {
    (
        row4_s(m.m00 as int, m.m01 as int, m.m02 as int, m.m03 as int, x, y, z, w),
        row4_s(m.m10 as int, m.m11 as int, m.m12 as int, m.m13 as int, x, y, z, w),
        row4_s(m.m20 as int, m.m21 as int, m.m22 as int, m.m23 as int, x, y, z, w),
        row4_s(m.m30 as int, m.m31 as int, m.m32 as int, m.m33 as int, x, y, z, w),
    )
}

fn row4(a: i64, b: i64, c: i64, d: i64, x: i128, y: i128, z: i128, w: i128) -> (r: i128)
    requires
        -MAT_LIMIT <= a <= MAT_LIMIT,
        -MAT_LIMIT <= b <= MAT_LIMIT,
        -MAT_LIMIT <= c <= MAT_LIMIT,
        -MAT_LIMIT <= d <= MAT_LIMIT,
        -APPLY4_IN_LIMIT <= x <= APPLY4_IN_LIMIT,
        -APPLY4_IN_LIMIT <= y <= APPLY4_IN_LIMIT,
        -APPLY4_IN_LIMIT <= z <= APPLY4_IN_LIMIT,
        -APPLY4_IN_LIMIT <= w <= APPLY4_IN_LIMIT,
    ensures
        r == row4_s(a as int, b as int, c as int, d as int, x as int, y as int, z as int,
            w as int),
        -APPLY4_OUT_LIMIT <= r <= APPLY4_OUT_LIMIT,
{
    proof {
        lemma_mul_bound(a as int, x as int, MAT_LIMIT as int, APPLY4_IN_LIMIT as int);
        lemma_mul_bound(b as int, y as int, MAT_LIMIT as int, APPLY4_IN_LIMIT as int);
        lemma_mul_bound(c as int, z as int, MAT_LIMIT as int, APPLY4_IN_LIMIT as int);
        lemma_mul_bound(d as int, w as int, MAT_LIMIT as int, APPLY4_IN_LIMIT as int);
    }
    let s: i128 = (a as i128) * x + (b as i128) * y + (c as i128) * z + (d as i128) * w;
    proof {
        lemma_tdiv_bound(s as int, FX_ONE as int, 0x400_0000_0000_0000_0000_0000_0000_0000);
    }
    if s >= 0 {
        s / 65536
    } else {
        -((-s) / 65536)
    }
}

/// Applies a matrix to a homogeneous 4-vector held in wide scalars.
pub fn apply4(m: &Mat4, x: i128, y: i128, z: i128, w: i128) -> (r: (i128, i128, i128, i128))
    requires
        m.wf(),
        -APPLY4_IN_LIMIT <= x <= APPLY4_IN_LIMIT,
        -APPLY4_IN_LIMIT <= y <= APPLY4_IN_LIMIT,
        -APPLY4_IN_LIMIT <= z <= APPLY4_IN_LIMIT,
        -APPLY4_IN_LIMIT <= w <= APPLY4_IN_LIMIT,
    ensures
        (r.0 as int, r.1 as int, r.2 as int, r.3 as int) == apply4_s(*m, x as int, y as int,
            z as int, w as int),
        -APPLY4_OUT_LIMIT <= r.0 <= APPLY4_OUT_LIMIT,
        -APPLY4_OUT_LIMIT <= r.1 <= APPLY4_OUT_LIMIT,
        -APPLY4_OUT_LIMIT <= r.2 <= APPLY4_OUT_LIMIT,
        -APPLY4_OUT_LIMIT <= r.3 <= APPLY4_OUT_LIMIT,
{
    (
        row4(m.m00, m.m01, m.m02, m.m03, x, y, z, w),
        row4(m.m10, m.m11, m.m12, m.m13, x, y, z, w),
        row4(m.m20, m.m21, m.m22, m.m23, x, y, z, w),
        row4(m.m30, m.m31, m.m32, m.m33, x, y, z, w),
    )
}

/// Determinant of the transposed 3x3 linear part of a model matrix,
/// at three times the fixed-point scale.
pub open spec fn det3t_s(m: Mat4) -> int {
    let t00 = m.m00 as int; let t01 = m.m10 as int; let t02 = m.m20 as int;
    let t10 = m.m01 as int; let t11 = m.m11 as int; let t12 = m.m21 as int;
    let t20 = m.m02 as int; let t21 = m.m12 as int; let t22 = m.m22 as int;
    t00 * (t11 * t22 - t12 * t21) - t01 * (t10 * t22 - t12 * t20) + t02 * (t10 * t21 - t11 * t20)
}

/// One entry of the inverse of the transposed 3x3 part: the matching
/// cofactor divided by the determinant, rescaled and clamped to the
/// matrix entry bound.
pub open spec fn inv_entry_s(cof: int, det: int) -> int {
    clamp_s(sdiv(cof * (FX_ONE as int) * (FX_ONE as int), det), -MAT_LIMIT as int,
        MAT_LIMIT as int)
}

/// The normal matrix: the inverse of the transposed 3x3 part of the model
/// matrix, or the identity when that part is singular.
pub open spec fn normal_matrix_s(m: Mat4) -> Mat3 {
    let t00 = m.m00 as int; let t01 = m.m10 as int; let t02 = m.m20 as int;
    let t10 = m.m01 as int; let t11 = m.m11 as int; let t12 = m.m21 as int;
    let t20 = m.m02 as int; let t21 = m.m12 as int; let t22 = m.m22 as int;
    let det = det3t_s(m);
    if det == 0 {
        mat3_identity_s()
    } else {
        Mat3 {
            m00: inv_entry_s(t11 * t22 - t12 * t21, det) as i64,
            m01: inv_entry_s(-(t01 * t22 - t02 * t21), det) as i64,
            m02: inv_entry_s(t01 * t12 - t02 * t11, det) as i64,
            m10: inv_entry_s(-(t10 * t22 - t12 * t20), det) as i64,
            m11: inv_entry_s(t00 * t22 - t02 * t20, det) as i64,
            m12: inv_entry_s(-(t00 * t12 - t02 * t10), det) as i64,
            m20: inv_entry_s(t10 * t21 - t11 * t20, det) as i64,
            m21: inv_entry_s(-(t00 * t21 - t01 * t20), det) as i64,
            m22: inv_entry_s(t00 * t11 - t01 * t10, det) as i64,
        }
    }
}

/// The 3x3 identity at the specification level.
pub open spec fn mat3_identity_s() -> Mat3 {
    Mat3 {
        m00: FX_ONE, m01: 0i64, m02: 0i64,
        m10: 0i64, m11: FX_ONE, m12: 0i64,
        m20: 0i64, m21: 0i64, m22: FX_ONE,
    }
}

impl Mat3 {
    /// All entries within the matrix entry bound.
    pub open spec fn wf(self) -> bool {
        &&& -MAT_LIMIT <= self.m00 <= MAT_LIMIT && -MAT_LIMIT <= self.m01 <= MAT_LIMIT
        &&& -MAT_LIMIT <= self.m02 <= MAT_LIMIT && -MAT_LIMIT <= self.m10 <= MAT_LIMIT
        &&& -MAT_LIMIT <= self.m11 <= MAT_LIMIT && -MAT_LIMIT <= self.m12 <= MAT_LIMIT
        &&& -MAT_LIMIT <= self.m20 <= MAT_LIMIT && -MAT_LIMIT <= self.m21 <= MAT_LIMIT
        &&& -MAT_LIMIT <= self.m22 <= MAT_LIMIT
    }
}

fn minor2(a: i64, b: i64, c: i64, d: i64) -> (r: i128)
    requires
        -MAT_LIMIT <= a <= MAT_LIMIT,
        -MAT_LIMIT <= b <= MAT_LIMIT,
        -MAT_LIMIT <= c <= MAT_LIMIT,
        -MAT_LIMIT <= d <= MAT_LIMIT,
    ensures
        r == (a as int) * (d as int) - (b as int) * (c as int),
        -0x200_0000_0000_0000 <= r <= 0x200_0000_0000_0000,
{
    proof {
        lemma_mul_bound(a as int, d as int, MAT_LIMIT as int, MAT_LIMIT as int);
        lemma_mul_bound(b as int, c as int, MAT_LIMIT as int, MAT_LIMIT as int);
    }
    (a as i128) * (d as i128) - (b as i128) * (c as i128)
}

fn inv_entry(cof: i128, det: i128) -> (r: i64)
    requires
        det != 0,
        -0x200_0000_0000_0000 <= cof <= 0x200_0000_0000_0000,
        -0x4000_0000_0000_0000_0000_0000 <= det <= 0x4000_0000_0000_0000_0000_0000,
    ensures
        r == inv_entry_s(cof as int, det as int),
        -MAT_LIMIT <= r <= MAT_LIMIT,
{
    let n: i128 = cof * 65536 * 65536;
    let q: i128 = if det > 0 {
        if n >= 0 {
            n / det
        } else {
            -((-n) / det)
        }
    } else {
        if n >= 0 {
            -(n / (-det))
        } else {
            (-n) / (-det)
        }
    };
    proof {
        if det > 0 {
            lemma_tdiv_bound(n as int, det as int, 0x2000_0000_0000_0000_0000_0000_0000);
        } else {
            lemma_tdiv_bound(-(n as int), -(det as int), 0x2000_0000_0000_0000_0000_0000_0000);
        }
    }
    let qc: i128 = if q < -(MAT_LIMIT as i128) {
        -(MAT_LIMIT as i128)
    } else if q > MAT_LIMIT as i128 {
        MAT_LIMIT as i128
    } else {
        q
    };
    qc as i64
}

/// Builds the normal matrix of a model matrix: transpose the 3x3 linear part
/// and invert it, falling back to the identity when it is singular, so that a
/// non-invertible model matrix never aborts rendering.
pub fn normal_matrix(m: &Mat4) -> (nm: Mat3)
    requires
        m.wf(),
    ensures
        nm == normal_matrix_s(*m),
        nm.wf(),
{
    let t00: i64 = m.m00; let t01: i64 = m.m10; let t02: i64 = m.m20;
    let t10: i64 = m.m01; let t11: i64 = m.m11; let t12: i64 = m.m21;
    let t20: i64 = m.m02; let t21: i64 = m.m12; let t22: i64 = m.m22;
    let c00: i128 = minor2(t11, t12, t21, t22);
    let c01: i128 = -minor2(t10, t12, t20, t22);
    let c02: i128 = minor2(t10, t11, t20, t21);
    proof {
        lemma_mul_bound(t00 as int, c00 as int, MAT_LIMIT as int, 0x200_0000_0000_0000);
        lemma_mul_bound(t01 as int, c01 as int, MAT_LIMIT as int, 0x200_0000_0000_0000);
        lemma_mul_bound(t02 as int, c02 as int, MAT_LIMIT as int, 0x200_0000_0000_0000);
    }
    let det: i128 = (t00 as i128) * c00 + (t01 as i128) * c01 + (t02 as i128) * c02;
    proof {
        lemma_det3t_matches(*m, c00 as int, c01 as int, c02 as int, det as int);
    }
    if det == 0 {
        Mat3 {
            m00: FX_ONE, m01: 0, m02: 0,
            m10: 0, m11: FX_ONE, m12: 0,
            m20: 0, m21: 0, m22: FX_ONE,
        }
    } else {
        Mat3 {
            m00: inv_entry(minor2(t11, t12, t21, t22), det),
            m01: inv_entry(-minor2(t01, t02, t21, t22), det),
            m02: inv_entry(minor2(t01, t02, t11, t12), det),
            m10: inv_entry(-minor2(t10, t12, t20, t22), det),
            m11: inv_entry(minor2(t00, t02, t20, t22), det),
            m12: inv_entry(-minor2(t00, t02, t10, t12), det),
            m20: inv_entry(minor2(t10, t11, t20, t21), det),
            m21: inv_entry(-minor2(t00, t01, t20, t21), det),
            m22: inv_entry(minor2(t00, t01, t10, t11), det),
        }
    }
}

proof fn lemma_det3t_matches(m: Mat4, c00: int, c01: int, c02: int, det: int)
    by (nonlinear_arith)
    requires
        c00 == (m.m11 as int) * (m.m22 as int) - (m.m21 as int) * (m.m12 as int),
        c01 == -((m.m01 as int) * (m.m22 as int) - (m.m21 as int) * (m.m02 as int)),
        c02 == (m.m01 as int) * (m.m12 as int) - (m.m11 as int) * (m.m02 as int),
        det == (m.m00 as int) * c00 + (m.m10 as int) * c01 + (m.m20 as int) * c02,
    ensures
        det == det3t_s(m),
{
}

/// A 3x3 matrix applied to a normal vector, each component clamped to the
/// normal bound.
pub open spec fn apply3_s(nm: Mat3, x: int, y: int, z: int) -> (int, int, int) {
    (
        clamp_s(tdiv(nm.m00 * x + nm.m01 * y + nm.m02 * z, FX_ONE as int), -NORMAL_LIMIT as int,
            NORMAL_LIMIT as int),
        clamp_s(tdiv(nm.m10 * x + nm.m11 * y + nm.m12 * z, FX_ONE as int), -NORMAL_LIMIT as int,
            NORMAL_LIMIT as int),
        clamp_s(tdiv(nm.m20 * x + nm.m21 * y + nm.m22 * z, FX_ONE as int), -NORMAL_LIMIT as int,
            NORMAL_LIMIT as int),
    )
}

fn row3(a: i64, b: i64, c: i64, x: i64, y: i64, z: i64) -> (r: i64)
    requires
        -MAT_LIMIT <= a <= MAT_LIMIT,
        -MAT_LIMIT <= b <= MAT_LIMIT,
        -MAT_LIMIT <= c <= MAT_LIMIT,
        -NORMAL_LIMIT <= x <= NORMAL_LIMIT,
        -NORMAL_LIMIT <= y <= NORMAL_LIMIT,
        -NORMAL_LIMIT <= z <= NORMAL_LIMIT,
    ensures
        r == clamp_s(tdiv((a as int) * x + (b as int) * y + (c as int) * z, FX_ONE as int),
            -NORMAL_LIMIT as int, NORMAL_LIMIT as int),
        -NORMAL_LIMIT <= r <= NORMAL_LIMIT,
{
    proof {
        lemma_mul_bound(a as int, x as int, MAT_LIMIT as int, NORMAL_LIMIT as int);
        lemma_mul_bound(b as int, y as int, MAT_LIMIT as int, NORMAL_LIMIT as int);
        lemma_mul_bound(c as int, z as int, MAT_LIMIT as int, NORMAL_LIMIT as int);
    }
    let s: i128 = (a as i128) * (x as i128) + (b as i128) * (y as i128) + (c as i128) * (
    z as i128);
    proof {
        lemma_tdiv_bound(s as int, FX_ONE as int, 0x3_0000_0000_0000);
    }
    let q: i128 = if s >= 0 {
        s / 65536
    } else {
        -((-s) / 65536)
    };
    let qc: i128 = if q < -(NORMAL_LIMIT as i128) {
        -(NORMAL_LIMIT as i128)
    } else if q > NORMAL_LIMIT as i128 {
        NORMAL_LIMIT as i128
    } else {
        q
    };
    qc as i64
}

/// Applies a 3x3 matrix to a normal held as three scalars.
pub fn apply3(nm: &Mat3, x: i64, y: i64, z: i64) -> (r: (i64, i64, i64))
    requires
        nm.wf(),
        -NORMAL_LIMIT <= x <= NORMAL_LIMIT,
        -NORMAL_LIMIT <= y <= NORMAL_LIMIT,
        -NORMAL_LIMIT <= z <= NORMAL_LIMIT,
    ensures
        (r.0 as int, r.1 as int, r.2 as int) == apply3_s(*nm, x as int, y as int, z as int),
        -NORMAL_LIMIT <= r.0 <= NORMAL_LIMIT,
        -NORMAL_LIMIT <= r.1 <= NORMAL_LIMIT,
        -NORMAL_LIMIT <= r.2 <= NORMAL_LIMIT,
{
    (
        row3(nm.m00, nm.m01, nm.m02, x, y, z),
        row3(nm.m10, nm.m11, nm.m12, x, y, z),
        row3(nm.m20, nm.m21, nm.m22, x, y, z),
    )
}


/// Bound on one row application from a bound on the vector components.
pub proof fn lemma_row4_s_bound(a: int, b: int, c: int, d: int, x: int, y: int, z: int, w: int,
    bv: int)
    requires
        -MAT_LIMIT <= a <= MAT_LIMIT,
        -MAT_LIMIT <= b <= MAT_LIMIT,
        -MAT_LIMIT <= c <= MAT_LIMIT,
        -MAT_LIMIT <= d <= MAT_LIMIT,
        -bv <= x <= bv,
        -bv <= y <= bv,
        -bv <= z <= bv,
        -bv <= w <= bv,
        0 <= bv,
    ensures
        -0x4000 * bv <= row4_s(a, b, c, d, x, y, z, w) <= 0x4000 * bv,
{
    lemma_mul_bound(a, x, 0x1000_0000, bv);
    lemma_mul_bound(b, y, 0x1000_0000, bv);
    lemma_mul_bound(c, z, 0x1000_0000, bv);
    lemma_mul_bound(d, w, 0x1000_0000, bv);
    let s = a * x + b * y + c * z + d * w;
    lemma_tdiv_bound(s, 65536, 0x4000_0000 * bv);
    vstd::arithmetic::div_mod::lemma_div_multiples_vanish(0x4000 * bv, 65536);
    if s >= 0 {
        vstd::arithmetic::div_mod::lemma_div_is_ordered(s, 65536 * (0x4000 * bv), 65536);
        vstd::arithmetic::div_mod::lemma_div_pos_is_pos(s, 65536);
    } else {
        vstd::arithmetic::div_mod::lemma_div_is_ordered(-s, 65536 * (0x4000 * bv), 65536);
        vstd::arithmetic::div_mod::lemma_div_pos_is_pos(-s, 65536);
    }
}

/// Truncating division on wide scalars, for any nonzero divisor. The result
/// never exceeds the dividend in magnitude.
pub fn sdiv128(n: i128, d: i128) -> (r: i128)
    requires
        d != 0,
        -0x4000_0000_0000_0000_0000_0000_0000_0000 <= n <= 0x4000_0000_0000_0000_0000_0000_0000_0000,
        -0x4000_0000_0000_0000_0000_0000_0000_0000 <= d <= 0x4000_0000_0000_0000_0000_0000_0000_0000,
    ensures
        r == sdiv(n as int, d as int),
        n >= 0 ==> -n <= r <= n,
        n < 0 ==> n <= r <= -n,
{
    proof {
        let ni = n as int;
        let di = d as int;
        let bound: int = if ni >= 0 { ni } else { -ni };
        if d > 0 {
            lemma_tdiv_bound(ni, di, bound);
        } else {
            lemma_tdiv_bound(-ni, -di, bound);
        }
    }
    if d > 0 {
        if n >= 0 {
            n / d
        } else {
            -((-n) / d)
        }
    } else {
        if n >= 0 {
            -(n / (-d))
        } else {
            (-n) / (-d)
        }
    }
}

/// The identity matrix maps every homogeneous 4-vector to itself.
pub proof fn lemma_identity_apply4(x: int, y: int, z: int, w: int)
    ensures
        apply4_s(mat4_identity_s(), x, y, z, w) == (x, y, z, w),
{
    let m = mat4_identity_s();
    assert((m.m00 as int) * x + (m.m01 as int) * y + (m.m02 as int) * z + (m.m03 as int) * w
        == 65536 * x) by (nonlinear_arith)
        requires
            m.m00 == 65536,
            m.m01 == 0,
            m.m02 == 0,
            m.m03 == 0,
    ;
    assert((m.m10 as int) * x + (m.m11 as int) * y + (m.m12 as int) * z + (m.m13 as int) * w
        == 65536 * y) by (nonlinear_arith)
        requires
            m.m10 == 0,
            m.m11 == 65536,
            m.m12 == 0,
            m.m13 == 0,
    ;
    assert((m.m20 as int) * x + (m.m21 as int) * y + (m.m22 as int) * z + (m.m23 as int) * w
        == 65536 * z) by (nonlinear_arith)
        requires
            m.m20 == 0,
            m.m21 == 0,
            m.m22 == 65536,
            m.m23 == 0,
    ;
    assert((m.m30 as int) * x + (m.m31 as int) * y + (m.m32 as int) * z + (m.m33 as int) * w
        == 65536 * w) by (nonlinear_arith)
        requires
            m.m30 == 0,
            m.m31 == 0,
            m.m32 == 0,
            m.m33 == 65536,
    ;
    crate::fixed::lemma_tdiv_identity(x);
    crate::fixed::lemma_tdiv_identity(y);
    crate::fixed::lemma_tdiv_identity(z);
    crate::fixed::lemma_tdiv_identity(w);
}

} // verus!
