//! A deterministic coherent noise field: value noise over a fixed-point
//! lattice, seeded by position. Every sample is an exact function of the
//! coordinates and the field's seed, so shading is reproducible by
//! construction; no hidden generator state exists anywhere.

use vstd::prelude::*;
use crate::fixed::{FX_ONE, fx_lerp_s, fx_lerp, emod, fdiv};

verus! {

/// Bound on the coordinates accepted by the noise samplers.
pub const NOISE_COORD_LIMIT: i64 = 0x1000_0000_0000_0000;

/// The modulus of the lattice hash (a Mersenne prime).
pub const HASH_MOD: i64 = 2147483647;

/// A coherent noise field. Equal seeds give equal fields.
#[derive(Clone, Copy, PartialEq, Eq, Structural, Debug)]
pub struct NoiseField {
    pub seed: i64,
}

/// The lattice hash: a pseudo-random value in [-FX_ONE, FX_ONE], a pure
/// function of three lattice coordinates and the seed.
pub open spec fn hash3_s(x: int, y: int, z: int, seed: int) -> int {
    let h = x * 374761393 + y * 668265263 + z * 1274126177 + seed * 144665087;
    let t = h % (HASH_MOD as int);
    let u = (t * t + 12345) % (HASH_MOD as int);
    u % (2 * (FX_ONE as int) + 1) - FX_ONE
}

/// Trilinear value noise: the eight lattice corner hashes around the sample
/// point, blended by the fractional parts of the coordinates.
pub open spec fn noise3_s(x: int, y: int, z: int, seed: int) -> int {
    let x0 = x / (FX_ONE as int);
    let y0 = y / (FX_ONE as int);
    let z0 = z / (FX_ONE as int);
    let fx = x % (FX_ONE as int);
    let fy = y % (FX_ONE as int);
    let fz = z % (FX_ONE as int);
    let c00 = fx_lerp_s(hash3_s(x0, y0, z0, seed), hash3_s(x0 + 1, y0, z0, seed), fx);
    let c10 = fx_lerp_s(hash3_s(x0, y0 + 1, z0, seed), hash3_s(x0 + 1, y0 + 1, z0, seed), fx);
    let c01 = fx_lerp_s(hash3_s(x0, y0, z0 + 1, seed), hash3_s(x0 + 1, y0, z0 + 1, seed), fx);
    let c11 = fx_lerp_s(
        hash3_s(x0, y0 + 1, z0 + 1, seed),
        hash3_s(x0 + 1, y0 + 1, z0 + 1, seed),
        fx,
    );
    let c0 = fx_lerp_s(c00, c10, fy);
    let c1 = fx_lerp_s(c01, c11, fy);
    fx_lerp_s(c0, c1, fz)
}

/// Bilinear value noise over the plane.
pub open spec fn noise2_s(x: int, y: int, seed: int) -> int {
    let x0 = x / (FX_ONE as int);
    let y0 = y / (FX_ONE as int);
    let fx = x % (FX_ONE as int);
    let fy = y % (FX_ONE as int);
    let c0 = fx_lerp_s(hash3_s(x0, y0, 0, seed), hash3_s(x0 + 1, y0, 0, seed), fx);
    let c1 = fx_lerp_s(hash3_s(x0, y0 + 1, 0, seed), hash3_s(x0 + 1, y0 + 1, 0, seed), fx);
    fx_lerp_s(c0, c1, fy)
}

#[verifier::rlimit(30)]
fn hash3(x: i64, y: i64, z: i64, seed: i64) -> (r: i64)
    ensures
        r == hash3_s(x as int, y as int, z as int, seed as int),
        -FX_ONE <= r <= FX_ONE,
{
    let h: i128 = (x as i128) * 374761393 + (y as i128) * 668265263 + (z as i128) * 1274126177
        + (seed as i128) * 144665087;
    let m: i128 = HASH_MOD as i128;
    let t0: i128 = h % m;
    let t: i128 = if t0 < 0 {
        t0 + m
    } else {
        t0
    };
    proof {
        let hi = h as int;
        let mi = m as int;
        if h >= 0 {
        } else {
            let n = -hi;
            vstd::arithmetic::div_mod::lemma_fundamental_div_mod(n, mi);
            let k = n / mi;
            let tt = n % mi;
            if tt == 0 {
                assert(hi == (-k) * mi + 0) by (nonlinear_arith)
                    requires
                        n == mi * k + tt,
                        tt == 0,
                        hi == -n,
                ;
                vstd::arithmetic::div_mod::lemma_fundamental_div_mod_converse_mod(hi, mi, -k, 0);
            } else {
                assert(hi == (-k - 1) * mi + (mi - tt)) by (nonlinear_arith)
                    requires
                        n == mi * k + tt,
                        hi == -n,
                ;
                vstd::arithmetic::div_mod::lemma_fundamental_div_mod_converse_mod(
                    hi,
                    mi,
                    -k - 1,
                    mi - tt,
                );
            }
        }
        assert(t == hi % mi);
        vstd::arithmetic::div_mod::lemma_mod_bound(hi, mi);
        assert(0 <= t * t <= 0x4000_0000_0000_0000int) by (nonlinear_arith)
            requires
                0 <= t < 0x8000_0000,
        ;
        vstd::arithmetic::div_mod::lemma_mod_bound((t as int) * (t as int) + 12345, mi);
    }
    let u: i128 = (t * t + 12345) % m;
    proof {
        vstd::arithmetic::div_mod::lemma_mod_bound(u as int, 2 * (FX_ONE as int) + 1);
    }
    let v: i128 = u % (2 * (FX_ONE as i128) + 1) - (FX_ONE as i128);
    v as i64
}

impl NoiseField {
    /// A noise field from a seed.
    pub fn new(seed: i64) -> (nf: NoiseField)
        ensures
            nf.seed == seed,
    {
        NoiseField { seed }
    }

    /// Samples the field at a point in space. Deterministic: equal arguments
    /// and equal seeds give bit-identical results.
    pub fn get_noise_3d(&self, x: i64, y: i64, z: i64) -> (r: i64)
        requires
            -NOISE_COORD_LIMIT <= x <= NOISE_COORD_LIMIT,
            -NOISE_COORD_LIMIT <= y <= NOISE_COORD_LIMIT,
            -NOISE_COORD_LIMIT <= z <= NOISE_COORD_LIMIT,
        ensures
            r == noise3_s(x as int, y as int, z as int, self.seed as int),
            -FX_ONE <= r <= FX_ONE,
    {
        let x0: i64 = fdiv(x, FX_ONE);
        let y0: i64 = fdiv(y, FX_ONE);
        let z0: i64 = fdiv(z, FX_ONE);
        let fx: i64 = emod(x, FX_ONE);
        let fy: i64 = emod(y, FX_ONE);
        let fz: i64 = emod(z, FX_ONE);
        let s: i64 = self.seed;
        let c00: i64 = fx_lerp(hash3(x0, y0, z0, s), hash3(x0 + 1, y0, z0, s), fx);
        let c10: i64 = fx_lerp(hash3(x0, y0 + 1, z0, s), hash3(x0 + 1, y0 + 1, z0, s), fx);
        let c01: i64 = fx_lerp(hash3(x0, y0, z0 + 1, s), hash3(x0 + 1, y0, z0 + 1, s), fx);
        let c11: i64 = fx_lerp(hash3(x0, y0 + 1, z0 + 1, s), hash3(x0 + 1, y0 + 1, z0 + 1, s), fx);
        let c0: i64 = fx_lerp(c00, c10, fy);
        let c1: i64 = fx_lerp(c01, c11, fy);
        fx_lerp(c0, c1, fz)
    }

    /// Samples the field in the plane. Deterministic as well.
    pub fn get_noise_2d(&self, x: i64, y: i64) -> (r: i64)
        requires
            -NOISE_COORD_LIMIT <= x <= NOISE_COORD_LIMIT,
            -NOISE_COORD_LIMIT <= y <= NOISE_COORD_LIMIT,
        ensures
            r == noise2_s(x as int, y as int, self.seed as int),
            -FX_ONE <= r <= FX_ONE,
    {
        let x0: i64 = fdiv(x, FX_ONE);
        let y0: i64 = fdiv(y, FX_ONE);
        let fx: i64 = emod(x, FX_ONE);
        let fy: i64 = emod(y, FX_ONE);
        let s: i64 = self.seed;
        let c0: i64 = fx_lerp(hash3(x0, y0, 0, s), hash3(x0 + 1, y0, 0, s), fx);
        let c1: i64 = fx_lerp(hash3(x0, y0 + 1, 0, s), hash3(x0 + 1, y0 + 1, 0, s), fx);
        fx_lerp(c0, c1, fy)
    }
}

} // verus!
