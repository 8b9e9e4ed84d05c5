//! Fixed-point scalar arithmetic: the number representation of the renderer.
//!
//! A scalar carries 16 fractional bits in an `i64` (`FX_ONE` is the value one).
//! All operations have exact contracts phrased over mathematical integers,
//! using truncating division (`tdiv`), the rounding that executable `/`
//! performs on signed integers.

use vstd::prelude::*;

verus! {

/// The fixed-point scale: values carry 16 fractional bits.
pub const FX_ONE: i64 = 65536;

/// Half of `FX_ONE`.
pub const FX_HALF: i64 = 32768;

/// pi in fixed-point radians.
pub const PI_FX: i64 = 205887;

/// 2*pi in fixed-point radians.
pub const TWO_PI_FX: i64 = 411775;

/// pi/2 in fixed-point radians.
pub const HALF_PI_FX: i64 = 102944;

/// pi/4 in fixed-point radians.
pub const QUARTER_PI_FX: i64 = 51472;

/// Bound on the operands accepted by the basic multiply.
pub const FX_MUL_LIMIT: i64 = 0x4000_0000;

/// Bound on the endpoints accepted by the interpolation helper.
pub const FX_LERP_LIMIT: i64 = 0x2000_0000;

/// Truncating division: the rounding of executable `/`, defined for b > 0.
pub open spec fn tdiv(a: int, b: int) -> int {
    if a >= 0 {
        a / b
    } else {
        -((-a) / b)
    }
}

/// Fixed-point product: the integer product rescaled by `FX_ONE`.
pub open spec fn fx_mul_s(a: int, b: int) -> int {
    tdiv(a * b, FX_ONE as int)
}

/// Fixed-point quotient: `a / b` carried out at full scale, for b != 0.
pub open spec fn fx_div_s(a: int, b: int) -> int {
    if b > 0 {
        tdiv(a * FX_ONE, b)
    } else {
        tdiv(-(a * FX_ONE), -b)
    }
}

/// Clamping to a closed interval.
pub open spec fn clamp_s(x: int, lo: int, hi: int) -> int {
    if x < lo {
        lo
    } else if x > hi {
        hi
    } else {
        x
    }
}

/// Linear interpolation from `a` to `b` by the fraction `t` (scaled by `FX_ONE`).
pub open spec fn fx_lerp_s(a: int, b: int, t: int) -> int {
    a + fx_mul_s(b - a, t)
}

/// Truncating division shrinks magnitudes: |tdiv(a, b)| <= |a| <= bound.
pub proof fn lemma_tdiv_bound(a: int, b: int, bound: int)
    requires
        b > 0,
        -bound <= a <= bound,
        0 <= bound,
    ensures
        -bound <= tdiv(a, b) <= bound,
        a >= 0 ==> 0 <= tdiv(a, b) <= a,
        a <= 0 ==> a <= tdiv(a, b) <= 0,
{
    if a >= 0 {
        vstd::arithmetic::div_mod::lemma_div_pos_is_pos(a, b);
        vstd::arithmetic::div_mod::lemma_div_is_ordered_by_denominator(a, 1, b);
        vstd::arithmetic::div_mod::lemma_div_basics(a);
    } else {
        vstd::arithmetic::div_mod::lemma_div_pos_is_pos(-a, b);
        vstd::arithmetic::div_mod::lemma_div_is_ordered_by_denominator(-a, 1, b);
        vstd::arithmetic::div_mod::lemma_div_basics(-a);
    }
}

/// Bound on a product from bounds on its factors.
pub proof fn lemma_mul_bound(a: int, b: int, ba: int, bb: int)
    by (nonlinear_arith)
    requires
        -ba <= a <= ba,
        -bb <= b <= bb,
        0 <= ba,
        0 <= bb,
    ensures
        -(ba * bb) <= a * b <= ba * bb,
{
}

/// Bound on a fixed-point product from bounds on its factors.
pub proof fn lemma_fx_mul_range(a: int, b: int, ba: int, bb: int)
    requires
        -ba <= a <= ba,
        -bb <= b <= bb,
        0 <= ba,
        0 <= bb,
    ensures
        -tdiv(ba * bb, FX_ONE as int) <= fx_mul_s(a, b) <= tdiv(ba * bb, FX_ONE as int),
{
    lemma_mul_bound(a, b, ba, bb);
    vstd::arithmetic::mul::lemma_mul_nonnegative(ba, bb);
    lemma_tdiv_bound(a * b, FX_ONE as int, ba * bb);
    vstd::arithmetic::div_mod::lemma_div_pos_is_pos(ba * bb, FX_ONE as int);
    if a * b >= 0 {
        vstd::arithmetic::div_mod::lemma_div_is_ordered(a * b, ba * bb, FX_ONE as int);
        vstd::arithmetic::div_mod::lemma_div_pos_is_pos(a * b, FX_ONE as int);
    } else {
        vstd::arithmetic::div_mod::lemma_div_is_ordered(-(a * b), ba * bb, FX_ONE as int);
        vstd::arithmetic::div_mod::lemma_div_pos_is_pos(-(a * b), FX_ONE as int);
    }
}

/// Fixed-point multiply. Exact: the result is the rescaled integer product.
pub fn fx_mul(a: i64, b: i64) -> (r: i64)
    requires
        -FX_MUL_LIMIT <= a <= FX_MUL_LIMIT,
        -FX_MUL_LIMIT <= b <= FX_MUL_LIMIT,
    ensures
        r == fx_mul_s(a as int, b as int),
        -0x1000_0000_0000 <= r <= 0x1000_0000_0000,
{
    proof {
        lemma_mul_bound(a as int, b as int, FX_MUL_LIMIT as int, FX_MUL_LIMIT as int);
        lemma_tdiv_bound((a as int) * (b as int), FX_ONE as int, 0x1000_0000_0000_0000);
        lemma_fx_mul_range(a as int, b as int, FX_MUL_LIMIT as int, FX_MUL_LIMIT as int);
    }
    let wide: i128 = (a as i128) * (b as i128);
    let q: i128 = wide / 65536;
    q as i64
}

/// Fixed-point divide. Exact: `a` rescaled then divided by `b`, rounding toward zero.
pub fn fx_div(a: i64, b: i64) -> (r: i64)
    requires
        -FX_MUL_LIMIT <= a <= FX_MUL_LIMIT,
        -FX_MUL_LIMIT <= b <= FX_MUL_LIMIT,
        b != 0,
    ensures
        r == fx_div_s(a as int, b as int),
{
    let wide: i128 = (a as i128) * 65536;
    let d: i128 = b as i128;
    let q: i128 = if d > 0 {
        wide / d
    } else {
        (-wide) / (-d)
    };
    proof {
        if d > 0 {
            lemma_tdiv_bound(wide as int, d as int, 0x4000_0000_0000_0000);
        } else {
            lemma_tdiv_bound(-(wide as int), -(d as int), 0x4000_0000_0000_0000);
        }
    }
    q as i64
}

/// Clamp to a closed interval.
pub fn fx_clamp(x: i64, lo: i64, hi: i64) -> (r: i64)
    requires
        lo <= hi,
    ensures
        r == clamp_s(x as int, lo as int, hi as int),
        lo <= r <= hi,
{
    if x < lo {
        lo
    } else if x > hi {
        hi
    } else {
        x
    }
}

/// Absolute value.
pub fn fx_abs(a: i64) -> (r: i64)
    requires
        a != i64::MIN,
    ensures
        r == if a >= 0 { a as int } else { -(a as int) },
        r >= 0,
{
    if a >= 0 {
        a
    } else {
        -a
    }
}

/// Maximum of two scalars.
pub fn fx_max(a: i64, b: i64) -> (r: i64)
    ensures
        r == if a >= b { a as int } else { b as int },
{
    if a >= b {
        a
    } else {
        b
    }
}

/// Minimum of two scalars.
pub fn fx_min(a: i64, b: i64) -> (r: i64)
    ensures
        r == if a <= b { a as int } else { b as int },
{
    if a <= b {
        a
    } else {
        b
    }
}

/// Linear interpolation from `a` to `b` by the fraction `t` in [0, FX_ONE].
/// The result stays between `a` and `b`.
pub fn fx_lerp(a: i64, b: i64, t: i64) -> (r: i64)
    requires
        -FX_LERP_LIMIT <= a <= FX_LERP_LIMIT,
        -FX_LERP_LIMIT <= b <= FX_LERP_LIMIT,
        0 <= t <= FX_ONE,
    ensures
        r == fx_lerp_s(a as int, b as int, t as int),
        a <= b ==> a <= r <= b,
        b <= a ==> b <= r <= a,
{
    let diff: i64 = b - a;
    let step: i64 = fx_mul(diff, t);
    proof {
        let d = diff as int;
        let ti = t as int;
        lemma_mul_bound(d, ti, if d >= 0 { d } else { -d }, FX_ONE as int);
        if d >= 0 {
            assert(0 <= d * ti <= d * FX_ONE) by (nonlinear_arith)
                requires
                    0 <= ti <= FX_ONE,
                    d >= 0,
            ;
            vstd::arithmetic::div_mod::lemma_div_is_ordered(d * ti, d * FX_ONE, FX_ONE as int);
            vstd::arithmetic::div_mod::lemma_div_multiples_vanish(d, FX_ONE as int);
            vstd::arithmetic::div_mod::lemma_div_pos_is_pos(d * ti, FX_ONE as int);
            assert(d * FX_ONE == FX_ONE * d) by (nonlinear_arith);
        } else {
            assert(0 <= -(d * ti) <= (-d) * FX_ONE) by (nonlinear_arith)
                requires
                    0 <= ti <= FX_ONE,
                    d < 0,
            ;
            vstd::arithmetic::div_mod::lemma_div_is_ordered(-(d * ti), (-d) * FX_ONE, FX_ONE as int);
            vstd::arithmetic::div_mod::lemma_div_multiples_vanish(-d, FX_ONE as int);
            vstd::arithmetic::div_mod::lemma_div_pos_is_pos(-(d * ti), FX_ONE as int);
            assert((-d) * FX_ONE == FX_ONE * (-d)) by (nonlinear_arith);
        }
    }
    a + step
}


/// Euclidean remainder: the representative of `a` modulo `m` lying in [0, m).
pub fn emod(a: i64, m: i64) -> (r: i64)
    requires
        m > 0,
        a != i64::MIN,
    ensures
        r == (a as int) % (m as int),
        0 <= r < m,
{
    let t: i64 = a % m;
    let r: i64 = if t < 0 {
        t + m
    } else {
        t
    };
    proof {
        let ai = a as int;
        let mi = m as int;
        if a >= 0 {
            assert(r == ai % mi);
        } else {
            let n = -ai;
            vstd::arithmetic::div_mod::lemma_fundamental_div_mod(n, mi);
            let k = n / mi;
            let tt = n % mi;
            if tt == 0 {
                assert(ai == (-k) * mi + 0) by (nonlinear_arith)
                    requires
                        n == mi * k + tt,
                        tt == 0,
                        ai == -n,
                ;
                vstd::arithmetic::div_mod::lemma_fundamental_div_mod_converse_mod(ai, mi, -k, 0);
            } else {
                assert(ai == (-k - 1) * mi + (mi - tt)) by (nonlinear_arith)
                    requires
                        n == mi * k + tt,
                        ai == -n,
                ;
                vstd::arithmetic::div_mod::lemma_fundamental_div_mod_converse_mod(
                    ai,
                    mi,
                    -k - 1,
                    mi - tt,
                );
            }
        }
    }
    r
}

/// One half-wave of the rational sine approximation, for angles in [0, pi].
/// The denominator constant is five times the square of `PI_FX`.
pub open spec fn sin_half_s(th: int) -> int {
    let a = th * (PI_FX - th);
    let den = 211947283845 - 4 * a;
    tdiv(16 * a * (FX_ONE as int), den)
}

/// Fixed-point sine of an angle in fixed-point radians, periodic in `TWO_PI_FX`.
pub open spec fn fx_sin_s(x: int) -> int {
    let th = x % (TWO_PI_FX as int);
    if th <= PI_FX {
        sin_half_s(th)
    } else {
        -sin_half_s(th - PI_FX)
    }
}

/// Fixed-point cosine: sine shifted a quarter turn.
pub open spec fn fx_cos_s(x: int) -> int {
    fx_sin_s(x + HALF_PI_FX)
}

fn sin_half(th: i64) -> (r: i64)
    requires
        0 <= th <= PI_FX,
    ensures
        r == sin_half_s(th as int),
        0 <= r <= FX_ONE,
{
    proof {
        assert(0 <= (th as int) * ((PI_FX - th) as int) && 4 * ((th as int) * ((PI_FX - th)
            as int)) <= 42389456769int) by (nonlinear_arith)
            requires
                0 <= th <= 205887,
        ;
    }
    let a: i128 = (th as i128) * ((PI_FX - th) as i128);
    let den: i128 = 211947283845 - 4 * a;
    let num: i128 = 16 * a * 65536;
    proof {
        assert(num as int <= (den as int) * 65536);
        vstd::arithmetic::div_mod::lemma_div_is_ordered(
            num as int,
            (den as int) * 65536,
            den as int,
        );
        vstd::arithmetic::div_mod::lemma_div_multiples_vanish(65536, den as int);
        vstd::arithmetic::div_mod::lemma_div_pos_is_pos(num as int, den as int);
    }
    let q: i128 = num / den;
    q as i64
}

/// Fixed-point sine. Exact with respect to its rational half-wave model,
/// and always within [-FX_ONE, FX_ONE].
pub fn fx_sin(x: i64) -> (r: i64)
    requires
        -0x1000_0000_0000_0000 <= x <= 0x1000_0000_0000_0000,
    ensures
        r == fx_sin_s(x as int),
        -FX_ONE <= r <= FX_ONE,
{
    let th: i64 = emod(x, TWO_PI_FX);
    if th <= PI_FX {
        sin_half(th)
    } else {
        -sin_half(th - PI_FX)
    }
}

/// Fixed-point cosine.
pub fn fx_cos(x: i64) -> (r: i64)
    requires
        -0x800_0000_0000_0000 <= x <= 0x800_0000_0000_0000,
    ensures
        r == fx_cos_s(x as int),
        -FX_ONE <= r <= FX_ONE,
{
    fx_sin(x + HALF_PI_FX)
}

/// Integer square root, as a recursive specification.
pub open spec fn isqrt_s(n: nat) -> nat
    decreases n,
{
    if n == 0 {
        0
    } else {
        let p = isqrt_s((n - 1) as nat);
        if (p + 1) * (p + 1) <= n {
            p + 1
        } else {
            p
        }
    }
}

/// The recursive specification indeed brackets `n` between consecutive squares.
pub proof fn lemma_isqrt_s_property(n: nat)
    ensures
        isqrt_s(n) * isqrt_s(n) <= n,
        n < (isqrt_s(n) + 1) * (isqrt_s(n) + 1),
    decreases n,
{
    if n == 0 {
        assert(isqrt_s(n) == 0);
        assert(n < (isqrt_s(n) + 1) * (isqrt_s(n) + 1)) by (nonlinear_arith)
            requires
                n == 0,
                isqrt_s(n) == 0,
        ;
    } else {
        lemma_isqrt_s_property((n - 1) as nat);
        let p = isqrt_s((n - 1) as nat);
        assert(p * p <= n - 1 && n - 1 < (p + 1) * (p + 1));
        if (p + 1) * (p + 1) <= n {
            assert(isqrt_s(n) == p + 1);
            assert(isqrt_s(n) * isqrt_s(n) <= n && n < (isqrt_s(n) + 1) * (isqrt_s(n) + 1))
                by (nonlinear_arith)
                requires
                    isqrt_s(n) == p + 1,
                    (p + 1) * (p + 1) <= n,
                    n - 1 < (p + 1) * (p + 1),
            ;
        } else {
            assert(isqrt_s(n) == p);
            assert(isqrt_s(n) * isqrt_s(n) <= n && n < (isqrt_s(n) + 1) * (isqrt_s(n) + 1))
                by (nonlinear_arith)
                requires
                    isqrt_s(n) == p,
                    p * p <= n - 1,
                    !((p + 1) * (p + 1) <= n),
                    n > 0,
            ;
        }
    }
}

/// A value bracketed between consecutive squares is the integer square root.
pub proof fn lemma_isqrt_unique(n: nat, r: nat)
    requires
        r * r <= n,
        n < (r + 1) * (r + 1),
    ensures
        r == isqrt_s(n),
{
    lemma_isqrt_s_property(n);
    let s = isqrt_s(n);
    if r < s {
        assert((r + 1) * (r + 1) <= s * s) by (nonlinear_arith)
            requires
                r + 1 <= s,
        ;
    }
    if s < r {
        assert((s + 1) * (s + 1) <= r * r) by (nonlinear_arith)
            requires
                s + 1 <= r,
        ;
    }
}

/// Integer square root by bisection.
pub fn isqrt(n: u128) -> (r: u64)
    ensures
        (r as nat) * (r as nat) <= n,
        (n as nat) < ((r + 1) as nat) * ((r + 1) as nat),
        r == isqrt_s(n as nat),
{
    let mut lo: u128 = 0;
    let mut hi: u128 = 0x1_0000_0000_0000_0000;
    while lo + 1 < hi
        invariant
            lo < hi,
            hi <= 0x1_0000_0000_0000_0000,
            (lo as int) * (lo as int) <= n,
            (n as int) < (hi as int) * (hi as int),
        decreases hi - lo,
    {
        let mid: u128 = lo + (hi - lo) / 2;
        proof {
            assert((mid as int) * (mid as int) < 0x1_0000_0000_0000_0000_0000_0000_0000_0000int)
                by (nonlinear_arith)
                requires
                    0 <= mid < 0x1_0000_0000_0000_0000,
            ;
        }
        if mid * mid <= n {
            lo = mid;
        } else {
            hi = mid;
        }
    }
    proof {
        assert((hi as int) * (hi as int) == ((lo as int) + 1) * ((lo as int) + 1))
            by (nonlinear_arith)
            requires
                hi == lo + 1,
        ;
        assert((lo as nat) * (lo as nat) <= n as nat && (n as nat) < ((lo as nat) + 1) * ((lo
            as nat) + 1)) by (nonlinear_arith)
            requires
                (lo as int) * (lo as int) <= n,
                (n as int) < ((lo as int) + 1) * ((lo as int) + 1),
                lo >= 0,
                n >= 0,
        ;
        lemma_isqrt_unique(n as nat, lo as nat);
    }
    lo as u64
}


/// Floor division: the Euclidean quotient, for a positive divisor.
pub fn fdiv(a: i64, m: i64) -> (r: i64)
    requires
        0 < m <= 0x2000_0000_0000_0000,
        -0x2000_0000_0000_0000 <= a <= 0x2000_0000_0000_0000,
    ensures
        r == (a as int) / (m as int),
{
    let md: i64 = emod(a, m);
    let diff: i64 = a - md;
    proof {
        let ai = a as int;
        let mi = m as int;
        let q = ai / mi;
        vstd::arithmetic::div_mod::lemma_fundamental_div_mod(ai, mi);
        assert(diff == mi * q);
        if q >= 0 {
            vstd::arithmetic::div_mod::lemma_div_multiples_vanish(q, mi);
            assert(diff >= 0) by (nonlinear_arith)
                requires
                    diff == mi * q,
                    mi > 0,
                    q >= 0,
            ;
        } else {
            vstd::arithmetic::div_mod::lemma_div_multiples_vanish(-q, mi);
            assert(-diff == mi * (-q) && diff < 0) by (nonlinear_arith)
                requires
                    diff == mi * q,
                    mi > 0,
                    q < 0,
            ;
        }
    }
    diff / m
}


/// Rescaling by the unit and dividing by it returns the argument unchanged.
pub proof fn lemma_tdiv_identity(x: int)
    ensures
        tdiv(65536 * x, 65536) == x,
        tdiv(x * 65536, 65536) == x,
{
    if x >= 0 {
        vstd::arithmetic::div_mod::lemma_div_multiples_vanish(x, 65536);
    } else {
        vstd::arithmetic::div_mod::lemma_div_multiples_vanish(-x, 65536);
        assert(-(65536 * x) == 65536 * (-x)) by (nonlinear_arith);
    }
    assert(65536 * x == x * 65536) by (nonlinear_arith);
}


/// Product of two fractions in [0, 1]: stays in [0, 1].
pub fn fx_mul_unit(a: i64, b: i64) -> (r: i64)
    requires
        0 <= a <= FX_ONE,
        0 <= b <= FX_ONE,
    ensures
        r == fx_mul_s(a as int, b as int),
        0 <= r <= FX_ONE,
{
    let r: i64 = fx_mul(a, b);
    proof {
        let p = (a as int) * (b as int);
        assert(0 <= p <= 65536int * 65536) by (nonlinear_arith)
            requires
                0 <= a <= 65536,
                0 <= b <= 65536,
                p == (a as int) * (b as int),
        ;
        vstd::arithmetic::div_mod::lemma_div_pos_is_pos(p, 65536);
        vstd::arithmetic::div_mod::lemma_div_is_ordered(p, 65536int * 65536, 65536);
        vstd::arithmetic::div_mod::lemma_div_multiples_vanish(65536, 65536);
    }
    r
}


/// Rational arctangent on [0, 1]: a * (pi/4 + K * (1 - a)), K tuned for a
/// close fit over the interval.
pub open spec fn atan_frac_s(a: int) -> int {
    fx_mul_s(a, (QUARTER_PI_FX as int) + fx_mul_s(17892, (FX_ONE as int) - a))
}

fn atan_frac(a: i64) -> (r: i64)
    requires
        0 <= a <= FX_ONE,
    ensures
        r == atan_frac_s(a as int),
        0 <= r <= 69364,
{
    let inner: i64 = QUARTER_PI_FX + fx_mul_unit(17892, FX_ONE - a);
    let r: i64 = fx_mul(a, inner);
    proof {
        let ai = a as int;
        let ii = inner as int;
        assert(0 <= ai * ii <= 69364int * 65536) by (nonlinear_arith)
            requires
                0 <= ai <= 65536,
                0 <= ii <= 69364,
        ;
        vstd::arithmetic::div_mod::lemma_div_pos_is_pos(ai * ii, 65536);
        vstd::arithmetic::div_mod::lemma_div_is_ordered(ai * ii, 69364int * 65536, 65536);
        vstd::arithmetic::div_mod::lemma_div_multiples_vanish(69364, 65536);
        assert(69364int * 65536 == 65536int * 69364) by (nonlinear_arith);
    }
    r
}

/// Fixed-point two-argument arctangent: the angle of the point (x, y),
/// in (-pi, pi], from an octant-reduced rational approximation.
pub open spec fn fx_atan2_s(y: int, x: int) -> int {
    let ax = if x >= 0 { x } else { -x };
    let ay = if y >= 0 { y } else { -y };
    if ax == 0 && ay == 0 {
        0
    } else {
        let base = if ay <= ax {
            atan_frac_s(tdiv(ay * 65536, ax))
        } else {
            (HALF_PI_FX as int) - atan_frac_s(tdiv(ax * 65536, ay))
        };
        let q = if x >= 0 {
            base
        } else {
            (PI_FX as int) - base
        };
        if y >= 0 {
            q
        } else {
            -q
        }
    }
}

/// Fixed-point two-argument arctangent.
pub fn fx_atan2(y: i64, x: i64) -> (r: i64)
    requires
        -0x4000_0000 <= y <= 0x4000_0000,
        -0x4000_0000 <= x <= 0x4000_0000,
    ensures
        r == fx_atan2_s(y as int, x as int),
        -PI_FX <= r <= PI_FX,
{
    let ax: i64 = fx_abs(x);
    let ay: i64 = fx_abs(y);
    if ax == 0 && ay == 0 {
        0
    } else {
        let base: i64 = if ay <= ax {
            let ratio: i64 = div_ratio(ay, ax);
            atan_frac(ratio)
        } else {
            let ratio: i64 = div_ratio(ax, ay);
            HALF_PI_FX - atan_frac(ratio)
        };
        let q: i64 = if x >= 0 {
            base
        } else {
            PI_FX - base
        };
        if y >= 0 {
            q
        } else {
            -q
        }
    }
}

fn div_ratio(num: i64, den: i64) -> (r: i64)
    requires
        0 <= num <= den,
        1 <= den <= 0x4000_0000,
    ensures
        r == tdiv((num as int) * 65536, den as int),
        0 <= r <= FX_ONE,
{
    let w: i128 = (num as i128) * 65536;
    let q: i128 = w / (den as i128);
    proof {
        let ni = num as int;
        let di = den as int;
        assert(0 <= ni * 65536 <= di * 65536) by (nonlinear_arith)
            requires
                0 <= ni <= di,
        ;
        vstd::arithmetic::div_mod::lemma_div_pos_is_pos(ni * 65536, di);
        vstd::arithmetic::div_mod::lemma_div_is_ordered(ni * 65536, di * 65536, di);
        vstd::arithmetic::div_mod::lemma_div_multiples_vanish(65536, di);
    }
    q as i64
}

/// Fixed-point arcsine on [-1, 1], via the arctangent.
pub open spec fn fx_asin_s(t: int) -> int {
    fx_atan2_s(t, isqrt_s((65536int * 65536 - t * t) as nat) as int)
}

/// Fixed-point arcsine.
pub fn fx_asin(t: i64) -> (r: i64)
    requires
        -FX_ONE <= t <= FX_ONE,
    ensures
        r == fx_asin_s(t as int),
        -PI_FX <= r <= PI_FX,
{
    proof {
        assert(0 <= (t as int) * (t as int) <= 65536int * 65536) by (nonlinear_arith)
            requires
                -65536 <= t <= 65536,
        ;
    }
    let d: i128 = 65536i128 * 65536 - (t as i128) * (t as i128);
    let sq: u64 = isqrt(d as u128);
    proof {
        assert(sq * sq <= 0x1_0000_0000nat ==> sq <= 0x1_0000) by (nonlinear_arith);
    }
    fx_atan2(t, sq as i64)
}

} // verus!
