//! RGB colors with exact integer contracts: packing, interpolation,
//! brightness scaling and per-channel floors.

use vstd::prelude::*;
use crate::fixed::{FX_ONE, tdiv, clamp_s, fx_lerp, fx_clamp, fx_mul};

verus! {

/// Largest brightness factor accepted by `Color::scale` before clamping.
pub const COLOR_SCALE_CAP: i64 = 0x100000;

/// An opaque RGB color, one byte per channel.
#[derive(Clone, Copy, PartialEq, Eq, Structural, Debug)]
pub struct Color {
    pub r: u8,
    pub g: u8,
    pub b: u8,
}

/// The packed 0xRRGGBB form of a color.
pub open spec fn to_hex_s(c: Color) -> int {
    (c.r as int) * 0x10000 + (c.g as int) * 0x100 + (c.b as int)
}

/// One channel interpolated from `a` to `b` by the clamped fraction `t`.
pub open spec fn chan_lerp_s(a: int, b: int, t: int) -> int {
    let tc = clamp_s(t, 0, FX_ONE as int);
    a + tdiv((b - a) * tc, FX_ONE as int)
}

/// One channel scaled by the clamped brightness factor `f` and saturated.
pub open spec fn chan_scale_s(c: int, f: int) -> int {
    let fc = clamp_s(f, 0, COLOR_SCALE_CAP as int);
    clamp_s(tdiv(c * fc, FX_ONE as int), 0, 255)
}

/// Interpolation of whole colors, channel by channel.
pub open spec fn color_lerp_s(a: Color, b: Color, t: int) -> Color {
    Color {
        r: chan_lerp_s(a.r as int, b.r as int, t) as u8,
        g: chan_lerp_s(a.g as int, b.g as int, t) as u8,
        b: chan_lerp_s(a.b as int, b.b as int, t) as u8,
    }
}

/// Brightness scaling of whole colors, channel by channel.
pub open spec fn color_scale_s(c: Color, f: int) -> Color {
    Color {
        r: chan_scale_s(c.r as int, f) as u8,
        g: chan_scale_s(c.g as int, f) as u8,
        b: chan_scale_s(c.b as int, f) as u8,
    }
}

/// Per-channel floor of a color.
pub open spec fn color_limit_min_s(c: Color, m: int) -> Color {
    Color {
        r: if c.r < m { m as u8 } else { c.r },
        g: if c.g < m { m as u8 } else { c.g },
        b: if c.b < m { m as u8 } else { c.b },
    }
}

fn chan_lerp(a: u8, b: u8, t: i64) -> (r: u8)
    ensures
        r == chan_lerp_s(a as int, b as int, t as int),
{
    let tc: i64 = fx_clamp(t, 0, FX_ONE);
    let v: i64 = fx_lerp(a as i64, b as i64, tc);
    v as u8
}

fn chan_scale(c: u8, f: i64) -> (r: u8)
    ensures
        r == chan_scale_s(c as int, f as int),
{
    let fc: i64 = fx_clamp(f, 0, COLOR_SCALE_CAP);
    let v: i64 = fx_mul(c as i64, fc);
    let w: i64 = fx_clamp(v, 0, 255);
    w as u8
}

impl Color {
    /// A color from its three channels.
    pub fn new(r: u8, g: u8, b: u8) -> (c: Color)
        ensures
            c.r == r,
            c.g == g,
            c.b == b,
    {
        Color { r, g, b }
    }

    /// Packs the color as 0xRRGGBB in a 32-bit word.
    pub fn to_hex(&self) -> (h: u32)
        ensures
            h == to_hex_s(*self),
    {
        (self.r as u32) * 0x10000 + (self.g as u32) * 0x100 + (self.b as u32)
    }

    /// Blends toward `other` by the fraction `t` (scaled by `FX_ONE`, clamped to [0, 1]).
    pub fn lerp(&self, other: &Color, t: i64) -> (c: Color)
        ensures
            c == color_lerp_s(*self, *other, t as int),
    {
        Color {
            r: chan_lerp(self.r, other.r, t),
            g: chan_lerp(self.g, other.g, t),
            b: chan_lerp(self.b, other.b, t),
        }
    }

    /// Scales brightness by the factor `f` (scaled by `FX_ONE`), saturating each channel.
    pub fn scale(&self, f: i64) -> (c: Color)
        ensures
            c == color_scale_s(*self, f as int),
    {
        Color {
            r: chan_scale(self.r, f),
            g: chan_scale(self.g, f),
            b: chan_scale(self.b, f),
        }
    }

    /// Raises every channel to at least `m`.
    pub fn limit_min(&self, m: u8) -> (c: Color)
        ensures
            c == color_limit_min_s(*self, m as int),
    {
        Color {
            r: if self.r < m { m } else { self.r },
            g: if self.g < m { m } else { self.g },
            b: if self.b < m { m } else { self.b },
        }
    }
}

} // verus!
