//! Textures: decoded images held as packed pixels, sampled by texture
//! coordinates that wrap outside the unit square.

use vstd::prelude::*;
use crate::fixed::{fx_mul_s, fx_mul, fdiv, emod};
use crate::color::Color;
use crate::framebuffer::lemma_idx_in_range;

verus! {

/// A decoded image: its extent and one packed 0xRRGGBB word per pixel,
/// row major.
pub struct Texture {
    pub width: usize,
    pub height: usize,
    pub data: Vec<u32>,
}

/// The wrapped pixel column (or row) that a texture coordinate selects.
pub open spec fn tex_wrap_s(c: int, extent: int) -> int {
    (fx_mul_s(c, extent * 65536) / 65536) % extent
}

/// One channel of a packed pixel.
pub open spec fn unpack_s(p: int) -> Color {
    Color { r: ((p / 65536) % 256) as u8, g: ((p / 256) % 256) as u8, b: (p % 256) as u8 }
}

/// The color a texture yields at wrapped coordinates (u, v).
pub open spec fn tex_color_s(t: Texture, u: int, v: int) -> Color {
    let x = tex_wrap_s(u, t.width as int);
    let y = tex_wrap_s(v, t.height as int);
    unpack_s(t.data@[y * (t.width as int) + x] as int)
}

impl Texture {
    /// Well-formedness: a nonempty bounded extent fully backed by pixels.
    pub open spec fn wf(self) -> bool {
        &&& 1 <= self.width <= 16384
        &&& 1 <= self.height <= 16384
        &&& self.data@.len() == (self.width as int) * (self.height as int)
    }

    /// A texture from its extent and decoded pixels.
    pub fn new(width: usize, height: usize, data: Vec<u32>) -> (t: Texture)
        requires
            1 <= width <= 16384,
            1 <= height <= 16384,
            data@.len() == (width as int) * (height as int),
        ensures
            t == (Texture { width, height, data }),
            t.wf(),
    {
        Texture { width, height, data }
    }

    /// Samples the texture at fixed-point coordinates, wrapping them modulo
    /// the image extent.
    pub fn get_color(&self, u: i64, v: i64) -> (c: Color)
        requires
            self.wf(),
            -0x4000_0000 <= u <= 0x4000_0000,
            -0x4000_0000 <= v <= 0x4000_0000,
        ensures
            c == tex_color_s(*self, u as int, v as int),
    {
        let wfx: i64 = (self.width as i64) * 65536;
        let hfx: i64 = (self.height as i64) * 65536;
        let x: i64 = emod(fdiv(fx_mul(u, wfx), 65536), self.width as i64);
        let y: i64 = emod(fdiv(fx_mul(v, hfx), 65536), self.height as i64);
        proof {
            lemma_idx_in_range(self.width as int, self.height as int, x as int, y as int);
            assert((self.width as int) * (self.height as int) <= 0x1000_0000)
                by (nonlinear_arith)
                requires
                    self.width <= 16384,
                    self.height <= 16384,
            ;
        }
        let idx: usize = (y as usize) * self.width + (x as usize);
        let p: u32 = self.data[idx];
        Color { r: ((p / 65536) % 256) as u8, g: ((p / 256) % 256) as u8, b: (p % 256) as u8 }
    }
}

} // verus!
