//! The framebuffer: a color buffer and a parallel depth buffer, with one
//! point-plotting primitive that applies the configured depth policy. Both the
//! sky pass and the triangle pass write through this primitive.

use vstd::prelude::*;

verus! {

/// The depth value buffers are cleared to: farther than any fragment.
pub const DEPTH_FAR: i64 = 0x4000_0000_0000_0000;

/// Bias added to the stored depth when testing a fragment, so that directly
/// adjacent surfaces do not flicker. A fixed small constant.
pub const DEPTH_EPS: i64 = 7;

/// Largest framebuffer side length.
pub const FB_SIDE_LIMIT: usize = 16384;

/// The two depth policies of the rasterizer.
#[derive(Clone, Copy, PartialEq, Eq, Structural, Debug)]
pub enum DepthMode {
    /// No depth test: draw order determines the final color.
    Painter,
    /// True z-buffering: a fragment is accepted only if its depth does not
    /// exceed the stored depth by more than the bias.
    ZBuffer,
}

/// A pixel store: width x height colors, parallel depths, a current draw
/// color and a background color.
pub struct Framebuffer {
    pub width: usize,
    pub height: usize,
    pub buffer: Vec<u32>,
    pub zbuffer: Vec<i64>,
    pub current_color: u32,
    pub background_color: u32,
    pub mode: DepthMode,
}

/// Row-major index of a pixel.
pub open spec fn idx_s(w: int, x: int, y: int) -> int {
    y * w + x
}

/// Whether a fragment at depth `d` passes against the stored depth.
pub open spec fn depth_pass_s(mode: DepthMode, stored: int, d: int) -> bool {
    match mode {
        DepthMode::Painter => true,
        DepthMode::ZBuffer => d <= stored + DEPTH_EPS,
    }
}

/// The effect of plotting one point on the color and depth planes.
pub open spec fn plot_s(
    colors: Seq<u32>,
    depths: Seq<i64>,
    w: int,
    h: int,
    mode: DepthMode,
    col: u32,
    x: int,
    y: int,
    d: int,
) -> (Seq<u32>, Seq<i64>) {
    let idx = idx_s(w, x, y);
    if 0 <= x < w && 0 <= y < h && depth_pass_s(mode, depths[idx] as int, d) {
        (
            colors.update(idx, col),
            if mode == DepthMode::ZBuffer {
                depths.update(idx, d as i64)
            } else {
                depths
            },
        )
    } else {
        (colors, depths)
    }
}

/// An in-bounds pixel indexes inside the planes.
pub proof fn lemma_idx_in_range(w: int, h: int, x: int, y: int)
    by (nonlinear_arith)
    requires
        0 <= x < w,
        0 <= y < h,
    ensures
        0 <= idx_s(w, x, y) < w * h,
{
}

impl Framebuffer {
    /// Well-formedness: both planes cover width x height, sides are bounded,
    /// and no stored depth lies beyond the cleared value.
    pub open spec fn wf(self) -> bool {
        &&& self.buffer@.len() == (self.width as int) * (self.height as int)
        &&& self.zbuffer@.len() == (self.width as int) * (self.height as int)
        &&& self.width <= FB_SIDE_LIMIT
        &&& self.height <= FB_SIDE_LIMIT
        &&& forall|i: int|
            0 <= i < self.zbuffer@.len() ==> #[trigger] self.zbuffer@[i] <= DEPTH_FAR
    }

    /// A framebuffer of the given size, black, fully far, z-buffering enabled.
    pub fn new(width: usize, height: usize) -> (fb: Framebuffer)
        requires
            width <= FB_SIDE_LIMIT,
            height <= FB_SIDE_LIMIT,
        ensures
            fb.wf(),
            fb.width == width,
            fb.height == height,
            fb.mode == DepthMode::ZBuffer,
            fb.current_color == 0,
            fb.background_color == 0,
            forall|i: int| 0 <= i < fb.buffer@.len() ==> #[trigger] fb.buffer@[i] == 0,
            forall|i: int| 0 <= i < fb.zbuffer@.len() ==> #[trigger] fb.zbuffer@[i] == DEPTH_FAR,
    {
        proof {
            assert((width as int) * (height as int) <= 0x1000_0000) by (nonlinear_arith)
                requires
                    width <= FB_SIDE_LIMIT,
                    height <= FB_SIDE_LIMIT,
            ;
        }
        let n: usize = width * height;
        let mut buffer: Vec<u32> = Vec::new();
        let mut zbuffer: Vec<i64> = Vec::new();
        let mut i: usize = 0;
        while i < n
            invariant
                i <= n,
                buffer@.len() == i,
                zbuffer@.len() == i,
                forall|j: int| 0 <= j < i ==> #[trigger] buffer@[j] == 0,
                forall|j: int| 0 <= j < i ==> #[trigger] zbuffer@[j] == DEPTH_FAR,
            decreases n - i,
        {
            buffer.push(0);
            zbuffer.push(DEPTH_FAR);
            i = i + 1;
        }
        Framebuffer {
            width,
            height,
            buffer,
            zbuffer,
            current_color: 0,
            background_color: 0,
            mode: DepthMode::ZBuffer,
        }
    }

    /// Chooses the color used by subsequent `point` calls.
    pub fn set_current_color(&mut self, color: u32)
        ensures
            *final(self) == (Framebuffer { current_color: color, ..*old(self) }),
    {
        self.current_color = color;
    }

    /// Chooses the color that `clear` paints.
    pub fn set_background_color(&mut self, color: u32)
        ensures
            *final(self) == (Framebuffer { background_color: color, ..*old(self) }),
    {
        self.background_color = color;
    }

    /// Chooses the depth policy.
    pub fn set_mode(&mut self, mode: DepthMode)
        ensures
            *final(self) == (Framebuffer { mode, ..*old(self) }),
    {
        self.mode = mode;
    }

    /// Repaints every pixel with the background color and resets every depth
    /// to the far value.
    pub fn clear(&mut self)
        requires
            old(self).wf(),
        ensures
            final(self).wf(),
            final(self).width == old(self).width,
            final(self).height == old(self).height,
            final(self).mode == old(self).mode,
            final(self).current_color == old(self).current_color,
            final(self).background_color == old(self).background_color,
            final(self).buffer@.len() == old(self).buffer@.len(),
            final(self).zbuffer@.len() == old(self).zbuffer@.len(),
            forall|i: int|
                0 <= i < final(self).buffer@.len() ==> #[trigger] final(self).buffer@[i]
                    == old(self).background_color,
            forall|i: int|
                0 <= i < final(self).zbuffer@.len() ==> #[trigger] final(self).zbuffer@[i]
                    == DEPTH_FAR,
    {
        let n: usize = self.buffer.len();
        let mut i: usize = 0;
        while i < n
            invariant
                i <= n,
                self.buffer@.len() == n,
                self.zbuffer@.len() == n,
                self.width == old(self).width,
                self.height == old(self).height,
                self.mode == old(self).mode,
                self.current_color == old(self).current_color,
                self.background_color == old(self).background_color,
                forall|j: int|
                    0 <= j < i ==> #[trigger] self.buffer@[j] == self.background_color,
                forall|j: int| 0 <= j < i ==> #[trigger] self.zbuffer@[j] == DEPTH_FAR,
            decreases n - i,
        {
            let bg: u32 = self.background_color;
            self.buffer[i] = bg;
            self.zbuffer[i] = DEPTH_FAR;
            i = i + 1;
        }
    }

    /// Plots one point: out-of-bounds coordinates are silently dropped; an
    /// in-bounds point is drawn in the current color exactly when its depth
    /// passes the configured policy, and with z-buffering the stored depth is
    /// updated to it.
    pub fn point(&mut self, x: usize, y: usize, depth: i64)
        requires
            old(self).wf(),
            -DEPTH_FAR <= depth <= DEPTH_FAR,
        ensures
            final(self).wf(),
            final(self).width == old(self).width,
            final(self).height == old(self).height,
            final(self).mode == old(self).mode,
            final(self).current_color == old(self).current_color,
            final(self).background_color == old(self).background_color,
            (final(self).buffer@, final(self).zbuffer@) == plot_s(
                old(self).buffer@,
                old(self).zbuffer@,
                old(self).width as int,
                old(self).height as int,
                old(self).mode,
                old(self).current_color,
                x as int,
                y as int,
                depth as int,
            ),
    {
        if x < self.width && y < self.height {
            proof {
                lemma_idx_in_range(
                    self.width as int,
                    self.height as int,
                    x as int,
                    y as int,
                );
                assert((self.width as int) * (self.height as int) <= 0x1000_0000)
                    by (nonlinear_arith)
                    requires
                        self.width <= FB_SIDE_LIMIT,
                        self.height <= FB_SIDE_LIMIT,
                ;
            }
            let idx: usize = y * self.width + x;
            let pass: bool = match self.mode {
                DepthMode::Painter => true,
                DepthMode::ZBuffer => depth <= self.zbuffer[idx] + DEPTH_EPS,
            };
            if pass {
                let col: u32 = self.current_color;
                self.buffer[idx] = col;
                match self.mode {
                    DepthMode::ZBuffer => {
                        self.zbuffer[idx] = depth;
                    },
                    DepthMode::Painter => {},
                }
            }
        }
    }
}

/// Law: with z-buffering, when two fragments contest one pixel and their
/// depths differ by more than the bias, the nearer fragment's color is what
/// remains, whichever of the two is plotted first.
pub proof fn lemma_zbuffer_order_independent(
    colors: Seq<u32>,
    depths: Seq<i64>,
    w: int,
    h: int,
    near_color: u32,
    far_color: u32,
    x: int,
    y: int,
    d_near: int,
    d_far: int,
)
    requires
        0 <= x < w,
        0 <= y < h,
        colors.len() == w * h,
        depths.len() == w * h,
        -DEPTH_FAR <= d_near <= DEPTH_FAR,
        -DEPTH_FAR <= d_far <= DEPTH_FAR,
        d_near + DEPTH_EPS < d_far,
        d_near <= depths[idx_s(w, x, y)] + DEPTH_EPS,
        d_far <= depths[idx_s(w, x, y)] + DEPTH_EPS,
    ensures
        ({
            let first = plot_s(colors, depths, w, h, DepthMode::ZBuffer, near_color, x, y, d_near);
            let both = plot_s(first.0, first.1, w, h, DepthMode::ZBuffer, far_color, x, y, d_far);
            both.0[idx_s(w, x, y)] == near_color
        }),
        ({
            let first = plot_s(colors, depths, w, h, DepthMode::ZBuffer, far_color, x, y, d_far);
            let both = plot_s(first.0, first.1, w, h, DepthMode::ZBuffer, near_color, x, y, d_near);
            both.0[idx_s(w, x, y)] == near_color
        }),
{
    lemma_idx_in_range(w, h, x, y);
}

/// Law: without a depth test, the fragment plotted last determines the pixel,
/// whatever the depths are.
pub proof fn lemma_painter_last_wins(
    colors: Seq<u32>,
    depths: Seq<i64>,
    w: int,
    h: int,
    c1: u32,
    c2: u32,
    x: int,
    y: int,
    d1: int,
    d2: int,
)
    requires
        0 <= x < w,
        0 <= y < h,
        colors.len() == w * h,
        depths.len() == w * h,
    ensures
        ({
            let first = plot_s(colors, depths, w, h, DepthMode::Painter, c1, x, y, d1);
            let both = plot_s(first.0, first.1, w, h, DepthMode::Painter, c2, x, y, d2);
            both.0[idx_s(w, x, y)] == c2
        }),
{
    lemma_idx_in_range(w, h, x, y);
}

} // verus!
