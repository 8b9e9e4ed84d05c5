//! The orbiting camera: a look-at center, a spherical eye offset (yaw, pitch,
//! radius) and an up vector. Orbiting wraps the yaw, clamps the pitch strictly
//! inside (-pi/2, pi/2), and never touches the radius; panning resets the up
//! vector to world up; zooming changes only the radius.

use vstd::prelude::*;
use crate::fixed::{FX_ONE, TWO_PI_FX, HALF_PI_FX, fx_sin_s, fx_cos_s, fx_sin, fx_cos, fx_mul_s,
    fx_mul, emod, fx_clamp, clamp_s, lemma_fx_mul_range};
use crate::vector::Vec3;

verus! {

/// Distance kept between the pitch clamp and +-pi/2 (a tenth of a radian).
pub const PITCH_MARGIN: i64 = 6554;

/// Largest pitch the clamp allows.
pub const PITCH_LIMIT: i64 = HALF_PI_FX - PITCH_MARGIN;

/// Bound on the look-at center coordinates.
pub const CAMERA_POS_LIMIT: i64 = 0x1000_0000_0000;

/// Bound on the orbit radius.
pub const RADIUS_LIMIT: i64 = 0x4000_0000;

/// Bound on single camera motion deltas.
pub const CAMERA_DELTA_LIMIT: i64 = 0x100_0000_0000;

/// The camera state. The eye position is derived from the spherical
/// decomposition: center, yaw, pitch and radius.
pub struct Camera {
    pub center: Vec3,
    pub yaw: i64,
    pub pitch: i64,
    pub radius: i64,
    pub up: Vec3,
    pub has_changed: bool,
}

/// The world up direction.
pub open spec fn world_up_s() -> Vec3 {
    Vec3 { x: 0i64, y: FX_ONE, z: 0i64 }
}

impl Camera {
    /// Well-formedness: yaw normalized, pitch inside the clamp, radius positive
    /// and bounded, center and up bounded.
    pub open spec fn wf(self) -> bool {
        &&& 0 <= self.yaw < TWO_PI_FX
        &&& -PITCH_LIMIT <= self.pitch <= PITCH_LIMIT
        &&& 0 < self.radius <= RADIUS_LIMIT
        &&& self.center.bounded(CAMERA_POS_LIMIT as int)
        &&& self.up.bounded(2 * FX_ONE as int)
    }

    /// A camera from its spherical state. It starts marked as changed.
    pub fn new(center: Vec3, yaw: i64, pitch: i64, radius: i64, up: Vec3) -> (c: Camera)
        requires
            0 <= yaw < TWO_PI_FX,
            -PITCH_LIMIT <= pitch <= PITCH_LIMIT,
            0 < radius <= RADIUS_LIMIT,
            center.bounded(CAMERA_POS_LIMIT as int),
            up.bounded(2 * FX_ONE as int),
        ensures
            c == (Camera { center, yaw, pitch, radius, up, has_changed: true }),
            c.wf(),
    {
        Camera { center, yaw, pitch, radius, up, has_changed: true }
    }

    /// Adds the deltas to yaw (wrapping one full turn) and pitch (clamping
    /// strictly inside a quarter turn). The radius and the center never move,
    /// so the eye keeps its distance to the center. Marks the camera changed.
    pub fn orbit(&mut self, delta_yaw: i64, delta_pitch: i64)
        requires
            old(self).wf(),
            -CAMERA_DELTA_LIMIT <= delta_yaw <= CAMERA_DELTA_LIMIT,
            -CAMERA_DELTA_LIMIT <= delta_pitch <= CAMERA_DELTA_LIMIT,
        ensures
            *final(self) == orbit_s(*old(self), delta_yaw as int, delta_pitch as int),
            final(self).wf(),
            final(self).radius == old(self).radius,
            final(self).center == old(self).center,
            final(self).has_changed,
    {
        self.yaw = emod(self.yaw + delta_yaw, TWO_PI_FX);
        self.pitch = fx_clamp(self.pitch + delta_pitch, -PITCH_LIMIT, PITCH_LIMIT);
        self.has_changed = true;
    }

    /// Translates eye and center together along the vertical axis
    /// (a dolly, not an orbit). Marks the camera changed.
    pub fn move_vertical(&mut self, delta: i64)
        requires
            old(self).wf(),
            -CAMERA_DELTA_LIMIT <= delta <= CAMERA_DELTA_LIMIT,
            -CAMERA_POS_LIMIT <= old(self).center.y + delta <= CAMERA_POS_LIMIT,
        ensures
            final(self).center == (Vec3 { y: (old(self).center.y + delta) as i64,
                ..old(self).center }),
            final(self).yaw == old(self).yaw,
            final(self).pitch == old(self).pitch,
            final(self).radius == old(self).radius,
            final(self).up == old(self).up,
            final(self).has_changed,
            final(self).wf(),
    {
        self.center.y = self.center.y + delta;
        self.has_changed = true;
    }

    /// Translates eye and center together by a lateral vector and resets the
    /// up vector to world up, cancelling any residual roll. Deliberately does
    /// not mark the camera changed: dependent systems react to orbit and
    /// vertical motion only.
    pub fn move_center(&mut self, movement: Vec3)
        requires
            old(self).wf(),
            movement.bounded(CAMERA_DELTA_LIMIT as int),
            -CAMERA_POS_LIMIT <= old(self).center.x + movement.x <= CAMERA_POS_LIMIT,
            -CAMERA_POS_LIMIT <= old(self).center.y + movement.y <= CAMERA_POS_LIMIT,
            -CAMERA_POS_LIMIT <= old(self).center.z + movement.z <= CAMERA_POS_LIMIT,
        ensures
            final(self).center.x == old(self).center.x + movement.x,
            final(self).center.y == old(self).center.y + movement.y,
            final(self).center.z == old(self).center.z + movement.z,
            final(self).up == world_up_s(),
            final(self).yaw == old(self).yaw,
            final(self).pitch == old(self).pitch,
            final(self).radius == old(self).radius,
            final(self).has_changed == old(self).has_changed,
            final(self).wf(),
    {
        self.center = self.center.add(&movement);
        self.up = Vec3 { x: 0, y: FX_ONE, z: 0 };
    }

    /// Moves the eye along the view axis toward the center by `delta`
    /// (a dolly zoom): only the radius changes. Marks the camera changed.
    pub fn zoom(&mut self, delta: i64)
        requires
            old(self).wf(),
            delta < old(self).radius,
            old(self).radius - delta <= RADIUS_LIMIT,
            -RADIUS_LIMIT <= delta <= RADIUS_LIMIT,
        ensures
            final(self).radius == old(self).radius - delta,
            final(self).center == old(self).center,
            final(self).yaw == old(self).yaw,
            final(self).pitch == old(self).pitch,
            final(self).up == old(self).up,
            final(self).has_changed,
            final(self).wf(),
    {
        self.radius = self.radius - delta;
        self.has_changed = true;
    }

    /// The derived eye position: center plus the spherical offset.
    pub fn eye(&self) -> (e: Vec3)
        requires
            self.wf(),
        ensures
            e == eye_s(*self),
            e.bounded(CAMERA_POS_LIMIT as int + RADIUS_LIMIT as int),
    {
        let cos_y: i64 = fx_cos(self.yaw);
        let sin_y: i64 = fx_sin(self.yaw);
        let cos_p: i64 = fx_cos(self.pitch);
        let sin_p: i64 = fx_sin(self.pitch);
        let xz: i64 = fx_mul(cos_y, cos_p);
        let zz: i64 = fx_mul(sin_y, cos_p);
        proof {
            lemma_fx_mul_range(cos_y as int, cos_p as int, FX_ONE as int, FX_ONE as int);
            lemma_fx_mul_range(sin_y as int, cos_p as int, FX_ONE as int, FX_ONE as int);
            lemma_fx_mul_range(self.radius as int, xz as int, RADIUS_LIMIT as int,
                FX_ONE as int);
            lemma_fx_mul_range(self.radius as int, zz as int, RADIUS_LIMIT as int,
                FX_ONE as int);
            lemma_fx_mul_range(self.radius as int, sin_p as int, RADIUS_LIMIT as int,
                FX_ONE as int);
        }
        let ox: i64 = fx_mul(self.radius, xz);
        let oy: i64 = -fx_mul(self.radius, sin_p);
        let oz: i64 = fx_mul(self.radius, zz);
        Vec3 {
            x: self.center.x + ox,
            y: self.center.y + oy,
            z: self.center.z + oz,
        }
    }
}

/// The spherical eye offset of a camera.
pub open spec fn eye_offset_s(c: Camera) -> Vec3 {
    Vec3 {
        x: fx_mul_s(c.radius as int, fx_mul_s(fx_cos_s(c.yaw as int), fx_cos_s(
            c.pitch as int))) as i64,
        y: (-fx_mul_s(c.radius as int, fx_sin_s(c.pitch as int))) as i64,
        z: fx_mul_s(c.radius as int, fx_mul_s(fx_sin_s(c.yaw as int), fx_cos_s(
            c.pitch as int))) as i64,
    }
}

/// The derived eye position of a camera.
pub open spec fn eye_s(c: Camera) -> Vec3 {
    Vec3 {
        x: (c.center.x + eye_offset_s(c).x) as i64,
        y: (c.center.y + eye_offset_s(c).y) as i64,
        z: (c.center.z + eye_offset_s(c).z) as i64,
    }
}

/// One orbit step at the specification level.
pub open spec fn orbit_s(c: Camera, dyaw: int, dpitch: int) -> Camera {
    Camera {
        center: c.center,
        yaw: ((c.yaw + dyaw) % (TWO_PI_FX as int)) as i64,
        pitch: clamp_s(c.pitch + dpitch, -PITCH_LIMIT as int, PITCH_LIMIT as int) as i64,
        radius: c.radius,
        up: c.up,
        has_changed: true,
    }
}

/// A whole sequence of orbit steps at the specification level.
pub open spec fn orbit_seq_s(c: Camera, ds: Seq<(i64, i64)>) -> Camera
    decreases ds.len(),
{
    if ds.len() == 0 {
        c
    } else {
        orbit_seq_s(orbit_s(c, ds[0].0 as int, ds[0].1 as int), ds.drop_first())
    }
}

/// One orbit step keeps the camera well formed.
pub proof fn lemma_orbit_s_wf(c: Camera, dyaw: int, dpitch: int)
    requires
        c.wf(),
    ensures
        orbit_s(c, dyaw, dpitch).wf(),
{
    vstd::arithmetic::div_mod::lemma_mod_division_less_than_divisor(
        c.yaw + dyaw,
        TWO_PI_FX as int,
    );
}

/// Law: a sequence of orbit calls, of any length, leaves the orbit radius and
/// the look-at center exactly unchanged; the eye keeps its distance from the
/// center.
pub proof fn lemma_orbit_preserves_radius(c: Camera, ds: Seq<(i64, i64)>)
    ensures
        orbit_seq_s(c, ds).radius == c.radius,
        orbit_seq_s(c, ds).center == c.center,
    decreases ds.len(),
{
    if ds.len() > 0 {
        lemma_orbit_preserves_radius(orbit_s(c, ds[0].0 as int, ds[0].1 as int), ds.drop_first());
    }
}

/// Law: starting from a well-formed camera, after any sequence of orbit calls
/// the pitch remains strictly inside (-pi/2, pi/2): the clamp keeps a margin,
/// so gimbal flip can never be reached.
pub proof fn lemma_orbit_pitch_strictly_bounded(c: Camera, ds: Seq<(i64, i64)>)
    requires
        c.wf(),
    ensures
        orbit_seq_s(c, ds).wf(),
        -HALF_PI_FX < orbit_seq_s(c, ds).pitch < HALF_PI_FX,
    decreases ds.len(),
{
    if ds.len() > 0 {
        lemma_orbit_s_wf(c, ds[0].0 as int, ds[0].1 as int);
        lemma_orbit_pitch_strictly_bounded(
            orbit_s(c, ds[0].0 as int, ds[0].1 as int),
            ds.drop_first(),
        );
    }
}

} // verus!
