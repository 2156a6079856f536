//! The camera: eye, target and up vector, a derived orthonormal basis,
//! and orbit navigation.

use crate::fixed::fp_add;
use crate::fixed::fp_add_s;
use crate::fixed::fp_div;
use crate::fixed::fp_div_s;
use crate::fixed::fp_mul;
use crate::fixed::fp_mul_s;
use crate::fixed::FP_ONE;
use crate::trig::asin_fp;
use crate::trig::asin_s;
use crate::trig::atan2_fp;
use crate::trig::atan2_s;
use crate::trig::cos_fp;
use crate::trig::cos_s;
use crate::trig::sin_fp;
use crate::trig::sin_s;
use crate::vec3::v3;
use crate::vec3::vadd_s;
use crate::vec3::vcross_s;
use crate::vec3::vlen_s;
use crate::vec3::vnorm_s;
use crate::vec3::vscale_s;
use crate::vec3::vsub_s;
use crate::vec3::V3i;
use crate::vec3::Vec3;
use vstd::prelude::*;

verus! {

/// How close to straight up or straight down an orbit may pitch: about
/// `pi/2 - 0.1`, keeping the view direction away from the up vector so
/// the derived basis cannot degenerate.
pub const PITCH_MAX_FP: i64 = 96390;

pub struct Camera {
    pub eye: Vec3,
    pub center: Vec3,
    pub up: Vec3,
}

/// The basis vector from the target toward the eye (the camera looks
/// along its negation).
pub open spec fn cam_forward_s(c: Camera) -> V3i {
    vnorm_s(vsub_s(v3(c.eye), v3(c.center)))
}

pub open spec fn cam_right_s(c: Camera) -> V3i {
    vnorm_s(vcross_s(v3(c.up), cam_forward_s(c)))
}

pub open spec fn cam_up_s(c: Camera) -> V3i {
    vcross_s(cam_forward_s(c), cam_right_s(c))
}

/// A camera-space vector rewritten in the world basis and normalized;
/// the camera-space `-z` axis maps to the viewing direction.
pub open spec fn base_change_s(c: Camera, v: V3i) -> V3i {
    vnorm_s(
        vadd_s(
            vadd_s(vscale_s(cam_right_s(c), v.x), vscale_s(cam_up_s(c), v.y)),
            vscale_s(cam_forward_s(c), v.z),
        ),
    )
}

/// The world-space unit ray direction of the screen point
/// `(sx, sy)` (normalized device coordinates already scaled by aspect
/// ratio and the field-of-view tangent): the camera-space direction
/// `(sx, sy, -1)`, normalized and rewritten in the world basis.
pub open spec fn ray_for_pixel_s(c: Camera, sx: int, sy: int) -> V3i {
    base_change_s(c, vnorm_s(V3i { x: sx, y: sy, z: -(FP_ONE as int) }))
}

/// Where an orbit of the given yaw and pitch deltas moves the eye: the
/// offset from the target is read as spherical coordinates, the deltas
/// are added, the pitch is clamped away from the poles, and the eye is
/// rebuilt on the sphere of the same radius.
pub open spec fn orbit_eye_s(c: Camera, dyaw: int, dpitch: int) -> V3i {
    let off = vsub_s(v3(c.eye), v3(c.center));
    let radius = vlen_s(off);
    let yaw = atan2_s(off.x, off.z);
    let pitch = asin_s(fp_div_s(off.y, radius));
    let nyaw = fp_add_s(yaw, dyaw);
    let p = fp_add_s(pitch, dpitch);
    let npitch = if p > PITCH_MAX_FP as int {
        PITCH_MAX_FP as int
    } else if p < -(PITCH_MAX_FP as int) {
        -(PITCH_MAX_FP as int)
    } else {
        p
    };
    let cp = cos_s(npitch);
    vadd_s(
        v3(c.center),
        V3i {
            x: fp_mul_s(fp_mul_s(radius, cp), sin_s(nyaw)),
            y: fp_mul_s(radius, sin_s(npitch)),
            z: fp_mul_s(fp_mul_s(radius, cp), cos_s(nyaw)),
        },
    )
}

impl Camera {
    pub fn new(eye: Vec3, center: Vec3, up: Vec3) -> (c: Camera)
        ensures
            c.eye == eye,
            c.center == center,
            c.up == up,
    {
        Camera { eye, center, up }
    }

    /// The unit viewing direction, from the eye toward the target.
    pub fn direction(&self) -> (r: Vec3)
        ensures
            v3(r) == vnorm_s(vsub_s(v3(self.center), v3(self.eye))),
    {
        self.center.minus(&self.eye).normalize()
    }

    /// Rewrites a camera-space vector in the world-space basis derived
    /// from eye, target and up.
    pub fn base_change(&self, v: &Vec3) -> (r: Vec3)
        ensures
            v3(r) == base_change_s(*self, v3(*v)),
    {
        let forward = self.eye.minus(&self.center).normalize();
        let right = self.up.cross(&forward).normalize();
        let cam_up = forward.cross(&right);
        right.scale(v.x).plus(&cam_up.scale(v.y)).plus(&forward.scale(v.z)).normalize()
    }

    /// The world-space ray direction through a screen point; see
    /// `ray_for_pixel_s`.
    pub fn ray_for_pixel(&self, screen_x: i64, screen_y: i64) -> (r: Vec3)
        ensures
            v3(r) == ray_for_pixel_s(*self, screen_x as int, screen_y as int),
    {
        self.base_change(&Vec3::new(screen_x, screen_y, -FP_ONE).normalize())
    }

    /// Rotates the eye around the target by the given yaw and pitch
    /// deltas (fixed-point radians), holding the orbit radius; the
    /// pitch is clamped to `[-PITCH_MAX_FP, PITCH_MAX_FP]`.
    pub fn orbit(&mut self, delta_yaw: i64, delta_pitch: i64)
        ensures
            v3(final(self).eye) == orbit_eye_s(*old(self), delta_yaw as int, delta_pitch as int),
            final(self).center == old(self).center,
            final(self).up == old(self).up,
    {
        let off = self.eye.minus(&self.center);
        let radius = off.magnitude();
        let yaw = atan2_fp(off.x, off.z);
        let pitch = asin_fp(fp_div(off.y, radius));
        let nyaw = fp_add(yaw, delta_yaw);
        let p = fp_add(pitch, delta_pitch);
        let npitch = if p > PITCH_MAX_FP {
            PITCH_MAX_FP
        } else if p < -PITCH_MAX_FP {
            -PITCH_MAX_FP
        } else {
            p
        };
        let cp = cos_fp(npitch);
        self.eye = self.center.plus(
            &Vec3::new(
                fp_mul(fp_mul(radius, cp), sin_fp(nyaw)),
                fp_mul(radius, sin_fp(npitch)),
                fp_mul(fp_mul(radius, cp), cos_fp(nyaw)),
            ),
        );
    }
}

} // verus!
