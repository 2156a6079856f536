//! The scene's single point light and its day/night driver.

use crate::color::c3;
use crate::color::c_bytes_s;
use crate::color::Color;
use crate::fixed::fp_div;
use crate::fixed::fp_div_s;
use crate::fixed::fp_mul;
use crate::fixed::fp_mul_s;
use crate::fixed::fp_rem;
use crate::fixed::fp_rem_s;
use crate::fixed::HALF_FP;
use crate::trig::cos_fp;
use crate::trig::cos_s;
use crate::trig::sin_fp;
use crate::trig::sin_s;
use crate::trig::TWO_PI_FP;
use crate::vec3::Vec3;
use vstd::prelude::*;

verus! {

/// `10`, scaled by `FP_ONE`: the radius of the simulated sun's orbit.
pub const SUN_ORBIT_FP: i64 = 655360;

pub struct Light {
    pub position: Vec3,
    pub color: Color,
    pub intensity: i64,
}

/// Where in the cycle an instant falls: the elapsed time reduced modulo
/// the day length, as a fraction of the day in `[0, 1)`.
pub open spec fn cycle_factor_s(elapsed: int, day: int) -> int {
    fp_div_s(fp_rem_s(elapsed, day), day)
}

/// The sun angle of a cycle fraction: one full turn per day.
pub open spec fn cycle_angle_s(factor: int) -> int {
    fp_mul_s(factor, TWO_PI_FP as int)
}

impl Light {
    pub fn new(position: Vec3, color: Color, intensity: i64) -> (l: Light)
        ensures
            l.position == position,
            l.color == color,
            l.intensity == intensity,
    {
        Light { position, color, intensity }
    }

    /// Advances the day/night cycle to `elapsed_time` (a nonnegative
    /// time in a day of positive length `day_duration`, both in
    /// fixed-point seconds): the light circles the origin in the `x`/`y`
    /// plane at radius `SUN_ORBIT_FP`, warm-white through the first half
    /// of the day and orange through the second.
    pub fn update_day_night_cycle(&mut self, elapsed_time: i64, day_duration: i64)
        requires
            elapsed_time >= 0,
            day_duration > 0,
        ensures
            final(self).position.x as int == fp_mul_s(
                cos_s(cycle_angle_s(cycle_factor_s(elapsed_time as int, day_duration as int))),
                SUN_ORBIT_FP as int,
            ),
            final(self).position.y as int == fp_mul_s(
                sin_s(cycle_angle_s(cycle_factor_s(elapsed_time as int, day_duration as int))),
                SUN_ORBIT_FP as int,
            ),
            final(self).position.z == old(self).position.z,
            c3(final(self).color) == if cycle_factor_s(elapsed_time as int, day_duration as int)
                < HALF_FP as int {
                c_bytes_s(255, 255, 224)
            } else {
                c_bytes_s(255, 140, 0)
            },
            final(self).intensity == old(self).intensity,
    {
        let time_factor = fp_div(fp_rem(elapsed_time, day_duration), day_duration);
        let light_angle = fp_mul(time_factor, TWO_PI_FP);
        self.position.x = fp_mul(cos_fp(light_angle), SUN_ORBIT_FP);
        self.position.y = fp_mul(sin_fp(light_angle), SUN_ORBIT_FP);
        if time_factor < HALF_FP {
            self.color = Color::new(255, 255, 224);
        } else {
            self.color = Color::new(255, 140, 0);
        }
    }
}

} // verus!
