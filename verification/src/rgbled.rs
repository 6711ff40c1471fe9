//! RGB-LED facade: three luminosity channels driven together.
//!
//! A composite fade runs three independent interpolations with a shared
//! step count and a shared sleep; a failure in one channel's write aborts
//! that channel's remaining assignment without undoing its siblings.

use vstd::prelude::*;

use crate::errors::ActuatorError;
use crate::fade::{compute_steps, fade_plan, ramp_value_spec, steps_spec};
use crate::pin::{has_pwm, Gpio};
use crate::pwm::{blink_next_spec, blink_plan_spec, PwmChannelState, RegOp};
use crate::pwmled::{
    clamp_lum_spec, duty_for_luminosity_spec, led_started, luminosity_of_spec,
    set_luminosity_spec, PwmLed, LUM_SCALE,
};

verus! {

/// A color channel byte clamped to the 8-bit range.
pub open spec fn clamp_255_spec(c: u32) -> u32 {
    if c > 255 {
        255
    } else {
        c
    }
}

/// The per-mille luminosity a color byte maps to under an alpha byte:
/// the alpha-scaled channel over the 8-bit range.
pub open spec fn color_lum_spec(c: u32, a: u32) -> int {
    (clamp_255_spec(c) * clamp_255_spec(a) * 1000) / 255
}

/// Three LEDs driven as one light.
pub struct RGBLed {
    pub r_led: PwmLed,
    pub g_led: PwmLed,
    pub b_led: PwmLed,
}

impl RGBLed {
    /// All three cached channel states are consistent.
    pub open spec fn wf(self) -> bool {
        self.r_led.wf() && self.g_led.wf() && self.b_led.wf()
    }

    /// A fully-on white light on these three pins: plan the start writes
    /// of each channel. Any pin without PWM capability fails the whole
    /// construction.
    pub fn new(gpios: (Gpio, Gpio, Gpio)) -> (r: Result<
        (RGBLed, (Vec<RegOp>, Vec<RegOp>, Vec<RegOp>)),
        ActuatorError,
    >)
        ensures
            r is Ok <==> has_pwm(gpios.0) && has_pwm(gpios.1) && has_pwm(gpios.2),
            r is Err ==> r->Err_0 == ActuatorError::Config,
            r is Ok ==> ({
                let (led, plans) = r.unwrap();
                &&& led_started(gpios.0, LUM_SCALE as i32, led.r_led, plans.0@)
                &&& led_started(gpios.1, LUM_SCALE as i32, led.g_led, plans.1@)
                &&& led_started(gpios.2, LUM_SCALE as i32, led.b_led, plans.2@)
                &&& led.wf()
            }),
    {
        RGBLed::new_with_color(gpios, (1000, 1000, 1000))
    }

    /// A light on these three pins started at the given per-channel
    /// luminosities.
    pub fn new_with_color(gpios: (Gpio, Gpio, Gpio), color: (i32, i32, i32)) -> (r: Result<
        (RGBLed, (Vec<RegOp>, Vec<RegOp>, Vec<RegOp>)),
        ActuatorError,
    >)
        ensures
            r is Ok <==> has_pwm(gpios.0) && has_pwm(gpios.1) && has_pwm(gpios.2),
            r is Err ==> r->Err_0 == ActuatorError::Config,
            r is Ok ==> ({
                let (led, plans) = r.unwrap();
                &&& led_started(gpios.0, color.0, led.r_led, plans.0@)
                &&& led_started(gpios.1, color.1, led.g_led, plans.1@)
                &&& led_started(gpios.2, color.2, led.b_led, plans.2@)
                &&& led.wf()
            }),
    {
        let (r_led, r_plan) = match PwmLed::new_with_luminosity(gpios.0, color.0) {
            Ok(p) => p,
            Err(e) => {
                return Err(e);
            },
        };
        let (g_led, g_plan) = match PwmLed::new_with_luminosity(gpios.1, color.1) {
            Ok(p) => p,
            Err(e) => {
                return Err(e);
            },
        };
        let (b_led, b_plan) = match PwmLed::new_with_luminosity(gpios.2, color.2) {
            Ok(p) => p,
            Err(e) => {
                return Err(e);
            },
        };
        Ok((RGBLed { r_led, g_led, b_led }, (r_plan, g_plan, b_plan)))
    }

    /// Map an 8-bit color triple under an 8-bit alpha to per-channel
    /// luminosities. Inputs above 255 are clamped to 255.
    pub fn color_code_to_luminosity(r: u32, g: u32, b: u32, a: u32) -> (l: (u32, u32, u32))
        ensures
            l.0 == color_lum_spec(r, a),
            l.1 == color_lum_spec(g, a),
            l.2 == color_lum_spec(b, a),
    {
        (color_lum(r, a), color_lum(g, a), color_lum(b, a))
    }

    /// Plan a color change: one duty write and next cache per channel. A
    /// failed write aborts the remaining channels' writes; each channel's
    /// cache is adopted only for its own successful write.
    pub fn set_color(&self, color: (i32, i32, i32)) -> (r: (
        (RegOp, PwmChannelState),
        (RegOp, PwmChannelState),
        (RegOp, PwmChannelState),
    ))
        ensures
            r.0 == set_luminosity_spec(self.r_led.state, color.0),
            r.1 == set_luminosity_spec(self.g_led.state, color.1),
            r.2 == set_luminosity_spec(self.b_led.state, color.2),
            r.0.1.wf() && r.1.1.wf() && r.2.1.wf(),
    {
        (
            self.r_led.set_luminosity(color.0),
            self.g_led.set_luminosity(color.1),
            self.b_led.set_luminosity(color.2),
        )
    }

    /// Plan a composite fade: three per-mille luminosity ramps with a
    /// shared step count, each walking its channel from its current
    /// luminosity to the clamped target, on which its last step lands
    /// exactly. Every planned value stays in the unit range, ready to hand
    /// back to a luminosity change.
    pub fn fade_to(&self, color: (i32, i32, i32), duration_ms: u32, update_period_ms: u32) -> (r: (
        Vec<u32>,
        Vec<u32>,
        Vec<u32>,
    ))
        requires
            self.wf(),
            self.r_led.state.period_ns > 0,
            self.g_led.state.period_ns > 0,
            self.b_led.state.period_ns > 0,
            update_period_ms > 0,
        ensures
            r.0@.len() == steps_spec(duration_ms, update_period_ms),
            r.1@.len() == steps_spec(duration_ms, update_period_ms),
            r.2@.len() == steps_spec(duration_ms, update_period_ms),
            forall|k: int|
                0 <= k < r.0@.len() ==> r.0@[k] == ramp_value_spec(
                    luminosity_of_spec(self.r_led.state) as u32,
                    clamp_lum_spec(color.0),
                    steps_spec(duration_ms, update_period_ms) as u32,
                    k + 1,
                ),
            forall|k: int|
                0 <= k < r.1@.len() ==> r.1@[k] == ramp_value_spec(
                    luminosity_of_spec(self.g_led.state) as u32,
                    clamp_lum_spec(color.1),
                    steps_spec(duration_ms, update_period_ms) as u32,
                    k + 1,
                ),
            forall|k: int|
                0 <= k < r.2@.len() ==> r.2@[k] == ramp_value_spec(
                    luminosity_of_spec(self.b_led.state) as u32,
                    clamp_lum_spec(color.2),
                    steps_spec(duration_ms, update_period_ms) as u32,
                    k + 1,
                ),
            forall|k: int| 0 <= k < r.0@.len() ==> r.0@[k] <= LUM_SCALE,
            forall|k: int| 0 <= k < r.1@.len() ==> r.1@[k] <= LUM_SCALE,
            forall|k: int| 0 <= k < r.2@.len() ==> r.2@[k] <= LUM_SCALE,
            r.0@[r.0@.len() - 1] == clamp_lum_spec(color.0),
            r.1@[r.1@.len() - 1] == clamp_lum_spec(color.1),
            r.2@[r.2@.len() - 1] == clamp_lum_spec(color.2),
    {
        let steps = compute_steps(duration_ms, update_period_ms);
        let plan_r = channel_ramp(&self.r_led, color.0, steps);
        let plan_g = channel_ramp(&self.g_led, color.1, steps);
        let plan_b = channel_ramp(&self.b_led, color.2, steps);
        (plan_r, plan_g, plan_b)
    }

    /// Plan a blink reconfiguration on all three channels: each channel
    /// gets the same new period and the duty its proportion maps to,
    /// ordered to keep the hardware invariant. A failed channel aborts the
    /// remaining channels' plans.
    pub fn blink(&self, proportion_pm: i32, speed_ns: u32) -> (r: (
        (Vec<RegOp>, PwmChannelState),
        (Vec<RegOp>, PwmChannelState),
        (Vec<RegOp>, PwmChannelState),
    ))
        requires
            self.wf(),
        ensures
            r.0.0@ == blink_plan_spec(
                self.r_led.state,
                duty_for_luminosity_spec(speed_ns, proportion_pm) as u32,
                speed_ns,
            ),
            r.1.0@ == blink_plan_spec(
                self.g_led.state,
                duty_for_luminosity_spec(speed_ns, proportion_pm) as u32,
                speed_ns,
            ),
            r.2.0@ == blink_plan_spec(
                self.b_led.state,
                duty_for_luminosity_spec(speed_ns, proportion_pm) as u32,
                speed_ns,
            ),
            r.0.1 == blink_next_spec(
                self.r_led.state,
                duty_for_luminosity_spec(speed_ns, proportion_pm) as u32,
                speed_ns,
            ),
            r.1.1 == blink_next_spec(
                self.g_led.state,
                duty_for_luminosity_spec(speed_ns, proportion_pm) as u32,
                speed_ns,
            ),
            r.2.1 == blink_next_spec(
                self.b_led.state,
                duty_for_luminosity_spec(speed_ns, proportion_pm) as u32,
                speed_ns,
            ),
    {
        (
            self.r_led.blink(proportion_pm, speed_ns),
            self.g_led.blink(proportion_pm, speed_ns),
            self.b_led.blink(proportion_pm, speed_ns),
        )
    }
}

/// The alpha-scaled per-mille luminosity of one color byte.
fn color_lum(c: u32, a: u32) -> (l: u32)
    ensures
        l == color_lum_spec(c, a),
{
    let c2 = if c > 255 {
        255
    } else {
        c
    };
    let a2 = if a > 255 {
        255
    } else {
        a
    };
    proof {
        vstd::arithmetic::mul::lemma_mul_upper_bound(c2 as int, 255, a2 as int, 255);
    }
    (c2 * a2 * 1000) / 255
}

/// One channel's per-mille ramp from its current luminosity to the
/// clamped target.
fn channel_ramp(led: &PwmLed, luminosity_pm: i32, steps: u32) -> (plan: Vec<u32>)
    requires
        led.wf(),
        led.state.period_ns > 0,
        1 <= steps,
    ensures
        plan@.len() == steps,
        forall|k: int|
            0 <= k < plan@.len() ==> plan@[k] == ramp_value_spec(
                luminosity_of_spec(led.state) as u32,
                clamp_lum_spec(luminosity_pm),
                steps,
                k + 1,
            ),
        forall|k: int| 0 <= k < plan@.len() ==> plan@[k] <= LUM_SCALE,
        plan@[plan@.len() - 1] == clamp_lum_spec(luminosity_pm),
{
    let current = led.get_luminosity();
    let wanted = crate::pwmled::clamp_lum(luminosity_pm);
    let plan = fade_plan(current, wanted, steps);
    proof {
        assert forall|k: int| 0 <= k < plan@.len() implies plan@[k] <= LUM_SCALE by {
            crate::fade::lemma_ramp_bounds(current, wanted, steps, k + 1);
        }
    }
    plan
}

} // verus!
