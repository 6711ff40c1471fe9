//! Single-LED facade: luminosity control over one PWM channel.
//!
//! Luminosity is a normalized brightness mapped linearly to the duty
//! cycle. It is carried in per-mille: `0` is off, [`LUM_SCALE`] is fully
//! on; requests outside that range are clamped to it.

use vstd::prelude::*;

use crate::arith::mul_div_u32;
use crate::errors::ActuatorError;
use crate::fade::{compute_steps, fade_plan, ramp_value_spec, steps_spec};
use crate::pin::{has_pwm, pwm_descriptor_for, Gpio, GpioToPwm, Pwm};
use crate::pwm::{
    blink_next_spec, blink_plan_spec, set_duty_next_spec, start_plan_spec, PwmChannelState, RegOp,
};

verus! {

/// One luminosity unit is a thousandth of fully on.
pub const LUM_SCALE: u32 = 1000;

/// Period every LED channel is started with, in nanoseconds.
pub const LED_PERIOD_NS: u32 = 20000;

/// A luminosity request clamped into the unit range.
pub open spec fn clamp_lum_spec(luminosity_pm: i32) -> u32 {
    if luminosity_pm > LUM_SCALE {
        LUM_SCALE as u32
    } else if luminosity_pm < 0 {
        0
    } else {
        luminosity_pm as u32
    }
}

/// The duty a luminosity maps to: the clamped fraction of the period.
pub open spec fn duty_for_luminosity_spec(period_ns: u32, luminosity_pm: i32) -> int {
    (period_ns * clamp_lum_spec(luminosity_pm)) / (LUM_SCALE as int)
}

/// The luminosity a channel state shows: the duty's fraction of the
/// period, in per-mille.
pub open spec fn luminosity_of_spec(s: PwmChannelState) -> int {
    (s.duty_ns * LUM_SCALE) / (s.period_ns as int)
}

/// Clamp a luminosity request into the unit range.
pub fn clamp_lum(luminosity_pm: i32) -> (l: u32)
    ensures
        l == clamp_lum_spec(luminosity_pm),
        l <= LUM_SCALE,
{
    if luminosity_pm > 1000 {
        1000
    } else if luminosity_pm < 0 {
        0
    } else {
        luminosity_pm as u32
    }
}

/// Map a luminosity request to the duty of a channel with this period;
/// the result always fits in the period.
pub fn luminosity_to_duty(period_ns: u32, luminosity_pm: i32) -> (d: u32)
    ensures
        d == duty_for_luminosity_spec(period_ns, luminosity_pm),
        d <= period_ns,
{
    let l = clamp_lum(luminosity_pm);
    mul_div_u32(period_ns, l, LUM_SCALE)
}

/// The write and next cache of a luminosity change on a channel state.
pub open spec fn set_luminosity_spec(s: PwmChannelState, luminosity_pm: i32) -> (
    RegOp,
    PwmChannelState,
) {
    let d = duty_for_luminosity_spec(s.period_ns, luminosity_pm) as u32;
    (RegOp::Duty(d), set_duty_next_spec(s, d))
}

/// A luminosity request outside the unit range behaves exactly like the
/// request for the boundary it is clamped to.
pub proof fn lemma_luminosity_clamps(s: PwmChannelState, luminosity_pm: i32)
    ensures
        luminosity_pm > LUM_SCALE ==> set_luminosity_spec(s, luminosity_pm)
            == set_luminosity_spec(s, LUM_SCALE as i32),
        luminosity_pm < 0 ==> set_luminosity_spec(s, luminosity_pm) == set_luminosity_spec(s, 0),
{
}

/// A started LED as the constructors deliver it: the cache shows an
/// enabled channel at the default period with the duty the luminosity maps
/// to, the descriptor is the pin's table entry, and the plan is the full
/// start sequence from a never-written channel.
pub open spec fn led_started(gpio: Gpio, luminosity_pm: i32, led: PwmLed, plan: Seq<RegOp>) -> bool {
    &&& led.state == (PwmChannelState {
        enabled: true,
        duty_ns: duty_for_luminosity_spec(LED_PERIOD_NS, luminosity_pm) as u32,
        period_ns: LED_PERIOD_NS,
    })
    &&& pwm_descriptor_for(gpio, led.pwm)
    &&& plan == start_plan_spec(
        led.pwm.index,
        PwmChannelState { enabled: false, duty_ns: 0, period_ns: 0 },
        led.state.duty_ns,
        LED_PERIOD_NS,
        false,
    )
}

/// One LED on one PWM channel: the channel's hardware descriptor and its
/// cached state.
pub struct PwmLed {
    pub pwm: Pwm,
    pub state: PwmChannelState,
}

impl PwmLed {
    /// The LED's cached channel state is consistent.
    pub open spec fn wf(self) -> bool {
        self.state.wf()
    }

    /// A fully-on LED on this pin: plan the writes that export the channel
    /// and start it at full duty. A pin without PWM capability is a
    /// configuration failure, never a panic.
    pub fn new(gpio: Gpio) -> (r: Result<(PwmLed, Vec<RegOp>), ActuatorError>)
        ensures
            r is Ok <==> has_pwm(gpio),
            r is Err ==> r->Err_0 == ActuatorError::Config,
            r is Ok ==> led_started(gpio, LUM_SCALE as i32, r.unwrap().0, r.unwrap().1@)
                && r.unwrap().0.wf(),
    {
        PwmLed::new_with_luminosity(gpio, 1000)
    }

    /// An LED on this pin started at the given luminosity.
    pub fn new_with_luminosity(gpio: Gpio, luminosity_pm: i32) -> (r: Result<
        (PwmLed, Vec<RegOp>),
        ActuatorError,
    >)
        ensures
            r is Ok <==> has_pwm(gpio),
            r is Err ==> r->Err_0 == ActuatorError::Config,
            r is Ok ==> led_started(gpio, luminosity_pm, r.unwrap().0, r.unwrap().1@)
                && r.unwrap().0.wf(),
    {
        let pwm = match GpioToPwm(&gpio) {
            Some(pwm) => pwm,
            None => {
                return Err(ActuatorError::Config);
            },
        };
        let duty = luminosity_to_duty(LED_PERIOD_NS, luminosity_pm);
        let fresh = PwmChannelState::fresh();
        let (plan, state) = pwm.start_pwm(fresh, duty, LED_PERIOD_NS, false);
        Ok((PwmLed { pwm, state }, plan))
    }

    /// Plan a luminosity change: one duty write sized to the channel's
    /// period, and the cache to adopt on success.
    pub fn set_luminosity(&self, luminosity_pm: i32) -> (r: (RegOp, PwmChannelState))
        ensures
            r == set_luminosity_spec(self.state, luminosity_pm),
            r.1.wf(),
    {
        let duty = luminosity_to_duty(self.state.period_ns, luminosity_pm);
        self.state.set_duty_plan(duty)
    }

    /// The luminosity the cached state shows, in per-mille.
    pub fn get_luminosity(&self) -> (l: u32)
        requires
            self.wf(),
            self.state.period_ns > 0,
        ensures
            l == luminosity_of_spec(self.state),
            l <= LUM_SCALE,
    {
        mul_div_u32(self.state.duty_ns, LUM_SCALE, self.state.period_ns)
    }

    /// Plan a fade: the sequence of duty values to write, one per update
    /// period, walking from the current duty to the one the luminosity
    /// maps to, and the cache to adopt once every write succeeded. Every
    /// planned duty fits in the period, so no write can be rejected.
    pub fn fade_to(&self, luminosity_pm: i32, duration_ms: u32, update_period_ms: u32) -> (r: (
        Vec<u32>,
        PwmChannelState,
    ))
        requires
            self.wf(),
            update_period_ms > 0,
        ensures
            r.0@.len() == steps_spec(duration_ms, update_period_ms),
            forall|k: int|
                0 <= k < r.0@.len() ==> r.0@[k] == ramp_value_spec(
                    self.state.duty_ns,
                    duty_for_luminosity_spec(self.state.period_ns, luminosity_pm) as u32,
                    steps_spec(duration_ms, update_period_ms) as u32,
                    k + 1,
                ),
            forall|k: int| 0 <= k < r.0@.len() ==> r.0@[k] <= self.state.period_ns,
            r.1.enabled == self.state.enabled,
            r.1.period_ns == self.state.period_ns,
            r.1.duty_ns == r.0@[r.0@.len() - 1],
            r.1.duty_ns == duty_for_luminosity_spec(self.state.period_ns, luminosity_pm),
            r.1.wf(),
    {
        let steps = compute_steps(duration_ms, update_period_ms);
        let wanted = luminosity_to_duty(self.state.period_ns, luminosity_pm);
        let plan = fade_plan(self.state.duty_ns, wanted, steps);
        proof {
            assert forall|k: int| 0 <= k < plan@.len() implies plan@[k] <= self.state.period_ns by {
                crate::fade::lemma_ramp_bounds(self.state.duty_ns, wanted, steps, k + 1);
            }
        }
        let last = plan[plan.len() - 1];
        let next = PwmChannelState {
            enabled: self.state.enabled,
            duty_ns: last,
            period_ns: self.state.period_ns,
        };
        (plan, next)
    }

    /// Plan a blink reconfiguration: move the channel to the new period
    /// with a duty proportional to the requested on proportion, ordered so
    /// the hardware invariant is kept at every write.
    pub fn blink(&self, proportion_pm: i32, speed_ns: u32) -> (r: (Vec<RegOp>, PwmChannelState))
        requires
            self.wf(),
        ensures
            r.0@ == blink_plan_spec(
                self.state,
                duty_for_luminosity_spec(speed_ns, proportion_pm) as u32,
                speed_ns,
            ),
            r.1 == blink_next_spec(
                self.state,
                duty_for_luminosity_spec(speed_ns, proportion_pm) as u32,
                speed_ns,
            ),
            r.1.wf(),
    {
        let duty = luminosity_to_duty(speed_ns, proportion_pm);
        self.state.blink_plan(duty, speed_ns)
    }
}

} // verus!
