//! Servo facade: angular position control over either backend.
//!
//! A servo is driven either by one local PWM channel (position maps
//! linearly to a pulse width between the two duty bounds) or by one
//! channel of the remote motor-controller board (position maps linearly to
//! a target between the link's target bounds). The backend is a tagged
//! variant, so exactly one of the two is ever populated.

use vstd::arithmetic::mul::lemma_mul_upper_bound;
use vstd::prelude::*;

use crate::arith::mul_div_u32;
use crate::codec::{clamp_target_spec, lsb7, msb7, Maestro, CMD_SET_TARGET};
use crate::errors::ActuatorError;
use crate::fade::{compute_steps, fade_plan, lemma_ramp_bounds, ramp_value_spec, steps_spec};
use crate::pin::{has_pwm, pwm_descriptor_for, Gpio, GpioToPwm, Pwm};
use crate::pwm::{set_duty_next_spec, start_plan_spec, PwmChannelState, RegOp};

verus! {

/// Period of a locally driven servo channel: one cycle of the 60 Hz
/// control signal, in nanoseconds.
pub const SERVO_PERIOD_NS: u32 = 16666666;

/// Pulse width of the lowest position, in nanoseconds.
pub const SERVO_MIN_DUTY_NS: u32 = 500000;

/// Pulse width of the highest position, in nanoseconds.
pub const SERVO_MAX_DUTY_NS: u32 = 2500000;

/// A locally driven servo: the PWM channel's descriptor and cached state,
/// the angular range, and the pulse-width window positions map into.
pub struct PwmServoSettings {
    pub pwm: Pwm,
    pub state: PwmChannelState,
    pub degrees: u32,
    pub period: u32,
    pub min_duty: u32,
    pub max_duty: u32,
}

impl PwmServoSettings {
    /// A usable local servo: a nonempty angular range, a nonempty
    /// pulse-width window that fits in the channel's period, and a
    /// consistent cache.
    pub open spec fn wf(self) -> bool {
        &&& self.degrees > 0
        &&& self.min_duty < self.max_duty
        &&& self.max_duty <= self.state.period_ns
        &&& self.state.wf()
    }
}

/// A remotely driven servo: its channel number on the board, its angular
/// range, and the link codec whose target bounds positions map into.
pub struct MaestroServoSettings {
    pub servo_range: u32,
    pub channel: u8,
    pub maestro: Maestro,
}

impl MaestroServoSettings {
    /// A usable remote servo: a nonempty angular range and a codec with a
    /// nonempty, representable target range.
    pub open spec fn wf(self) -> bool {
        &&& self.servo_range > 0
        &&& self.maestro.wf()
        &&& self.maestro.min_target < self.maestro.max_target
    }
}

/// Which backend drives the servo.
pub enum ServoBackend {
    OnPwm(PwmServoSettings),
    OnMaestro(MaestroServoSettings),
}

/// One servo on one of the two backends.
pub struct Servo {
    pub backend: ServoBackend,
}

/// A position request clamped into `0..=limit`.
pub open spec fn clamp_position_spec(position: i32, limit: u32) -> u32 {
    if position < 0 {
        0
    } else if position > limit {
        limit
    } else {
        position as u32
    }
}

/// Clamp a position request into the servo's range.
pub fn clamp_position(position: i32, limit: u32) -> (p: u32)
    ensures
        p == clamp_position_spec(position, limit),
        p <= limit,
        p <= 0x7FFF_FFFF,
{
    if position < 0 {
        0
    } else {
        let up = position as u32;
        if up > limit {
            limit
        } else {
            up
        }
    }
}

/// The pulse width a position maps to: the lower bound plus the clamped
/// position's fraction of the window.
pub open spec fn duty_for_position_spec(
    min_duty: u32,
    max_duty: u32,
    degrees: u32,
    position: i32,
) -> int {
    let p = clamp_position_spec(position, degrees);
    min_duty + ((max_duty - min_duty) * p) / (degrees as int)
}

/// Map a position request to the pulse width of a local servo.
pub fn duty_for_position(min_duty: u32, max_duty: u32, degrees: u32, position: i32) -> (d: u32)
    requires
        degrees > 0,
        min_duty <= max_duty,
    ensures
        d == duty_for_position_spec(min_duty, max_duty, degrees, position),
        min_duty <= d <= max_duty,
{
    let p = clamp_position(position, degrees);
    let scaled = mul_div_u32(max_duty - min_duty, p, degrees);
    min_duty + scaled
}

/// The board target a position maps to: the lower target bound plus the
/// clamped position's fraction of the target window.
pub open spec fn target_for_position_spec(
    min_target: u16,
    max_target: u16,
    range: u32,
    position: i32,
) -> int {
    let p = clamp_position_spec(position, range);
    min_target + ((max_target - min_target) * p) / (range as int)
}

/// Map a position request to the board target of a remote servo.
pub fn target_for_position(min_target: u16, max_target: u16, range: u32, position: i32) -> (t: u16)
    requires
        range > 0,
        min_target <= max_target,
    ensures
        t == target_for_position_spec(min_target, max_target, range, position),
        min_target <= t <= max_target,
{
    let p = clamp_position(position, range);
    let scaled = mul_div_u32((max_target - min_target) as u32, p, range);
    min_target + (scaled as u16)
}

/// The single write a position change issues: a pulse-width write with the
/// next cache on the local backend, a target frame on the remote one.
pub enum ServoCommand {
    Pulse(RegOp, PwmChannelState),
    Frame(Vec<u8>),
}

/// The stepped writes of a sweep: duty values with the final cache on the
/// local backend, one target frame per step on the remote one.
pub enum GoToPlan {
    DutySteps(Vec<u32>, PwmChannelState),
    Frames(Vec<Vec<u8>>),
}

/// The board target the `i`-th sweep step commands: the position ramp
/// from the current position toward the clamped requested position after
/// `i + 1` increments, mapped to a target. Every step advances the
/// commanded position by one increment; when the step count divides the
/// distance, the last step commands the clamped target's mapped value.
pub open spec fn sweep_target_spec(
    m: MaestroServoSettings,
    current: u16,
    position: i32,
    steps: u32,
    i: int,
) -> u16 {
    let wanted = clamp_position_spec(position, m.servo_range);
    let p = ramp_value_spec(current as u32, wanted, steps, i + 1);
    target_for_position_spec(
        m.maestro.min_target,
        m.maestro.max_target,
        m.servo_range,
        p as i32,
    ) as u16
}

/// A sweep's last step commands exactly the clamped requested position's
/// target: the whole commanded distance is covered, whether or not the
/// step count divides it.
pub proof fn lemma_sweep_ends_on_target(
    m: MaestroServoSettings,
    current: u16,
    position: i32,
    steps: u32,
)
    requires
        1 <= steps,
    ensures
        sweep_target_spec(m, current, position, steps, steps - 1) == target_for_position_spec(
            m.maestro.min_target,
            m.maestro.max_target,
            m.servo_range,
            clamp_position_spec(position, m.servo_range) as i32,
        ) as u16,
{
    let wanted = clamp_position_spec(position, m.servo_range);
    crate::fade::lemma_ramp_exact(current as u32, wanted, steps);
    assert(wanted <= 0x7FFF_FFFF);
}

impl Servo {
    /// The servo's backend is usable.
    pub open spec fn wf(self) -> bool {
        match self.backend {
            ServoBackend::OnPwm(s) => s.wf(),
            ServoBackend::OnMaestro(m) => m.wf(),
        }
    }

    /// A local servo on this pin at position zero: plan the writes that
    /// export and start its channel. A pin without PWM capability is a
    /// configuration failure, never a panic.
    pub fn new(gpio: Gpio, degrees: u32) -> (r: Result<(Servo, Vec<RegOp>), ActuatorError>)
        requires
            degrees > 0,
        ensures
            r is Ok <==> has_pwm(gpio),
            r is Err ==> r->Err_0 == ActuatorError::Config,
            r is Ok ==> servo_started(gpio, degrees, 0, r.unwrap().0, r.unwrap().1@),
    {
        Servo::new_with_position(gpio, degrees, 0)
    }

    /// A local servo on this pin started at the given position.
    pub fn new_with_position(gpio: Gpio, degrees: u32, position: i32) -> (r: Result<
        (Servo, Vec<RegOp>),
        ActuatorError,
    >)
        requires
            degrees > 0,
        ensures
            r is Ok <==> has_pwm(gpio),
            r is Err ==> r->Err_0 == ActuatorError::Config,
            r is Ok ==> servo_started(gpio, degrees, position, r.unwrap().0, r.unwrap().1@),
    {
        let pwm = match GpioToPwm(&gpio) {
            Some(pwm) => pwm,
            None => {
                return Err(ActuatorError::Config);
            },
        };
        let duty = duty_for_position(SERVO_MIN_DUTY_NS, SERVO_MAX_DUTY_NS, degrees, position);
        let fresh = PwmChannelState::fresh();
        let (plan, state) = pwm.start_pwm(fresh, duty, SERVO_PERIOD_NS, false);
        let servo = Servo {
            backend: ServoBackend::OnPwm(
                PwmServoSettings {
                    pwm,
                    state,
                    degrees,
                    period: SERVO_PERIOD_NS,
                    min_duty: SERVO_MIN_DUTY_NS,
                    max_duty: SERVO_MAX_DUTY_NS,
                },
            ),
        };
        Ok((servo, plan))
    }

    /// A servo on one channel of a remote motor-controller board.
    pub fn new_from_maestro(servo_range: u32, channel: u8, maestro: Maestro) -> (s: Servo)
        ensures
            s.backend is OnMaestro,
            s.backend->OnMaestro_0 == (MaestroServoSettings { servo_range, channel, maestro }),
            (servo_range > 0 && maestro.wf() && maestro.min_target < maestro.max_target)
                ==> s.wf(),
    {
        Servo { backend: ServoBackend::OnMaestro(MaestroServoSettings { servo_range, channel, maestro }) }
    }

    /// Plan a position change: on the local backend one pulse-width write
    /// that fits the channel's period, on the remote backend one target
    /// frame for the servo's channel.
    pub fn set_position(&self, position: i32) -> (r: ServoCommand)
        requires
            self.wf(),
        ensures
            r is Pulse <==> self.backend is OnPwm,
            self.backend is OnPwm ==> ({
                let s = self.backend->OnPwm_0;
                let d = duty_for_position_spec(s.min_duty, s.max_duty, s.degrees, position) as u32;
                &&& r->Pulse_0 == RegOp::Duty(d)
                &&& r->Pulse_1 == set_duty_next_spec(s.state, d)
                &&& r->Pulse_1.wf()
            }),
            self.backend is OnMaestro ==> ({
                let m = self.backend->OnMaestro_0;
                let t = target_for_position_spec(
                    m.maestro.min_target,
                    m.maestro.max_target,
                    m.servo_range,
                    position,
                ) as u16;
                (r->Frame_0)@ == m.maestro.frame_spec(
                    seq![CMD_SET_TARGET, m.channel, lsb7(t), msb7(t)],
                )
            }),
    {
        match &self.backend {
            ServoBackend::OnPwm(s) => {
                let duty = duty_for_position(s.min_duty, s.max_duty, s.degrees, position);
                let (op, next) = s.state.set_duty_plan(duty);
                ServoCommand::Pulse(op, next)
            },
            ServoBackend::OnMaestro(m) => {
                let t = target_for_position(
                    m.maestro.min_target,
                    m.maestro.max_target,
                    m.servo_range,
                    position,
                );
                proof {
                    assert(clamp_target_spec(t, m.maestro.min_target, m.maestro.max_target) == t);
                }
                ServoCommand::Frame(m.maestro.set_target_frame(m.channel, t))
            },
        }
    }

    /// The position the local backend's cached pulse width shows: the
    /// pulse width's offset into the window scaled to the angular range,
    /// saturated to the return width; a pulse at or below the window floor
    /// reads as zero. The remote backend's position comes from a board
    /// read instead; see `position_from_target`.
    pub fn get_position(&self) -> (p: u16)
        requires
            self.wf(),
            self.backend is OnPwm,
        ensures
            p == get_position_pwm_spec(self.backend->OnPwm_0),
    {
        match &self.backend {
            ServoBackend::OnPwm(s) => {
                if s.state.duty_ns <= s.min_duty {
                    0
                } else {
                    let num = (s.state.duty_ns - s.min_duty) as u64;
                    proof {
                        lemma_mul_upper_bound(num as int, 0xFFFF_FFFF, s.degrees as int, 0xFFFF_FFFF);
                    }
                    let q = (num * (s.degrees as u64)) / ((s.max_duty - s.min_duty) as u64);
                    if q > 65535 {
                        65535
                    } else {
                        q as u16
                    }
                }
            },
            ServoBackend::OnMaestro(_) => {
                proof {
                    assert(false);
                }
                0
            },
        }
    }

    /// The position a board target read maps back to: the target's
    /// fraction of the target window scaled to the servo's range,
    /// saturated to the return width; a target below the window floors at
    /// zero.
    pub fn position_from_target(&self, target: u16) -> (p: u16)
        requires
            self.wf(),
            self.backend is OnMaestro,
        ensures
            p == position_from_target_spec(self.backend->OnMaestro_0, target),
    {
        match &self.backend {
            ServoBackend::OnMaestro(m) => {
                if target <= m.maestro.min_target {
                    0
                } else {
                    let num = (target - m.maestro.min_target) as u64;
                    let span = (m.maestro.max_target - m.maestro.min_target) as u64;
                    proof {
                        lemma_mul_upper_bound(num as int, 0xFFFF, m.servo_range as int, 0xFFFF_FFFF);
                    }
                    let q = (num * (m.servo_range as u64)) / span;
                    if q > 65535 {
                        65535
                    } else {
                        q as u16
                    }
                }
            },
            ServoBackend::OnPwm(_) => {
                proof {
                    assert(false);
                }
                0
            },
        }
    }

    /// Plan a sweep to a position over a duration: on the local backend
    /// the stepped pulse widths with the final cache, on the remote one a
    /// target frame per step walking the position ramp from the current
    /// position toward the clamped target, one increment per step.
    pub fn go_to(
        &self,
        current_position: u16,
        position: i32,
        duration_ms: u32,
        update_period_ms: u32,
    ) -> (r: GoToPlan)
        requires
            self.wf(),
            update_period_ms > 0,
        ensures
            r is DutySteps <==> self.backend is OnPwm,
            self.backend is OnPwm ==> ({
                let s = self.backend->OnPwm_0;
                let wanted = duty_for_position_spec(
                    s.min_duty,
                    s.max_duty,
                    s.degrees,
                    position,
                ) as u32;
                let steps = steps_spec(duration_ms, update_period_ms);
                &&& (r->DutySteps_0)@.len() == steps
                &&& forall|k: int|
                    0 <= k < steps ==> (r->DutySteps_0)@[k] == ramp_value_spec(
                        s.state.duty_ns,
                        wanted,
                        steps as u32,
                        k + 1,
                    )
                &&& forall|k: int| 0 <= k < steps ==> (r->DutySteps_0)@[k] <= s.state.period_ns
                &&& r->DutySteps_1 == (PwmChannelState {
                    enabled: s.state.enabled,
                    duty_ns: (r->DutySteps_0)@[steps - 1] as u32,
                    period_ns: s.state.period_ns,
                })
                &&& r->DutySteps_1.duty_ns == duty_for_position_spec(
                    s.min_duty,
                    s.max_duty,
                    s.degrees,
                    position,
                )
                &&& r->DutySteps_1.wf()
            }),
            self.backend is OnMaestro ==> ({
                let m = self.backend->OnMaestro_0;
                let steps = steps_spec(duration_ms, update_period_ms);
                &&& (r->Frames_0)@.len() == steps
                &&& forall|i: int|
                    0 <= i < steps ==> #[trigger] (r->Frames_0)@[i]@ == m.maestro.frame_spec(
                        seq![
                            CMD_SET_TARGET,
                            m.channel,
                            lsb7(sweep_target_spec(m, current_position, position, steps as u32, i)),
                            msb7(sweep_target_spec(m, current_position, position, steps as u32, i)),
                        ],
                    )
            }),
    {
        let steps = compute_steps(duration_ms, update_period_ms);
        match &self.backend {
            ServoBackend::OnPwm(s) => {
                let (writes, next) = sweep_duties(s, position, steps);
                GoToPlan::DutySteps(writes, next)
            },
            ServoBackend::OnMaestro(m) => {
                GoToPlan::Frames(sweep_frames(m, current_position, position, steps))
            },
        }
    }
}

/// A started local servo as the constructors deliver it: the cache shows
/// an enabled channel at the servo period with the pulse width the
/// position maps to, the descriptor is the pin's table entry, and the plan
/// is the full start sequence from a never-written channel.
pub open spec fn servo_started(
    gpio: Gpio,
    degrees: u32,
    position: i32,
    servo: Servo,
    plan: Seq<RegOp>,
) -> bool {
    &&& servo.backend is OnPwm
    &&& ({
        let s = servo.backend->OnPwm_0;
        &&& s.degrees == degrees
        &&& s.period == SERVO_PERIOD_NS
        &&& s.min_duty == SERVO_MIN_DUTY_NS
        &&& s.max_duty == SERVO_MAX_DUTY_NS
        &&& s.state == (PwmChannelState {
            enabled: true,
            duty_ns: duty_for_position_spec(
                SERVO_MIN_DUTY_NS,
                SERVO_MAX_DUTY_NS,
                degrees,
                position,
            ) as u32,
            period_ns: SERVO_PERIOD_NS,
        })
        &&& pwm_descriptor_for(gpio, s.pwm)
        &&& plan == start_plan_spec(
            s.pwm.index,
            PwmChannelState { enabled: false, duty_ns: 0, period_ns: 0 },
            s.state.duty_ns,
            SERVO_PERIOD_NS,
            false,
        )
        &&& servo.wf()
    })
}

/// The position the local backend's cache shows: the pulse width's
/// offset into the window scaled to the angular range, saturated to the
/// return width; a pulse at or below the window floor reads as zero.
pub open spec fn get_position_pwm_spec(s: PwmServoSettings) -> int {
    if s.state.duty_ns <= s.min_duty {
        0
    } else {
        let q = ((s.state.duty_ns - s.min_duty) * s.degrees) / (s.max_duty - s.min_duty);
        if q > 65535 {
            65535
        } else {
            q
        }
    }
}

/// The position a board target maps back to.
pub open spec fn position_from_target_spec(m: MaestroServoSettings, target: u16) -> int {
    if target <= m.maestro.min_target {
        0
    } else {
        let q = ((target - m.maestro.min_target) * m.servo_range) / (
        m.maestro.max_target - m.maestro.min_target);
        if q > 65535 {
            65535
        } else {
            q
        }
    }
}

/// The stepped pulse widths of a local sweep and the cache to adopt once
/// every write succeeded.
fn sweep_duties(s: &PwmServoSettings, position: i32, steps: u32) -> (r: (Vec<u32>, PwmChannelState))
    requires
        s.wf(),
        1 <= steps,
    ensures
        r.0@.len() == steps,
        forall|k: int|
            0 <= k < steps ==> r.0@[k] == ramp_value_spec(
                s.state.duty_ns,
                duty_for_position_spec(s.min_duty, s.max_duty, s.degrees, position) as u32,
                steps,
                k + 1,
            ),
        forall|k: int| 0 <= k < steps ==> r.0@[k] <= s.state.period_ns,
        r.1 == (PwmChannelState {
            enabled: s.state.enabled,
            duty_ns: r.0@[steps - 1] as u32,
            period_ns: s.state.period_ns,
        }),
        r.1.duty_ns == duty_for_position_spec(s.min_duty, s.max_duty, s.degrees, position),
        r.1.wf(),
{
    let wanted = duty_for_position(s.min_duty, s.max_duty, s.degrees, position);
    let plan = fade_plan(s.state.duty_ns, wanted, steps);
    proof {
        assert forall|k: int| 0 <= k < steps implies plan@[k] <= s.state.period_ns by {
            lemma_ramp_bounds(s.state.duty_ns, wanted, steps, k + 1);
        }
    }
    let last = plan[plan.len() - 1];
    let next = PwmChannelState {
        enabled: s.state.enabled,
        duty_ns: last,
        period_ns: s.state.period_ns,
    };
    (plan, next)
}

/// The target frames of a remote sweep: one frame per step along the
/// position ramp, each one increment further from the current position.
fn sweep_frames(m: &MaestroServoSettings, current: u16, position: i32, steps: u32) -> (frames: Vec<
    Vec<u8>,
>)
    requires
        m.wf(),
        1 <= steps,
    ensures
        frames@.len() == steps,
        forall|i: int|
            0 <= i < steps ==> #[trigger] frames@[i]@ == m.maestro.frame_spec(
                seq![
                    CMD_SET_TARGET,
                    m.channel,
                    lsb7(sweep_target_spec(*m, current, position, steps, i)),
                    msb7(sweep_target_spec(*m, current, position, steps, i)),
                ],
            ),
{
    let wanted = clamp_position(position, m.servo_range);
    let cur = current as u32;
    let vals = fade_plan(cur, wanted, steps);
    let mut frames: Vec<Vec<u8>> = Vec::new();
    let mut i: u32 = 0;
    while i < steps
        invariant
            m.wf(),
            1 <= steps,
            wanted == clamp_position_spec(position, m.servo_range),
            wanted <= 0x7FFF_FFFF,
            cur == current as u32,
            vals@.len() == steps,
            forall|k: int|
                0 <= k < steps ==> vals@[k] == ramp_value_spec(cur, wanted, steps, k + 1),
            0 <= i <= steps,
            frames@.len() == i,
            forall|j: int|
                0 <= j < i ==> #[trigger] frames@[j]@ == m.maestro.frame_spec(
                    seq![
                        CMD_SET_TARGET,
                        m.channel,
                        lsb7(sweep_target_spec(*m, current, position, steps, j)),
                        msb7(sweep_target_spec(*m, current, position, steps, j)),
                    ],
                ),
        decreases steps - i,
    {
        let p: u32 = vals[i as usize];
        proof {
            lemma_ramp_bounds(cur, wanted, steps, i + 1);
            assert(p == ramp_value_spec(cur, wanted, steps, i as int + 1));
            assert(p <= 0x7FFF_FFFF);
        }
        let t = target_for_position(
            m.maestro.min_target,
            m.maestro.max_target,
            m.servo_range,
            p as i32,
        );
        proof {
            assert(clamp_target_spec(t, m.maestro.min_target, m.maestro.max_target) == t);
            assert(t == sweep_target_spec(*m, current, position, steps, i as int));
        }
        let frame = m.maestro.set_target_frame(m.channel, t);
        frames.push(frame);
        i = i + 1;
    }
    frames
}

} // verus!
