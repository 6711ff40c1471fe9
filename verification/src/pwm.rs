//! PWM channel lifecycle: cached channel state and ordered register-write
//! plans.
//!
//! The hardware's register file rejects any write that would leave the
//! stored duty cycle above the stored period. The planners here order every
//! multi-register operation so that `duty_ns <= period_ns` holds in the
//! hardware after each single write; the surrounding application executes a
//! plan write by write and adopts the returned cache state only when every
//! write succeeded.

use vstd::arithmetic::div_mod::{
    lemma_div_is_ordered, lemma_div_multiples_vanish, lemma_div_pos_is_pos,
};
use vstd::arithmetic::mul::{
    lemma_mul_inequality, lemma_mul_is_commutative, lemma_mul_nonnegative, lemma_mul_upper_bound,
};
use vstd::prelude::*;

use crate::errors::ActuatorError;
use crate::pin::Pwm;

verus! {

/// Cached state of one exported PWM channel, mirroring the hardware
/// registers after the last fully successful operation.
#[derive(Debug, PartialEq, Eq, Structural, Clone, Copy)]
pub struct PwmChannelState {
    pub enabled: bool,
    pub duty_ns: u32,
    pub period_ns: u32,
}

impl PwmChannelState {
    /// The cache is consistent: the active part of the cycle fits in the
    /// cycle.
    pub open spec fn wf(self) -> bool {
        self.duty_ns <= self.period_ns
    }

    /// The state of a channel that was never written: disabled, zero duty,
    /// zero period.
    pub fn fresh() -> (s: PwmChannelState)
        ensures
            s == (PwmChannelState { enabled: false, duty_ns: 0u32, period_ns: 0u32 }),
            s.wf(),
    {
        PwmChannelState { enabled: false, duty_ns: 0, period_ns: 0 }
    }
}

/// One step of a register-write plan: select the pin's PWM function, export
/// the channel, wait the fixed settle delay, or write one of the three
/// channel registers.
#[derive(Debug, PartialEq, Eq, Structural, Clone, Copy)]
pub enum RegOp {
    Mux,
    Export(u32),
    Settle,
    Duty(u32),
    Period(u32),
    Enable(bool),
}

/// Model of the hardware register file behind one channel. It doubles as
/// the fake backend the tests drive plans against: `apply` rejects exactly
/// the writes the kernel driver rejects.
#[derive(Debug, PartialEq, Eq, Structural, Clone, Copy)]
pub struct Registers {
    pub enabled: bool,
    pub duty_ns: u32,
    pub period_ns: u32,
}

impl Registers {
    /// The hardware invariant: at every observable instant the stored duty
    /// must fit in the stored period.
    pub open spec fn inv(self) -> bool {
        self.duty_ns <= self.period_ns
    }

    /// Which writes the register file accepts: a duty no larger than the
    /// stored period, a period no smaller than the stored duty, and
    /// everything else unconditionally.
    pub open spec fn accepts(self, op: RegOp) -> bool {
        match op {
            RegOp::Duty(v) => v <= self.period_ns,
            RegOp::Period(v) => self.duty_ns <= v,
            _ => true,
        }
    }

    /// The registers after an accepted write.
    pub open spec fn apply_spec(self, op: RegOp) -> Registers {
        match op {
            RegOp::Duty(v) => Registers { duty_ns: v, ..self },
            RegOp::Period(v) => Registers { period_ns: v, ..self },
            RegOp::Enable(b) => Registers { enabled: b, ..self },
            RegOp::Mux | RegOp::Export(_) | RegOp::Settle => self,
        }
    }

    /// Registers that agree with a cached channel state.
    pub open spec fn agrees(self, s: PwmChannelState) -> bool {
        self.duty_ns == s.duty_ns && self.period_ns == s.period_ns
    }

    /// Perform one write against the model: report whether the register
    /// file accepts it, and change the registers only if it does.
    pub fn apply(&mut self, op: &RegOp) -> (ok: bool)
        ensures
            ok == old(self).accepts(*op),
            ok ==> *final(self) == old(self).apply_spec(*op),
            !ok ==> *final(self) == *old(self),
    {
        match *op {
            RegOp::Duty(v) => {
                if v <= self.period_ns {
                    self.duty_ns = v;
                    true
                } else {
                    false
                }
            },
            RegOp::Period(v) => {
                if self.duty_ns <= v {
                    self.period_ns = v;
                    true
                } else {
                    false
                }
            },
            RegOp::Enable(b) => {
                self.enabled = b;
                true
            },
            RegOp::Mux | RegOp::Export(_) | RegOp::Settle => true,
        }
    }
}

/// Every write of the plan, run in order, is accepted by the register file
/// and leaves the hardware invariant intact.
pub open spec fn plan_ok(regs: Registers, plan: Seq<RegOp>) -> bool
    decreases plan.len(),
{
    plan.len() == 0 || (regs.accepts(plan[0]) && regs.apply_spec(plan[0]).inv() && plan_ok(
        regs.apply_spec(plan[0]),
        plan.drop_first(),
    ))
}

/// The registers after the whole plan has run.
pub open spec fn plan_result(regs: Registers, plan: Seq<RegOp>) -> Registers
    decreases plan.len(),
{
    if plan.len() == 0 {
        regs
    } else {
        plan_result(regs.apply_spec(plan[0]), plan.drop_first())
    }
}

/// The duty that keeps the duty/period ratio across a period change,
/// rounded down; zero when nothing is known about the old period.
pub open spec fn rescale_duty_spec(old_duty: u32, old_period: u32, new_period: u32) -> int {
    if old_period == 0 {
        0
    } else {
        (old_duty * new_period) / (old_period as int)
    }
}

/// Bounds of the proportional rescale: the new duty fits in the new period,
/// and a shrinking period never grows the duty.
pub proof fn lemma_rescale_bounds(old_duty: u32, old_period: u32, new_period: u32)
    requires
        old_duty <= old_period,
    ensures
        0 <= rescale_duty_spec(old_duty, old_period, new_period),
        rescale_duty_spec(old_duty, old_period, new_period) <= new_period,
        new_period <= old_period ==> rescale_duty_spec(old_duty, old_period, new_period)
            <= old_duty,
{
    if old_period != 0 {
        let od = old_duty as int;
        let op = old_period as int;
        let np = new_period as int;
        lemma_mul_nonnegative(od, np);
        lemma_div_pos_is_pos(od * np, op);
        lemma_mul_inequality(od, op, np);
        lemma_div_is_ordered(od * np, op * np, op);
        lemma_div_multiples_vanish(np, op);
        assert(rescale_duty_spec(old_duty, old_period, new_period) <= new_period);
        if np <= op {
            lemma_mul_inequality(np, op, od);
            lemma_mul_is_commutative(np, od);
            lemma_mul_is_commutative(op, od);
            lemma_div_is_ordered(od * np, od * op, op);
            lemma_mul_is_commutative(od, op);
            lemma_div_multiples_vanish(od, op);
        }
    }
}

/// Execute the proportional rescale of a duty across a period change.
pub fn rescale_duty(old_duty: u32, old_period: u32, new_period: u32) -> (d: u32)
    requires
        old_duty <= old_period,
    ensures
        d == rescale_duty_spec(old_duty, old_period, new_period),
        d <= new_period,
        new_period <= old_period ==> d <= old_duty,
{
    proof {
        lemma_rescale_bounds(old_duty, old_period, new_period);
        lemma_mul_upper_bound(old_duty as int, 0xFFFF_FFFF, new_period as int, 0xFFFF_FFFF);
    }
    if old_period == 0 {
        0
    } else {
        (((old_duty as u64) * (new_period as u64)) / (old_period as u64)) as u32
    }
}

/// The cache a fully successful period change leaves behind.
pub open spec fn set_period_next_spec(s: PwmChannelState, new_period: u32) -> PwmChannelState {
    PwmChannelState {
        enabled: s.enabled,
        duty_ns: rescale_duty_spec(s.duty_ns, s.period_ns, new_period) as u32,
        period_ns: new_period,
    }
}

/// The ordered writes of a period change: when the period shrinks the duty
/// must shrink first, when it grows the duty may only follow it.
pub open spec fn set_period_plan_spec(s: PwmChannelState, new_period: u32) -> Seq<RegOp> {
    let nd = rescale_duty_spec(s.duty_ns, s.period_ns, new_period) as u32;
    if new_period < s.period_ns {
        seq![RegOp::Duty(nd), RegOp::Period(new_period)]
    } else if new_period > s.period_ns {
        seq![RegOp::Period(new_period), RegOp::Duty(nd)]
    } else {
        seq![RegOp::Period(new_period)]
    }
}

/// The single write of a duty change; no bounds check is applied here, the
/// caller keeps duty below period.
pub open spec fn set_duty_next_spec(s: PwmChannelState, duty_ns: u32) -> PwmChannelState {
    PwmChannelState { enabled: s.enabled, duty_ns, period_ns: s.period_ns }
}

/// The cache after an enable or disable.
pub open spec fn set_enable_next_spec(s: PwmChannelState, enable: bool) -> PwmChannelState {
    PwmChannelState { enabled: enable, duty_ns: s.duty_ns, period_ns: s.period_ns }
}

/// The write an enable request issues; every request writes, also when the
/// cache already shows the requested state.
pub open spec fn set_enable_plan_spec(s: PwmChannelState, enable: bool) -> RegOp {
    RegOp::Enable(enable)
}

impl PwmChannelState {
    /// Plan a period change from this cache: the ordered register writes
    /// and the cache to adopt once all of them succeeded.
    pub fn set_period_plan(&self, new_period: u32) -> (r: (Vec<RegOp>, PwmChannelState))
        requires
            self.wf(),
        ensures
            r.0@ == set_period_plan_spec(*self, new_period),
            r.1 == set_period_next_spec(*self, new_period),
            r.1.wf(),
    {
        let new_duty = rescale_duty(self.duty_ns, self.period_ns, new_period);
        let next = PwmChannelState { enabled: self.enabled, duty_ns: new_duty, period_ns: new_period };
        let mut plan: Vec<RegOp> = Vec::new();
        if new_period < self.period_ns {
            plan.push(RegOp::Duty(new_duty));
            plan.push(RegOp::Period(new_period));
        } else if new_period > self.period_ns {
            plan.push(RegOp::Period(new_period));
            plan.push(RegOp::Duty(new_duty));
        } else {
            plan.push(RegOp::Period(new_period));
        }
        assert(plan@ =~= set_period_plan_spec(*self, new_period));
        (plan, next)
    }

    /// Plan a duty change: one write, no bounds check — callers are
    /// responsible for keeping duty within the period.
    pub fn set_duty_plan(&self, duty_ns: u32) -> (r: (RegOp, PwmChannelState))
        ensures
            r.0 == RegOp::Duty(duty_ns),
            r.1 == set_duty_next_spec(*self, duty_ns),
    {
        (RegOp::Duty(duty_ns), PwmChannelState { enabled: self.enabled, duty_ns, period_ns: self.period_ns })
    }

    /// Plan an enable or disable: one write to the enable register.
    pub fn set_enable_plan(&self, enable: bool) -> (r: (RegOp, PwmChannelState))
        ensures
            r.0 == set_enable_plan_spec(*self, enable),
            r.1 == set_enable_next_spec(*self, enable),
    {
        (RegOp::Enable(enable), PwmChannelState { enabled: enable, duty_ns: self.duty_ns, period_ns: self.period_ns })
    }
}

/// Requesting the enabled state twice in a row issues the same single
/// write both times, and the cache reports the channel enabled after
/// either call.
pub proof fn lemma_set_enable_idempotent(s: PwmChannelState)
    ensures
        set_enable_next_spec(s, true).enabled,
        set_enable_next_spec(set_enable_next_spec(s, true), true) == set_enable_next_spec(s, true),
        set_enable_plan_spec(set_enable_next_spec(s, true), true) == set_enable_plan_spec(s, true),
{
}

/// Write-ordering invariant of a period change: starting from registers
/// that agree with a consistent cache, every write of the plan is accepted
/// by the register file and the hardware holds `duty_ns <= period_ns`
/// after each single write; on completion the registers agree with the new
/// cache and the enable state is untouched.
pub proof fn lemma_set_period_plan_ok(cache: PwmChannelState, regs: Registers, new_period: u32)
    requires
        cache.wf(),
        regs.agrees(cache),
    ensures
        plan_ok(regs, set_period_plan_spec(cache, new_period)),
        plan_result(regs, set_period_plan_spec(cache, new_period)).agrees(
            set_period_next_spec(cache, new_period),
        ),
        plan_result(regs, set_period_plan_spec(cache, new_period)).enabled == regs.enabled,
{
    lemma_rescale_bounds(cache.duty_ns, cache.period_ns, new_period);
    let nd = rescale_duty_spec(cache.duty_ns, cache.period_ns, new_period) as u32;
    let plan = set_period_plan_spec(cache, new_period);
    let empty = Seq::<RegOp>::empty();
    if new_period < cache.period_ns {
        let r1 = regs.apply_spec(RegOp::Duty(nd));
        let r2 = r1.apply_spec(RegOp::Period(new_period));
        assert(plan.drop_first() =~= seq![RegOp::Period(new_period)]);
        assert(plan.drop_first().drop_first() =~= empty);
        assert(plan_ok(r2, empty));
        assert(plan_ok(r1, plan.drop_first()));
        assert(plan_result(r2, empty) == r2);
        assert(plan_result(r1, plan.drop_first()) == r2);
        assert(plan_result(regs, plan) == r2);
    } else if new_period > cache.period_ns {
        let r1 = regs.apply_spec(RegOp::Period(new_period));
        let r2 = r1.apply_spec(RegOp::Duty(nd));
        assert(plan.drop_first() =~= seq![RegOp::Duty(nd)]);
        assert(plan.drop_first().drop_first() =~= empty);
        assert(plan_ok(r2, empty));
        assert(plan_ok(r1, plan.drop_first()));
        assert(plan_result(r2, empty) == r2);
        assert(plan_result(r1, plan.drop_first()) == r2);
        assert(plan_result(regs, plan) == r2);
    } else {
        if cache.period_ns != 0 {
            lemma_mul_is_commutative(cache.duty_ns as int, cache.period_ns as int);
            lemma_div_multiples_vanish(cache.duty_ns as int, cache.period_ns as int);
        }
        assert(nd == cache.duty_ns);
        let r1 = regs.apply_spec(RegOp::Period(new_period));
        assert(plan.drop_first() =~= empty);
        assert(plan_ok(r1, empty));
        assert(plan_result(r1, empty) == r1);
        assert(plan_result(regs, plan) == r1);
    }
}

/// The writes that make a channel usable: nothing when the channel's
/// control files already exist; otherwise select the PWM pin function,
/// export the channel, and wait the fixed settle delay the kernel driver
/// needs before the control files become writable.
pub open spec fn setup_plan_spec(index: u32, exported: bool) -> Seq<RegOp> {
    if exported {
        Seq::<RegOp>::empty()
    } else {
        seq![RegOp::Mux, RegOp::Export(index), RegOp::Settle]
    }
}

/// The full plan of `start_pwm`: setup, the ordered period change from the
/// current register contents, then the requested duty and the enable.
pub open spec fn start_plan_spec(
    index: u32,
    current: PwmChannelState,
    duty_ns: u32,
    period_ns: u32,
    exported: bool,
) -> Seq<RegOp> {
    setup_plan_spec(index, exported) + set_period_plan_spec(current, period_ns) + seq![
        RegOp::Duty(duty_ns),
        RegOp::Enable(true),
    ]
}

impl Pwm {
    /// Plan the writes that set this channel up and start it at the given
    /// duty and period. `current` is the channel's present register
    /// contents (all zero on a never-written channel), `exported` whether
    /// its control files already exist; an already-exported channel needs
    /// no setup write at all.
    pub fn start_pwm(
        &self,
        current: PwmChannelState,
        duty_ns: u32,
        period_ns: u32,
        exported: bool,
    ) -> (r: (Vec<RegOp>, PwmChannelState))
        requires
            current.wf(),
        ensures
            r.0@ == start_plan_spec(self.index, current, duty_ns, period_ns, exported),
            r.1 == (PwmChannelState { enabled: true, duty_ns, period_ns }),
    {
        let mut plan: Vec<RegOp> = Vec::new();
        if !exported {
            plan.push(RegOp::Mux);
            plan.push(RegOp::Export(self.index));
            plan.push(RegOp::Settle);
        }
        let (mut period_plan, _) = current.set_period_plan(period_ns);
        plan.append(&mut period_plan);
        plan.push(RegOp::Duty(duty_ns));
        plan.push(RegOp::Enable(true));
        assert(plan@ =~= start_plan_spec(self.index, current, duty_ns, period_ns, exported));
        (plan, PwmChannelState { enabled: true, duty_ns, period_ns })
    }
}

/// The smaller of two periods.
pub open spec fn min_u32(a: u32, b: u32) -> u32 {
    if a <= b {
        a
    } else {
        b
    }
}

/// The ordered writes of a blink reconfiguration: disable the output; if
/// the stored duty exceeds the shared minimum of the old and new period,
/// proactively reduce it to that minimum so the period write cannot be
/// rejected; write the new period, the real target duty, and re-enable.
pub open spec fn blink_plan_spec(s: PwmChannelState, duty_ns: u32, period_ns: u32) -> Seq<RegOp> {
    let shared_min = min_u32(s.period_ns, period_ns);
    let head = if s.duty_ns > shared_min {
        seq![RegOp::Enable(false), RegOp::Duty(shared_min)]
    } else {
        seq![RegOp::Enable(false)]
    };
    head + seq![RegOp::Period(period_ns), RegOp::Duty(duty_ns), RegOp::Enable(true)]
}

/// The cache a fully successful blink reconfiguration leaves behind.
pub open spec fn blink_next_spec(s: PwmChannelState, duty_ns: u32, period_ns: u32) -> PwmChannelState {
    PwmChannelState { enabled: true, duty_ns, period_ns }
}

impl PwmChannelState {
    /// Plan a blink reconfiguration to a new period with a target duty
    /// already expressed in nanoseconds of the new period.
    pub fn blink_plan(&self, duty_ns: u32, period_ns: u32) -> (r: (Vec<RegOp>, PwmChannelState))
        requires
            self.wf(),
            duty_ns <= period_ns,
        ensures
            r.0@ == blink_plan_spec(*self, duty_ns, period_ns),
            r.1 == blink_next_spec(*self, duty_ns, period_ns),
            r.1.wf(),
    {
        let shared_min = if self.period_ns <= period_ns {
            self.period_ns
        } else {
            period_ns
        };
        let mut plan: Vec<RegOp> = Vec::new();
        plan.push(RegOp::Enable(false));
        if self.duty_ns > shared_min {
            plan.push(RegOp::Duty(shared_min));
        }
        plan.push(RegOp::Period(period_ns));
        plan.push(RegOp::Duty(duty_ns));
        plan.push(RegOp::Enable(true));
        assert(plan@ =~= blink_plan_spec(*self, duty_ns, period_ns));
        (plan, PwmChannelState { enabled: true, duty_ns, period_ns })
    }
}

/// Write-ordering invariant of a blink reconfiguration: from registers
/// that agree with a consistent cache, every write of the plan is accepted
/// and the hardware invariant holds after each write; the registers end
/// enabled at the new duty and period.
pub proof fn lemma_blink_plan_ok(
    cache: PwmChannelState,
    regs: Registers,
    duty_ns: u32,
    period_ns: u32,
)
    requires
        cache.wf(),
        regs.agrees(cache),
        duty_ns <= period_ns,
    ensures
        plan_ok(regs, blink_plan_spec(cache, duty_ns, period_ns)),
        plan_result(regs, blink_plan_spec(cache, duty_ns, period_ns)) == (Registers {
            enabled: true,
            duty_ns,
            period_ns,
        }),
{
    let plan = blink_plan_spec(cache, duty_ns, period_ns);
    let shared_min = min_u32(cache.period_ns, period_ns);
    let empty = Seq::<RegOp>::empty();
    let tail = seq![RegOp::Period(period_ns), RegOp::Duty(duty_ns), RegOp::Enable(true)];
    if cache.duty_ns > shared_min {
        assert(plan =~= seq![RegOp::Enable(false), RegOp::Duty(shared_min)] + tail);
        let r1 = regs.apply_spec(RegOp::Enable(false));
        let r2 = r1.apply_spec(RegOp::Duty(shared_min));
        let r3 = r2.apply_spec(RegOp::Period(period_ns));
        let r4 = r3.apply_spec(RegOp::Duty(duty_ns));
        let r5 = r4.apply_spec(RegOp::Enable(true));
        assert(plan.drop_first() =~= seq![RegOp::Duty(shared_min)] + tail);
        assert(plan.drop_first().drop_first() =~= tail);
        assert(tail.drop_first() =~= seq![RegOp::Duty(duty_ns), RegOp::Enable(true)]);
        assert(tail.drop_first().drop_first() =~= seq![RegOp::Enable(true)]);
        assert(tail.drop_first().drop_first().drop_first() =~= empty);
        assert(plan_ok(r5, empty));
        assert(plan_ok(r4, tail.drop_first().drop_first()));
        assert(plan_ok(r3, tail.drop_first()));
        assert(plan_ok(r2, tail));
        assert(plan_ok(r1, plan.drop_first()));
        assert(plan_result(r5, empty) == r5);
        assert(plan_result(r4, tail.drop_first().drop_first()) == r5);
        assert(plan_result(r3, tail.drop_first()) == r5);
        assert(plan_result(r2, tail) == r5);
        assert(plan_result(r1, plan.drop_first()) == r5);
        assert(plan_result(regs, plan) == r5);
    } else {
        assert(plan =~= seq![RegOp::Enable(false)] + tail);
        let r1 = regs.apply_spec(RegOp::Enable(false));
        let r3 = r1.apply_spec(RegOp::Period(period_ns));
        let r4 = r3.apply_spec(RegOp::Duty(duty_ns));
        let r5 = r4.apply_spec(RegOp::Enable(true));
        assert(plan.drop_first() =~= tail);
        assert(tail.drop_first() =~= seq![RegOp::Duty(duty_ns), RegOp::Enable(true)]);
        assert(tail.drop_first().drop_first() =~= seq![RegOp::Enable(true)]);
        assert(tail.drop_first().drop_first().drop_first() =~= empty);
        assert(plan_ok(r5, empty));
        assert(plan_ok(r4, tail.drop_first().drop_first()));
        assert(plan_ok(r3, tail.drop_first()));
        assert(plan_ok(r1, tail));
        assert(plan_result(r5, empty) == r5);
        assert(plan_result(r4, tail.drop_first().drop_first()) == r5);
        assert(plan_result(r3, tail.drop_first()) == r5);
        assert(plan_result(r1, tail) == r5);
        assert(plan_result(regs, plan) == r5);
    }
}

/// Running a concatenation is running the parts in order.
proof fn lemma_plan_concat(regs: Registers, a: Seq<RegOp>, b: Seq<RegOp>)
    ensures
        plan_ok(regs, a + b) == (plan_ok(regs, a) && plan_ok(plan_result(regs, a), b)),
        plan_result(regs, a + b) == plan_result(plan_result(regs, a), b),
    decreases a.len(),
{
    if a.len() == 0 {
        assert(a + b =~= b);
        assert(plan_ok(regs, a));
        assert(plan_result(regs, a) == regs);
    } else {
        let r1 = regs.apply_spec(a[0]);
        assert((a + b)[0] == a[0]);
        assert((a + b).drop_first() =~= a.drop_first() + b);
        lemma_plan_concat(r1, a.drop_first(), b);
    }
}

/// Setup steps touch no register: they are always accepted and leave the
/// registers as they are.
proof fn lemma_setup_plan_ok(regs: Registers, index: u32, exported: bool)
    requires
        regs.inv(),
    ensures
        plan_ok(regs, setup_plan_spec(index, exported)),
        plan_result(regs, setup_plan_spec(index, exported)) == regs,
{
    let plan = setup_plan_spec(index, exported);
    let empty = Seq::<RegOp>::empty();
    if exported {
        assert(plan =~= empty);
        assert(plan_ok(regs, empty));
        assert(plan_result(regs, empty) == regs);
    } else {
        assert(plan.drop_first() =~= seq![RegOp::Export(index), RegOp::Settle]);
        assert(plan.drop_first().drop_first() =~= seq![RegOp::Settle]);
        assert(plan.drop_first().drop_first().drop_first() =~= empty);
        assert(plan_ok(regs, empty));
        assert(plan_ok(regs, plan.drop_first().drop_first()));
        assert(plan_ok(regs, plan.drop_first()));
        assert(plan_result(regs, empty) == regs);
        assert(plan_result(regs, plan.drop_first().drop_first()) == regs);
        assert(plan_result(regs, plan.drop_first()) == regs);
    }
}

/// Write-ordering invariant of the whole start sequence: from registers
/// that agree with a consistent cache, every write of the start plan is
/// accepted and the hardware holds `duty_ns <= period_ns` after each
/// write; the registers end enabled at the requested duty and period.
pub proof fn lemma_start_plan_ok(
    index: u32,
    current: PwmChannelState,
    regs: Registers,
    duty_ns: u32,
    period_ns: u32,
    exported: bool,
)
    requires
        current.wf(),
        regs.agrees(current),
        duty_ns <= period_ns,
    ensures
        plan_ok(regs, start_plan_spec(index, current, duty_ns, period_ns, exported)),
        plan_result(regs, start_plan_spec(index, current, duty_ns, period_ns, exported)) == (
        Registers { enabled: true, duty_ns, period_ns }),
{
    let setup = setup_plan_spec(index, exported);
    let period_plan = set_period_plan_spec(current, period_ns);
    let tail = seq![RegOp::Duty(duty_ns), RegOp::Enable(true)];
    let empty = Seq::<RegOp>::empty();

    lemma_setup_plan_ok(regs, index, exported);
    lemma_set_period_plan_ok(current, regs, period_ns);
    let r1 = plan_result(regs, period_plan);

    let r2 = r1.apply_spec(RegOp::Duty(duty_ns));
    let r3 = r2.apply_spec(RegOp::Enable(true));
    assert(r1.period_ns == period_ns);
    assert(tail.drop_first() =~= seq![RegOp::Enable(true)]);
    assert(tail.drop_first().drop_first() =~= empty);
    assert(plan_ok(r3, empty));
    assert(plan_ok(r2, tail.drop_first()));
    assert(plan_ok(r1, tail));
    assert(plan_result(r3, empty) == r3);
    assert(plan_result(r2, tail.drop_first()) == r3);
    assert(plan_result(r1, tail) == r3);

    lemma_plan_concat(regs, period_plan, tail);
    lemma_plan_concat(regs, setup, period_plan + tail);
    assert(setup + (period_plan + tail) =~= setup + period_plan + tail);
}

/// The failure class of a plan step that could not be performed: setup
/// steps fail the export, register writes fail the write.
pub fn classify_failure(op: &RegOp) -> (e: ActuatorError)
    ensures
        (*op is Mux || *op is Export || *op is Settle) ==> e == ActuatorError::Export,
        (*op is Duty || *op is Period || *op is Enable) ==> e == ActuatorError::Write,
{
    match *op {
        RegOp::Mux | RegOp::Export(_) | RegOp::Settle => ActuatorError::Export,
        RegOp::Duty(_) | RegOp::Period(_) | RegOp::Enable(_) => ActuatorError::Write,
    }
}

} // verus!
