//! Step interpolation engine shared by the fades and the servo sweeps.
//!
//! A motion walks a quantity from its current value to a target value over
//! a wall-clock duration, in fixed-size time steps. The number of steps is
//! the duration divided by the update period, floored, and never below one.
//! The `i`-th step commands the value `i` steps of the way from the start
//! to the target, rounded down, so the walked values are monotone, differ
//! step to step by the truncated per-step increment or one more, and the
//! last step lands exactly on the target; the backend units (duty
//! nanoseconds, per-mille luminosity, position) are the caller's choice.

use vstd::arithmetic::div_mod::{
    lemma_div_by_self, lemma_div_is_ordered, lemma_div_multiples_vanish, lemma_div_pos_is_pos,
};
use vstd::arithmetic::mul::{
    lemma_mul_inequality, lemma_mul_is_commutative, lemma_mul_nonnegative,
};
use vstd::prelude::*;

use crate::arith::mul_div_u32;

verus! {

/// Number of interpolation steps: the duration divided by the update
/// period, floored, and at least one even when the duration is shorter
/// than one update period.
pub open spec fn steps_spec(duration_ms: u32, update_period_ms: u32) -> int
    recommends
        update_period_ms > 0,
{
    let q = duration_ms as int / update_period_ms as int;
    if q == 0 {
        1
    } else {
        q
    }
}

/// Compute the step count of a motion.
pub fn compute_steps(duration_ms: u32, update_period_ms: u32) -> (s: u32)
    requires
        update_period_ms > 0,
    ensures
        s == steps_spec(duration_ms, update_period_ms),
        1 <= s,
        duration_ms >= update_period_ms ==> s == duration_ms / update_period_ms,
{
    proof {
        if duration_ms >= update_period_ms {
            lemma_div_is_ordered(
                update_period_ms as int,
                duration_ms as int,
                update_period_ms as int,
            );
            lemma_div_by_self(update_period_ms as int);
        }
    }
    let q = duration_ms / update_period_ms;
    if q == 0 {
        1
    } else {
        q
    }
}

/// The value the ramp commands after `i` of `steps` increments: the value
/// `i` steps of the way from the starting value to the target, rounded
/// down toward the starting value.
pub open spec fn ramp_value_spec(current: u32, wanted: u32, steps: u32, i: int) -> int
    recommends
        1 <= steps,
{
    if wanted >= current {
        current + ((wanted - current) * i) / (steps as int)
    } else {
        current - ((current - wanted) * i) / (steps as int)
    }
}

/// The ramp never leaves the interval between its starting value and its
/// target.
pub proof fn lemma_ramp_bounds(current: u32, wanted: u32, steps: u32, i: int)
    requires
        1 <= steps,
        0 <= i <= steps,
    ensures
        current <= wanted ==> current <= ramp_value_spec(current, wanted, steps, i) <= wanted,
        wanted < current ==> wanted <= ramp_value_spec(current, wanted, steps, i) <= current,
{
    let delta: int = if current <= wanted {
        (wanted - current) as int
    } else {
        (current - wanted) as int
    };
    lemma_mul_nonnegative(delta, i);
    lemma_div_pos_is_pos(delta * i, steps as int);
    lemma_mul_inequality(i, steps as int, delta);
    lemma_mul_is_commutative(i, delta);
    lemma_mul_is_commutative(steps as int, delta);
    lemma_div_is_ordered(delta * i, delta * (steps as int), steps as int);
    lemma_mul_is_commutative(delta, steps as int);
    lemma_div_multiples_vanish(delta, steps as int);
}

/// The ramp's last step commands the target exactly.
pub proof fn lemma_ramp_exact(current: u32, wanted: u32, steps: u32)
    requires
        1 <= steps,
    ensures
        ramp_value_spec(current, wanted, steps, steps as int) == wanted,
{
    let delta: int = if current <= wanted {
        (wanted - current) as int
    } else {
        (current - wanted) as int
    };
    lemma_mul_is_commutative(delta, steps as int);
    lemma_div_multiples_vanish(delta, steps as int);
}

/// The sequence of values a motion writes: one ramp value per step, the
/// k-th entry being the ramp after `k + 1` increments. Every value stays
/// between the starting value and the target, and the last one is the
/// target itself; a step whose `set` fails aborts the motion, so the
/// actuator is left at the last value written.
pub fn fade_plan(current: u32, wanted: u32, steps: u32) -> (plan: Vec<u32>)
    requires
        1 <= steps,
    ensures
        plan@.len() == steps,
        forall|k: int|
            0 <= k < steps ==> plan@[k] == ramp_value_spec(current, wanted, steps, k + 1),
        plan@[steps - 1] == wanted,
{
    let mut plan: Vec<u32> = Vec::new();
    let mut k: u32 = 0;
    if wanted >= current {
        let delta = wanted - current;
        while k < steps
            invariant
                current <= wanted,
                1 <= steps,
                delta == wanted - current,
                0 <= k <= steps,
                plan@.len() == k,
                forall|j: int|
                    0 <= j < k ==> plan@[j] == ramp_value_spec(current, wanted, steps, j + 1),
            decreases steps - k,
        {
            let scaled = mul_div_u32(delta, k + 1, steps);
            plan.push(current + scaled);
            k = k + 1;
        }
    } else {
        let delta = current - wanted;
        while k < steps
            invariant
                wanted < current,
                1 <= steps,
                delta == current - wanted,
                0 <= k <= steps,
                plan@.len() == k,
                forall|j: int|
                    0 <= j < k ==> plan@[j] == ramp_value_spec(current, wanted, steps, j + 1),
            decreases steps - k,
        {
            let scaled = mul_div_u32(delta, k + 1, steps);
            plan.push(current - scaled);
            k = k + 1;
        }
    }
    proof {
        lemma_ramp_exact(current, wanted, steps);
    }
    plan
}

} // verus!
