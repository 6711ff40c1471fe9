use actuators::errors::ActuatorError;
use actuators::pin::{Gpio, GpioToPwm};
use actuators::pwm::{classify_failure, rescale_duty, PwmChannelState, RegOp, Registers};

fn run_plan(regs: &mut Registers, plan: &[RegOp]) {
    for op in plan {
        let ok = regs.apply(op);
        assert!(ok, "register file rejected a planned write");
        assert!(regs.duty_ns <= regs.period_ns, "hardware invariant violated");
    }
}

#[test]
fn shrink_writes_duty_first_with_proportional_rescale() {
    let cache = PwmChannelState { enabled: true, duty_ns: 10000, period_ns: 20000 };
    let (plan, next) = cache.set_period_plan(10000);
    assert_eq!(plan, vec![RegOp::Duty(5000), RegOp::Period(10000)]);
    assert_eq!(next.duty_ns, 5000);
    assert_eq!(next.period_ns, 10000);
    assert_eq!(next.enabled, true);

    let mut regs = Registers { enabled: true, duty_ns: 10000, period_ns: 20000 };
    run_plan(&mut regs, &plan);
    assert_eq!(regs, Registers { enabled: true, duty_ns: 5000, period_ns: 10000 });
}

#[test]
fn grow_writes_period_first() {
    let cache = PwmChannelState { enabled: true, duty_ns: 5000, period_ns: 10000 };
    let (plan, next) = cache.set_period_plan(20000);
    assert_eq!(plan, vec![RegOp::Period(20000), RegOp::Duty(10000)]);
    assert_eq!(next.duty_ns, 10000);
    assert_eq!(next.period_ns, 20000);

    let mut regs = Registers { enabled: true, duty_ns: 5000, period_ns: 10000 };
    run_plan(&mut regs, &plan);
    assert_eq!(regs, Registers { enabled: true, duty_ns: 10000, period_ns: 20000 });
}

#[test]
fn equal_period_writes_period_only() {
    let cache = PwmChannelState { enabled: false, duty_ns: 300, period_ns: 1000 };
    let (plan, next) = cache.set_period_plan(1000);
    assert_eq!(plan, vec![RegOp::Period(1000)]);
    assert_eq!(next, cache);
}

#[test]
fn rescale_duty_keeps_the_ratio() {
    assert_eq!(rescale_duty(10000, 20000, 10000), 5000);
    assert_eq!(rescale_duty(5000, 10000, 20000), 10000);
    assert_eq!(rescale_duty(1, 3, 3), 1);
    assert_eq!(rescale_duty(0, 0, 12345), 0);
}

#[test]
fn register_file_rejects_violating_writes() {
    let mut regs = Registers { enabled: false, duty_ns: 5000, period_ns: 10000 };
    assert!(!regs.apply(&RegOp::Period(4000)));
    assert_eq!(regs, Registers { enabled: false, duty_ns: 5000, period_ns: 10000 });
    assert!(!regs.apply(&RegOp::Duty(20000)));
    assert_eq!(regs, Registers { enabled: false, duty_ns: 5000, period_ns: 10000 });
    assert!(regs.apply(&RegOp::Duty(10000)));
    assert_eq!(regs.duty_ns, 10000);
}

#[test]
fn enable_twice_writes_identically_and_stays_enabled() {
    let cache = PwmChannelState { enabled: false, duty_ns: 100, period_ns: 200 };
    let (op1, s1) = cache.set_enable_plan(true);
    let (op2, s2) = s1.set_enable_plan(true);
    assert_eq!(op1, op2);
    assert_eq!(s1, s2);
    assert!(s1.enabled);

    let mut regs = Registers { enabled: false, duty_ns: 100, period_ns: 200 };
    assert!(regs.apply(&op1));
    assert!(regs.apply(&op2));
    assert!(regs.enabled);
}

#[test]
fn start_pwm_plans_setup_then_ordered_writes() {
    let pwm = GpioToPwm(&Gpio::P9_14).unwrap();
    let fresh = PwmChannelState::fresh();
    let (plan, next) = pwm.start_pwm(fresh, 10000, 20000, false);
    assert_eq!(
        plan,
        vec![
            RegOp::Mux,
            RegOp::Export(0),
            RegOp::Settle,
            RegOp::Period(20000),
            RegOp::Duty(0),
            RegOp::Duty(10000),
            RegOp::Enable(true),
        ]
    );
    assert_eq!(next, PwmChannelState { enabled: true, duty_ns: 10000, period_ns: 20000 });

    let mut regs = Registers { enabled: false, duty_ns: 0, period_ns: 0 };
    run_plan(&mut regs, &plan);
    assert_eq!(regs, Registers { enabled: true, duty_ns: 10000, period_ns: 20000 });
}

#[test]
fn start_pwm_needs_no_setup_when_already_exported() {
    let pwm = GpioToPwm(&Gpio::P9_16).unwrap();
    let current = PwmChannelState { enabled: true, duty_ns: 500, period_ns: 1000 };
    let (plan, _) = pwm.start_pwm(current, 800, 1000, true);
    assert_eq!(plan, vec![RegOp::Period(1000), RegOp::Duty(800), RegOp::Enable(true)]);
}

#[test]
fn blink_reduces_duty_before_a_shrinking_period() {
    let cache = PwmChannelState { enabled: true, duty_ns: 10000, period_ns: 20000 };
    let (plan, next) = cache.blink_plan(2500, 5000);
    assert_eq!(
        plan,
        vec![
            RegOp::Enable(false),
            RegOp::Duty(5000),
            RegOp::Period(5000),
            RegOp::Duty(2500),
            RegOp::Enable(true),
        ]
    );
    assert_eq!(next, PwmChannelState { enabled: true, duty_ns: 2500, period_ns: 5000 });

    let mut regs = Registers { enabled: true, duty_ns: 10000, period_ns: 20000 };
    run_plan(&mut regs, &plan);
    assert_eq!(regs, Registers { enabled: true, duty_ns: 2500, period_ns: 5000 });
}

#[test]
fn blink_needs_no_reduction_when_duty_already_fits() {
    let cache = PwmChannelState { enabled: true, duty_ns: 1000, period_ns: 20000 };
    let (plan, _) = cache.blink_plan(2500, 5000);
    assert_eq!(
        plan,
        vec![
            RegOp::Enable(false),
            RegOp::Period(5000),
            RegOp::Duty(2500),
            RegOp::Enable(true),
        ]
    );
}

#[test]
fn plan_step_failures_classify_by_phase() {
    assert_eq!(classify_failure(&RegOp::Mux), ActuatorError::Export);
    assert_eq!(classify_failure(&RegOp::Export(1)), ActuatorError::Export);
    assert_eq!(classify_failure(&RegOp::Settle), ActuatorError::Export);
    assert_eq!(classify_failure(&RegOp::Duty(1)), ActuatorError::Write);
    assert_eq!(classify_failure(&RegOp::Period(1)), ActuatorError::Write);
    assert_eq!(classify_failure(&RegOp::Enable(true)), ActuatorError::Write);
}

#[test]
fn error_messages_name_the_failure() {
    assert_eq!(ActuatorError::Range.message(), "value outside the representable domain");
    assert_eq!(ActuatorError::Config.message(), "pin has no PWM capability");
}
