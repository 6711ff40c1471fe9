use actuators::codec::{decode14, Maestro};
use actuators::errors::ActuatorError;
use actuators::pin::Gpio;
use actuators::pwm::{PwmChannelState, RegOp, Registers};
use actuators::servo::{GoToPlan, Servo, ServoCommand};

#[test]
fn servo_on_incapable_pin_is_a_config_error() {
    match Servo::new(Gpio::P9_18, 180) {
        Err(e) => assert_eq!(e, ActuatorError::Config),
        Ok(_) => panic!("a pin without PWM must not construct a servo"),
    }
}

#[test]
fn new_servo_starts_at_the_requested_position() {
    let (servo, plan) = Servo::new_with_position(Gpio::P9_14, 180, 90).unwrap();
    let mut regs = Registers { enabled: false, duty_ns: 0, period_ns: 0 };
    for op in &plan {
        assert!(regs.apply(op));
        assert!(regs.duty_ns <= regs.period_ns);
    }
    assert_eq!(regs, Registers { enabled: true, duty_ns: 1500000, period_ns: 16666666 });
    match servo.set_position(90) {
        ServoCommand::Pulse(op, _) => assert_eq!(op, RegOp::Duty(1500000)),
        ServoCommand::Frame(_) => panic!("a local servo plans pulse writes"),
    }
}

#[test]
fn pwm_position_maps_linearly_into_the_pulse_window() {
    let (servo, _) = Servo::new(Gpio::P9_14, 180).unwrap();
    let duty_of = |p: i32| -> u32 {
        match servo.set_position(p) {
            ServoCommand::Pulse(RegOp::Duty(d), _) => d,
            _ => panic!("a local servo plans pulse writes"),
        }
    };
    assert_eq!(duty_of(0), 500000);
    assert_eq!(duty_of(180), 2500000);
    assert_eq!(duty_of(90), 1500000);
    assert_eq!(duty_of(45), 1000000);
}

#[test]
fn pwm_position_requests_clamp_to_the_range() {
    let (servo, _) = Servo::new(Gpio::P9_22, 180).unwrap();
    let duty_of = |p: i32| -> u32 {
        match servo.set_position(p) {
            ServoCommand::Pulse(RegOp::Duty(d), _) => d,
            _ => panic!("a local servo plans pulse writes"),
        }
    };
    assert_eq!(duty_of(200), duty_of(180));
    assert_eq!(duty_of(-5), duty_of(0));
}

#[test]
fn pwm_get_position_inverts_the_mapping() {
    let (servo, _) = Servo::new_with_position(Gpio::P9_14, 180, 90).unwrap();
    assert_eq!(servo.get_position(), 90);
    let (servo, _) = Servo::new_with_position(Gpio::P9_14, 180, 0).unwrap();
    assert_eq!(servo.get_position(), 0);
    let (servo, _) = Servo::new_with_position(Gpio::P9_14, 180, 180).unwrap();
    assert_eq!(servo.get_position(), 180);
}

#[test]
fn maestro_servo_position_maps_to_a_target_frame() {
    let servo = Servo::new_from_maestro(180, 3, Maestro::new());
    match servo.set_position(90) {
        ServoCommand::Frame(f) => {
            assert_eq!(f, vec![0xAA, 0x0C, 0x04, 0x03, 0x70, 0x2E]);
        },
        ServoCommand::Pulse(..) => panic!("a remote servo plans frames"),
    }
}

#[test]
fn maestro_servo_clamps_positions_into_its_range() {
    let servo = Servo::new_from_maestro(180, 0, Maestro::new());
    let target_of = |p: i32| -> u16 {
        match servo.set_position(p) {
            ServoCommand::Frame(f) => decode14(f[4], f[5]),
            ServoCommand::Pulse(..) => panic!("a remote servo plans frames"),
        }
    };
    assert_eq!(target_of(0), 2000);
    assert_eq!(target_of(180), 10000);
    assert_eq!(target_of(300), 10000);
    assert_eq!(target_of(-10), 2000);
}

#[test]
fn position_from_target_inverts_the_mapping() {
    let servo = Servo::new_from_maestro(180, 0, Maestro::new());
    assert_eq!(servo.position_from_target(6000), 90);
    assert_eq!(servo.position_from_target(2000), 0);
    assert_eq!(servo.position_from_target(10000), 180);
    assert_eq!(servo.position_from_target(1500), 0);
}

#[test]
fn pwm_sweep_steps_the_pulse_width() {
    let (servo, _) = Servo::new_with_position(Gpio::P9_14, 180, 0).unwrap();
    match servo.go_to(0, 180, 500, 100) {
        GoToPlan::DutySteps(writes, next) => {
            assert_eq!(writes, vec![900000, 1300000, 1700000, 2100000, 2500000]);
            assert_eq!(
                next,
                PwmChannelState { enabled: true, duty_ns: 2500000, period_ns: 16666666 }
            );
        },
        GoToPlan::Frames(_) => panic!("a local servo plans pulse writes"),
    }
}

#[test]
fn maestro_sweep_advances_one_increment_each_step() {
    let servo = Servo::new_from_maestro(180, 2, Maestro::new());
    match servo.go_to(90, 180, 300, 100) {
        GoToPlan::Frames(frames) => {
            assert_eq!(frames.len(), 3);
            let targets: Vec<u16> = frames
                .iter()
                .map(|f| {
                    assert_eq!(&f[0..4], &[0xAA, 0x0C, 0x04, 0x02]);
                    decode14(f[4], f[5])
                })
                .collect();
            assert_eq!(targets, vec![7333, 8666, 10000]);
        },
        GoToPlan::DutySteps(..) => panic!("a remote servo plans frames"),
    }
}

#[test]
fn sweep_with_uneven_steps_lands_on_the_target() {
    let servo = Servo::new_from_maestro(180, 0, Maestro::new());
    match servo.go_to(0, 90, 5000, 100) {
        GoToPlan::Frames(frames) => {
            assert_eq!(frames.len(), 50);
            let last = &frames[49];
            assert_eq!(decode14(last[4], last[5]), 6000);
        },
        GoToPlan::DutySteps(..) => panic!("a remote servo plans frames"),
    }
}

#[test]
fn sweep_shorter_than_one_period_is_one_step() {
    let servo = Servo::new_from_maestro(180, 0, Maestro::new());
    match servo.go_to(10, 180, 50, 100) {
        GoToPlan::Frames(frames) => {
            assert_eq!(frames.len(), 1);
            assert_eq!(decode14(frames[0][4], frames[0][5]), 10000);
        },
        GoToPlan::DutySteps(..) => panic!("a remote servo plans frames"),
    }
}
