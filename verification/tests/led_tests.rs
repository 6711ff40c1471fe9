use actuators::errors::ActuatorError;
use actuators::gpioled::State;
use actuators::pin::{Gpio, GpioToPwm};
use actuators::pwm::{PwmChannelState, RegOp, Registers};
use actuators::pwmled::PwmLed;
use actuators::rgbled::RGBLed;

fn led_at(duty_ns: u32, period_ns: u32) -> PwmLed {
    PwmLed {
        pwm: GpioToPwm(&Gpio::P9_14).unwrap(),
        state: PwmChannelState { enabled: true, duty_ns, period_ns },
    }
}

#[test]
fn pwm_table_maps_capable_pins() {
    let p = GpioToPwm(&Gpio::P9_14).unwrap();
    assert_eq!(p.sysfs, 4);
    assert_eq!(p.index, 0);
    assert_eq!(p.chip, "48302000");
    assert_eq!(p.addr, "48302200");
    assert_eq!(p.key, "P9_14");
    let p = GpioToPwm(&Gpio::P8_13).unwrap();
    assert_eq!(p.sysfs, 7);
    assert_eq!(p.index, 1);
    assert_eq!(p.chip, "48304000");
    assert_eq!(p.addr, "48304200");
    assert_eq!(p.key, "P8_13");
}

#[test]
fn pwm_table_rejects_incapable_pins() {
    assert!(GpioToPwm(&Gpio::P9_12).is_none());
    assert!(GpioToPwm(&Gpio::P9_18).is_none());
}

#[test]
fn pin_numbers_match_the_header() {
    assert_eq!(Gpio::P8_13.pin_number(), 23);
    assert_eq!(Gpio::P9_12.pin_number(), 60);
    assert_eq!(Gpio::P9_14.pin_number(), 50);
    assert_eq!(Gpio::P9_16.pin_number(), 51);
    assert_eq!(Gpio::P9_18.pin_number(), 4);
    assert_eq!(Gpio::P9_22.pin_number(), 2);
    assert_eq!(Gpio::P9_28.pin_number(), 113);
}

#[test]
fn gpio_state_bytes() {
    assert_eq!(State::LOW.value(), 0);
    assert_eq!(State::HIGH.value(), 1);
}

#[test]
fn led_on_incapable_pin_is_a_config_error() {
    match PwmLed::new(Gpio::P9_12) {
        Err(e) => assert_eq!(e, ActuatorError::Config),
        Ok(_) => panic!("a pin without PWM must not construct an LED"),
    }
}

#[test]
fn new_led_starts_fully_on() {
    let (led, plan) = PwmLed::new(Gpio::P9_14).unwrap();
    assert_eq!(led.state, PwmChannelState { enabled: true, duty_ns: 20000, period_ns: 20000 });
    let mut regs = Registers { enabled: false, duty_ns: 0, period_ns: 0 };
    for op in &plan {
        assert!(regs.apply(op));
        assert!(regs.duty_ns <= regs.period_ns);
    }
    assert_eq!(regs, Registers { enabled: true, duty_ns: 20000, period_ns: 20000 });
}

#[test]
fn new_led_takes_a_starting_luminosity() {
    let (led, _) = PwmLed::new_with_luminosity(Gpio::P9_22, 250).unwrap();
    assert_eq!(led.state.duty_ns, 5000);
    assert_eq!(led.state.period_ns, 20000);
}

#[test]
fn luminosity_above_one_behaves_like_one() {
    let led = led_at(0, 20000);
    assert_eq!(led.set_luminosity(1500), led.set_luminosity(1000));
    let (op, next) = led.set_luminosity(1500);
    assert_eq!(op, RegOp::Duty(20000));
    assert_eq!(next.duty_ns, 20000);
}

#[test]
fn luminosity_below_zero_behaves_like_zero() {
    let led = led_at(10000, 20000);
    assert_eq!(led.set_luminosity(-300), led.set_luminosity(0));
    let (op, next) = led.set_luminosity(-300);
    assert_eq!(op, RegOp::Duty(0));
    assert_eq!(next.duty_ns, 0);
}

#[test]
fn luminosity_scales_the_period() {
    let led = led_at(0, 20000);
    let (op, next) = led.set_luminosity(500);
    assert_eq!(op, RegOp::Duty(10000));
    assert_eq!(next, PwmChannelState { enabled: true, duty_ns: 10000, period_ns: 20000 });
}

#[test]
fn read_back_luminosity() {
    assert_eq!(led_at(10000, 20000).get_luminosity(), 500);
    assert_eq!(led_at(0, 20000).get_luminosity(), 0);
    assert_eq!(led_at(20000, 20000).get_luminosity(), 1000);
}

#[test]
fn led_fade_plans_even_duty_steps() {
    let led = led_at(0, 20000);
    let (writes, next) = led.fade_to(1000, 500, 100);
    assert_eq!(writes, vec![4000, 8000, 12000, 16000, 20000]);
    assert_eq!(next, PwmChannelState { enabled: true, duty_ns: 20000, period_ns: 20000 });
}

#[test]
fn led_fade_shorter_than_one_period_is_one_jump() {
    let led = led_at(20000, 20000);
    let (writes, next) = led.fade_to(0, 50, 100);
    assert_eq!(writes, vec![0]);
    assert_eq!(next.duty_ns, 0);
}

#[test]
fn led_blink_orders_the_reconfiguration() {
    let led = led_at(10000, 20000);
    let (plan, next) = led.blink(500, 5000);
    assert_eq!(
        plan,
        vec![
            RegOp::Enable(false),
            RegOp::Duty(5000),
            RegOp::Period(5000),
            RegOp::Duty(2500),
            RegOp::Enable(true),
        ]
    );
    assert_eq!(next, PwmChannelState { enabled: true, duty_ns: 2500, period_ns: 5000 });
    let mut regs = Registers { enabled: true, duty_ns: 10000, period_ns: 20000 };
    for op in &plan {
        assert!(regs.apply(op));
        assert!(regs.duty_ns <= regs.period_ns);
    }
}

#[test]
fn color_codes_scale_by_alpha() {
    let (r, g, b) = RGBLed::color_code_to_luminosity(255, 0, 0, 255);
    assert_eq!(r, 255000);
    assert_eq!(g, 0);
    assert_eq!(b, 0);
    let (r, g, b) = RGBLed::color_code_to_luminosity(128, 64, 0, 255);
    assert_eq!(r, 128000);
    assert_eq!(g, 64000);
    assert_eq!(b, 0);
}

#[test]
fn color_codes_clamp_above_255() {
    let (r, _, _) = RGBLed::color_code_to_luminosity(300, 0, 0, 300);
    assert_eq!(r, 255000);
}

#[test]
fn rgb_led_needs_three_capable_pins() {
    match RGBLed::new((Gpio::P9_22, Gpio::P9_12, Gpio::P9_14)) {
        Err(e) => assert_eq!(e, ActuatorError::Config),
        Ok(_) => panic!("a pin without PWM must not construct a light"),
    }
}

#[test]
fn rgb_led_starts_all_channels() {
    let (led, (pr, pg, pb)) = RGBLed::new((Gpio::P9_22, Gpio::P8_13, Gpio::P9_14)).unwrap();
    assert_eq!(led.r_led.state.duty_ns, 20000);
    assert_eq!(led.g_led.state.duty_ns, 20000);
    assert_eq!(led.b_led.state.duty_ns, 20000);
    assert!(!pr.is_empty() && !pg.is_empty() && !pb.is_empty());
}

#[test]
fn rgb_set_color_plans_one_write_per_channel() {
    let led = RGBLed { r_led: led_at(0, 20000), g_led: led_at(0, 20000), b_led: led_at(0, 20000) };
    let ((opr, _), (opg, _), (opb, _)) = led.set_color((1000, 500, 0));
    assert_eq!(opr, RegOp::Duty(20000));
    assert_eq!(opg, RegOp::Duty(10000));
    assert_eq!(opb, RegOp::Duty(0));
}

#[test]
fn rgb_fade_shares_the_step_count() {
    let led = RGBLed {
        r_led: led_at(0, 20000),
        g_led: led_at(20000, 20000),
        b_led: led_at(10000, 20000),
    };
    let (pr, pg, pb) = led.fade_to((1000, 0, 500), 400, 100);
    assert_eq!(pr.len(), 4);
    assert_eq!(pg.len(), 4);
    assert_eq!(pb.len(), 4);
    assert_eq!(pr, vec![250, 500, 750, 1000]);
    assert_eq!(pg, vec![750, 500, 250, 0]);
    assert_eq!(pb, vec![500, 500, 500, 500]);
}

#[test]
fn rgb_blink_plans_every_channel() {
    let led = RGBLed {
        r_led: led_at(10000, 20000),
        g_led: led_at(0, 20000),
        b_led: led_at(0, 20000),
    };
    let ((plan_r, next_r), (_, next_g), (_, next_b)) = led.blink(500, 5000);
    assert_eq!(plan_r[0], RegOp::Enable(false));
    assert_eq!(next_r, PwmChannelState { enabled: true, duty_ns: 2500, period_ns: 5000 });
    assert_eq!(next_g, next_r);
    assert_eq!(next_b, next_r);
}
