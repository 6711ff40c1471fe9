use actuators::pin::Gpio;
use actuators::pwm::PwmChannelState;
use actuators::registry::ChannelRegistry;

#[test]
fn registry_populates_lazily_with_unique_keys() {
    let mut reg = ChannelRegistry::new();
    assert!(reg.find(Gpio::P9_14).is_none());

    let (i, created) = reg.ensure_channel(Gpio::P9_14);
    assert_eq!(i, 0);
    assert!(created);
    assert_eq!(
        reg.state_at(i),
        PwmChannelState { enabled: false, duty_ns: 0, period_ns: 0 }
    );

    let (j, created) = reg.ensure_channel(Gpio::P9_14);
    assert_eq!(j, 0);
    assert!(!created);

    let (k, created) = reg.ensure_channel(Gpio::P9_22);
    assert_eq!(k, 1);
    assert!(created);
    assert_eq!(reg.find(Gpio::P9_22), Some(1));
    assert_eq!(reg.find(Gpio::P9_14), Some(0));
    assert!(reg.find(Gpio::P8_13).is_none());
}

#[test]
fn registry_updates_keep_the_key() {
    let mut reg = ChannelRegistry::new();
    let (i, _) = reg.ensure_channel(Gpio::P9_16);
    let running = PwmChannelState { enabled: true, duty_ns: 10000, period_ns: 20000 };
    reg.set_state(i, running);
    assert_eq!(reg.state_at(i), running);
    assert_eq!(reg.find(Gpio::P9_16), Some(i));
}
