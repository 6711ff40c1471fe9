//! Static table mapping logical pin identifiers to hardware PWM descriptors.

use vstd::prelude::*;

verus! {

/// Logical pin identifiers of the header pins the driver knows about.
#[allow(non_camel_case_types)]
#[derive(Debug, PartialEq, Eq, Hash, Clone, Copy, Structural)]
pub enum Gpio {
    P8_13,
    P9_12,
    P9_14,
    P9_16,
    P9_18,
    P9_22,
    P9_28,
}

impl Gpio {
    /// Kernel GPIO line number of this pin.
    pub open spec fn pin_number_spec(self) -> u64 {
        match self {
            Gpio::P8_13 => 23,
            Gpio::P9_12 => 60,
            Gpio::P9_14 => 50,
            Gpio::P9_16 => 51,
            Gpio::P9_18 => 4,
            Gpio::P9_22 => 2,
            Gpio::P9_28 => 113,
        }
    }

    /// Kernel GPIO line number of this pin.
    pub fn pin_number(&self) -> (n: u64)
        ensures
            n == self.pin_number_spec(),
    {
        match self {
            Gpio::P8_13 => 23,
            Gpio::P9_12 => 60,
            Gpio::P9_14 => 50,
            Gpio::P9_16 => 51,
            Gpio::P9_18 => 4,
            Gpio::P9_22 => 2,
            Gpio::P9_28 => 113,
        }
    }
}

/// Hardware descriptor of one PWM channel: subsystem index and channel
/// index, plus the controller and multiplexer identifiers used to address
/// the channel's control registers.
pub struct Pwm {
    pub sysfs: u32,
    pub index: u32,
    pub chip: String,
    pub addr: String,
    pub key: String,
}

/// Whether this pin has a PWM-capable hardware channel behind it.
pub open spec fn has_pwm(gpio: Gpio) -> bool {
    match gpio {
        Gpio::P9_14 | Gpio::P9_16 | Gpio::P9_22 | Gpio::P9_28 | Gpio::P8_13 => true,
        Gpio::P9_12 | Gpio::P9_18 => false,
    }
}

/// The descriptor the table assigns to a PWM-capable pin.
pub open spec fn pwm_descriptor_for(gpio: Gpio, p: Pwm) -> bool {
    match gpio {
        Gpio::P9_14 => p.sysfs == 4 && p.index == 0 && p.chip@ == "48302000"@ && p.addr@
            == "48302200"@ && p.key@ == "P9_14"@,
        Gpio::P9_16 => p.sysfs == 4 && p.index == 1 && p.chip@ == "48302000"@ && p.addr@
            == "48302200"@ && p.key@ == "P9_16"@,
        Gpio::P9_22 => p.sysfs == 1 && p.index == 0 && p.chip@ == "48300000"@ && p.addr@
            == "48300200"@ && p.key@ == "P9_22"@,
        Gpio::P9_28 => p.sysfs == 6 && p.index == 0 && p.chip@ == "48304000"@ && p.addr@
            == "48304100"@ && p.key@ == "P9_28"@,
        Gpio::P8_13 => p.sysfs == 7 && p.index == 1 && p.chip@ == "48304000"@ && p.addr@
            == "48304200"@ && p.key@ == "P8_13"@,
        _ => false,
    }
}

/// Look a pin up in the static table: `Some` exactly for the PWM-capable
/// pins, with the controller addresses the board wires them to.
#[allow(non_snake_case)]
pub fn GpioToPwm(gpio: &Gpio) -> (r: Option<Pwm>)
    ensures
        r is Some <==> has_pwm(*gpio),
        r is Some ==> pwm_descriptor_for(*gpio, r.unwrap()),
{
    match gpio {
        Gpio::P9_14 => Some(
            Pwm {
                sysfs: 4,
                index: 0,
                chip: "48302000".to_owned(),
                addr: "48302200".to_owned(),
                key: "P9_14".to_owned(),
            },
        ),
        Gpio::P9_16 => Some(
            Pwm {
                sysfs: 4,
                index: 1,
                chip: "48302000".to_owned(),
                addr: "48302200".to_owned(),
                key: "P9_16".to_owned(),
            },
        ),
        Gpio::P9_22 => Some(
            Pwm {
                sysfs: 1,
                index: 0,
                chip: "48300000".to_owned(),
                addr: "48300200".to_owned(),
                key: "P9_22".to_owned(),
            },
        ),
        Gpio::P9_28 => Some(
            Pwm {
                sysfs: 6,
                index: 0,
                chip: "48304000".to_owned(),
                addr: "48304100".to_owned(),
                key: "P9_28".to_owned(),
            },
        ),
        Gpio::P8_13 => Some(
            Pwm {
                sysfs: 7,
                index: 1,
                chip: "48304000".to_owned(),
                addr: "48304200".to_owned(),
                key: "P8_13".to_owned(),
            },
        ),
        _ => None,
    }
}

} // verus!
