//! Failure taxonomy shared by the driver's components.

use vstd::prelude::*;

verus! {

/// One typed failure per failure class: the hardware could not be exported
/// or put into PWM mode, a register or frame write failed, the serial link
/// returned a malformed or short response, a caller-supplied value lies
/// outside the representable domain, or a pin has no PWM capability.
#[derive(Debug, PartialEq, Eq, Structural, Clone, Copy)]
pub enum ActuatorError {
    Export,
    Write,
    Protocol,
    Range,
    Config,
}

impl ActuatorError {
    /// Short description of the failure, for the surrounding application's
    /// diagnostics.
    pub fn message(&self) -> (m: &'static str)
        ensures
            *self is Export ==> m@ == "could not export or multiplex the PWM channel"@,
            *self is Write ==> m@ == "a register or frame write failed"@,
            *self is Protocol ==> m@ == "malformed or short response on the serial link"@,
            *self is Range ==> m@ == "value outside the representable domain"@,
            *self is Config ==> m@ == "pin has no PWM capability"@,
    {
        match self {
            ActuatorError::Export => "could not export or multiplex the PWM channel",
            ActuatorError::Write => "a register or frame write failed",
            ActuatorError::Protocol => "malformed or short response on the serial link",
            ActuatorError::Range => "value outside the representable domain",
            ActuatorError::Config => "pin has no PWM capability",
        }
    }
}

} // verus!
