//! Driver core for PWM-backed and serial-backed actuators.
//!
//! The library holds the pure, verified half of the driver: the pin lookup
//! table, the PWM channel write planner with its ordering invariant, the
//! serial motor-controller frame codec, and the step interpolation engine.
//! Executing the planned register writes and frames against the hardware
//! (file and serial I/O) is left to the surrounding application.

pub mod arith;
pub mod codec;
pub mod errors;
pub mod fade;
pub mod gpioled;
pub mod pin;
pub mod pwm;
pub mod pwmled;
pub mod registry;
pub mod regtext;
pub mod rgbled;
pub mod servo;
