//! Logic levels for a plain on/off GPIO LED.
//!
//! The LED itself is driven through the GPIO character-device surface by
//! the surrounding application; the library only fixes the mapping from
//! logic level to the byte written to the pin's value file.

use vstd::prelude::*;

verus! {

/// Logic level of an on/off GPIO output.
#[allow(non_camel_case_types)]
#[derive(Debug, PartialEq, Eq, Structural, Clone, Copy)]
pub enum State {
    LOW,
    HIGH,
}

impl State {
    /// The byte this level writes to the pin's value file.
    pub open spec fn value_spec(self) -> u8 {
        match self {
            State::LOW => 0,
            State::HIGH => 1,
        }
    }

    /// The byte this level writes to the pin's value file.
    pub fn value(&self) -> (v: u8)
        ensures
            v == self.value_spec(),
    {
        match self {
            State::LOW => 0,
            State::HIGH => 1,
        }
    }
}

} // verus!
