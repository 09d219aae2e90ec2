//! User LEDs.

use vstd::prelude::*;

use crate::pin::{reset_word, set_word, PINS};

verus! {

/// An LED on a pin of GPIO port C.
#[derive(Clone, Copy, Debug, PartialEq, Eq, Structural)]
pub struct Led {
    i: u8,
}

impl Led {
    /// The pin of the LED.
    pub closed spec fn spec_pin(&self) -> u8 {
        self.i
    }

    /// The pin is one of the port's.
    pub open spec fn wf(&self) -> bool {
        self.spec_pin() < PINS
    }

    /// The LED on `pin`.
    pub fn new(pin: u8) -> (r: Led)
        requires
            pin < PINS,
        ensures
            r.wf(),
            r.spec_pin() == pin,
    {
        Led { i: pin }
    }

    /// The board's user LED, on pin 13.
    pub fn user() -> (r: Led)
        ensures
            r.wf(),
            r.spec_pin() == 13,
    {
        Led { i: 13 }
    }

    /// The pin of the LED.
    pub fn pin(&self) -> (r: u8)
        ensures
            r == self.spec_pin(),
    {
        self.i
    }

    /// The bit-set-reset word that turns the LED on.
    pub fn on_word(&self) -> (r: u32)
        requires
            self.wf(),
        ensures
            r == 1u32 << (self.spec_pin() as u32),
    {
        set_word(self.i)
    }

    /// The bit-set-reset word that turns the LED off.
    pub fn off_word(&self) -> (r: u32)
        requires
            self.wf(),
        ensures
            r == 1u32 << (self.spec_pin() as u32 + 16),
    {
        reset_word(self.i)
    }
}

/// All the user LEDs of the board.
pub fn leds() -> (r: [Led; 1])
    ensures
        r[0].wf(),
        r[0].spec_pin() == 13,
{
    [Led::user()]
}

} // verus!
