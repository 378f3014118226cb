//! The two user LEDs, on pins 8 and 9 of their port.
//!
//! An LED is switched through the port's bit set/reset register: a one in
//! the low half of a word written there sets the pin of that number, a one
//! in the high half resets it, and zeros leave pins alone. So each switch is
//! one write that touches one pin, and the functions here give the word.

use vstd::prelude::*;

verus! {

/// An LED
pub struct Led {
    i: u8,
}

impl Led {
    /// The pin that drives this LED.
    pub closed spec fn pin(&self) -> nat {
        self.i as nat
    }

    /// The pin is one of the port's sixteen.
    #[verifier::type_invariant]
    pub closed spec fn inv(&self) -> bool {
        self.i < 16
    }

    /// The word that turns the LED off: the reset bit of its pin.
    pub fn off(&self) -> (r: u32)
        ensures
            self.pin() < 16,
            r == 1u32 << ((self.pin() + 16) as u32),
    {
        proof {
            use_type_invariant(self);
        }
        let place: u32 = self.i as u32 + 16;
        1u32 << place
    }

    /// The word that turns the LED on: the set bit of its pin.
    pub fn on(&self) -> (r: u32)
        ensures
            self.pin() < 16,
            r == 1u32 << (self.pin() as u32),
    {
        proof {
            use_type_invariant(self);
        }
        let place: u32 = self.i as u32;
        1u32 << place
    }
}

/// All the user LEDs
pub fn leds() -> (r: [Led; 2])
    ensures
        r[0].pin() == 8,
        r[1].pin() == 9,
{
    [Led { i: 8 }, Led { i: 9 }]
}

} // verus!
