//! The work of one timer tick: the button's filter and the encoder's decoder
//! each take their bits from one reading of the input port, and what they
//! report goes back to the caller.
//!
//! The caller reads the port once per tick and calls `tick` once with that
//! value, never from two contexts at a time. A tick that the timer raises
//! while the previous one is still being handled is not queued: its reading
//! is lost, not replayed.

use vstd::prelude::*;
use crate::button::{Button, contact, edge, pushed};
use crate::rotary_encoder::{EncoderState, RotaryEncoder, State, click, lines, step};

verus! {

/// What one tick reports.
#[derive(Clone, Copy, PartialEq, Eq, Structural, Debug)]
pub struct Events {
    /// A press of the button has become stable at this tick.
    pub pressed: bool,
    /// The click of the encoder that this tick completed, if any.
    pub rotation: State,
}

/// One button and one rotary encoder on the same input port.
pub struct Inputs {
    button: Button,
    rotary: RotaryEncoder,
}

impl Inputs {
    /// The recent samples of the button, newest first.
    pub closed spec fn history(&self) -> Seq<bool> {
        self.button@
    }

    /// The window of the button, in samples.
    pub closed spec fn window(&self) -> nat {
        self.button.window()
    }

    /// The state of the encoder's decoder.
    pub closed spec fn encoder(&self) -> EncoderState {
        self.rotary@
    }

    /// Puts a button and an encoder under one tick.
    pub fn new(button: Button, rotary: RotaryEncoder) -> (r: Inputs)
        ensures
            r.history() == button@,
            r.window() == button.window(),
            r.encoder() == rotary@,
    {
        Inputs { button, rotary }
    }

    /// Hands the reading of this tick to the filter and to the decoder,
    /// once each, and gives back what they report. Neither sees the other's
    /// bits, and neither is touched beyond this one step.
    pub fn tick(&mut self, port: u32) -> (r: Events)
        ensures
            final(self).window() == old(self).window(),
            final(self).history() =~= pushed(old(self).history(), contact(port)),
            final(self).encoder() == step(old(self).encoder(), lines(port)),
            r.pressed == edge(final(self).history()),
            r.rotation == click(old(self).encoder(), lines(port)),
    {
        let pressed: bool = self.button.is_pressed(port);
        let rotation: State = self.rotary.state(port);
        Events { pressed, rotation }
    }
}

} // verus!
