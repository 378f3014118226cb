//! Decoder for an incremental rotary encoder sampled at a fixed rate.
//!
//! The decoder sees the encoder's two lines as a two-bit reading. Between
//! detents the reading is 0. One detent of clockwise rotation shows as the
//! readings 1, 0, 2 and 0 again; counter-clockwise rotation is the mirror
//! image 2, 0, 1, 0. Each reading may last any number of ticks.
//!
//! The decoder walks a seven-state machine: rest, and three intermediate
//! states for each direction. A click is reported on the tick where the last
//! intermediate state of a direction is left for rest by the closing
//! reading 0. The reading 3 belongs to no detent. It is taken as a loss of
//! synchronisation: the decoder goes back to rest from wherever it stands
//! and reports nothing, so that a bad sample costs at most one click and
//! never makes one.

use vstd::prelude::*;

verus! {

/// What the decoder reports for one tick.
#[derive(Copy, Clone, PartialEq, Eq, Structural, Debug)]
pub enum State {
    /// Nothing happened.
    IDLE,
    /// One detent counter-clockwise was completed.
    CCW,
    /// One detent clockwise was completed.
    CW,
    /// The shaft's push button; the decoder itself never reports it.
    BUTTON,
}

/// Where the decoder stands within a detent.
#[derive(Copy, Clone, PartialEq, Eq, Structural, Debug)]
pub enum EncoderState {
    /// At rest between detents.
    Idle,
    /// Clockwise, after the opening reading 1.
    CW01,
    /// Clockwise, after the reading 0 that follows the opening.
    CW00,
    /// Clockwise, after the reading 2: the last step before rest.
    CW10,
    /// Counter-clockwise, after the opening reading 2.
    CCW10,
    /// Counter-clockwise, after the reading 0 that follows the opening.
    CCW00,
    /// Counter-clockwise, after the reading 1: the last step before rest.
    CCW01,
}

/// The bits of the input port that carry the encoder lines.
pub const GPIOA_MASK: u32 = 0x0000_000C;

/// The transition table: one row per state, one column per two-bit input.
pub const LUT: [[EncoderState; 4]; 7] = [
    //                  00                   01                   10                     11
    [EncoderState::Idle, EncoderState::CW01, EncoderState::CCW10, EncoderState::Idle],
    [EncoderState::CW00, EncoderState::CW01, EncoderState::CW01, EncoderState::Idle],
    [EncoderState::CW00, EncoderState::CW01, EncoderState::CW10, EncoderState::Idle],
    [EncoderState::Idle, EncoderState::CW10, EncoderState::CW10, EncoderState::Idle],
    [EncoderState::CCW00, EncoderState::CCW10, EncoderState::CCW10, EncoderState::Idle],
    [EncoderState::CCW00, EncoderState::CCW01, EncoderState::CCW10, EncoderState::Idle],
    [EncoderState::Idle, EncoderState::CCW01, EncoderState::CCW01, EncoderState::Idle],
];

/// The state that follows `s` when the lines read `input` (a two-bit value).
///
/// The reading 3 leads to `Idle` from everywhere, so a decoder that lost
/// track of the waveform recovers with the next such sample. The reading 0
/// closes a detent from the last intermediate state of either direction.
pub open spec fn step(s: EncoderState, input: u8) -> EncoderState {
    match (s, input) {
        (_, 3) => EncoderState::Idle,
        (EncoderState::Idle, 0) => EncoderState::Idle,
        (EncoderState::Idle, 1) => EncoderState::CW01,
        (EncoderState::Idle, _) => EncoderState::CCW10,
        (EncoderState::CW01, 0) => EncoderState::CW00,
        (EncoderState::CW01, _) => EncoderState::CW01,
        (EncoderState::CW00, 0) => EncoderState::CW00,
        (EncoderState::CW00, 1) => EncoderState::CW01,
        (EncoderState::CW00, _) => EncoderState::CW10,
        (EncoderState::CW10, 0) => EncoderState::Idle,
        (EncoderState::CW10, _) => EncoderState::CW10,
        (EncoderState::CCW10, 0) => EncoderState::CCW00,
        (EncoderState::CCW10, _) => EncoderState::CCW10,
        (EncoderState::CCW00, 0) => EncoderState::CCW00,
        (EncoderState::CCW00, 1) => EncoderState::CCW01,
        (EncoderState::CCW00, _) => EncoderState::CCW10,
        (EncoderState::CCW01, 0) => EncoderState::Idle,
        (EncoderState::CCW01, _) => EncoderState::CCW01,
    }
}

/// The event of a tick on which the decoder stood in `s` and read `input`:
/// a click where the last intermediate state of a direction is left for
/// rest, but never on the reading 3.
pub open spec fn click(s: EncoderState, input: u8) -> State {
    if input == 3 {
        State::IDLE
    } else if s == EncoderState::CW10 && step(s, input) == EncoderState::Idle {
        State::CW
    } else if s == EncoderState::CCW01 && step(s, input) == EncoderState::Idle {
        State::CCW
    } else {
        State::IDLE
    }
}

impl EncoderState {
    /// The row of this state in the transition table.
    pub open spec fn row(self) -> int {
        match self {
            EncoderState::Idle => 0,
            EncoderState::CW01 => 1,
            EncoderState::CW00 => 2,
            EncoderState::CW10 => 3,
            EncoderState::CCW10 => 4,
            EncoderState::CCW00 => 5,
            EncoderState::CCW01 => 6,
        }
    }

    /// The row of this state in the transition table.
    pub fn index(self) -> (r: usize)
        ensures
            r == self.row(),
            r < 7,
    {
        match self {
            EncoderState::Idle => 0,
            EncoderState::CW01 => 1,
            EncoderState::CW00 => 2,
            EncoderState::CW10 => 3,
            EncoderState::CCW10 => 4,
            EncoderState::CCW00 => 5,
            EncoderState::CCW01 => 6,
        }
    }

    /// Looks the next state up in the transition table, which has an entry
    /// for every state and every two-bit input.
    pub fn next(self, input: u8) -> (r: EncoderState)
        requires
            input < 4,
        ensures
            r == step(self, input),
    {
        let row: usize = self.index();
        let column: usize = input as usize;
        LUT[row][column]
    }
}

/// The table is total: it has a row for every state and in each row an
/// entry for every two-bit input, and the entry is the state that follows.
pub proof fn lemma_table_total(s: EncoderState, input: u8)
    requires
        input < 4,
    ensures
        LUT@.len() == 7,
        0 <= s.row() < LUT@.len(),
        LUT@[s.row()]@.len() == 4,
        LUT@[s.row()]@[input as int] == step(s, input),
{
}

/// The two-bit reading of the encoder lines held in a value of the input
/// port. Every other bit of the port is ignored.
pub open spec fn lines(port: u32) -> u8 {
    ((port & GPIOA_MASK) >> 2) as u8
}

/// The state reached from `s` after the readings `inputs`, oldest first.
pub open spec fn run(s: EncoderState, inputs: Seq<u8>) -> EncoderState
    decreases inputs.len(),
{
    if inputs.len() == 0 {
        s
    } else {
        step(run(s, inputs.drop_last()), inputs.last())
    }
}

/// The event of tick `k` of a decoder that started in `s` and has read
/// `inputs`, oldest first.
pub open spec fn event_at(s: EncoderState, inputs: Seq<u8>, k: int) -> State {
    click(run(s, inputs.take(k)), inputs[k])
}

/// A rotary encoder's decoder. It owns the state of the machine; one value
/// stands for one physical encoder.
pub struct RotaryEncoder {
    state: EncoderState,
}

impl View for RotaryEncoder {
    type V = EncoderState;

    closed spec fn view(&self) -> EncoderState {
        self.state
    }
}

impl RotaryEncoder {
    /// A decoder at rest.
    pub fn new() -> (r: RotaryEncoder)
        ensures
            r@ == EncoderState::Idle,
    {
        RotaryEncoder { state: EncoderState::Idle }
    }

    /// The state in which the decoder stands.
    pub fn current(&self) -> (r: EncoderState)
        ensures
            r == self@,
    {
        self.state
    }

    /// Advances the machine by one reading of the two lines and reports the
    /// click, if this reading completed a detent.
    pub fn decode(&mut self, input: u8) -> (event: State)
        requires
            input < 4,
        ensures
            final(self)@ == step(old(self)@, input),
            event == click(old(self)@, input),
            event != State::IDLE ==> final(self)@ == EncoderState::Idle && input != 3,
    {
        let before: EncoderState = self.state;
        let next_state: EncoderState = before.next(input);
        let mut event: State = State::IDLE;
        if input != 3 {
            if before == EncoderState::CW10 && next_state == EncoderState::Idle {
                event = State::CW;
            } else if before == EncoderState::CCW01 && next_state == EncoderState::Idle {
                event = State::CCW;
            }
        }
        self.state = next_state;
        event
    }

    /// Takes the value read from the input port at this tick, picks the two
    /// encoder lines out of it and advances the machine. To be called once
    /// per timer tick, in tick order.
    pub fn state(&mut self, port: u32) -> (event: State)
        ensures
            final(self)@ == step(old(self)@, lines(port)),
            event == click(old(self)@, lines(port)),
            event != State::IDLE ==> final(self)@ == EncoderState::Idle && lines(port) != 3,
    {
        let value: u32 = port & GPIOA_MASK;
        assert((port & GPIOA_MASK) >> 2 < 4) by (bit_vector);
        let input: u8 = (value >> 2) as u8;
        self.decode(input)
    }
}

} // verus!
