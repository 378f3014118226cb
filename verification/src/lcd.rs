//! Bit patterns that drive a 4x20 character display in four-bit mode.
//!
//! The display hangs on one output port:
//!
//! | display | port bit | meaning                           |
//! |---------|----------|-----------------------------------|
//! | DB4-DB7 | 0-3      | data lines, DB7 is the top bit    |
//! | R/W     | 4        | high: read, low: write            |
//! | RS      | 5        | high: data, low: instruction      |
//! | E       | 13       | enable, taken on the falling edge |
//!
//! Every other bit of the port belongs to somebody else. The functions here
//! take the value of the port's output register and give the values to
//! write back to it; strobing the enable line between the writes is left to
//! the caller.

use vstd::prelude::*;

verus! {

/// LCD module register type
#[derive(Copy, Clone, PartialEq, Eq, Structural, Debug)]
pub enum Register {
    /// Instruction register
    Instruction,
    /// Data register
    Data,
}

/// LCD operation type
#[derive(Copy, Clone, PartialEq, Eq, Structural, Debug)]
pub enum Operation {
    /// Write operation
    Write,
    /// Read operation
    Read,
}

/// The bits of the port that are not the display's.
pub const FOREIGN_BITS: u32 = 0xFFFF_DFC0;

/// The instruction that clears the display.
pub const CLEAR_DISPLAY: u8 = 0x01;

/// The number of rows of the display.
pub const ROWS: u8 = 4;

/// The number of columns of the display.
pub const COLUMNS: u8 = 20;

/// The level of the R/W line for an operation, in its place in the port.
pub open spec fn rw_bit(op: Operation) -> u32 {
    match op {
        Operation::Read => 0x0000_0010,
        Operation::Write => 0,
    }
}

/// The level of the RS line for a register, in its place in the port.
pub open spec fn rs_bit(reg: Register) -> u32 {
    match reg {
        Register::Data => 0x0000_0020,
        Register::Instruction => 0,
    }
}

/// The port with the display's control lines set for the transfer, the
/// data lines and the enable line low, and every other bit as it was.
pub open spec fn control(port: u32, reg: Register, op: Operation) -> u32 {
    (port & FOREIGN_BITS) | rw_bit(op) | rs_bit(reg)
}

/// The two values that put a byte on the data lines, top half first.
pub open spec fn word_frames(port: u32, reg: Register, op: Operation, data: u8) -> (u32, u32) {
    (control(port, reg, op) | ((data >> 4) as u32), control(port, reg, op) | ((data & 0x0F) as u32))
}

/// The three values that clock the low half of a byte into a display that
/// is still in eight-bit mode: the half on the data lines, the same with
/// bits 12 to 15 high, the same with bits 12 to 15 low.
pub open spec fn nibble_frames(port: u32, reg: Register, op: Operation, data: u8) -> (
    u32,
    u32,
    u32,
) {
    let setup = control(port, reg, op) | ((data & 0x0F) as u32);
    (setup, setup | 0x0000_F000, setup & 0xFFFF_0FFF)
}

/// The start of each row in the display's memory.
pub open spec fn row_start(row: u8) -> u8 {
    if row == 0 {
        0x00
    } else if row == 1 {
        0x40
    } else if row == 2 {
        0x14
    } else {
        0x54
    }
}

/// The instruction that moves the cursor to a row and column.
pub open spec fn cursor_instruction(row: u8, col: u8) -> u8 {
    (0x80 + row_start(row) + col) as u8
}

/// The display, seen as the value of its port's output register.
#[derive(Clone, Copy)]
pub struct Lcd(pub u32);

impl Lcd {
    /// The control lines for a transfer, with the data lines low.
    fn control(self, reg: Register, op: Operation) -> (cs: u32)
        ensures
            cs == control(self.0, reg, op),
            cs & 0x0000_000F == 0,
    {
        let port: u32 = self.0;
        let mut cs: u32 = port & FOREIGN_BITS;
        let cleared: u32 = cs;
        cs = match op {
            Operation::Read => cs | 0x0000_0010,
            Operation::Write => cs & 0xFFFF_FFEF,
        };
        let with_rw: u32 = cs;
        cs = match reg {
            Register::Data => cs | 0x0000_0020,
            Register::Instruction => cs & 0xFFFF_FFDF,
        };
        proof {
            let rw = rw_bit(op);
            let rs = rs_bit(reg);
            assert(cs == (cleared | rw) | rs && cs & 0x0000_000F == 0) by (bit_vector)
                requires
                    cleared == port & 0xFFFF_DFC0,
                    rw == 0x0000_0010 || rw == 0,
                    rs == 0x0000_0020 || rs == 0,
                    with_rw == if rw == 0x0000_0010 {
                        cleared | 0x0000_0010
                    } else {
                        cleared & 0xFFFF_FFEF
                    },
                    cs == if rs == 0x0000_0020 {
                        with_rw | 0x0000_0020
                    } else {
                        with_rw & 0xFFFF_FFDF
                    },
            ;
        }
        cs
    }

    /// The values to write to the port, in this order and with a strobe of
    /// the enable line after each, to transfer one byte in four-bit mode.
    pub fn word(self, reg: Register, op: Operation, data: u8) -> (r: (u32, u32))
        ensures
            r == word_frames(self.0, reg, op, data),
    {
        let mut cs: u32 = self.control(reg, op);
        let base: u32 = cs;
        let msbs: u32 = (data >> 4) as u32 & 0x0000_000F;
        cs |= msbs;
        let first: u32 = cs;
        cs &= 0xFFFF_FFF0;
        let lsbs: u32 = data as u32 & 0x0000_000F;
        cs |= lsbs;
        proof {
            assert(msbs == (data >> 4) as u32 && lsbs == (data & 0x0F) as u32) by (bit_vector)
                requires
                    msbs == (data >> 4) as u32 & 0x0000_000F,
                    lsbs == data as u32 & 0x0000_000F,
            ;
            assert(((base | msbs) & 0xFFFF_FFF0) | lsbs == base | lsbs) by (bit_vector)
                requires
                    base & 0x0000_000F == 0,
                    msbs == (data >> 4) as u32,
            ;
        }
        (first, cs)
    }

    /// The values to write to the port, in this order, to transfer the low
    /// half of a byte to a display that is still in eight-bit mode.
    pub fn nibble(self, reg: Register, op: Operation, data: u8) -> (r: (u32, u32, u32))
        ensures
            r == nibble_frames(self.0, reg, op, data),
    {
        let mut cs: u32 = self.control(reg, op);
        let d32: u32 = data as u32 & 0x0000_000F;
        cs |= d32;
        let setup: u32 = cs;
        cs |= 0x0000_F000;
        let enable: u32 = cs;
        cs &= 0xFFFF_0FFF;
        proof {
            assert(d32 == (data & 0x0F) as u32) by (bit_vector)
                requires
                    d32 == data as u32 & 0x0000_000F,
            ;
            assert((setup | 0x0000_F000) & 0xFFFF_0FFF == setup & 0xFFFF_0FFF) by (bit_vector);
        }
        (setup, enable, cs)
    }

    /// The transfer that clears the display. The display needs 1.6 ms
    /// afterwards before it takes the next transfer.
    pub fn clear(self) -> (r: (u32, u32))
        ensures
            r == word_frames(self.0, Register::Instruction, Operation::Write, CLEAR_DISPLAY),
    {
        self.word(Register::Instruction, Operation::Write, CLEAR_DISPLAY)
    }

    /// The transfer that sets the position of the cursor, which is where
    /// the next character goes. A position outside the display gives none.
    pub fn set_position(self, row: u8, col: u8) -> (r: Option<(u32, u32)>)
        ensures
            r == if row < ROWS && col < COLUMNS {
                Some(
                    word_frames(
                        self.0,
                        Register::Instruction,
                        Operation::Write,
                        cursor_instruction(row, col),
                    ),
                )
            } else {
                None
            },
    {
        if col > 19 || row > 3 {
            return None;
        }
        let mut adr: u8 = match row {
            0 => 0x00 + col,
            1 => 0x40 + col,
            2 => 0x14 + col,
            _ => 0x54 + col,
        };
        let sum: u8 = adr;
        adr &= 0x7F;
        adr |= 0x80;
        assert(adr == sum + 0x80) by (bit_vector)
            requires
                adr == (sum & 0x7F) | 0x80,
                sum < 0x80,
        ;
        Some(self.word(Register::Instruction, Operation::Write, adr))
    }
}

} // verus!
