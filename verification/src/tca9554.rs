//! TCA9554 I/O expander: the register writes that drive its eight lines.
use vstd::prelude::*;

verus! {

/// I2C address of the expander.
pub const TCA9554_ADDRESS: u8 = 0x20;

/// Register that holds the levels of the output lines.
pub const OUTPUT_REG: u8 = 0x01;

/// Register that holds the directions of the lines.
pub const DIRECTION_REG: u8 = 0x03;

/// A TCA9554 on an I2C bus.
///
/// The bus handle is carried for whoever performs the writes.
pub struct Tca9554<I2C> {
    pub i2c: I2C,
    pub address: u8,
}

/// One I2C write: the device and the bytes it gets.
#[derive(Clone, Copy, Debug, PartialEq, Eq)]
pub struct RegisterWrite {
    pub address: u8,
    pub bytes: [u8; 2],
}

/// The registers of the expander that are written.
pub struct Lines {
    /// Levels of the output lines, one bit each.
    pub output: u8,
    /// Directions of all lines, one bit each: set for an input.
    pub direction: u8,
}

/// The expander after it was sent `bytes`: the first names a register, the second is its
/// new value.
pub open spec fn lines_after(lines: Lines, bytes: Seq<u8>) -> Lines {
    if bytes[0] == 1 {
        Lines { output: bytes[1], ..lines }
    } else if bytes[0] == 3 {
        Lines { direction: bytes[1], ..lines }
    } else {
        lines
    }
}

impl<I2C> Tca9554<I2C> {
    /// The expander at its fixed address on the bus `i2c`.
    pub fn new(i2c: I2C) -> (dev: Self)
        ensures
            dev.i2c == i2c,
            dev.address == 0x20,
    {
        Self { i2c, address: TCA9554_ADDRESS }
    }

    /// The write that sets the directions of all lines.
    pub fn write_direction_reg(&self, value: u8) -> (w: RegisterWrite)
        ensures
            w.address == self.address,
            w.bytes@ == seq![0x03u8, value],
            forall|lines: Lines|
                #[trigger] lines_after(lines, w.bytes@) == (Lines { direction: value, ..lines }),
    {
        RegisterWrite { address: self.address, bytes: [DIRECTION_REG, value] }
    }

    /// The write that sets the levels of all output lines.
    pub fn write_output_reg(&self, value: u8) -> (w: RegisterWrite)
        ensures
            w.address == self.address,
            w.bytes@ == seq![0x01u8, value],
            forall|lines: Lines|
                #[trigger] lines_after(lines, w.bytes@) == (Lines { output: value, ..lines }),
    {
        RegisterWrite { address: self.address, bytes: [OUTPUT_REG, value] }
    }

    /// Gives the bus back.
    pub fn into_i2c(self) -> (i2c: I2C)
        ensures
            i2c == self.i2c,
    {
        self.i2c
    }
}

/// Register 1 holds the output levels and register 3 the directions; writing one leaves the
/// other alone.
pub proof fn law_registers_are_apart(lines: Lines, value: u8)
    ensures
        lines_after(lines, seq![1u8, value]) == (Lines { output: value, ..lines }),
        lines_after(lines, seq![3u8, value]) == (Lines { direction: value, ..lines }),
{
}

} // verus!
