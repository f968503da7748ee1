//! The serial port registers SB and SC.
use vstd::prelude::*;

verus! {

/// Bits of SC that do not exist and read as 1.
pub const CTRL_UNUSED_MASK: u8 = 0b0111_1110;
/// The bits of SC that can be written: the clock select and the start bit.
pub const CTRL_BITS: u8 = 0b1000_0001;

/// The serial port. Transfers are not emulated; the registers keep what was
/// written.
#[derive(Clone, Copy, Debug, PartialEq, Eq, Structural)]
pub struct Serial {
    pub data: u8,
    pub control: u8,
}

impl Serial {
    pub fn new() -> (r: Serial)
        ensures
            r.data == 0 && r.control == 0,
    {
        Serial { data: 0x00, control: 0 }
    }

    pub fn get_data(&self) -> (r: u8)
        ensures
            r == self.data,
    {
        self.data
    }

    pub fn set_data(&mut self, value: u8)
        ensures
            *final(self) == (Serial { data: value, ..*old(self) }),
    {
        self.data = value
    }

    pub fn get_control(&self) -> (r: u8)
        ensures
            r == self.control | CTRL_UNUSED_MASK,
    {
        self.control | CTRL_UNUSED_MASK
    }

    pub fn set_control(&mut self, value: u8)
        ensures
            *final(self) == (Serial { control: value & CTRL_BITS, ..*old(self) }),
    {
        self.control = value & CTRL_BITS;
    }
}

/// SC reads back what was written to it, with the unused bits set.
pub proof fn lemma_serial_control_roundtrip(value: u8)
    by (bit_vector)
    ensures
        (value & 0x81) | 0x7e == value | 0x7e,
{
}

} // verus!
