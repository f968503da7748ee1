//! Interrupt request lines and the IF / IE registers.
use vstd::prelude::*;
use crate::util::{IntExt, is_rightmost_one_u8};

verus! {

/// A set of interrupt request lines. Bit 0 has the highest priority.
#[derive(Clone, Copy, Debug, PartialEq, Eq, Structural)]
pub struct InterruptLine {
    pub bits: u8,
}

/// All five interrupt lines.
pub const INTERRUPT_LINES_ALL: u8 = 0b1_1111;

/// The mask is empty or names exactly one line.
pub open spec fn at_most_one_line(m: u8) -> bool {
    m == 0 || m == InterruptLine::VBLANK || m == InterruptLine::STAT || m == InterruptLine::TIMER
        || m == InterruptLine::SERIAL || m == InterruptLine::JOYPAD
}

/// The rightmost set bit of a set of lines is one line.
proof fn lemma_rightmost_line(y: u8, r: u8)
    by (bit_vector)
    requires
        y & 0x1f == 0 ==> r == 0,
        y & 0x1f != 0 ==> r != 0 && r & ((r - 1) as u8) == 0 && (y & 0x1f) & r == r,
    ensures
        r & 0x1f == r,
        r == 0 || r == 1 || r == 2 || r == 4 || r == 8 || r == 16,
{
}

impl InterruptLine {
    pub const VBLANK: u8 = 1;
    pub const STAT: u8 = 2;
    pub const TIMER: u8 = 4;
    pub const SERIAL: u8 = 8;
    pub const JOYPAD: u8 = 16;

    pub fn empty() -> (r: InterruptLine)
        ensures
            r.bits == 0,
    {
        InterruptLine { bits: 0 }
    }

    pub fn bits(&self) -> (r: u8)
        ensures
            r == self.bits,
    {
        self.bits
    }

    /// The lines set in `value`; bits that name no line are dropped.
    pub fn from_bits_truncate(value: u8) -> (r: InterruptLine)
        ensures
            r.bits == value & INTERRUPT_LINES_ALL,
    {
        InterruptLine { bits: value & INTERRUPT_LINES_ALL }
    }

    pub fn is_empty(&self) -> (r: bool)
        ensures
            r == (self.bits == 0),
    {
        self.bits == 0
    }

    pub fn contains(&self, other: InterruptLine) -> (r: bool)
        ensures
            r == (self.bits & other.bits == other.bits),
    {
        self.bits & other.bits == other.bits
    }

    pub fn insert(&mut self, other: InterruptLine)
        ensures
            final(self).bits == old(self).bits | other.bits,
    {
        self.bits = self.bits | other.bits;
    }

    pub fn remove(&mut self, other: InterruptLine)
        ensures
            final(self).bits == old(self).bits & !other.bits,
    {
        self.bits = self.bits & !other.bits;
    }

    pub fn intersection(&self, other: InterruptLine) -> (r: InterruptLine)
        ensures
            r.bits == self.bits & other.bits,
    {
        InterruptLine { bits: self.bits & other.bits }
    }

    /// The requested line with the highest priority: the lowest set bit.
    pub fn highest_priority(&self) -> (r: InterruptLine)
        ensures
            is_rightmost_one_u8(self.bits & INTERRUPT_LINES_ALL, r.bits),
            at_most_one_line(r.bits),
    {
        let x = self.bits & INTERRUPT_LINES_ALL;
        let r = x.isolate_rightmost_one();
        proof {
            lemma_rightmost_line(self.bits, r);
        }
        InterruptLine::from_bits_truncate(r)
    }
}

/// Requests of interrupt lines, made at the start (T1-T2) or at the end
/// (T3-T4) of a machine cycle.
pub trait InterruptRequest {
    fn request_t12_interrupt(&mut self, interrupt: u8);

    fn request_t34_interrupt(&mut self, interrupt: u8);
}

impl InterruptRequest for InterruptLine {
    fn request_t12_interrupt(&mut self, interrupt: u8)
        ensures
            final(self).bits == old(self).bits | interrupt,
    {
        self.bits = self.bits | interrupt;
    }

    fn request_t34_interrupt(&mut self, interrupt: u8)
        ensures
            final(self).bits == old(self).bits | interrupt,
    {
        self.bits = self.bits | interrupt;
    }
}

/// Bits of IF that do not exist and read as 1.
pub const IF_UNUSED_MASK: u8 = 0b1110_0000;

/// The interrupt flag (IF) and interrupt enable (IE) registers.
#[derive(Clone, Copy, Debug, PartialEq, Eq, Structural)]
pub struct Interrupts {
    pub intr_flags: InterruptLine,
    pub intr_enable: u8,
}

impl Interrupts {
    /// These registers with `line` requested.
    pub open spec fn requested(self, line: u8) -> Interrupts {
        Interrupts { intr_flags: InterruptLine { bits: self.intr_flags.bits | line }, ..self }
    }

    /// The lines that are both requested and enabled.
    pub open spec fn pending(self) -> u8 {
        self.intr_flags.bits & (self.intr_enable & INTERRUPT_LINES_ALL)
    }

    pub fn new() -> (r: Interrupts)
        ensures
            r.intr_flags.bits == 0,
            r.intr_enable == 0,
    {
        Interrupts { intr_flags: InterruptLine::empty(), intr_enable: 0x00 }
    }

    /// IF as the CPU reads it: the unused bits read as 1.
    pub fn get_interrupt_flag(&self) -> (r: u8)
        ensures
            r == self.intr_flags.bits | IF_UNUSED_MASK,
    {
        self.intr_flags.bits() | IF_UNUSED_MASK
    }

    pub fn get_interrupt_enable(&self) -> (r: u8)
        ensures
            r == self.intr_enable,
    {
        self.intr_enable
    }

    pub fn set_interrupt_flag(&mut self, value: u8)
        ensures
            final(self).intr_flags.bits == value & INTERRUPT_LINES_ALL,
            final(self).intr_enable == old(self).intr_enable,
    {
        self.intr_flags = InterruptLine::from_bits_truncate(value);
    }

    pub fn set_interrupt_enable(&mut self, value: u8)
        ensures
            *final(self) == (Interrupts { intr_enable: value, ..*old(self) }),
    {
        self.intr_enable = value;
    }

    /// The lines that are both requested and enabled.
    pub fn get_interrupt(&self) -> (r: InterruptLine)
        ensures
            r.bits == self.pending(),
    {
        self.intr_flags.intersection(InterruptLine::from_bits_truncate(self.intr_enable))
    }

    /// Clears the requests of the lines in `mask`.
    pub fn ack_interrupt(&mut self, mask: InterruptLine)
        ensures
            final(self).intr_flags.bits == old(self).intr_flags.bits & !mask.bits,
            final(self).intr_enable == old(self).intr_enable,
    {
        self.intr_flags.remove(mask);
    }
}

impl InterruptRequest for Interrupts {
    fn request_t12_interrupt(&mut self, interrupt: u8)
        ensures
            *final(self) == old(self).requested(interrupt),
    {
        self.intr_flags.bits = self.intr_flags.bits | interrupt;
    }

    fn request_t34_interrupt(&mut self, interrupt: u8)
        ensures
            *final(self) == old(self).requested(interrupt),
    {
        self.intr_flags.bits = self.intr_flags.bits | interrupt;
    }
}

/// IF reads back what was written to it, with the unused bits set.
pub proof fn lemma_interrupt_flag_roundtrip(value: u8)
    by (bit_vector)
    ensures
        (value & 0x1f) | 0xe0 == value | 0xe0,
{
}

/// An acknowledged line is no longer pending; the other lines stay as they were.
pub proof fn lemma_ack_clears(flags: u8, enable: u8, mask: u8)
    by (bit_vector)
    ensures
        ((flags & !mask) & (enable & 0x1f)) & mask == 0,
        ((flags & !mask) & (enable & 0x1f)) & !mask == (flags & (enable & 0x1f)) & !mask,
{
}

} // verus!
