//! Sound channel 2: square wave.
use vstd::prelude::*;
use crate::hardware::apu::envelope::Envelope;
use crate::hardware::apu::wave_duty::WaveDuty;

verus! {

/// Sound channel 2.
#[derive(Clone, Copy, Debug, PartialEq, Eq, Structural)]
pub struct Ch2 {
    pub wave_duty: WaveDuty,
    pub envelope: Envelope,
    pub freq_bits: u16,
    pub use_counter: bool,
    pub counter: usize,
    pub status: bool,
}

/// Bits of NR21 that read as 1: the length cannot be read back.
pub const REG1_MASK: u8 = 0x3f;
/// Bits of NR24 that read as 1: only the counter enable can be read back.
pub const REG4_MASK: u8 = 0xbf;

impl Ch2 {
    pub open spec fn initial() -> Ch2 {
        Ch2 {
            wave_duty: WaveDuty::HalfQuarter,
            envelope: Envelope { volume: 0, increasing: false, length: 0 },
            freq_bits: 0,
            use_counter: false,
            counter: 0,
            status: false,
        }
    }

    pub open spec fn wf(self) -> bool {
        self.envelope.wf() && self.counter <= 64
    }

    /// One step of the length counter.
    pub open spec fn spec_clock(self) -> Ch2 {
        if self.use_counter && self.counter > 0 {
            Ch2 { counter: (self.counter - 1) as usize, status: self.status && self.counter != 1, ..self }
        } else {
            self
        }
    }

    pub open spec fn spec_write_reg1(self, value: u8) -> Ch2 {
        Ch2 {
            wave_duty: WaveDuty::spec_from(value / 64),
            counter: (64 - value % 64) as usize,
            ..self
        }
    }

    pub open spec fn spec_write_reg3(self, value: u8) -> Ch2 {
        Ch2 {
            freq_bits: (((self.freq_bits / 256) % 8) * 256 + value) as u16,
            ..self
        }
    }

    /// NR24: trigger, counter enable and the high bits of the frequency.
    pub open spec fn spec_write_reg4(self, value: u8) -> Ch2 {
        let status = value >= 128;
        Ch2 {
            status,
            use_counter: (value / 64) % 2 == 1,
            freq_bits: (self.freq_bits % 256 + value as int * 256) as u16,
            counter: if status && self.counter == 0 {
                64
            } else {
                self.counter
            },
            ..self
        }
    }

    pub fn new() -> (r: Ch2)
        ensures
            r == Ch2::initial(),
            r.wf(),
    {
        Ch2 {
            wave_duty: WaveDuty::HalfQuarter,
            envelope: Envelope::new(),
            freq_bits: 0,
            use_counter: false,
            counter: 0,
            status: false,
        }
    }

    pub fn reset(&mut self)
        ensures
            *final(self) == Ch2::initial(),
    {
        *self = Ch2::new();
    }

    /// NR21: the duty cycle in bits 6-7.
    pub fn read_reg1(&self) -> (r: u8)
        ensures
            r == REG1_MASK + self.wave_duty.spec_bits() * 64,
    {
        REG1_MASK + self.wave_duty.bits() * 64
    }

    /// NR21: the duty cycle and the sound length.
    pub fn write_reg1(&mut self, value: u8)
        ensures
            *final(self) == old(self).spec_write_reg1(value),
    {
        self.wave_duty = WaveDuty::from_u8(value / 64).unwrap();
        self.counter = 64 - (value % 64) as usize;
    }

    /// NR23: the low eight bits of the frequency.
    pub fn write_reg3(&mut self, value: u8)
        ensures
            *final(self) == old(self).spec_write_reg3(value),
    {
        self.freq_bits = ((self.freq_bits / 256) % 8) * 256 + value as u16;
    }

    /// NR24: the counter enable in bit 6.
    pub fn read_reg4(&self) -> (r: u8)
        ensures
            r == REG4_MASK + (if self.use_counter { 64u8 } else { 0u8 }),
    {
        REG4_MASK + if self.use_counter {
            64
        } else {
            0
        }
    }

    /// NR24: trigger, counter enable and the high bits of the frequency.
    pub fn write_reg4(&mut self, value: u8)
        ensures
            *final(self) == old(self).spec_write_reg4(value),
    {
        self.status = value >= 128;
        self.use_counter = (value / 64) % 2 == 1;
        self.freq_bits = self.freq_bits % 256 + value as u16 * 256;
        if self.status && self.counter == 0 {
            self.counter = 64;
        }
    }

    /// Clocks the length counter; the channel stops when it runs out.
    pub fn clock(&mut self)
        ensures
            *final(self) == old(self).spec_clock(),
    {
        if self.use_counter && self.counter > 0 {
            self.counter -= 1;
            if self.counter == 0 {
                self.status = false;
            }
        }
    }
}

} // verus!
