//! Sound channel 4: noise.
use vstd::prelude::*;
use crate::hardware::apu::envelope::Envelope;

verus! {

/// Sound channel 4.
#[derive(Clone, Copy, Debug, PartialEq, Eq, Structural)]
pub struct Ch4 {
    pub envelope: Envelope,
    pub noise_opt: u8,
    pub use_counter: bool,
    pub counter: usize,
    pub status: bool,
}

/// Bits of NR44 that read as 1: only the counter enable can be read back.
pub const REG4_MASK: u8 = 0xbf;

impl Ch4 {
    pub open spec fn initial() -> Ch4 {
        Ch4 {
            envelope: Envelope { volume: 0, increasing: false, length: 0 },
            noise_opt: 0,
            use_counter: false,
            counter: 0,
            status: false,
        }
    }

    pub open spec fn wf(self) -> bool {
        self.envelope.wf() && self.counter <= 64
    }

    /// One step of the length counter.
    pub open spec fn spec_clock(self) -> Ch4 {
        if self.use_counter && self.counter > 0 {
            Ch4 { counter: (self.counter - 1) as usize, status: self.status && self.counter != 1, ..self }
        } else {
            self
        }
    }

    pub open spec fn spec_write_reg1(self, value: u8) -> Ch4 {
        Ch4 { counter: (64 - value % 64) as usize, ..self }
    }

    pub open spec fn spec_write_reg3(self, value: u8) -> Ch4 {
        Ch4 { noise_opt: value, ..self }
    }

    /// NR44: trigger and counter enable.
    pub open spec fn spec_write_reg4(self, value: u8) -> Ch4 {
        let status = value >= 128;
        Ch4 {
            status,
            use_counter: (value / 64) % 2 == 1,
            counter: if status && self.counter == 0 {
                64
            } else {
                self.counter
            },
            ..self
        }
    }

    pub fn new() -> (r: Ch4)
        ensures
            r == Ch4::initial(),
            r.wf(),
    {
        Ch4 { envelope: Envelope::new(), noise_opt: 0, use_counter: false, counter: 0, status: false }
    }

    pub fn reset(&mut self)
        ensures
            *final(self) == Ch4::initial(),
    {
        *self = Ch4::new()
    }

    /// NR41: the sound length.
    pub fn write_reg1(&mut self, value: u8)
        ensures
            *final(self) == old(self).spec_write_reg1(value),
    {
        self.counter = 64 - (value % 64) as usize;
    }

    /// NR43: the noise options.
    pub fn read_reg3(&self) -> (r: u8)
        ensures
            r == self.noise_opt,
    {
        self.noise_opt
    }

    /// NR43: the noise options.
    pub fn write_reg3(&mut self, value: u8)
        ensures
            *final(self) == old(self).spec_write_reg3(value),
    {
        self.noise_opt = value
    }

    /// NR44: the counter enable in bit 6.
    pub fn read_reg4(&self) -> (r: u8)
        ensures
            r == REG4_MASK + (if self.use_counter { 64u8 } else { 0u8 }),
    {
        REG4_MASK + if self.use_counter {
            64
        } else {
            0
        }
    }

    /// NR44: trigger and counter enable.
    pub fn write_reg4(&mut self, value: u8)
        ensures
            *final(self) == old(self).spec_write_reg4(value),
    {
        self.status = value >= 128;
        self.use_counter = (value / 64) % 2 == 1;
        if self.status && self.counter == 0 {
            self.counter = 64;
        }
    }

    /// Clocks the length counter; the channel stops when it runs out.
    pub fn clock(&mut self)
        ensures
            *final(self) == old(self).spec_clock(),
    {
        if self.use_counter && self.counter > 0 {
            self.counter -= 1;
            if self.counter == 0 {
                self.status = false;
            }
        }
    }
}

} // verus!
