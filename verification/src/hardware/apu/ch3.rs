//! Sound channel 3: wave output from wave RAM.
use vstd::prelude::*;

verus! {

/// Size of the wave RAM at 0xff30 to 0xff3f.
pub const WAVE_RAM_SIZE: usize = 16;

/// Sound channel 3.
#[derive(Clone, Debug)]
pub struct Ch3 {
    /// NR30 bit 7: the DAC is on.
    pub enabled: bool,
    /// NR32 bits 5-6: the output level.
    pub volume: u8,
    pub freq_bits: u16,
    pub use_counter: bool,
    pub counter: usize,
    pub status: bool,
    pub wave_ram: Vec<u8>,
}

/// Bits of NR30 that read as 1.
pub const REG0_MASK: u8 = 0x7f;
/// Bits of NR32 that read as 1.
pub const REG2_MASK: u8 = 0x9f;
/// Bits of NR34 that read as 1: only the counter enable can be read back.
pub const REG4_MASK: u8 = 0xbf;

impl Ch3 {
    pub open spec fn wf(&self) -> bool {
        self.wave_ram@.len() == WAVE_RAM_SIZE && self.volume < 4 && self.counter <= 256
    }

    /// The channel switched off; the wave RAM keeps its contents.
    pub open spec fn spec_reset(self) -> Ch3 {
        Ch3 {
            enabled: false,
            volume: 0,
            freq_bits: 0,
            use_counter: false,
            counter: 0,
            status: false,
            ..self
        }
    }

    /// One step of the length counter.
    pub open spec fn spec_clock(self) -> Ch3 {
        if self.use_counter && self.counter > 0 {
            Ch3 { counter: (self.counter - 1) as usize, status: self.status && self.counter != 1, ..self }
        } else {
            self
        }
    }

    pub open spec fn spec_write_reg4(self, value: u8) -> Ch3 {
        let status = value >= 128;
        Ch3 {
            status,
            use_counter: (value / 64) % 2 == 1,
            freq_bits: (self.freq_bits % 256 + value as int * 256) as u16,
            counter: if status && self.counter == 0 {
                256
            } else {
                self.counter
            },
            ..self
        }
    }

    pub fn new() -> (r: Ch3)
        ensures
            r.wf(),
            r == r.spec_reset(),
            r.wave_ram@ == seq![0u8; 16],
    {
        let r = Ch3 {
            enabled: false,
            volume: 0,
            freq_bits: 0,
            use_counter: false,
            counter: 0,
            status: false,
            wave_ram: vec![0; WAVE_RAM_SIZE],
        };
        assert(r.wave_ram@ =~= seq![0u8; 16]);
        r
    }

    /// Switches the channel off; the wave RAM keeps its contents.
    pub fn reset(&mut self)
        requires
            old(self).wf(),
        ensures
            final(self).wf(),
            *final(self) == old(self).spec_reset(),
    {
        self.enabled = false;
        self.volume = 0;
        self.freq_bits = 0;
        self.use_counter = false;
        self.counter = 0;
        self.status = false;
    }

    /// NR30: the DAC enable in bit 7.
    pub fn read_reg0(&self) -> (r: u8)
        ensures
            r == REG0_MASK + (if self.enabled { 128u8 } else { 0u8 }),
    {
        REG0_MASK + if self.enabled {
            128
        } else {
            0
        }
    }

    /// NR30: the DAC enable in bit 7.
    pub fn write_reg0(&mut self, value: u8)
        requires
            old(self).wf(),
        ensures
            final(self).wf(),
            *final(self) == (Ch3 { enabled: value >= 128, ..*old(self) }),
    {
        self.enabled = value >= 128;
    }

    /// NR31: the sound length.
    pub fn write_reg1(&mut self, value: u8)
        requires
            old(self).wf(),
        ensures
            final(self).wf(),
            *final(self) == (Ch3 { counter: (256 - value as int) as usize, ..*old(self) }),
    {
        self.counter = 256 - value as usize;
    }

    /// NR32: the output level in bits 5-6.
    pub fn read_reg2(&self) -> (r: u8)
        requires
            self.wf(),
        ensures
            r == REG2_MASK + self.volume * 32,
    {
        REG2_MASK + self.volume * 32
    }

    /// NR32: the output level in bits 5-6.
    pub fn write_reg2(&mut self, value: u8)
        requires
            old(self).wf(),
        ensures
            final(self).wf(),
            *final(self) == (Ch3 { volume: (value / 32) % 4, ..*old(self) }),
    {
        self.volume = (value / 32) % 4;
    }

    /// NR33: the low eight bits of the frequency.
    pub fn write_reg3(&mut self, value: u8)
        requires
            old(self).wf(),
        ensures
            final(self).wf(),
            *final(self) == (Ch3 {
                freq_bits: (((old(self).freq_bits / 256) % 8) * 256 + value) as u16,
                ..*old(self)
            }),
    {
        self.freq_bits = ((self.freq_bits / 256) % 8) * 256 + value as u16;
    }

    /// NR34: the counter enable in bit 6.
    pub fn read_reg4(&self) -> (r: u8)
        ensures
            r == REG4_MASK + (if self.use_counter { 64u8 } else { 0u8 }),
    {
        REG4_MASK + if self.use_counter {
            64
        } else {
            0
        }
    }

    /// NR34: trigger, counter enable and the high bits of the frequency.
    pub fn write_reg4(&mut self, value: u8)
        requires
            old(self).wf(),
        ensures
            final(self).wf(),
            *final(self) == old(self).spec_write_reg4(value),
    {
        self.status = value >= 128;
        self.use_counter = (value / 64) % 2 == 1;
        self.freq_bits = self.freq_bits % 256 + value as u16 * 256;
        if self.status && self.counter == 0 {
            self.counter = 256;
        }
    }

    /// Clocks the length counter; the channel stops when it runs out.
    pub fn clock(&mut self)
        requires
            old(self).wf(),
        ensures
            final(self).wf(),
            *final(self) == old(self).spec_clock(),
    {
        if self.use_counter && self.counter > 0 {
            self.counter -= 1;
            if self.counter == 0 {
                self.status = false;
            }
        }
    }

    /// Reads a byte of wave RAM; `offset` is taken modulo its size.
    pub fn read_wave_ram(&self, offset: u16) -> (r: u8)
        requires
            self.wf(),
        ensures
            r == self.wave_ram@[(offset % 16) as int],
    {
        self.wave_ram[(offset % 16) as usize]
    }

    /// Writes a byte of wave RAM; `offset` is taken modulo its size.
    pub fn write_wave_ram(&mut self, offset: u16, value: u8)
        requires
            old(self).wf(),
        ensures
            final(self).wf(),
            final(self).wave_ram@ == old(self).wave_ram@.update((offset % 16) as int, value),
            *final(self) == (Ch3 { wave_ram: final(self).wave_ram, ..*old(self) }),
    {
        self.wave_ram.set((offset % 16) as usize, value);
    }
}

} // verus!
