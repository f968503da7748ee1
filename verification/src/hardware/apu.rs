//! The audio processing unit. Only its registers and length counters are
//! emulated.
pub mod ch1;
pub mod ch2;
pub mod ch3;
pub mod ch4;
pub mod envelope;
pub mod sweep;
pub mod wave_duty;

use vstd::prelude::*;
use crate::hardware::apu::ch1::Ch1;
use crate::hardware::apu::ch2::Ch2;
use crate::hardware::apu::ch3::Ch3;
use crate::hardware::apu::ch4::Ch4;
use crate::hardware::apu::envelope::Envelope;
use crate::hardware::apu::sweep::Sweep;

verus! {

/// The master volume of one output terminal.
#[derive(Clone, Copy, Debug, PartialEq, Eq, Structural)]
pub enum Volume {
    Vol0,
    Vol1,
    Vol2,
    Vol3,
    Vol4,
    Vol5,
    Vol6,
    Vol7,
}

impl Volume {
    pub open spec fn spec_bits(self) -> u8 {
        match self {
            Volume::Vol0 => 0,
            Volume::Vol1 => 1,
            Volume::Vol2 => 2,
            Volume::Vol3 => 3,
            Volume::Vol4 => 4,
            Volume::Vol5 => 5,
            Volume::Vol6 => 6,
            Volume::Vol7 => 7,
        }
    }

    /// The volume with the given number, taken modulo 8.
    pub open spec fn spec_from(value: u8) -> Volume {
        match value % 8 {
            0 => Volume::Vol0,
            1 => Volume::Vol1,
            2 => Volume::Vol2,
            3 => Volume::Vol3,
            4 => Volume::Vol4,
            5 => Volume::Vol5,
            6 => Volume::Vol6,
            _ => Volume::Vol7,
        }
    }

    pub fn from_u8(value: u8) -> (r: Option<Volume>)
        ensures
            value < 8 <==> r.is_some(),
            r matches Some(v) ==> v.spec_bits() == value && v == Volume::spec_from(value),
    {
        match value {
            0 => Some(Volume::Vol0),
            1 => Some(Volume::Vol1),
            2 => Some(Volume::Vol2),
            3 => Some(Volume::Vol3),
            4 => Some(Volume::Vol4),
            5 => Some(Volume::Vol5),
            6 => Some(Volume::Vol6),
            7 => Some(Volume::Vol7),
            _ => Option::None,
        }
    }

    pub fn bits(&self) -> (r: u8)
        ensures
            r == self.spec_bits(),
    {
        match *self {
            Volume::Vol0 => 0,
            Volume::Vol1 => 1,
            Volume::Vol2 => 2,
            Volume::Vol3 => 3,
            Volume::Vol4 => 4,
            Volume::Vol5 => 5,
            Volume::Vol6 => 6,
            Volume::Vol7 => 7,
        }
    }
}

/// The set of channels routed to one output terminal, one bit per channel.
#[derive(Clone, Copy, Debug, PartialEq, Eq, Structural)]
pub struct Channels {
    pub bits: u8,
}

impl Channels {
    pub const CH_1: u8 = 1;
    pub const CH_2: u8 = 2;
    pub const CH_3: u8 = 4;
    pub const CH_4: u8 = 8;

    pub fn empty() -> (r: Channels)
        ensures
            r.bits == 0,
    {
        Channels { bits: 0 }
    }

    /// Keeps the four channel bits of `bits`.
    pub fn from_bits_truncate(bits: u8) -> (r: Channels)
        ensures
            r.bits == bits % 16,
    {
        Channels { bits: bits % 16 }
    }
}

/// Cycles between two clocks of the length counters.
pub const LENGTH_CLOCK_CYCLES: usize = 4096;

/// Bits of NR52 that read as 1.
pub const CTRL_MASTER_MASK: u8 = 0x70;

/// The audio processing unit.
#[derive(Clone, Debug)]
pub struct Apu {
    pub enabled: bool,
    pub term1_volume: Volume,
    pub term2_volume: Volume,
    pub term1_vin: bool,
    pub term2_vin: bool,
    pub term1_channels: Channels,
    pub term2_channels: Channels,
    pub ch1: Ch1,
    pub ch2: Ch2,
    pub ch3: Ch3,
    pub ch4: Ch4,
    pub cycles: usize,
}

/// The bits that read as 1 in each sound register whatever was written:
/// the unused bits, the write-only fields and the unused addresses.
pub open spec fn read_mask(addr: u16) -> u8 {
    match addr {
        0xff10 => 0x80,
        0xff11 | 0xff16 => 0x3f,
        0xff12 | 0xff17 | 0xff21 | 0xff22 | 0xff24 | 0xff25 => 0x00,
        0xff14 | 0xff19 | 0xff1e | 0xff23 => 0xbf,
        0xff1a => 0x7f,
        0xff1c => 0x9f,
        _ => 0xff,
    }
}

impl Apu {
    pub open spec fn wf(&self) -> bool {
        &&& self.ch1.wf()
        &&& self.ch2.wf()
        &&& self.ch3.wf()
        &&& self.ch4.wf()
        &&& self.cycles <= LENGTH_CLOCK_CYCLES
        &&& self.term1_channels.bits < 16
        &&& self.term2_channels.bits < 16
    }

    /// Checks the invariant at run time.
    pub fn check_wf(&self) -> (r: bool)
        ensures
            r == self.wf(),
    {
        self.ch1.sweep.shift < 8 && self.ch1.envelope.volume < 16 && self.ch1.envelope.length < 8
            && self.ch1.counter <= 64 && self.ch2.envelope.volume < 16 && self.ch2.envelope.length
            < 8 && self.ch2.counter <= 64 && self.ch3.wave_ram.len() == ch3::WAVE_RAM_SIZE
            && self.ch3.volume < 4 && self.ch3.counter <= 256 && self.ch4.envelope.volume < 16
            && self.ch4.envelope.length < 8 && self.ch4.counter <= 64 && self.cycles
            <= LENGTH_CLOCK_CYCLES && self.term1_channels.bits < 16 && self.term2_channels.bits < 16
    }

    /// One machine cycle: the length counters are clocked once every
    /// 4097 cycles.
    pub open spec fn spec_tick(self) -> Apu {
        if self.cycles > 0 {
            Apu { cycles: (self.cycles - 1) as usize, ..self }
        } else {
            Apu {
                cycles: LENGTH_CLOCK_CYCLES,
                ch1: self.ch1.spec_clock(),
                ch2: self.ch2.spec_clock(),
                ch3: self.ch3.spec_clock(),
                ch4: self.ch4.spec_clock(),
                ..self
            }
        }
    }

    /// NR52: the master enable in bit 7 and the channel status bits.
    pub open spec fn spec_ctrl_master(self) -> u8 {
        (CTRL_MASTER_MASK + (if self.enabled { 128int } else { 0 }) + (if self.ch4.status {
            8int
        } else {
            0
        }) + (if self.ch3.status { 4int } else { 0 }) + (if self.ch2.status { 2int } else { 0 })
            + (if self.ch1.status { 1int } else { 0 })) as u8
    }

    /// NR50: the terminal volumes and Vin routing.
    pub open spec fn spec_ctrl_volume(self) -> u8 {
        (self.term1_volume.spec_bits() + (if self.term1_vin { 8int } else { 0 })
            + self.term2_volume.spec_bits() * 16 + (if self.term2_vin { 128int } else { 0 })) as u8
    }

    /// NR51: the channels routed to each terminal.
    pub open spec fn spec_terminal_channels(self) -> u8 {
        (self.term1_channels.bits + self.term2_channels.bits * 16) as u8
    }

    /// The APU after a write to NR52: switching it off resets every
    /// channel and the terminal settings.
    pub open spec fn spec_set_ctrl_master(self, value: u8) -> Apu {
        if value >= 128 {
            Apu { enabled: true, ..self }
        } else {
            Apu {
                enabled: false,
                ch1: Ch1::initial(),
                ch2: Ch2::initial(),
                ch3: self.ch3.spec_reset(),
                ch4: Ch4::initial(),
                term1_volume: Volume::Vol0,
                term2_volume: Volume::Vol0,
                term1_vin: false,
                term2_vin: false,
                term1_channels: Channels { bits: 0 },
                term2_channels: Channels { bits: 0 },
                ..self
            }
        }
    }

    pub open spec fn spec_set_ctrl_volume(self, value: u8) -> Apu {
        Apu {
            term1_volume: Volume::spec_from(value % 8),
            term1_vin: (value / 8) % 2 == 1,
            term2_volume: Volume::spec_from((value / 16) % 8),
            term2_vin: value >= 128,
            ..self
        }
    }

    pub open spec fn spec_set_terminal_channels(self, value: u8) -> Apu {
        Apu {
            term1_channels: Channels { bits: value % 16 },
            term2_channels: Channels { bits: value / 16 },
            ..self
        }
    }

    /// What a read of the sound register at `addr` returns.
    pub open spec fn spec_read(self, addr: u16) -> u8 {
        match addr {
            0xff10 => self.ch1.sweep.spec_reg(),
            0xff11 => (ch1::REG1_MASK + self.ch1.wave_duty.spec_bits() * 64) as u8,
            0xff12 => self.ch1.envelope.spec_reg(),
            0xff14 => (ch1::REG4_MASK + (if self.ch1.use_counter { 64int } else { 0 })) as u8,
            0xff16 => (ch2::REG1_MASK + self.ch2.wave_duty.spec_bits() * 64) as u8,
            0xff17 => self.ch2.envelope.spec_reg(),
            0xff19 => (ch2::REG4_MASK + (if self.ch2.use_counter { 64int } else { 0 })) as u8,
            0xff1a => (ch3::REG0_MASK + (if self.ch3.enabled { 128int } else { 0 })) as u8,
            0xff1c => (ch3::REG2_MASK + self.ch3.volume * 32) as u8,
            0xff1e => (ch3::REG4_MASK + (if self.ch3.use_counter { 64int } else { 0 })) as u8,
            0xff21 => self.ch4.envelope.spec_reg(),
            0xff22 => self.ch4.noise_opt,
            0xff23 => (ch4::REG4_MASK + (if self.ch4.use_counter { 64int } else { 0 })) as u8,
            0xff24 => self.spec_ctrl_volume(),
            0xff25 => self.spec_terminal_channels(),
            0xff26 => self.spec_ctrl_master(),
            _ => 0xff,
        }
    }

    /// The APU after a write of `value` to the sound register at `addr`.
    /// While the APU is off only NR52 can be written.
    pub open spec fn spec_write(self, addr: u16, value: u8) -> Apu {
        if addr == 0xff26 {
            self.spec_set_ctrl_master(value)
        } else if !self.enabled {
            self
        } else {
            match addr {
                0xff10 => Apu { ch1: Ch1 { sweep: Sweep::spec_from_reg(value), ..self.ch1 }, ..self },
                0xff11 => Apu { ch1: self.ch1.spec_write_reg1(value), ..self },
                0xff12 => Apu {
                    ch1: Ch1 { envelope: Envelope::spec_from_reg(value), ..self.ch1 },
                    ..self
                },
                0xff13 => Apu { ch1: self.ch1.spec_write_reg3(value), ..self },
                0xff14 => Apu { ch1: self.ch1.spec_write_reg4(value), ..self },
                0xff16 => Apu { ch2: self.ch2.spec_write_reg1(value), ..self },
                0xff17 => Apu {
                    ch2: Ch2 { envelope: Envelope::spec_from_reg(value), ..self.ch2 },
                    ..self
                },
                0xff18 => Apu { ch2: self.ch2.spec_write_reg3(value), ..self },
                0xff19 => Apu { ch2: self.ch2.spec_write_reg4(value), ..self },
                0xff1a => Apu { ch3: Ch3 { enabled: value >= 128, ..self.ch3 }, ..self },
                0xff1b => Apu {
                    ch3: Ch3 { counter: (256 - value as int) as usize, ..self.ch3 },
                    ..self
                },
                0xff1c => Apu { ch3: Ch3 { volume: (value / 32) % 4, ..self.ch3 }, ..self },
                0xff1d => Apu {
                    ch3: Ch3 {
                        freq_bits: (((self.ch3.freq_bits / 256) % 8) * 256 + value) as u16,
                        ..self.ch3
                    },
                    ..self
                },
                0xff1e => Apu { ch3: self.ch3.spec_write_reg4(value), ..self },
                0xff20 => Apu { ch4: self.ch4.spec_write_reg1(value), ..self },
                0xff21 => Apu {
                    ch4: Ch4 { envelope: Envelope::spec_from_reg(value), ..self.ch4 },
                    ..self
                },
                0xff22 => Apu { ch4: self.ch4.spec_write_reg3(value), ..self },
                0xff23 => Apu { ch4: self.ch4.spec_write_reg4(value), ..self },
                0xff24 => self.spec_set_ctrl_volume(value),
                0xff25 => self.spec_set_terminal_channels(value),
                _ => self,
            }
        }
    }

    pub fn new() -> (r: Apu)
        ensures
            r.wf(),
            !r.enabled,
            r.cycles == LENGTH_CLOCK_CYCLES,
            r.ch1 == Ch1::initial(),
            r.ch2 == Ch2::initial(),
            r.ch3 == r.ch3.spec_reset(),
            r.ch3.wave_ram@ == seq![0u8; 16],
            r.ch4 == Ch4::initial(),
            r.spec_ctrl_volume() == 0,
            r.spec_terminal_channels() == 0,
    {
        Apu {
            enabled: false,
            term1_volume: Volume::Vol0,
            term2_volume: Volume::Vol0,
            term1_vin: false,
            term2_vin: false,
            term1_channels: Channels::empty(),
            term2_channels: Channels::empty(),
            ch1: Ch1::new(),
            ch2: Ch2::new(),
            ch3: Ch3::new(),
            ch4: Ch4::new(),
            cycles: LENGTH_CLOCK_CYCLES,
        }
    }

    /// Advances the APU by one machine cycle.
    pub fn tick_cycle(&mut self)
        requires
            old(self).wf(),
        ensures
            final(self).wf(),
            *final(self) == old(self).spec_tick(),
    {
        if self.cycles > 0 {
            self.cycles -= 1;
        } else {
            self.cycles = LENGTH_CLOCK_CYCLES;
            self.ch1.clock();
            self.ch2.clock();
            self.ch3.clock();
            self.ch4.clock();
        }
    }

    /// Reads NR10 during one machine cycle.
    pub fn nr10_read_cycle(&mut self) -> (r: u8)
        requires
            old(self).wf(),
        ensures
            final(self).wf(),
            *final(self) == old(self).spec_tick(),
            r == old(self).spec_tick().spec_read(0xff10),
    {
        self.tick_cycle();
        self.ch1.sweep.read_reg()
    }

    /// Writes NR10 during one machine cycle; ignored while the APU is off.
    pub fn nr10_write_cycle(&mut self, value: u8)
        requires
            old(self).wf(),
        ensures
            final(self).wf(),
            *final(self) == old(self).spec_tick().spec_write(0xff10, value),
    {
        self.tick_cycle();
        if self.enabled {
            self.ch1.sweep.write_reg(value);
        }
    }

    /// Reads NR11 during one machine cycle.
    pub fn nr11_read_cycle(&mut self) -> (r: u8)
        requires
            old(self).wf(),
        ensures
            final(self).wf(),
            *final(self) == old(self).spec_tick(),
            r == old(self).spec_tick().spec_read(0xff11),
    {
        self.tick_cycle();
        self.ch1.read_reg1()
    }

    /// Writes NR11 during one machine cycle; ignored while the APU is off.
    pub fn nr11_write_cycle(&mut self, value: u8)
        requires
            old(self).wf(),
        ensures
            final(self).wf(),
            *final(self) == old(self).spec_tick().spec_write(0xff11, value),
    {
        self.tick_cycle();
        if self.enabled {
            self.ch1.write_reg1(value);
        }
    }

    /// Reads NR12 during one machine cycle.
    pub fn nr12_read_cycle(&mut self) -> (r: u8)
        requires
            old(self).wf(),
        ensures
            final(self).wf(),
            *final(self) == old(self).spec_tick(),
            r == old(self).spec_tick().spec_read(0xff12),
    {
        self.tick_cycle();
        self.ch1.envelope.read_reg()
    }

    /// Writes NR12 during one machine cycle; ignored while the APU is off.
    pub fn nr12_write_cycle(&mut self, value: u8)
        requires
            old(self).wf(),
        ensures
            final(self).wf(),
            *final(self) == old(self).spec_tick().spec_write(0xff12, value),
    {
        self.tick_cycle();
        if self.enabled {
            self.ch1.envelope.write_reg(value);
        }
    }

    /// Reads NR13 during one machine cycle.
    pub fn nr13_read_cycle(&mut self) -> (r: u8)
        requires
            old(self).wf(),
        ensures
            final(self).wf(),
            *final(self) == old(self).spec_tick(),
            r == old(self).spec_tick().spec_read(0xff13),
    {
        self.tick_cycle();
        0xff
    }

    /// Writes NR13 during one machine cycle; ignored while the APU is off.
    pub fn nr13_write_cycle(&mut self, value: u8)
        requires
            old(self).wf(),
        ensures
            final(self).wf(),
            *final(self) == old(self).spec_tick().spec_write(0xff13, value),
    {
        self.tick_cycle();
        if self.enabled {
            self.ch1.write_reg3(value);
        }
    }

    /// Reads NR14 during one machine cycle.
    pub fn nr14_read_cycle(&mut self) -> (r: u8)
        requires
            old(self).wf(),
        ensures
            final(self).wf(),
            *final(self) == old(self).spec_tick(),
            r == old(self).spec_tick().spec_read(0xff14),
    {
        self.tick_cycle();
        self.ch1.read_reg4()
    }

    /// Writes NR14 during one machine cycle; ignored while the APU is off.
    pub fn nr14_write_cycle(&mut self, value: u8)
        requires
            old(self).wf(),
        ensures
            final(self).wf(),
            *final(self) == old(self).spec_tick().spec_write(0xff14, value),
    {
        self.tick_cycle();
        if self.enabled {
            self.ch1.write_reg4(value);
        }
    }

    /// Reads NR21 during one machine cycle.
    pub fn nr21_read_cycle(&mut self) -> (r: u8)
        requires
            old(self).wf(),
        ensures
            final(self).wf(),
            *final(self) == old(self).spec_tick(),
            r == old(self).spec_tick().spec_read(0xff16),
    {
        self.tick_cycle();
        self.ch2.read_reg1()
    }

    /// Writes NR21 during one machine cycle; ignored while the APU is off.
    pub fn nr21_write_cycle(&mut self, value: u8)
        requires
            old(self).wf(),
        ensures
            final(self).wf(),
            *final(self) == old(self).spec_tick().spec_write(0xff16, value),
    {
        self.tick_cycle();
        if self.enabled {
            self.ch2.write_reg1(value);
        }
    }

    /// Reads NR22 during one machine cycle.
    pub fn nr22_read_cycle(&mut self) -> (r: u8)
        requires
            old(self).wf(),
        ensures
            final(self).wf(),
            *final(self) == old(self).spec_tick(),
            r == old(self).spec_tick().spec_read(0xff17),
    {
        self.tick_cycle();
        self.ch2.envelope.read_reg()
    }

    /// Writes NR22 during one machine cycle; ignored while the APU is off.
    pub fn nr22_write_cycle(&mut self, value: u8)
        requires
            old(self).wf(),
        ensures
            final(self).wf(),
            *final(self) == old(self).spec_tick().spec_write(0xff17, value),
    {
        self.tick_cycle();
        if self.enabled {
            self.ch2.envelope.write_reg(value);
        }
    }

    /// Reads NR23 during one machine cycle.
    pub fn nr23_read_cycle(&mut self) -> (r: u8)
        requires
            old(self).wf(),
        ensures
            final(self).wf(),
            *final(self) == old(self).spec_tick(),
            r == old(self).spec_tick().spec_read(0xff18),
    {
        self.tick_cycle();
        0xff
    }

    /// Writes NR23 during one machine cycle; ignored while the APU is off.
    pub fn nr23_write_cycle(&mut self, value: u8)
        requires
            old(self).wf(),
        ensures
            final(self).wf(),
            *final(self) == old(self).spec_tick().spec_write(0xff18, value),
    {
        self.tick_cycle();
        if self.enabled {
            self.ch2.write_reg3(value);
        }
    }

    /// Reads NR24 during one machine cycle.
    pub fn nr24_read_cycle(&mut self) -> (r: u8)
        requires
            old(self).wf(),
        ensures
            final(self).wf(),
            *final(self) == old(self).spec_tick(),
            r == old(self).spec_tick().spec_read(0xff19),
    {
        self.tick_cycle();
        self.ch2.read_reg4()
    }

    /// Writes NR24 during one machine cycle; ignored while the APU is off.
    pub fn nr24_write_cycle(&mut self, value: u8)
        requires
            old(self).wf(),
        ensures
            final(self).wf(),
            *final(self) == old(self).spec_tick().spec_write(0xff19, value),
    {
        self.tick_cycle();
        if self.enabled {
            self.ch2.write_reg4(value);
        }
    }

    /// Reads NR30 during one machine cycle.
    pub fn nr30_read_cycle(&mut self) -> (r: u8)
        requires
            old(self).wf(),
        ensures
            final(self).wf(),
            *final(self) == old(self).spec_tick(),
            r == old(self).spec_tick().spec_read(0xff1a),
    {
        self.tick_cycle();
        self.ch3.read_reg0()
    }

    /// Writes NR30 during one machine cycle; ignored while the APU is off.
    pub fn nr30_write_cycle(&mut self, value: u8)
        requires
            old(self).wf(),
        ensures
            final(self).wf(),
            *final(self) == old(self).spec_tick().spec_write(0xff1a, value),
    {
        self.tick_cycle();
        if self.enabled {
            self.ch3.write_reg0(value);
        }
    }

    /// Reads NR31 during one machine cycle.
    pub fn nr31_read_cycle(&mut self) -> (r: u8)
        requires
            old(self).wf(),
        ensures
            final(self).wf(),
            *final(self) == old(self).spec_tick(),
            r == old(self).spec_tick().spec_read(0xff1b),
    {
        self.tick_cycle();
        0xff
    }

    /// Writes NR31 during one machine cycle; ignored while the APU is off.
    pub fn nr31_write_cycle(&mut self, value: u8)
        requires
            old(self).wf(),
        ensures
            final(self).wf(),
            *final(self) == old(self).spec_tick().spec_write(0xff1b, value),
    {
        self.tick_cycle();
        if self.enabled {
            self.ch3.write_reg1(value);
        }
    }

    /// Reads NR32 during one machine cycle.
    pub fn nr32_read_cycle(&mut self) -> (r: u8)
        requires
            old(self).wf(),
        ensures
            final(self).wf(),
            *final(self) == old(self).spec_tick(),
            r == old(self).spec_tick().spec_read(0xff1c),
    {
        self.tick_cycle();
        self.ch3.read_reg2()
    }

    /// Writes NR32 during one machine cycle; ignored while the APU is off.
    pub fn nr32_write_cycle(&mut self, value: u8)
        requires
            old(self).wf(),
        ensures
            final(self).wf(),
            *final(self) == old(self).spec_tick().spec_write(0xff1c, value),
    {
        self.tick_cycle();
        if self.enabled {
            self.ch3.write_reg2(value);
        }
    }

    /// Reads NR33 during one machine cycle.
    pub fn nr33_read_cycle(&mut self) -> (r: u8)
        requires
            old(self).wf(),
        ensures
            final(self).wf(),
            *final(self) == old(self).spec_tick(),
            r == old(self).spec_tick().spec_read(0xff1d),
    {
        self.tick_cycle();
        0xff
    }

    /// Writes NR33 during one machine cycle; ignored while the APU is off.
    pub fn nr33_write_cycle(&mut self, value: u8)
        requires
            old(self).wf(),
        ensures
            final(self).wf(),
            *final(self) == old(self).spec_tick().spec_write(0xff1d, value),
    {
        self.tick_cycle();
        if self.enabled {
            self.ch3.write_reg3(value);
        }
    }

    /// Reads NR34 during one machine cycle.
    pub fn nr34_read_cycle(&mut self) -> (r: u8)
        requires
            old(self).wf(),
        ensures
            final(self).wf(),
            *final(self) == old(self).spec_tick(),
            r == old(self).spec_tick().spec_read(0xff1e),
    {
        self.tick_cycle();
        self.ch3.read_reg4()
    }

    /// Writes NR34 during one machine cycle; ignored while the APU is off.
    pub fn nr34_write_cycle(&mut self, value: u8)
        requires
            old(self).wf(),
        ensures
            final(self).wf(),
            *final(self) == old(self).spec_tick().spec_write(0xff1e, value),
    {
        self.tick_cycle();
        if self.enabled {
            self.ch3.write_reg4(value);
        }
    }

    /// Reads NR41 during one machine cycle.
    pub fn nr41_read_cycle(&mut self) -> (r: u8)
        requires
            old(self).wf(),
        ensures
            final(self).wf(),
            *final(self) == old(self).spec_tick(),
            r == old(self).spec_tick().spec_read(0xff20),
    {
        self.tick_cycle();
        0xff
    }

    /// Writes NR41 during one machine cycle; ignored while the APU is off.
    pub fn nr41_write_cycle(&mut self, value: u8)
        requires
            old(self).wf(),
        ensures
            final(self).wf(),
            *final(self) == old(self).spec_tick().spec_write(0xff20, value),
    {
        self.tick_cycle();
        if self.enabled {
            self.ch4.write_reg1(value);
        }
    }

    /// Reads NR42 during one machine cycle.
    pub fn nr42_read_cycle(&mut self) -> (r: u8)
        requires
            old(self).wf(),
        ensures
            final(self).wf(),
            *final(self) == old(self).spec_tick(),
            r == old(self).spec_tick().spec_read(0xff21),
    {
        self.tick_cycle();
        self.ch4.envelope.read_reg()
    }

    /// Writes NR42 during one machine cycle; ignored while the APU is off.
    pub fn nr42_write_cycle(&mut self, value: u8)
        requires
            old(self).wf(),
        ensures
            final(self).wf(),
            *final(self) == old(self).spec_tick().spec_write(0xff21, value),
    {
        self.tick_cycle();
        if self.enabled {
            self.ch4.envelope.write_reg(value);
        }
    }

    /// Reads NR43 during one machine cycle.
    pub fn nr43_read_cycle(&mut self) -> (r: u8)
        requires
            old(self).wf(),
        ensures
            final(self).wf(),
            *final(self) == old(self).spec_tick(),
            r == old(self).spec_tick().spec_read(0xff22),
    {
        self.tick_cycle();
        self.ch4.read_reg3()
    }

    /// Writes NR43 during one machine cycle; ignored while the APU is off.
    pub fn nr43_write_cycle(&mut self, value: u8)
        requires
            old(self).wf(),
        ensures
            final(self).wf(),
            *final(self) == old(self).spec_tick().spec_write(0xff22, value),
    {
        self.tick_cycle();
        if self.enabled {
            self.ch4.write_reg3(value);
        }
    }

    /// Reads NR44 during one machine cycle.
    pub fn nr44_read_cycle(&mut self) -> (r: u8)
        requires
            old(self).wf(),
        ensures
            final(self).wf(),
            *final(self) == old(self).spec_tick(),
            r == old(self).spec_tick().spec_read(0xff23),
    {
        self.tick_cycle();
        self.ch4.read_reg4()
    }

    /// Writes NR44 during one machine cycle; ignored while the APU is off.
    pub fn nr44_write_cycle(&mut self, value: u8)
        requires
            old(self).wf(),
        ensures
            final(self).wf(),
            *final(self) == old(self).spec_tick().spec_write(0xff23, value),
    {
        self.tick_cycle();
        if self.enabled {
            self.ch4.write_reg4(value);
        }
    }

    /// Reads NR50 during one machine cycle.
    pub fn nr50_read_cycle(&mut self) -> (r: u8)
        requires
            old(self).wf(),
        ensures
            final(self).wf(),
            *final(self) == old(self).spec_tick(),
            r == old(self).spec_tick().spec_read(0xff24),
    {
        self.tick_cycle();
        self.get_ctrl_volume()
    }

    /// Writes NR50 during one machine cycle; ignored while the APU is off.
    pub fn nr50_write_cycle(&mut self, value: u8)
        requires
            old(self).wf(),
        ensures
            final(self).wf(),
            *final(self) == old(self).spec_tick().spec_write(0xff24, value),
    {
        self.tick_cycle();
        if self.enabled {
            self.set_ctrl_volume(value);
        }
    }

    /// Reads NR51 during one machine cycle.
    pub fn nr51_read_cycle(&mut self) -> (r: u8)
        requires
            old(self).wf(),
        ensures
            final(self).wf(),
            *final(self) == old(self).spec_tick(),
            r == old(self).spec_tick().spec_read(0xff25),
    {
        self.tick_cycle();
        self.get_terminal_channels()
    }

    /// Writes NR51 during one machine cycle; ignored while the APU is off.
    pub fn nr51_write_cycle(&mut self, value: u8)
        requires
            old(self).wf(),
        ensures
            final(self).wf(),
            *final(self) == old(self).spec_tick().spec_write(0xff25, value),
    {
        self.tick_cycle();
        if self.enabled {
            self.set_terminal_channels(value);
        }
    }

    /// Reads NR52 during one machine cycle.
    pub fn nr52_read_cycle(&mut self) -> (r: u8)
        requires
            old(self).wf(),
        ensures
            final(self).wf(),
            *final(self) == old(self).spec_tick(),
            r == old(self).spec_tick().spec_read(0xff26),
    {
        self.tick_cycle();
        self.get_ctrl_master()
    }

    /// Writes NR52 during one machine cycle; this register is written even
    /// while the APU is off.
    pub fn nr52_write_cycle(&mut self, value: u8)
        requires
            old(self).wf(),
        ensures
            final(self).wf(),
            *final(self) == old(self).spec_tick().spec_write(0xff26, value),
    {
        self.tick_cycle();
        self.set_ctrl_master(value);
    }

    /// Reads wave RAM during one machine cycle.
    pub fn wave_ram_read_cycle(&mut self, addr: u16) -> (r: u8)
        requires
            old(self).wf(),
            addr >= 0xff30,
        ensures
            final(self).wf(),
            *final(self) == old(self).spec_tick(),
            r == old(self).ch3.wave_ram@[((addr - 0xff30) % 16) as int],
    {
        self.tick_cycle();
        self.ch3.read_wave_ram(addr - 0xff30)
    }

    /// Writes wave RAM during one machine cycle, whether or not the APU is on.
    pub fn wave_ram_write_cycle(&mut self, addr: u16, value: u8)
        requires
            old(self).wf(),
            addr >= 0xff30,
        ensures
            final(self).wf(),
            final(self).ch3.wave_ram@ == old(self).ch3.wave_ram@.update(
                ((addr - 0xff30) % 16) as int,
                value,
            ),
            *final(self) == (Apu {
                ch3: Ch3 { wave_ram: final(self).ch3.wave_ram, ..old(self).spec_tick().ch3 },
                ..old(self).spec_tick()
            }),
    {
        self.tick_cycle();
        self.ch3.write_wave_ram(addr - 0xff30, value);
    }

    /// Reads a sound register without a cycle.
    pub fn peek(&self, addr: u16) -> (r: u8)
        requires
            self.wf(),
        ensures
            r == self.spec_read(addr),
    {
        match addr {
            0xff10 => self.ch1.sweep.read_reg(),
            0xff11 => self.ch1.read_reg1(),
            0xff12 => self.ch1.envelope.read_reg(),
            0xff14 => self.ch1.read_reg4(),
            0xff16 => self.ch2.read_reg1(),
            0xff17 => self.ch2.envelope.read_reg(),
            0xff19 => self.ch2.read_reg4(),
            0xff1a => self.ch3.read_reg0(),
            0xff1c => self.ch3.read_reg2(),
            0xff1e => self.ch3.read_reg4(),
            0xff21 => self.ch4.envelope.read_reg(),
            0xff22 => self.ch4.read_reg3(),
            0xff23 => self.ch4.read_reg4(),
            0xff24 => self.get_ctrl_volume(),
            0xff25 => self.get_terminal_channels(),
            0xff26 => self.get_ctrl_master(),
            _ => 0xff,
        }
    }

    /// Reads a sound register or wave RAM during one machine cycle.
    pub fn read_cycle(&mut self, addr: u16) -> (r: u8)
        requires
            old(self).wf(),
            0xff10 <= addr <= 0xff3f,
        ensures
            final(self).wf(),
            *final(self) == old(self).spec_tick(),
            r == if addr >= 0xff30 {
                old(self).ch3.wave_ram@[((addr - 0xff30) % 16) as int]
            } else {
                old(self).spec_tick().spec_read(addr)
            },
    {
        if addr >= 0xff30 {
            return self.wave_ram_read_cycle(addr);
        }
        match addr {
            0xff10 => self.nr10_read_cycle(),
            0xff11 => self.nr11_read_cycle(),
            0xff12 => self.nr12_read_cycle(),
            0xff13 => self.nr13_read_cycle(),
            0xff14 => self.nr14_read_cycle(),
            0xff16 => self.nr21_read_cycle(),
            0xff17 => self.nr22_read_cycle(),
            0xff18 => self.nr23_read_cycle(),
            0xff19 => self.nr24_read_cycle(),
            0xff1a => self.nr30_read_cycle(),
            0xff1b => self.nr31_read_cycle(),
            0xff1c => self.nr32_read_cycle(),
            0xff1d => self.nr33_read_cycle(),
            0xff1e => self.nr34_read_cycle(),
            0xff20 => self.nr41_read_cycle(),
            0xff21 => self.nr42_read_cycle(),
            0xff22 => self.nr43_read_cycle(),
            0xff23 => self.nr44_read_cycle(),
            0xff24 => self.nr50_read_cycle(),
            0xff25 => self.nr51_read_cycle(),
            0xff26 => self.nr52_read_cycle(),
            _ => {
                self.tick_cycle();
                0xff
            },
        }
    }

    /// Writes a sound register or wave RAM during one machine cycle.
    pub fn write_cycle(&mut self, addr: u16, value: u8)
        requires
            old(self).wf(),
            0xff10 <= addr <= 0xff3f,
        ensures
            final(self).wf(),
            addr < 0xff30 ==> *final(self) == old(self).spec_tick().spec_write(addr, value),
            addr >= 0xff30 ==> final(self).ch3.wave_ram@ == old(self).ch3.wave_ram@.update(
                ((addr - 0xff30) % 16) as int,
                value,
            ) && *final(self) == (Apu {
                ch3: Ch3 { wave_ram: final(self).ch3.wave_ram, ..old(self).spec_tick().ch3 },
                ..old(self).spec_tick()
            }),
    {
        if addr >= 0xff30 {
            self.wave_ram_write_cycle(addr, value);
            return ;
        }
        match addr {
            0xff10 => self.nr10_write_cycle(value),
            0xff11 => self.nr11_write_cycle(value),
            0xff12 => self.nr12_write_cycle(value),
            0xff13 => self.nr13_write_cycle(value),
            0xff14 => self.nr14_write_cycle(value),
            0xff16 => self.nr21_write_cycle(value),
            0xff17 => self.nr22_write_cycle(value),
            0xff18 => self.nr23_write_cycle(value),
            0xff19 => self.nr24_write_cycle(value),
            0xff1a => self.nr30_write_cycle(value),
            0xff1b => self.nr31_write_cycle(value),
            0xff1c => self.nr32_write_cycle(value),
            0xff1d => self.nr33_write_cycle(value),
            0xff1e => self.nr34_write_cycle(value),
            0xff20 => self.nr41_write_cycle(value),
            0xff21 => self.nr42_write_cycle(value),
            0xff22 => self.nr43_write_cycle(value),
            0xff23 => self.nr44_write_cycle(value),
            0xff24 => self.nr50_write_cycle(value),
            0xff25 => self.nr51_write_cycle(value),
            0xff26 => self.nr52_write_cycle(value),
            _ => self.tick_cycle(),
        }
    }

    pub fn get_terminal_channels(&self) -> (r: u8)
        requires
            self.wf(),
        ensures
            r == self.spec_terminal_channels(),
    {
        self.term1_channels.bits + self.term2_channels.bits * 16
    }

    pub fn set_terminal_channels(&mut self, value: u8)
        requires
            old(self).wf(),
        ensures
            final(self).wf(),
            *final(self) == old(self).spec_set_terminal_channels(value),
    {
        self.term1_channels = Channels::from_bits_truncate(value);
        self.term2_channels = Channels::from_bits_truncate(value / 16);
    }

    pub fn get_ctrl_master(&self) -> (r: u8)
        ensures
            r == self.spec_ctrl_master(),
    {
        CTRL_MASTER_MASK + (if self.enabled {
            128
        } else {
            0
        }) + (if self.ch4.status {
            8
        } else {
            0
        }) + (if self.ch3.status {
            4
        } else {
            0
        }) + (if self.ch2.status {
            2
        } else {
            0
        }) + (if self.ch1.status {
            1
        } else {
            0
        })
    }

    pub fn set_ctrl_master(&mut self, value: u8)
        requires
            old(self).wf(),
        ensures
            final(self).wf(),
            *final(self) == old(self).spec_set_ctrl_master(value),
    {
        self.enabled = value >= 128;
        if !self.enabled {
            self.ch1.reset();
            self.ch2.reset();
            self.ch3.reset();
            self.ch4.reset();
            self.term1_volume = Volume::Vol0;
            self.term2_volume = Volume::Vol0;
            self.term1_vin = false;
            self.term2_vin = false;
            self.term1_channels = Channels::empty();
            self.term2_channels = Channels::empty();
        }
    }

    pub fn get_ctrl_volume(&self) -> (r: u8)
        ensures
            r == self.spec_ctrl_volume(),
    {
        self.term1_volume.bits() + (if self.term1_vin {
            8
        } else {
            0
        }) + self.term2_volume.bits() * 16 + (if self.term2_vin {
            128
        } else {
            0
        })
    }

    pub fn set_ctrl_volume(&mut self, value: u8)
        requires
            old(self).wf(),
        ensures
            final(self).wf(),
            *final(self) == old(self).spec_set_ctrl_volume(value),
    {
        self.term1_volume = Volume::from_u8(value % 8).unwrap();
        self.term1_vin = (value / 8) % 2 == 1;
        self.term2_volume = Volume::from_u8((value / 16) % 8).unwrap();
        self.term2_vin = value >= 128;
    }
}

/// The masks of `read_mask` in arithmetic form.
proof fn lemma_read_masks(v: u8)
    by (bit_vector)
    ensures
        v | 0x80 == 128 + v % 128,
        v | 0x3f == 0x3f + (v / 64) * 64,
        v | 0x00 == v,
        v | 0xff == 0xff,
        v | 0xbf == 0xbf + ((v / 64) % 2) * 64,
        v | 0x7f == 0x7f + (v / 128) * 128,
        v | 0x9f == 0x9f + ((v / 32) % 4) * 32,
        (v % 8) + ((v / 8) % 2) * 8 + ((v / 16) % 8) * 16 + (v / 128) * 128 == v,
        v % 16 + (v / 16) * 16 == v,
{
}

/// A machine cycle changes no sound register but NR52.
proof fn lemma_tick_keeps_registers(apu: Apu, addr: u16)
    requires
        addr != 0xff26,
    ensures
        apu.spec_tick().spec_read(addr) == apu.spec_read(addr),
{
}

/// While the APU is on, reading a sound register gives back the byte last
/// written to it, with the bits of `read_mask` set; the machine cycle
/// between the write and the read does not change it.
#[verifier::rlimit(100)]
pub proof fn lemma_register_readback(apu: Apu, addr: u16, value: u8)
    requires
        apu.enabled,
        0xff10 <= addr <= 0xff25,
    ensures
        apu.spec_write(addr, value).spec_tick().spec_read(addr) == value | read_mask(addr),
{
    lemma_read_masks(value);
    lemma_tick_keeps_registers(apu.spec_write(addr, value), addr);
    let w = apu.spec_write(addr, value);
    if addr == 0xff10 {
        crate::hardware::apu::sweep::lemma_sweep_roundtrip(value);
    } else if addr == 0xff11 || addr == 0xff16 {
        assert(crate::hardware::apu::wave_duty::WaveDuty::spec_from(value / 64).spec_bits() == value
            / 64);
    } else if addr == 0xff12 || addr == 0xff17 || addr == 0xff21 {
        crate::hardware::apu::envelope::lemma_envelope_roundtrip(value);
    } else if addr == 0xff24 {
        assert(Volume::spec_from(value % 8).spec_bits() == value % 8);
        assert(Volume::spec_from((value / 16) % 8).spec_bits() == (value / 16) % 8);
        assert(w.spec_read(addr) == value);
    } else if addr == 0xff25 {
        assert(w.spec_read(addr) == value);
    } else {
        assert(w.spec_read(addr) == value | read_mask(addr));
    }
}

/// Switching the APU off clears every sound register: each reads back as
/// its mask alone.
pub proof fn lemma_power_off_clears(apu: Apu, addr: u16)
    requires
        0xff10 <= addr <= 0xff25,
    ensures
        apu.spec_set_ctrl_master(0).spec_read(addr) == read_mask(addr),
{
    let off = apu.spec_set_ctrl_master(0);
    assert(off.ch1.sweep.spec_reg() == 0x80);
    assert(off.ch1.envelope.spec_reg() == 0);
    assert(off.ch2.envelope.spec_reg() == 0);
    assert(off.ch4.envelope.spec_reg() == 0);
}

} // verus!
