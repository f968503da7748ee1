//! Cartridges on the bus: ROM and RAM banking by the memory bank
//! controllers.
use vstd::prelude::*;
use crate::config::cartridge::CartridgeRamSize;
use crate::config::cartridge::CartridgeType;
use crate::config::cartridge::Cartridge as CartridgeConfig;
use crate::gameboy::RAM_BANK_SIZE;
use crate::gameboy::ROM_BANK_SIZE;

verus! {

/// The registers of an MBC1.
#[derive(Clone, Copy, Debug, PartialEq, Eq, Structural)]
pub struct Mbc1State {
    pub ramg: bool,
    /// BANK1: the low five bits of the ROM bank; never 0.
    pub bank1: u8,
    /// BANK2: two more bank bits, for ROM or RAM.
    pub bank2: u8,
    pub mode: bool,
}

impl Default for Mbc1State {
    fn default() -> (r: Mbc1State)
        ensures
            r == (Mbc1State { ramg: false, bank1: 1, bank2: 0, mode: false }),
    {
        Mbc1State { ramg: false, bank1: 0b0_0001, bank2: 0b00, mode: false }
    }
}

impl Mbc1State {
    pub open spec fn wf(self) -> bool {
        1 <= self.bank1 < 32 && self.bank2 < 4
    }

    /// The bank bits that BANK2 supplies: bits 5-6 of the bank number, or
    /// bits 4-5 on a multicart, whose BANK1 has only four bits wired.
    pub open spec fn spec_upper_bits(self, multicart: bool) -> usize {
        if multicart {
            (self.bank2 * 16) as usize
        } else {
            (self.bank2 * 32) as usize
        }
    }

    /// The offsets in ROM of the banks mapped at 0x0000 and 0x4000.
    pub open spec fn spec_rom_offsets(self, multicart: bool) -> (usize, usize) {
        let lower_bits = if multicart {
            self.bank1 % 16
        } else {
            self.bank1
        };
        let lower_bank = if self.mode {
            self.spec_upper_bits(multicart)
        } else {
            0
        };
        (
            (ROM_BANK_SIZE * lower_bank) as usize,
            (ROM_BANK_SIZE * (self.spec_upper_bits(multicart) + lower_bits)) as usize,
        )
    }

    /// The offset in RAM of the bank mapped at 0xa000.
    pub open spec fn spec_ram_offset(self) -> usize {
        (RAM_BANK_SIZE * (if self.mode {
            self.bank2 as usize
        } else {
            0
        })) as usize
    }

    pub fn rom_offsets(&self, multicart: bool) -> (r: (usize, usize))
        requires
            self.wf(),
        ensures
            r == self.spec_rom_offsets(multicart),
    {
        let upper_bits: usize = if multicart {
            self.bank2 as usize * 16
        } else {
            self.bank2 as usize * 32
        };
        let lower_bits: usize = if multicart {
            (self.bank1 % 16) as usize
        } else {
            self.bank1 as usize
        };
        let lower_bank: usize = if self.mode {
            upper_bits
        } else {
            0b00
        };
        let upper_bank: usize = upper_bits + lower_bits;
        (ROM_BANK_SIZE * lower_bank, ROM_BANK_SIZE * upper_bank)
    }

    pub fn ram_offset(&self) -> (r: usize)
        requires
            self.wf(),
        ensures
            r == self.spec_ram_offset(),
    {
        let bank: usize = if self.mode {
            self.bank2 as usize
        } else {
            0b00
        };
        RAM_BANK_SIZE * bank
    }
}

/// The registers of an MBC2.
#[derive(Clone, Copy, Debug, PartialEq, Eq, Structural)]
pub struct Mbc2State {
    pub ramg: bool,
    /// The ROM bank at 0x4000; never 0.
    pub rom_bank: u8,
}

impl Default for Mbc2State {
    fn default() -> (r: Mbc2State)
        ensures
            r == (Mbc2State { ramg: false, rom_bank: 1 }),
    {
        Mbc2State { ramg: false, rom_bank: 0b0001 }
    }
}

/// The registers of an MBC3; the real-time clock is not emulated.
#[derive(Clone, Copy, Debug, PartialEq, Eq, Structural)]
pub struct Mbc3State {
    /// The ROM bank at 0x4000; never 0.
    pub rom_bank: u8,
    pub map_en: bool,
    /// What is mapped at 0xa000: a RAM bank, or a clock register.
    pub map_select: u8,
}

impl Default for Mbc3State {
    fn default() -> (r: Mbc3State)
        ensures
            r == (Mbc3State { rom_bank: 1, map_en: false, map_select: 0 }),
    {
        Mbc3State { rom_bank: 0b0000_0001, map_en: false, map_select: 0b0000 }
    }
}

/// The registers of an MBC5.
#[derive(Clone, Copy, Debug, PartialEq, Eq, Structural)]
pub struct Mbc5State {
    pub ramg: bool,
    /// Low eight bits of the ROM bank.
    pub romb0: u8,
    /// Bit 8 of the ROM bank.
    pub romb1: u8,
    pub ramb: u8,
}

impl Default for Mbc5State {
    fn default() -> (r: Mbc5State)
        ensures
            r == (Mbc5State { ramg: false, romb0: 1, romb1: 0, ramb: 0 }),
    {
        Mbc5State { ramg: false, romb0: 0b0000_0001, romb1: 0b0, ramb: 0b0000 }
    }
}

impl Mbc5State {
    pub open spec fn spec_rom_offsets(self) -> (usize, usize) {
        (0, (ROM_BANK_SIZE * (self.romb1 * 256 + self.romb0)) as usize)
    }

    pub fn rom_offsets(&self) -> (r: (usize, usize))
        requires
            self.romb1 < 2,
        ensures
            r == self.spec_rom_offsets(),
    {
        let lower_bits = self.romb0 as usize;
        let upper_bits = self.romb1 as usize * 256;
        let rom_bank = upper_bits + lower_bits;
        (0x0000, ROM_BANK_SIZE * rom_bank)
    }
}

/// The registers of a HuC1; its infrared port is not emulated.
#[derive(Clone, Copy, Debug, PartialEq, Eq, Structural)]
pub struct Huc1State {
    pub mode: u8,
    pub rom_bank: u8,
    pub ram_bank: u8,
}

impl Default for Huc1State {
    fn default() -> (r: Huc1State)
        ensures
            r == (Huc1State { mode: 0, rom_bank: 0, ram_bank: 0 }),
    {
        Huc1State { mode: 0b0000, rom_bank: 0b00_0000, ram_bank: 0b00 }
    }
}

/// The memory bank controller of a cartridge and its registers.
#[derive(Clone, Copy, Debug, PartialEq, Eq, Structural)]
pub enum Mbc {
    NoMbc,
    Mbc1 { state: Mbc1State, multicart: bool },
    Mbc2 { state: Mbc2State },
    Mbc3 { state: Mbc3State, mbc30: bool },
    Mbc5 { state: Mbc5State },
    Huc1 { state: Huc1State },
}

/// Whether the emulator has a controller for this cartridge type.
pub open spec fn spec_is_supported(t: CartridgeType) -> bool {
    !(t is Mbc6 || t is Mbc7 || t is Huc3)
}

/// Whether the emulator has a controller for this cartridge type.
pub fn is_supported(t: CartridgeType) -> (r: bool)
    ensures
        r == spec_is_supported(t),
{
    match t {
        CartridgeType::Mbc6 | CartridgeType::Mbc7 | CartridgeType::Huc3 => false,
        _ => true,
    }
}

impl Mbc {
    pub open spec fn wf(self) -> bool {
        match self {
            Mbc::Mbc1 { state, .. } => state.wf(),
            Mbc::Mbc2 { state } => 1 <= state.rom_bank < 16,
            Mbc::Mbc3 { state, .. } => state.rom_bank != 0 && state.map_select < 16,
            Mbc::Mbc5 { state } => state.romb1 < 2 && state.ramb < 16,
            Mbc::Huc1 { state } => state.mode < 16 && state.rom_bank < 64 && state.ram_bank < 4,
            Mbc::NoMbc => true,
        }
    }

    /// Checks the invariant at run time.
    pub fn check_wf(&self) -> (r: bool)
        ensures
            r == self.wf(),
    {
        match *self {
            Mbc::Mbc1 { state, .. } => 1 <= state.bank1 && state.bank1 < 32 && state.bank2 < 4,
            Mbc::Mbc2 { state } => 1 <= state.rom_bank && state.rom_bank < 16,
            Mbc::Mbc3 { state, .. } => state.rom_bank != 0 && state.map_select < 16,
            Mbc::Mbc5 { state } => state.romb1 < 2 && state.ramb < 16,
            Mbc::Huc1 { state } => state.mode < 16 && state.rom_bank < 64 && state.ram_bank < 4,
            Mbc::NoMbc => true,
        }
    }

    /// The controller of a cartridge, with its registers as at power-on.
    pub open spec fn spec_from_config(t: CartridgeType, ram_size: CartridgeRamSize) -> Mbc {
        match t {
            CartridgeType::NoMbc { .. } => Mbc::NoMbc,
            CartridgeType::Mbc1 { multicart, .. } => Mbc::Mbc1 {
                multicart,
                state: Mbc1State { ramg: false, bank1: 1, bank2: 0, mode: false },
            },
            CartridgeType::Mbc2 { .. } => Mbc::Mbc2 { state: Mbc2State { ramg: false, rom_bank: 1 } },
            CartridgeType::Mbc3 { .. } => Mbc::Mbc3 {
                mbc30: ram_size.spec_as_usize() > 65536,
                state: Mbc3State { rom_bank: 1, map_en: false, map_select: 0 },
            },
            CartridgeType::Mbc5 { .. } => Mbc::Mbc5 {
                state: Mbc5State { ramg: false, romb0: 1, romb1: 0, ramb: 0 },
            },
            _ => Mbc::Huc1 { state: Huc1State { mode: 0, rom_bank: 0, ram_bank: 0 } },
        }
    }

    pub fn from_config(config: &CartridgeConfig) -> (r: Mbc)
        requires
            spec_is_supported(config.cartridge_type),
        ensures
            r == Mbc::spec_from_config(config.cartridge_type, config.ram_size),
            r.wf(),
    {
        match config.cartridge_type {
            CartridgeType::NoMbc { .. } => Mbc::NoMbc,
            CartridgeType::Mbc1 { multicart, .. } => Mbc::Mbc1 {
                multicart,
                state: Mbc1State::default(),
            },
            CartridgeType::Mbc2 { .. } => Mbc::Mbc2 { state: Mbc2State::default() },
            CartridgeType::Mbc3 { .. } => Mbc::Mbc3 {
                mbc30: config.ram_size.as_usize() > 65536,
                state: Mbc3State::default(),
            },
            CartridgeType::Mbc5 { .. } => Mbc::Mbc5 { state: Mbc5State::default() },
            _ => Mbc::Huc1 { state: Huc1State::default() },
        }
    }
}

/// A cartridge on the bus.
#[derive(Clone, Debug)]
pub struct Cartridge {
    pub mbc: Mbc,
    pub rom: Vec<u8>,
    /// Offset in ROM of the bank mapped at 0x0000.
    pub rom_lower: usize,
    /// Offset in ROM of the bank mapped at 0x4000.
    pub rom_upper: usize,
    pub ram: Vec<u8>,
    /// Offset in RAM of the bank mapped at 0xa000.
    pub ram_offset: usize,
}

impl Cartridge {
    pub open spec fn wf(&self) -> bool {
        self.rom@.len() >= 1 && self.mbc.wf()
    }

    /// The index in ROM that a read of `addr` through the bank at `offset`
    /// reaches; the address lines beyond the ROM are not connected.
    pub open spec fn spec_rom_index(&self, offset: usize, addr: u16) -> usize {
        (offset | (addr as usize & 0x3fff)) & ((self.rom@.len() - 1) as usize)
    }

    /// The index in RAM that an access to `addr` reaches.
    pub open spec fn spec_ram_index(&self, addr: u16) -> usize {
        (self.ram_offset | (addr as usize & 0x1fff)) & ((self.ram@.len() - 1) as usize)
    }

    pub open spec fn spec_read_ram(&self, addr: u16, default_value: u8) -> u8 {
        if self.ram@.len() > 0 {
            self.ram@[self.spec_ram_index(addr) as int]
        } else {
            default_value
        }
    }

    /// What a read of 0xa000 to 0xbfff gives; `default_value` is what the
    /// bus holds when no RAM answers.
    pub open spec fn spec_read_a000_bfff(&self, addr: u16, default_value: u8) -> u8 {
        match self.mbc {
            Mbc::Mbc1 { state, .. } => if state.ramg {
                self.spec_read_ram(addr, default_value)
            } else {
                default_value
            },
            Mbc::Mbc2 { state } => if state.ramg {
                (default_value & 0xf0) | (self.spec_read_ram(addr, default_value) & 0x0f)
            } else {
                default_value
            },
            Mbc::Mbc3 { state, mbc30 } => if state.map_en && (state.map_select < 4 || (
            state.map_select < 8 && mbc30)) {
                self.spec_read_ram(addr, default_value)
            } else {
                default_value
            },
            Mbc::Mbc5 { state } => if state.ramg {
                self.spec_read_ram(addr, default_value)
            } else {
                default_value
            },
            Mbc::Huc1 { state } => if state.mode == 0x00 || state.mode == 0x0a {
                self.spec_read_ram(addr, default_value)
            } else {
                default_value
            },
            Mbc::NoMbc => default_value,
        }
    }

    /// The byte that a write of `value` to 0xa000 to 0xbfff stores in RAM,
    /// if the controller lets it through: an MBC2 keeps four bits.
    pub open spec fn spec_ram_write(&self, value: u8) -> Option<u8> {
        match self.mbc {
            Mbc::Mbc1 { state, .. } => if state.ramg {
                Some(value)
            } else {
                None
            },
            Mbc::Mbc2 { state } => if state.ramg {
                Some(value & 0xf)
            } else {
                None
            },
            Mbc::Mbc3 { state, mbc30 } => if state.map_en && (state.map_select < 4 || (
            state.map_select < 8 && mbc30)) {
                Some(value)
            } else {
                None
            },
            Mbc::Mbc5 { state } => if state.ramg {
                Some(value)
            } else {
                None
            },
            Mbc::Huc1 { state } => if state.mode == 0x0a {
                Some(value)
            } else {
                None
            },
            Mbc::NoMbc => None,
        }
    }

    /// The RAM after a write of `value` to `addr` in 0xa000 to 0xbfff.
    pub open spec fn spec_ram_after_write(&self, addr: u16, value: u8) -> Seq<u8> {
        match self.spec_ram_write(value) {
            Some(v) => if self.ram@.len() > 0 {
                self.ram@.update(self.spec_ram_index(addr) as int, v)
            } else {
                self.ram@
            },
            None => self.ram@,
        }
    }

    /// The controller and mapping after a write of `value` to `reladdr` in
    /// 0x0000 to 0x7fff.
    pub open spec fn spec_write_control(&self, reladdr: u16, value: u8) -> (Mbc, (usize, usize), usize) {
        let rom_offsets = (self.rom_lower, self.rom_upper);
        let hi = reladdr / 256;
        match self.mbc {
            Mbc::NoMbc => (self.mbc, rom_offsets, self.ram_offset),
            Mbc::Mbc1 { state, multicart } => if hi < 0x20 {
                (Mbc::Mbc1 { state: Mbc1State { ramg: value % 16 == 0b1010, ..state }, multicart },
                rom_offsets, self.ram_offset)
            } else if hi < 0x40 {
                let s = Mbc1State {
                    bank1: if value % 32 == 0 {
                        1
                    } else {
                        value % 32
                    },
                    ..state
                };
                (Mbc::Mbc1 { state: s, multicart }, s.spec_rom_offsets(multicart), self.ram_offset)
            } else if hi < 0x60 {
                let s = Mbc1State { bank2: value % 4, ..state };
                (Mbc::Mbc1 { state: s, multicart }, s.spec_rom_offsets(multicart),
                s.spec_ram_offset())
            } else if hi < 0x80 {
                let s = Mbc1State { mode: value % 2 == 1, ..state };
                (Mbc::Mbc1 { state: s, multicart }, s.spec_rom_offsets(multicart),
                s.spec_ram_offset())
            } else {
                (self.mbc, rom_offsets, self.ram_offset)
            },
            Mbc::Mbc2 { state } => if hi < 0x40 && reladdr & 0x100 == 0 {
                (Mbc::Mbc2 { state: Mbc2State { ramg: value % 16 == 0x0a, ..state } },
                rom_offsets, self.ram_offset)
            } else if hi < 0x40 {
                let bank = if value % 16 == 0 {
                    1u8
                } else {
                    value % 16
                };
                (Mbc::Mbc2 { state: Mbc2State { rom_bank: bank, ..state } }, (
                    0,
                    (ROM_BANK_SIZE * bank) as usize,
                ), self.ram_offset)
            } else {
                (self.mbc, rom_offsets, self.ram_offset)
            },
            Mbc::Mbc3 { state, mbc30 } => if hi < 0x20 {
                (Mbc::Mbc3 { state: Mbc3State { map_en: value % 16 == 0x0a, ..state }, mbc30 },
                rom_offsets, self.ram_offset)
            } else if hi < 0x40 {
                let bank = if value == 0 {
                    1u8
                } else {
                    value
                };
                (Mbc::Mbc3 { state: Mbc3State { rom_bank: bank, ..state }, mbc30 }, (
                    0,
                    (ROM_BANK_SIZE * bank) as usize,
                ), self.ram_offset)
            } else if hi < 0x60 {
                let select = value % 16;
                (Mbc::Mbc3 { state: Mbc3State { map_select: select, ..state }, mbc30 },
                rom_offsets, (RAM_BANK_SIZE * (if mbc30 {
                    select % 8
                } else {
                    select % 4
                })) as usize)
            } else {
                (self.mbc, rom_offsets, self.ram_offset)
            },
            Mbc::Mbc5 { state } => if hi < 0x20 {
                (Mbc::Mbc5 { state: Mbc5State { ramg: value == 0x0a, ..state } }, rom_offsets,
                self.ram_offset)
            } else if hi < 0x30 {
                let s = Mbc5State { romb0: value, ..state };
                (Mbc::Mbc5 { state: s }, s.spec_rom_offsets(), self.ram_offset)
            } else if hi < 0x40 {
                let s = Mbc5State { romb1: value % 2, ..state };
                (Mbc::Mbc5 { state: s }, s.spec_rom_offsets(), self.ram_offset)
            } else if hi < 0x60 {
                (Mbc::Mbc5 { state: Mbc5State { ramb: value % 16, ..state } }, rom_offsets, (
                RAM_BANK_SIZE * (value % 16)) as usize)
            } else {
                (self.mbc, rom_offsets, self.ram_offset)
            },
            Mbc::Huc1 { state } => if hi < 0x20 {
                (Mbc::Huc1 { state: Huc1State { mode: value % 16, ..state } }, rom_offsets,
                self.ram_offset)
            } else if hi < 0x40 {
                (Mbc::Huc1 { state: Huc1State { rom_bank: value % 64, ..state } }, (
                    0,
                    (ROM_BANK_SIZE * (value % 64)) as usize,
                ), self.ram_offset)
            } else if hi < 0x60 {
                (Mbc::Huc1 { state: Huc1State { ram_bank: value % 4, ..state } }, rom_offsets,
                (RAM_BANK_SIZE * (value % 4)) as usize)
            } else {
                (self.mbc, rom_offsets, self.ram_offset)
            },
        }
    }

    /// A cartridge as at power-on: the first two ROM banks mapped and RAM
    /// cleared; an MBC2 has 512 half-bytes of RAM of its own.
    pub fn new(config: CartridgeConfig) -> (r: Cartridge)
        requires
            config.wf(),
            spec_is_supported(config.cartridge_type),
        ensures
            r.wf(),
            r.mbc == Mbc::spec_from_config(config.cartridge_type, config.ram_size),
            r.rom@ == config.data@,
            r.rom_lower == 0,
            r.rom_upper == 0x4000,
            r.ram_offset == 0,
            r.ram@ == Seq::new(
                if r.mbc is Mbc2 {
                    512
                } else {
                    config.ram_size.spec_as_usize() as nat
                },
                |i: int| 0u8,
            ),
    {
        let mbc = Mbc::from_config(&config);
        let ram_size: usize = match mbc {
            Mbc::Mbc2 { .. } => 512,
            _ => config.ram_size.as_usize(),
        };
        let ram = vec![0; ram_size];
        assert(ram@ =~= Seq::new(ram_size as nat, |i: int| 0u8));
        Cartridge { mbc, rom: config.data, rom_lower: 0x0000, rom_upper: 0x4000, ram, ram_offset: 0x0000 }
    }

    /// Reads the bank mapped at 0x0000.
    pub fn read_0000_3fff(&self, addr: u16) -> (r: u8)
        requires
            self.wf(),
        ensures
            r == self.rom@[self.spec_rom_index(self.rom_lower, addr) as int],
    {
        let rom_lower = self.rom_lower;
        let mask = self.rom.len() - 1;
        proof {
            crate::util::lemma_and_le_usize(rom_lower | (addr as usize & 0x3fff), mask);
        }
        self.rom[(rom_lower | (addr as usize & 0x3fff)) & mask]
    }

    /// Reads the bank mapped at 0x4000.
    pub fn read_4000_7fff(&self, addr: u16) -> (r: u8)
        requires
            self.wf(),
        ensures
            r == self.rom@[self.spec_rom_index(self.rom_upper, addr) as int],
    {
        let rom_upper = self.rom_upper;
        let mask = self.rom.len() - 1;
        proof {
            crate::util::lemma_and_le_usize(rom_upper | (addr as usize & 0x3fff), mask);
        }
        self.rom[(rom_upper | (addr as usize & 0x3fff)) & mask]
    }

    /// A write to 0x0000 to 0x7fff: sets a register of the controller.
    #[verifier::rlimit(50)]
    pub fn write_control(&mut self, reladdr: u16, value: u8)
        requires
            old(self).wf(),
        ensures
            final(self).wf(),
            (final(self).mbc, (final(self).rom_lower, final(self).rom_upper), final(self).ram_offset)
                == old(self).spec_write_control(reladdr, value),
            final(self).rom@ == old(self).rom@,
            final(self).ram@ == old(self).ram@,
    {
        let hi = reladdr / 256;
        match self.mbc {
            Mbc::NoMbc => (),
            Mbc::Mbc1 { state, multicart } => {
                let mut state = state;
                if hi <= 0x1f {
                    state.ramg = (value % 16) == 0b1010;
                    self.mbc = Mbc::Mbc1 { state, multicart };
                } else if hi <= 0x3f {
                    state.bank1 = if value % 32 == 0b0_0000 {
                        0b0_0001
                    } else {
                        value % 32
                    };
                    let (lower, upper) = state.rom_offsets(multicart);
                    self.rom_lower = lower;
                    self.rom_upper = upper;
                    self.mbc = Mbc::Mbc1 { state, multicart };
                } else if hi <= 0x5f {
                    state.bank2 = value % 4;
                    let (lower, upper) = state.rom_offsets(multicart);
                    self.rom_lower = lower;
                    self.rom_upper = upper;
                    self.ram_offset = state.ram_offset();
                    self.mbc = Mbc::Mbc1 { state, multicart };
                } else if hi <= 0x7f {
                    state.mode = (value % 2) == 0b1;
                    let (lower, upper) = state.rom_offsets(multicart);
                    self.rom_lower = lower;
                    self.rom_upper = upper;
                    self.ram_offset = state.ram_offset();
                    self.mbc = Mbc::Mbc1 { state, multicart };
                }
            },
            Mbc::Mbc2 { state } => {
                let mut state = state;
                if hi <= 0x3f && reladdr & 0x100 == 0 {
                    state.ramg = (value % 16) == 0x0a;
                    self.mbc = Mbc::Mbc2 { state };
                } else if hi <= 0x3f {
                    state.rom_bank = if value % 16 == 0b0000 {
                        0b0001
                    } else {
                        value % 16
                    };
                    self.rom_lower = 0x0000;
                    self.rom_upper = ROM_BANK_SIZE * state.rom_bank as usize;
                    self.mbc = Mbc::Mbc2 { state };
                }
            },
            Mbc::Mbc3 { state, mbc30 } => {
                let mut state = state;
                if hi <= 0x1f {
                    state.map_en = (value % 16) == 0x0a;
                    self.mbc = Mbc::Mbc3 { state, mbc30 };
                } else if hi <= 0x3f {
                    state.rom_bank = if value == 0 {
                        1
                    } else {
                        value
                    };
                    self.rom_lower = 0x0000;
                    self.rom_upper = ROM_BANK_SIZE * state.rom_bank as usize;
                    self.mbc = Mbc::Mbc3 { state, mbc30 };
                } else if hi <= 0x5f {
                    let select: u8 = value % 16;
                    state.map_select = select;
                    let bank: usize = if mbc30 {
                        (select % 8) as usize
                    } else {
                        (select % 4) as usize
                    };
                    assert(bank < 8);
                    self.ram_offset = RAM_BANK_SIZE * bank;
                    self.mbc = Mbc::Mbc3 { state, mbc30 };
                }
            },
            Mbc::Mbc5 { state } => {
                let mut state = state;
                if hi <= 0x1f {
                    state.ramg = value == 0x0a;
                    self.mbc = Mbc::Mbc5 { state };
                } else if hi <= 0x2f {
                    state.romb0 = value;
                    let (lower, upper) = state.rom_offsets();
                    self.rom_lower = lower;
                    self.rom_upper = upper;
                    self.mbc = Mbc::Mbc5 { state };
                } else if hi <= 0x3f {
                    state.romb1 = value % 2;
                    let (lower, upper) = state.rom_offsets();
                    self.rom_lower = lower;
                    self.rom_upper = upper;
                    self.mbc = Mbc::Mbc5 { state };
                } else if hi <= 0x5f {
                    state.ramb = value % 16;
                    self.ram_offset = RAM_BANK_SIZE * state.ramb as usize;
                    self.mbc = Mbc::Mbc5 { state };
                }
            },
            Mbc::Huc1 { state } => {
                let mut state = state;
                if hi <= 0x1f {
                    state.mode = value % 16;
                    self.mbc = Mbc::Huc1 { state };
                } else if hi <= 0x3f {
                    state.rom_bank = value % 64;
                    self.rom_lower = 0x0000;
                    self.rom_upper = ROM_BANK_SIZE * state.rom_bank as usize;
                    self.mbc = Mbc::Huc1 { state };
                } else if hi <= 0x5f {
                    state.ram_bank = value % 4;
                    self.ram_offset = RAM_BANK_SIZE * state.ram_bank as usize;
                    self.mbc = Mbc::Huc1 { state };
                }
            },
        }
    }

    /// Reads cartridge RAM at 0xa000 to 0xbfff, where the controller maps
    /// it; `default_value` is what the bus holds when nothing answers.
    pub fn read_a000_bfff(&self, addr: u16, default_value: u8) -> (r: u8)
        requires
            self.wf(),
        ensures
            r == self.spec_read_a000_bfff(addr, default_value),
    {
        match self.mbc {
            Mbc::Mbc1 { state, .. } => if state.ramg {
                self.read_ram(addr, default_value)
            } else {
                default_value
            },
            Mbc::Mbc2 { state } => if state.ramg {
                (default_value & 0xf0) | (self.read_ram(addr, default_value) & 0x0f)
            } else {
                default_value
            },
            Mbc::Mbc3 { state, mbc30 } => if state.map_en && (state.map_select <= 0x03 || (
            state.map_select <= 0x07 && mbc30)) {
                self.read_ram(addr, default_value)
            } else {
                default_value
            },
            Mbc::Mbc5 { state } => if state.ramg {
                self.read_ram(addr, default_value)
            } else {
                default_value
            },
            Mbc::Huc1 { state } => if state.mode == 0x00 || state.mode == 0x0a {
                self.read_ram(addr, default_value)
            } else {
                default_value
            },
            Mbc::NoMbc => default_value,
        }
    }

    /// Writes cartridge RAM at 0xa000 to 0xbfff, where the controller lets
    /// the write through.
    pub fn write_a000_bfff(&mut self, addr: u16, value: u8)
        requires
            old(self).wf(),
        ensures
            final(self).wf(),
            final(self).ram@ == old(self).spec_ram_after_write(addr, value),
            final(self).mbc == old(self).mbc,
            final(self).rom@ == old(self).rom@,
            final(self).rom_lower == old(self).rom_lower,
            final(self).rom_upper == old(self).rom_upper,
            final(self).ram_offset == old(self).ram_offset,
    {
        match self.mbc {
            Mbc::Mbc1 { state, .. } => if state.ramg {
                self.write_ram(addr, value)
            },
            Mbc::Mbc2 { state } => if state.ramg {
                self.write_ram(addr, value & 0xf)
            },
            Mbc::Mbc3 { state, mbc30 } => if state.map_en && (state.map_select <= 0x03 || (
            state.map_select <= 0x07 && mbc30)) {
                self.write_ram(addr, value)
            },
            Mbc::Mbc5 { state } => if state.ramg {
                self.write_ram(addr, value)
            },
            Mbc::Huc1 { state } => if state.mode == 0x0a {
                self.write_ram(addr, value)
            },
            Mbc::NoMbc => (),
        }
    }

    fn ram_addr(&self, addr: u16) -> (r: usize)
        requires
            self.ram@.len() > 0,
        ensures
            r == self.spec_ram_index(addr),
            r < self.ram@.len(),
    {
        let mask = self.ram.len() - 1;
        proof {
            crate::util::lemma_and_le_usize(self.ram_offset | (addr as usize & 0x1fff), mask);
        }
        (self.ram_offset | (addr as usize & 0x1fff)) & mask
    }

    fn read_ram(&self, addr: u16, default_value: u8) -> (r: u8)
        ensures
            r == self.spec_read_ram(addr, default_value),
    {
        if self.ram.len() > 0 {
            let addr = self.ram_addr(addr);
            self.ram[addr]
        } else {
            default_value
        }
    }

    fn write_ram(&mut self, addr: u16, value: u8)
        ensures
            final(self).ram@ == if old(self).ram@.len() > 0 {
                old(self).ram@.update(old(self).spec_ram_index(addr) as int, value)
            } else {
                old(self).ram@
            },
            final(self).mbc == old(self).mbc,
            final(self).rom@ == old(self).rom@,
            final(self).rom_lower == old(self).rom_lower,
            final(self).rom_upper == old(self).rom_upper,
            final(self).ram_offset == old(self).ram_offset,
    {
        if self.ram.len() > 0 {
            let addr = self.ram_addr(addr);
            self.ram.set(addr, value);
        }
    }
}

/// While the controller lets RAM through, a read of cartridge RAM gives back
/// what the last write to the same address stored there: the whole byte, or
/// on an MBC2 its low four bits under the upper bits of the bus.
pub proof fn lemma_ram_write_read(
    before: Cartridge,
    after: Cartridge,
    addr: u16,
    value: u8,
    default_value: u8,
)
    requires
        before.ram@.len() > 0,
        before.spec_ram_write(value) is Some,
        after.mbc == before.mbc,
        after.ram_offset == before.ram_offset,
        after.ram@ == before.spec_ram_after_write(addr, value),
    ensures
        after.spec_read_a000_bfff(addr, default_value) == if before.mbc is Mbc2 {
            (default_value & 0xf0) | (value & 0x0f)
        } else {
            value
        },
{
    assert((value & 0xf) & 0x0f == value & 0x0f) by (bit_vector);
    let index = before.spec_ram_index(addr);
    let stored = before.spec_ram_write(value).unwrap();
    assert(before.ram@.len() == before.ram.len());
    assert(index < before.ram@.len()) by {
        crate::util::lemma_and_le_usize(before.ram_offset | (addr as usize & 0x1fff), (before.ram.len() - 1) as usize);
    }
    assert(after.ram@ == before.ram@.update(index as int, stored));
    assert(after.ram@.len() == before.ram@.len());
    assert(after.spec_ram_index(addr) == index);
    assert(after.spec_read_ram(addr, default_value) == stored);
}

/// The RAM gate of an MBC1: after a write of `gate` to 0x0000-0x1fff, a
/// write of `value` to cartridge RAM and a read of the same address give
/// back `value` when the low four bits of `gate` are 0xA, and otherwise
/// the byte that the bus holds: RAM is neither written nor read while the
/// gate is closed.
pub proof fn lemma_mbc1_ram_gate(
    start: Cartridge,
    reladdr: u16,
    gate: u8,
    gated: Cartridge,
    written: Cartridge,
    addr: u16,
    value: u8,
    default_value: u8,
)
    requires
        start.mbc is Mbc1,
        start.ram@.len() > 0,
        reladdr < 0x2000,
        (gated.mbc, (gated.rom_lower, gated.rom_upper), gated.ram_offset) == start.spec_write_control(
            reladdr,
            gate,
        ),
        gated.ram@ == start.ram@,
        written.mbc == gated.mbc,
        written.ram_offset == gated.ram_offset,
        written.ram@ == gated.spec_ram_after_write(addr, value),
    ensures
        written.spec_read_a000_bfff(addr, default_value) == if gate & 0x0f == 0x0a {
            value
        } else {
            default_value
        },
{
    assert(gate & 0x0f == gate % 16) by (bit_vector);
    if gate & 0x0f == 0x0a {
        lemma_ram_write_read(gated, written, addr, value, default_value);
    }
}

/// ROM bank switching: a write of `v` to 0x2000-0x3fff maps at 0x4000 the
/// bank that `v` selects.
/// - MBC1 (not a multicart): the low five bits of `v`, 0 counting as 1, under
///   the two bits of BANK2.
/// - MBC3: all of `v`, 0 counting as 1.
/// - MBC5: 0x2000-0x2fff sets the low eight bits of the bank, 0x3000-0x3fff
///   its ninth bit from bit 0 of `v`.
/// - HuC1: the low six bits of `v`.
/// Banks are 16 KiB; MBC3, MBC5 and HuC1 keep bank 0 at 0x0000.
#[verifier::spinoff_prover]
pub proof fn lemma_rom_bank_select(c: Cartridge, reladdr: u16, v: u8)
    requires
        0x2000 <= reladdr < 0x4000,
    ensures
        c.mbc matches Mbc::Mbc1 { state, multicart } ==> (!multicart ==> c.spec_write_control(
            reladdr,
            v,
        ).1.1 == 0x4000 * (state.bank2 * 32 + if v % 32 == 0 {
            1
        } else {
            v % 32
        })),
        c.mbc is Mbc3 ==> c.spec_write_control(reladdr, v).1 == (0usize, (0x4000 * (if v == 0 {
            1
        } else {
            v
        })) as usize),
        c.mbc matches Mbc::Mbc5 { state } ==> (reladdr < 0x3000 ==> c.spec_write_control(reladdr, v).1
            == (0usize, (0x4000 * (state.romb1 * 256 + v)) as usize)),
        c.mbc matches Mbc::Mbc5 { state } ==> (reladdr >= 0x3000 ==> c.spec_write_control(reladdr, v).1
            == (0usize, (0x4000 * ((v % 2) * 256 + state.romb0)) as usize)),
        c.mbc is Huc1 ==> c.spec_write_control(reladdr, v).1 == (0usize, (0x4000 * (v % 64)) as usize),
{
    match c.mbc {
        Mbc::Mbc1 { .. } => {},
        Mbc::Mbc2 { .. } => {},
        Mbc::Mbc3 { .. } => {},
        Mbc::Mbc5 { .. } => {},
        Mbc::Huc1 { .. } => {},
        Mbc::NoMbc => {},
    }
}

/// MBC2 ROM bank switching: a write of `v` to 0x0000-0x3fff with address
/// bit 8 set maps at 0x4000 the bank of the low four bits of `v`, 0
/// counting as 1; with bit 8 clear, the write leaves the banks alone.
#[verifier::spinoff_prover]
pub proof fn lemma_mbc2_rom_bank_select(c: Cartridge, reladdr: u16, v: u8)
    requires
        c.mbc is Mbc2,
        reladdr < 0x4000,
    ensures
        reladdr & 0x100 != 0 ==> c.spec_write_control(reladdr, v).1 == (0usize, (0x4000 * (if v % 16
            == 0 {
            1
        } else {
            v % 16
        })) as usize),
        reladdr & 0x100 == 0 ==> c.spec_write_control(reladdr, v).1 == (c.rom_lower, c.rom_upper),
{
}

/// RAM bank switching: a write of `v` to 0x4000-0x5fff maps at 0xa000 the
/// 8 KiB RAM bank that `v` selects: on an MBC1 the two bits of BANK2, but
/// only in mode 1 (bank 0 in mode 0); on an MBC3 the low two bits (three on
/// an MBC30) of the low nibble; on an MBC5 the low nibble; on a HuC1 the low
/// two bits.
#[verifier::spinoff_prover]
pub proof fn lemma_ram_bank_select(c: Cartridge, reladdr: u16, v: u8)
    requires
        0x4000 <= reladdr < 0x6000,
    ensures
        c.mbc matches Mbc::Mbc1 { state, .. } ==> c.spec_write_control(reladdr, v).2 == if state.mode {
            0x2000 * (v % 4)
        } else {
            0
        },
        c.mbc matches Mbc::Mbc3 { mbc30, .. } ==> c.spec_write_control(reladdr, v).2 == 0x2000 * (if mbc30 {
            v % 8
        } else {
            v % 4
        }),
        c.mbc is Mbc5 ==> c.spec_write_control(reladdr, v).2 == 0x2000 * (v % 16),
        c.mbc is Huc1 ==> c.spec_write_control(reladdr, v).2 == 0x2000 * (v % 4),
{
    let hi = reladdr / 256;
    assert(0x40 <= hi < 0x60);
    match c.mbc {
        Mbc::Mbc1 { state, multicart } => {
            let s2 = Mbc1State { bank2: v % 4, ..state };
            assert(c.spec_write_control(reladdr, v).2 == s2.spec_ram_offset());
        },
        Mbc::Mbc3 { state, mbc30 } => {
            let select = v % 16;
            assert(select % 8 == v % 8 && select % 4 == v % 4) by (nonlinear_arith)
                requires
                    select == v % 16,
            ;
        },
        _ => {},
    }
}

/// The RAM gate: after a write of `v` to 0x0000-0x1fff, RAM takes writes
/// exactly when the low nibble of `v` is 0xA (on an MBC5, when `v` is 0x0A);
/// on an MBC2 the same holds for writes to 0x0000-0x3fff with address bit 8
/// clear.
#[verifier::spinoff_prover]
pub proof fn lemma_ram_gate(c: Cartridge, reladdr: u16, v: u8, value: u8)
    requires
        reladdr < 0x2000,
        !(c.mbc is Mbc2) || reladdr & 0x100 == 0,
    ensures
        ({
            let (mbc, roms, ram_offset) = c.spec_write_control(reladdr, v);
            let gated = Cartridge { mbc, rom_lower: roms.0, rom_upper: roms.1, ram_offset, ..c };
            &&& (c.mbc is Mbc1 || c.mbc is Mbc2) ==> (gated.spec_ram_write(value) is Some <==> v % 16
                == 0x0a)
            &&& c.mbc is Mbc5 ==> (gated.spec_ram_write(value) is Some <==> v == 0x0a)
        }),
{
    match c.mbc {
        Mbc::Mbc1 { .. } => {},
        Mbc::Mbc2 { .. } => {},
        Mbc::Mbc3 { .. } => {},
        Mbc::Mbc5 { .. } => {},
        Mbc::Huc1 { .. } => {},
        Mbc::NoMbc => {},
    }
}

} // verus!
