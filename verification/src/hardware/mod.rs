//! The memory-mapped hardware around the CPU: the memory map, the cycle
//! by cycle emulation of the peripherals and the interrupt lines.
pub mod apu;
pub mod bootrom;
pub mod cartridge;
pub mod interrupts;
pub mod irq;
pub mod joypad;
pub mod ppu;
pub mod serial;
pub mod timer;
pub mod work_ram;

use vstd::prelude::*;
use crate::config::HardwareConfig;
use crate::cpu::BusEvent;
use crate::cpu::CpuContext;
use crate::cpu::cycles;
use crate::cpu::lemma_cycles_push;
use crate::emulation::EmuEvents;
use crate::emulation::EmuTime;
use crate::gameboy::Color;
use crate::gameboy::HIRAM_SIZE;
use crate::hardware::apu::Apu;
use crate::hardware::bootrom::Bootrom;
use crate::hardware::bootrom::BOOTROM_SIZE;
use crate::hardware::cartridge::spec_is_supported;
use crate::hardware::cartridge::Cartridge;
use crate::hardware::interrupts::InterruptLine;
use crate::hardware::irq::Irq;
use crate::hardware::joypad::Joypad;
use crate::hardware::ppu::Mode;
use crate::hardware::ppu::Ppu;
use crate::hardware::serial::Serial;
use crate::hardware::timer::Timer;
use crate::hardware::work_ram::lower_index;
use crate::hardware::work_ram::upper_index;
use crate::hardware::work_ram::WorkRam;
use crate::GbKey;

verus! {

/// The bus that an OAM DMA transfer reads from.
#[derive(Clone, Copy, Debug, PartialEq, Eq, Structural)]
pub enum ExternalBus {
    Video,
    Main,
}

impl ExternalBus {
    pub fn from_oam_dma_source(source: u8) -> (r: ExternalBus)
        ensures
            r == if 0x80 <= source <= 0x9f {
                ExternalBus::Video
            } else {
                ExternalBus::Main
            },
    {
        match source {
            0x80..=0x9f => ExternalBus::Video,
            _ => ExternalBus::Main,
        }
    }
}

/// The OAM DMA unit: a write to 0xff46 requests a transfer of 160 bytes
/// from `source << 8` to OAM, which starts two cycles later and moves one
/// byte per cycle.
#[derive(Clone, Copy, Debug, PartialEq, Eq, Structural)]
pub struct OamDma {
    pub bus: Option<ExternalBus>,
    pub source: u8,
    pub requested: Option<u8>,
    pub starting: Option<u8>,
    pub addr: u16,
}

/// Bytes moved by one OAM DMA transfer.
pub const OAM_DMA_LENGTH: u16 = 0xa0;

impl OamDma {
    pub fn new() -> (r: OamDma)
        ensures
            r == (OamDma { bus: None, source: 0xff, requested: None, starting: None, addr: 0 }),
    {
        OamDma { bus: None, source: 0xff, requested: None, starting: None, addr: 0x0000 }
    }

    pub fn request(&mut self, value: u8)
        ensures
            *final(self) == (OamDma { requested: Some(value), ..*old(self) }),
    {
        self.requested = Some(value);
    }

    pub fn start(&mut self, value: u8)
        ensures
            final(self).bus == Some(ExternalBus::from_oam_dma_source_spec(value)),
            final(self).source == value,
            final(self).addr == value as u16 * 256,
            final(self).requested == old(self).requested,
            final(self).starting == old(self).starting,
    {
        self.bus = Some(ExternalBus::from_oam_dma_source(value));
        self.source = value;
        self.addr = value as u16 * 256;
    }

    pub fn stop(&mut self)
        ensures
            *final(self) == (OamDma { bus: None, ..*old(self) }),
    {
        self.bus = None;
    }

    pub open spec fn spec_is_active(&self) -> bool {
        self.bus is Some
    }

    pub fn is_active(&self) -> (r: bool)
        ensures
            r == self.spec_is_active(),
    {
        self.bus.is_some()
    }

    /// The address of the byte to move in this cycle, if a transfer runs.
    pub fn emulate(&mut self) -> (r: Option<u16>)
        ensures
            r == if old(self).spec_is_active() {
                Some(old(self).addr)
            } else {
                None
            },
            old(self).spec_is_active() ==> final(self).addr == old(self).addr.wrapping_add(1)
                && final(self).bus == if (final(self).addr % 256) >= OAM_DMA_LENGTH {
                None
            } else {
                old(self).bus
            },
            !old(self).spec_is_active() ==> *final(self) == *old(self),
            final(self).source == old(self).source,
            final(self).requested == old(self).requested,
            final(self).starting == old(self).starting,
    {
        if self.is_active() {
            let addr = self.addr;
            self.addr = self.addr.wrapping_add(1);
            if self.addr % 256 >= OAM_DMA_LENGTH {
                self.stop();
            }
            Some(addr)
        } else {
            None
        }
    }
}

impl OamDma {
    /// The DMA registers one cycle later: a running transfer moves on to the
    /// next byte and stops after the last; then the transfer that was
    /// starting starts, and the one requested becomes the starting one.
    pub open spec fn spec_step(self) -> OamDma {
        let next_addr = self.addr.wrapping_add(1);
        let moved = if self.spec_is_active() {
            OamDma {
                addr: next_addr,
                bus: if next_addr % 256 >= OAM_DMA_LENGTH {
                    None
                } else {
                    self.bus
                },
                ..self
            }
        } else {
            self
        };
        let started = match moved.starting {
            Some(source) => OamDma {
                starting: None,
                bus: Some(ExternalBus::from_oam_dma_source_spec(source)),
                source,
                addr: (source as u16 * 256) as u16,
                ..moved
            },
            None => moved,
        };
        match started.requested {
            Some(source) => OamDma { requested: None, starting: Some(source), ..started },
            None => started,
        }
    }
}

impl ExternalBus {
    pub open spec fn from_oam_dma_source_spec(source: u8) -> ExternalBus {
        if 0x80 <= source <= 0x9f {
            ExternalBus::Video
        } else {
            ExternalBus::Main
        }
    }
}

/// What the emulator refuses to emulate; the machine stops meaning
/// anything once one happened.
#[derive(Clone, Copy, Debug, PartialEq, Eq, Structural)]
pub enum Fault {
    /// The LCD was switched off outside the vertical blank.
    LcdOffOutsideVBlank,
    /// A read of the unusable area 0xfea0 to 0xfeff.
    UnsupportedRead { addr: u16 },
}

/// Every device on the bus.
#[derive(Clone, Debug)]
pub struct Peripherals {
    pub bootrom: Bootrom,
    pub cartridge: Cartridge,
    pub work_ram: WorkRam,
    pub hiram: Vec<u8>,
    pub ppu: Ppu,
    pub apu: Apu,
    pub joypad: Joypad,
    pub serial: Serial,
    pub timer: Timer,
    pub oam_dma: OamDma,
}

impl Peripherals {
    pub open spec fn wf(&self) -> bool {
        &&& self.bootrom.wf()
        &&& self.cartridge.wf()
        &&& self.work_ram.wf()
        &&& self.hiram@.len() == HIRAM_SIZE
        &&& self.ppu.wf()
        &&& self.apu.wf()
    }

    pub fn new(config: HardwareConfig) -> (r: Peripherals)
        requires
            config.wf(),
            spec_is_supported(config.cartridge.cartridge_type),
        ensures
            r.wf(),
            r.bootrom.active == config.bootrom.is_some(),
            config.bootrom matches Some(d) ==> r.bootrom.data == d,
            r.cartridge.rom@ == config.cartridge.data@,
            r.cartridge.mbc == cartridge::Mbc::spec_from_config(
                config.cartridge.cartridge_type,
                config.cartridge.ram_size,
            ),
            r.cartridge.rom_lower == 0 && r.cartridge.rom_upper == 0x4000,
            forall|i: int| 0 <= i < work_ram::WORK_RAM_SIZE ==> r.work_ram.ram@[i] == 0,
            r.hiram@ == Seq::new(HIRAM_SIZE as nat, |i: int| 0u8),
            !r.ppu.spec_lcd_on() && r.ppu.mode == Mode::AccessOam && r.ppu.current_line == 0,
            !r.apu.enabled,
            r.joypad == (Joypad { pressed_directional: 0, pressed_button: 0, register: joypad::WRITABLE }),
            r.serial.data == 0 && r.serial.control == 0,
            r.timer == (Timer {
                internal_counter: 0,
                tac: 0,
                counter: 0,
                modulo: 0,
                overflow: false,
                enabled: false,
            }),
            r.oam_dma == (OamDma { bus: None, source: 0xff, requested: None, starting: None, addr: 0 }),
    {
        let hiram = vec![0; HIRAM_SIZE];
        assert(hiram@ =~= Seq::new(HIRAM_SIZE as nat, |i: int| 0u8));
        Peripherals {
            bootrom: Bootrom::new(config.bootrom),
            cartridge: Cartridge::new(config.cartridge),
            work_ram: WorkRam::new(),
            hiram,
            ppu: Ppu::new(),
            apu: Apu::new(),
            joypad: Joypad::new(),
            serial: Serial::new(),
            timer: Timer::new(),
            oam_dma: OamDma::new(),
        }
    }

    /// What a read of `addr` by OAM DMA gets.
    pub open spec fn spec_dma_read(&self, addr: u16) -> u8 {
        if addr < 0x4000 {
            self.cartridge.rom@[self.cartridge.spec_rom_index(self.cartridge.rom_lower, addr) as int]
        } else if addr < 0x8000 {
            self.cartridge.rom@[self.cartridge.spec_rom_index(self.cartridge.rom_upper, addr) as int]
        } else if addr < 0xa000 {
            self.ppu.spec_read_video_ram((addr - 0x8000) as u16)
        } else if addr < 0xc000 {
            self.cartridge.spec_read_a000_bfff(addr, 0xff)
        } else if (addr / 0x1000) % 2 == 0 {
            self.work_ram.ram@[lower_index(addr)]
        } else {
            self.work_ram.ram@[upper_index(addr)]
        }
    }

    fn dma_read(&self, addr: u16) -> (r: u8)
        requires
            self.wf(),
        ensures
            r == self.spec_dma_read(addr),
    {
        if addr < 0x4000 {
            self.cartridge.read_0000_3fff(addr)
        } else if addr < 0x8000 {
            self.cartridge.read_4000_7fff(addr)
        } else if addr < 0xa000 {
            self.ppu.read_video_ram(addr - 0x8000)
        } else if addr < 0xc000 {
            self.cartridge.read_a000_bfff(addr, 0xff)
        } else if (addr / 0x1000) % 2 == 0 {
            self.work_ram.read_lower(addr)
        } else {
            self.work_ram.read_upper(addr)
        }
    }

    /// One cycle of OAM DMA: moves a byte if a transfer runs, then starts
    /// the transfer requested two cycles ago.
    fn emulate_oam_dma(&mut self)
        requires
            old(self).wf(),
        ensures
            final(self).wf(),
            final(self).bootrom == old(self).bootrom,
            final(self).cartridge == old(self).cartridge,
            final(self).work_ram == old(self).work_ram,
            final(self).hiram == old(self).hiram,
            final(self).apu == old(self).apu,
            final(self).joypad == old(self).joypad,
            final(self).serial == old(self).serial,
            final(self).timer == old(self).timer,
            final(self).ppu.oam@.len() == old(self).ppu.oam@.len(),
            final(self).ppu == (Ppu { oam: final(self).ppu.oam, ..old(self).ppu }),
            !old(self).oam_dma.spec_is_active() ==> final(self).ppu == old(self).ppu,
            final(self).oam_dma == old(self).oam_dma.spec_step(),
            final(self).ppu.oam@ == if old(self).oam_dma.spec_is_active() {
                old(self).ppu.spec_oam_after_write(
                    old(self).oam_dma.addr % 256,
                    old(self).spec_dma_read(old(self).oam_dma.addr),
                )
            } else {
                old(self).ppu.oam@
            },
    {
        match self.oam_dma.emulate() {
            Some(addr) => {
                let value = self.dma_read(addr);
                self.ppu.write_oam(addr % 256, value);
            },
            None => {},
        }
        match self.oam_dma.starting {
            Some(source) => {
                self.oam_dma.starting = None;
                self.oam_dma.start(source);
            },
            None => {},
        }
        match self.oam_dma.requested {
            Some(source) => {
                self.oam_dma.requested = None;
                self.oam_dma.starting = Some(source);
            },
            None => {},
        }
    }
}

/// What a write of `value` to the register 0xff00 + `a` (0xff40 to 0xff50)
/// does to the PPU, the OAM DMA unit, the boot ROM switch and the events,
/// from `pre` to `post`, both taken at the same cycle.
pub open spec fn spec_video_write_effect(pre: Hardware, post: Hardware, a: u8, value: u8) -> bool {
    let p0 = pre.peripherals;
    let p1 = post.peripherals;
    &&& (a == 0x40 ==> if p0.ppu.spec_lcd_off_outside_vblank(value) {
        post.fault == Some(Fault::LcdOffOutsideVBlank) && p1.ppu == p0.ppu
    } else {
        post.fault == pre.fault && p1.ppu.control == value
    })
    &&& (a != 0x40 ==> post.fault == pre.fault)
    &&& (a == 0x41 ==> p1.ppu.stat & ppu::STAT_WRITABLE == value & ppu::STAT_WRITABLE
        && p1.ppu.mode == p0.ppu.mode && p1.ppu.control == p0.ppu.control)
    &&& (a == 0x44 ==> p1.ppu.current_line == 0)
    &&& (a == 0x46 ==> p1.oam_dma == (OamDma { requested: Some(value), ..p0.oam_dma }))
    &&& (a != 0x46 ==> p1.oam_dma == p0.oam_dma)
    &&& p1.bootrom.active == (p0.bootrom.active && !(a == 0x50 && value & 1 != 0))
    &&& post.emu_events.bits == if a == 0x50 && p0.bootrom.active && value & 1 != 0 {
        pre.emu_events.bits | EmuEvents::BOOTROM_DISABLED
    } else {
        pre.emu_events.bits
    }
}

/// The timer interrupt is requested, in the middle and at the end of the
/// cycle.
pub open spec fn spec_timer_requested(irq: Irq) -> bool {
    irq.mid_intr & 4 == 4 && irq.end_intr & 4 == 4
}

/// A request of the timer line leaves it requested.
proof fn lemma_timer_request(i: Irq)
    ensures
        spec_timer_requested(i.spec_request_t12(4)),
{
    let m = i.mid_intr;
    let e = i.end_intr;
    assert((m | 4) & 4 == 4 && (e | 4) & 4 == 4) by (bit_vector);
}

/// The boot-ROM-disabled event is among `bits`.
pub open spec fn spec_bootrom_disabled_raised(bits: u8) -> bool {
    bits & EmuEvents::BOOTROM_DISABLED != 0
}

/// Adding the end of a frame to the events leaves the boot-ROM-disabled
/// event as it was; adding the latter raises it.
proof fn lemma_event_bits(bits: u8)
    ensures
        spec_bootrom_disabled_raised(bits | EmuEvents::VSYNC) == spec_bootrom_disabled_raised(bits),
        spec_bootrom_disabled_raised(bits | EmuEvents::BOOTROM_DISABLED),
{
    assert((bits | 2) & 4 != 0 <==> bits & 4 != 0) by (bit_vector);
    assert((bits | 4) & 4 != 0) by (bit_vector);
}

/// What a write cycle of `value` to `addr` does to the state that does not
/// read back through the memory map, from `pre` (before the cycle) to
/// `post` (after it). The devices advance one cycle before the write
/// lands, so video RAM and OAM take the write unless the PPU (or OAM DMA)
/// holds them once that cycle is done.
pub open spec fn spec_write_effect(pre: Hardware, post: Hardware, addr: u16, value: u8) -> bool {
    let p0 = pre.peripherals;
    let p1 = post.peripherals;
    let a = (addr % 256) as u8;
    let high = addr >= 0xff00;
    &&& p1.timer == if 0xff04 <= addr <= 0xff07 {
        p0.timer.spec_write(addr, value)
    } else {
        p0.timer.spec_tick()
    }
    &&& (addr != 0xff0f && p0.timer.overflow ==> spec_timer_requested(post.irq))
    &&& p1.apu == if 0xff10 <= addr < 0xff30 {
        p0.apu.spec_tick().spec_write(addr, value)
    } else if 0xff30 <= addr <= 0xff3f {
        apu::Apu {
            ch3: apu::ch3::Ch3 {
                wave_ram: p1.apu.ch3.wave_ram,
                ..p0.apu.spec_tick().ch3
            },
            ..p0.apu.spec_tick()
        }
    } else {
        p0.apu.spec_tick()
    }
    &&& (0xff30 <= addr <= 0xff3f ==> p1.apu.ch3.wave_ram@ == p0.apu.ch3.wave_ram@.update(
        ((addr - 0xff30) % 16) as int,
        value,
    ))
    &&& p1.bootrom.data == p0.bootrom.data
    &&& p1.bootrom.active == (p0.bootrom.active && !(addr == 0xff50 && value & 1 != 0))
    &&& spec_bootrom_disabled_raised(post.emu_events.bits) == (spec_bootrom_disabled_raised(
        pre.emu_events.bits,
    ) || (addr == 0xff50 && p0.bootrom.active && value & 1 != 0))
    &&& p1.joypad == if addr == 0xff00 {
        Joypad {
            register: joypad::spec_updated_register(
                !value,
                p0.joypad.pressed_directional,
                p0.joypad.pressed_button,
            ),
            ..p0.joypad
        }
    } else {
        p0.joypad
    }
    &&& p1.serial == if addr == 0xff01 {
        Serial { data: value, ..p0.serial }
    } else if addr == 0xff02 {
        Serial { control: value & serial::CTRL_BITS, ..p0.serial }
    } else {
        p0.serial
    }
    &&& p1.oam_dma == if addr == 0xff46 {
        OamDma { requested: Some(value), ..p0.oam_dma.spec_step() }
    } else {
        p0.oam_dma.spec_step()
    }
    &&& (addr == 0xff40 ==> post.fault == Some(Fault::LcdOffOutsideVBlank) || (post.fault == pre.fault
        && p1.ppu.control == value))
    &&& (addr != 0xff40 ==> post.fault == pre.fault)
    &&& (addr == 0xff41 ==> p1.ppu.stat & ppu::STAT_WRITABLE == value & ppu::STAT_WRITABLE)
    &&& (addr == 0xff44 ==> p1.ppu.current_line == 0)
    &&& (!(0x8000 <= addr < 0xa000) ==> p1.ppu.vram == p0.ppu.vram)
    &&& (0x8000 <= addr < 0xa000 ==> p1.ppu.vram@ == if p1.ppu.mode == Mode::AccessVram {
        p0.ppu.vram@
    } else {
        p0.ppu.vram@.update((addr - 0x8000) as int, value)
    })
    &&& (0xfe00 <= addr < 0xfea0 && !p0.oam_dma.spec_is_active() ==> p1.ppu.oam@ == if p1.oam_dma.spec_is_active()
        || p1.ppu.mode == Mode::AccessVram || p1.ppu.mode == Mode::AccessOam {
        p0.ppu.oam@
    } else {
        p0.ppu.oam@.update((addr - 0xfe00) as int, value)
    })
    &&& (!(0xfe00 <= addr < 0xfea0) && !p0.oam_dma.spec_is_active() ==> p1.ppu.oam == p0.ppu.oam)
    &&& (!(0x8000 <= addr < 0xa000) && !(0xfe00 <= addr < 0xfea0) && !(0xff40 <= addr <= 0xff45)
        && !(0xff47 <= addr <= 0xff4b) && !p0.oam_dma.spec_is_active() ==> p0.ppu.spec_cycle(p1.ppu))
}

/// The events after one cycle of the devices: at most the end of a frame
/// was added.
pub open spec fn spec_cycle_events(before: u8, after: u8) -> bool {
    after == before || after == before | EmuEvents::VSYNC
}

impl Ppu {
    /// `next` is this PPU one machine cycle later.
    pub open spec fn spec_cycle(&self, next: Ppu) -> bool {
        let r = self.spec_emulate();
        &&& next == (Ppu { back_buffer: next.back_buffer, ..r.0 })
        &&& next.back_buffer@ == if r.3 {
            self.spec_drawn_buffer()
        } else {
            self.back_buffer@
        }
    }

    pub open spec fn spec_read_video_ram(&self, addr: u16) -> u8 {
        if self.mode == Mode::AccessVram {
            ppu::UNDEFINED_READ
        } else {
            self.vram@[(addr as usize & 0x1fff) as int]
        }
    }

    /// OAM after a write of `value` to `addr`; OAM is not written while the
    /// PPU uses it.
    pub open spec fn spec_oam_after_write(&self, addr: u16, value: u8) -> Seq<u8> {
        if self.mode == Mode::AccessVram || self.mode == Mode::AccessOam {
            self.oam@
        } else {
            self.oam@.update((addr as usize & 0xff) as int, value)
        }
    }

    pub open spec fn spec_read_oam(&self, addr: u16) -> u8 {
        if self.mode == Mode::AccessVram || self.mode == Mode::AccessOam {
            ppu::UNDEFINED_READ
        } else {
            self.oam@[(addr as usize & 0xff) as int]
        }
    }
}

/// The hardware of a Game Boy, as the CPU sees it.
#[derive(Clone)]
pub struct Hardware {
    pub peripherals: Peripherals,
    pub irq: Irq,
    pub emu_events: EmuEvents,
    pub emu_time: EmuTime,
    pub fault: Option<Fault>,
    /// The cycles performed so far.
    pub trace: Ghost<Seq<BusEvent>>,
}

impl Hardware {
    pub open spec fn wf(&self) -> bool {
        self.peripherals.wf() && self.irq.wf()
    }

    pub fn new(config: HardwareConfig) -> (r: Hardware)
        requires
            config.wf(),
            spec_is_supported(config.cartridge.cartridge_type),
        ensures
            r.wf(),
            r.emu_time.machine_cycles == 0,
            r.emu_events.bits == 0,
            r.fault is None,
            r.trace@ == Seq::<BusEvent>::empty(),
            r.trace_consistent(),
            r.irq == (Irq { mid_intr: 0, end_intr: 0, int_enable: 0 }),
            r.peripherals.bootrom.active == config.bootrom.is_some(),
            config.bootrom matches Some(d) ==> r.peripherals.bootrom.data == d,
            r.peripherals.cartridge.rom@ == config.cartridge.data@,
            r.peripherals.cartridge.mbc == cartridge::Mbc::spec_from_config(
                config.cartridge.cartridge_type,
                config.cartridge.ram_size,
            ),
            r.peripherals.cartridge.rom_lower == 0 && r.peripherals.cartridge.rom_upper == 0x4000,
            forall|i: int| 0 <= i < work_ram::WORK_RAM_SIZE ==> r.peripherals.work_ram.ram@[i] == 0,
            r.peripherals.hiram@ == Seq::new(HIRAM_SIZE as nat, |i: int| 0u8),
            !r.peripherals.ppu.spec_lcd_on() && r.peripherals.ppu.mode == Mode::AccessOam && r.peripherals.ppu.current_line == 0,
            !r.peripherals.apu.enabled,
            r.peripherals.joypad == (Joypad { pressed_directional: 0, pressed_button: 0, register: joypad::WRITABLE }),
            r.peripherals.serial.data == 0 && r.peripherals.serial.control == 0,
            r.peripherals.timer == (Timer {
                internal_counter: 0,
                tac: 0,
                counter: 0,
                modulo: 0,
                overflow: false,
                enabled: false,
            }),
            r.peripherals.oam_dma == (OamDma { bus: None, source: 0xff, requested: None, starting: None, addr: 0 }),
    {
        proof {
            crate::cpu::lemma_cycles_empty();
        }
        Hardware {
            peripherals: Peripherals::new(config),
            irq: Irq::new(),
            emu_events: EmuEvents::empty(),
            emu_time: EmuTime::zero(),
            fault: None,
            trace: Ghost(Seq::empty()),
        }
    }

    /// Checks the invariant at run time; values of `Hardware` are made by
    /// `new`, which establishes it, and every method keeps it, so the check
    /// only lets the methods of `CpuContext`, which take no precondition,
    /// rely on it.
    pub fn check_wf(&self) -> (r: bool)
        ensures
            r == self.wf(),
    {
        let p = &self.peripherals;
        p.bootrom.data.0.len() == BOOTROM_SIZE && p.cartridge.rom.len() >= 1 && p.cartridge.mbc.check_wf()
            && p.work_ram.ram.len() == work_ram::WORK_RAM_SIZE && p.hiram.len() == HIRAM_SIZE
            && p.ppu.check_wf() && p.apu.check_wf() && self.irq.mid_intr & irq::INTERRUPT_MASK
            == self.irq.mid_intr && self.irq.end_intr & irq::INTERRUPT_MASK == self.irq.end_intr
    }

    pub fn ack_emu_events(&mut self) -> (r: EmuEvents)
        ensures
            r == old(self).emu_events,
            *final(self) == (Hardware { emu_events: EmuEvents { bits: 0 }, ..*old(self) }),
    {
        let events = self.emu_events;
        self.emu_events = EmuEvents::empty();
        events
    }

    pub fn emu_events(&self) -> (r: EmuEvents)
        ensures
            r == self.emu_events,
    {
        self.emu_events
    }

    pub fn emu_time(&self) -> (r: EmuTime)
        ensures
            r == self.emu_time,
    {
        self.emu_time
    }

    pub fn fault(&self) -> (r: Option<Fault>)
        ensures
            r == self.fault,
    {
        self.fault
    }

    pub fn screen_buffer(&self) -> (r: &Vec<Color>)
        ensures
            r@ == self.peripherals.ppu.back_buffer@,
    {
        &self.peripherals.ppu.back_buffer
    }

    pub fn key_down(&mut self, key: GbKey)
        requires
            old(self).wf(),
        ensures
            final(self).wf(),
            final(self).trace == old(self).trace,
            final(self).emu_time == old(self).emu_time,
            *final(self) == (Hardware {
                peripherals: Peripherals {
                    joypad: old(self).peripherals.joypad.spec_key_down(key),
                    ..old(self).peripherals
                },
                irq: old(self).irq.spec_request_t12(irq::Interrupt::Joypad.spec_bits()),
                ..*old(self)
            }),
    {
        proof {
            irq::lemma_request_keeps_wf(self.irq, irq::Interrupt::Joypad);
        }
        self.peripherals.joypad.key_down(key, &mut self.irq);
    }

    pub fn key_up(&mut self, key: GbKey)
        requires
            old(self).wf(),
        ensures
            final(self).wf(),
            final(self).trace == old(self).trace,
            final(self).emu_time == old(self).emu_time,
            *final(self) == (Hardware {
                peripherals: Peripherals {
                    joypad: old(self).peripherals.joypad.spec_key_up(key),
                    ..old(self).peripherals
                },
                ..*old(self)
            }),
    {
        self.peripherals.joypad.key_up(key);
    }
}

} // verus!

verus! {

/// The I/O registers that read back exactly what was written to them.
pub open spec fn spec_plain_register(addr: u16) -> bool {
    addr == 0xff01 || addr == 0xff42 || addr == 0xff43 || addr == 0xff45 || addr == 0xff47 || addr
        == 0xff48 || addr == 0xff49 || addr == 0xff4a || addr == 0xff4b
}

impl Hardware {
    /// What a read of the I/O register at 0xff00 + `a` returns.
    pub open spec fn spec_peek_high(&self, a: u8) -> u8 {
        let p = self.peripherals;
        if a == 0x00 {
            !p.joypad.register
        } else if a == 0x01 {
            p.serial.data
        } else if a == 0x02 {
            p.serial.control | serial::CTRL_UNUSED_MASK
        } else if a == 0x04 {
            (p.timer.internal_counter / 64) as u8
        } else if a == 0x05 {
            p.timer.counter
        } else if a == 0x06 {
            p.timer.modulo
        } else if a == 0x07 {
            timer::TAC_UNUSED | p.timer.tac
        } else if a == 0x0f {
            self.irq.mid_intr | irq::IF_UNUSED_MASK
        } else if 0x10 <= a < 0x30 {
            p.apu.spec_read((0xff00 + a) as u16)
        } else if 0x30 <= a < 0x40 {
            p.apu.ch3.wave_ram@[a - 0x30]
        } else if a == 0x40 {
            p.ppu.control
        } else if a == 0x41 {
            p.ppu.spec_stat()
        } else if a == 0x42 {
            p.ppu.scroll_y
        } else if a == 0x43 {
            p.ppu.scroll_x
        } else if a == 0x44 {
            p.ppu.current_line
        } else if a == 0x45 {
            p.ppu.compare_line
        } else if a == 0x46 {
            p.oam_dma.source
        } else if a == 0x47 {
            p.ppu.bg_palette.bits
        } else if a == 0x48 {
            p.ppu.obj_palette0.bits
        } else if a == 0x49 {
            p.ppu.obj_palette1.bits
        } else if a == 0x4a {
            p.ppu.window_y
        } else if a == 0x4b {
            p.ppu.window_x
        } else if 0x80 <= a < 0xff {
            p.hiram@[a - 0x80]
        } else if a == 0xff {
            self.irq.int_enable
        } else {
            0xff
        }
    }

    /// What a read of `addr` returns in the current state: the memory map.
    pub open spec fn spec_peek(&self, addr: u16) -> u8 {
        let p = self.peripherals;
        if addr < 0x100 && p.bootrom.active {
            p.bootrom.data.0@[addr as int]
        } else if addr < 0x4000 {
            p.cartridge.rom@[p.cartridge.spec_rom_index(p.cartridge.rom_lower, addr) as int]
        } else if addr < 0x8000 {
            p.cartridge.rom@[p.cartridge.spec_rom_index(p.cartridge.rom_upper, addr) as int]
        } else if addr < 0xa000 {
            p.ppu.spec_read_video_ram((addr - 0x8000) as u16)
        } else if addr < 0xc000 {
            p.cartridge.spec_read_a000_bfff(addr, 0xff)
        } else if addr < 0xfe00 {
            if (addr / 0x1000) % 2 == 0 {
                p.work_ram.ram@[lower_index(addr)]
            } else {
                p.work_ram.ram@[upper_index(addr)]
            }
        } else if addr < 0xfea0 {
            if p.oam_dma.spec_is_active() {
                0xff
            } else {
                p.ppu.spec_read_oam(addr % 256)
            }
        } else if addr < 0xff00 {
            0xff
        } else {
            self.spec_peek_high((addr % 256) as u8)
        }
    }

    /// Reads an I/O register without a cycle.
    fn peek_high(&self, a: u8) -> (r: u8)
        requires
            self.wf(),
        ensures
            r == self.spec_peek_high(a),
    {
        let p = &self.peripherals;
        if a == 0x00 {
            p.joypad.get_register()
        } else if a == 0x01 {
            p.serial.get_data()
        } else if a == 0x02 {
            p.serial.get_control()
        } else if a == 0x04 {
            (p.timer.internal_counter / 64) as u8
        } else if a == 0x05 {
            p.timer.counter
        } else if a == 0x06 {
            p.timer.modulo
        } else if a == 0x07 {
            timer::TAC_UNUSED | p.timer.tac
        } else if a == 0x0f {
            self.irq.get_interrupt_flag()
        } else if 0x10 <= a && a < 0x30 {
            p.apu.peek(0xff00 + a as u16)
        } else if 0x30 <= a && a < 0x40 {
            p.apu.ch3.wave_ram[(a - 0x30) as usize]
        } else if a == 0x40 {
            p.ppu.get_control()
        } else if a == 0x41 {
            p.ppu.get_stat()
        } else if a == 0x42 {
            p.ppu.get_scroll_y()
        } else if a == 0x43 {
            p.ppu.get_scroll_x()
        } else if a == 0x44 {
            p.ppu.get_current_line()
        } else if a == 0x45 {
            p.ppu.get_compare_line()
        } else if a == 0x46 {
            p.oam_dma.source
        } else if a == 0x47 {
            p.ppu.get_bg_palette()
        } else if a == 0x48 {
            p.ppu.get_obj_palette0()
        } else if a == 0x49 {
            p.ppu.get_obj_palette1()
        } else if a == 0x4a {
            p.ppu.get_window_y()
        } else if a == 0x4b {
            p.ppu.get_window_x()
        } else if 0x80 <= a && a < 0xff {
            p.hiram[(a - 0x80) as usize]
        } else if a == 0xff {
            self.irq.get_interrupt_enable()
        } else {
            0xff
        }
    }

    /// Reads `addr` without a cycle.
    pub fn peek(&self, addr: u16) -> (r: u8)
        requires
            self.wf(),
        ensures
            r == self.spec_peek(addr),
    {
        let p = &self.peripherals;
        if addr < 0x100 && p.bootrom.is_active() {
            p.bootrom.read(addr)
        } else if addr < 0x4000 {
            p.cartridge.read_0000_3fff(addr)
        } else if addr < 0x8000 {
            p.cartridge.read_4000_7fff(addr)
        } else if addr < 0xa000 {
            p.ppu.read_video_ram(addr - 0x8000)
        } else if addr < 0xc000 {
            p.cartridge.read_a000_bfff(addr, 0xff)
        } else if addr < 0xfe00 {
            if (addr / 0x1000) % 2 == 0 {
                p.work_ram.read_lower(addr)
            } else {
                p.work_ram.read_upper(addr)
            }
        } else if addr < 0xfea0 {
            if p.oam_dma.is_active() {
                0xff
            } else {
                p.ppu.read_oam(addr % 256)
            }
        } else if addr < 0xff00 {
            0xff
        } else {
            self.peek_high((addr % 256) as u8)
        }
    }

    /// One cycle of OAM DMA and of the PPU.
    fn emulate_video(&mut self)
        requires
            old(self).wf(),
        ensures
            final(self).wf(),
            final(self).trace == old(self).trace,
            final(self).emu_time == old(self).emu_time,
            final(self).fault == old(self).fault,
            final(self).peripherals.work_ram == old(self).peripherals.work_ram,
            final(self).peripherals.hiram == old(self).peripherals.hiram,
            final(self).peripherals.apu == old(self).peripherals.apu,
            final(self).peripherals.timer == old(self).peripherals.timer,
            final(self).peripherals.cartridge == old(self).peripherals.cartridge,
            final(self).peripherals.bootrom == old(self).peripherals.bootrom,
            final(self).irq.int_enable == old(self).irq.int_enable,
            final(self).peripherals.joypad == old(self).peripherals.joypad,
            final(self).peripherals.serial == old(self).peripherals.serial,
            final(self).peripherals.oam_dma == old(self).peripherals.oam_dma.spec_step(),
            final(self).peripherals.ppu.vram == old(self).peripherals.ppu.vram,
            !old(self).peripherals.oam_dma.spec_is_active() ==> final(self).peripherals.ppu.oam
                == old(self).peripherals.ppu.oam,
            spec_cycle_events(old(self).emu_events.bits, final(self).emu_events.bits),
            !old(self).peripherals.oam_dma.spec_is_active() ==> old(self).peripherals.ppu.spec_cycle(
                final(self).peripherals.ppu,
            ),
    {
        self.peripherals.emulate_oam_dma();
        self.peripherals.ppu.emulate(&mut self.irq, &mut self.emu_events);
    }

    /// Advances the timer by one cycle.
    fn timer_cycle(&mut self)
        requires
            old(self).wf(),
        ensures
            final(self).wf(),
            *final(self) == (Hardware {
                peripherals: Peripherals { timer: final(self).peripherals.timer, ..old(self).peripherals },
                irq: final(self).irq,
                ..*old(self)
            }),
            final(self).irq.int_enable == old(self).irq.int_enable,
            final(self).peripherals.timer == old(self).peripherals.timer.spec_tick(),
            old(self).peripherals.timer.overflow ==> spec_timer_requested(final(self).irq),
    {
        proof {
            irq::lemma_request_keeps_wf(self.irq, irq::Interrupt::TimerOverflow);
            lemma_timer_request(self.irq);
        }
        self.peripherals.timer.tick_cycle(&mut self.irq);
    }

    /// A cycle of every device, without a memory access of its own.
    fn generic_cycle(&mut self)
        requires
            old(self).wf(),
        ensures
            final(self).wf(),
            final(self).trace == old(self).trace,
            final(self).emu_time == old(self).emu_time,
            final(self).fault == old(self).fault,
            final(self).peripherals.work_ram == old(self).peripherals.work_ram,
            final(self).peripherals.hiram == old(self).peripherals.hiram,
            final(self).irq.int_enable == old(self).irq.int_enable,
            old(self).peripherals.timer.overflow ==> spec_timer_requested(final(self).irq),
            final(self).peripherals.timer == old(self).peripherals.timer.spec_tick(),
            final(self).peripherals.apu == old(self).peripherals.apu.spec_tick(),
            final(self).peripherals.cartridge == old(self).peripherals.cartridge,
            final(self).peripherals.bootrom == old(self).peripherals.bootrom,
            final(self).peripherals.joypad == old(self).peripherals.joypad,
            final(self).peripherals.serial == old(self).peripherals.serial,
            final(self).peripherals.oam_dma == old(self).peripherals.oam_dma.spec_step(),
            final(self).peripherals.ppu.vram == old(self).peripherals.ppu.vram,
            !old(self).peripherals.oam_dma.spec_is_active() ==> final(self).peripherals.ppu.oam
                == old(self).peripherals.ppu.oam,
            spec_cycle_events(old(self).emu_events.bits, final(self).emu_events.bits),
            !old(self).peripherals.oam_dma.spec_is_active() ==> old(self).peripherals.ppu.spec_cycle(
                final(self).peripherals.ppu,
            ),
    {
        self.emulate_video();
        self.peripherals.apu.tick_cycle();
        self.timer_cycle();
    }

    /// A read cycle of `addr`: the devices advance one cycle, then the
    /// memory map answers.
    fn read(&mut self, addr: u16) -> (r: u8)
        requires
            old(self).wf(),
        ensures
            final(self).wf(),
            r == final(self).spec_peek(addr),
            final(self).trace == old(self).trace,
            final(self).emu_time == old(self).emu_time,
            final(self).peripherals.timer == old(self).peripherals.timer.spec_tick(),
            final(self).peripherals.apu == old(self).peripherals.apu.spec_tick(),
            final(self).peripherals.work_ram == old(self).peripherals.work_ram,
            final(self).peripherals.cartridge == old(self).peripherals.cartridge,
            final(self).peripherals.hiram == old(self).peripherals.hiram,
            final(self).peripherals.bootrom == old(self).peripherals.bootrom,
            final(self).peripherals.joypad == old(self).peripherals.joypad,
            final(self).peripherals.serial == old(self).peripherals.serial,
            final(self).irq.int_enable == old(self).irq.int_enable,
            !old(self).peripherals.oam_dma.spec_is_active() ==> old(self).peripherals.ppu.spec_cycle(
                final(self).peripherals.ppu,
            ),
            final(self).fault == if 0xfea0 <= addr < 0xff00 {
                Some(Fault::UnsupportedRead { addr })
            } else {
                old(self).fault
            },
    {
        self.generic_cycle();
        if 0xfea0 <= addr && addr < 0xff00 {
            self.fault = Some(Fault::UnsupportedRead { addr });
        }
        self.peek(addr)
    }

    /// A write cycle to a timer register.
    fn write_timer(&mut self, a: u8, value: u8)
        requires
            old(self).wf(),
            0x04 <= a <= 0x07,
        ensures
            final(self).wf(),
            final(self).trace == old(self).trace,
            final(self).emu_time == old(self).emu_time,
            final(self).peripherals.apu == old(self).peripherals.apu.spec_tick(),
            final(self).peripherals.work_ram == old(self).peripherals.work_ram,
            final(self).peripherals.hiram == old(self).peripherals.hiram,
            final(self).peripherals.cartridge == old(self).peripherals.cartridge,
            final(self).irq.int_enable == old(self).irq.int_enable,
            final(self).fault == old(self).fault,
            final(self).peripherals.timer == old(self).peripherals.timer.spec_write(
                (0xff00 + a) as u16,
                value,
            ),
            old(self).peripherals.timer.overflow ==> spec_timer_requested(final(self).irq),
            final(self).peripherals.bootrom == old(self).peripherals.bootrom,
            final(self).peripherals.joypad == old(self).peripherals.joypad,
            final(self).peripherals.serial == old(self).peripherals.serial,
            final(self).peripherals.oam_dma == old(self).peripherals.oam_dma.spec_step(),
            final(self).peripherals.ppu.vram == old(self).peripherals.ppu.vram,
            !old(self).peripherals.oam_dma.spec_is_active() ==> final(self).peripherals.ppu.oam
                == old(self).peripherals.ppu.oam,
            spec_cycle_events(old(self).emu_events.bits, final(self).emu_events.bits),
            !old(self).peripherals.oam_dma.spec_is_active() ==> old(self).peripherals.ppu.spec_cycle(
                final(self).peripherals.ppu,
            ),
    {
        self.emulate_video();
        self.peripherals.apu.tick_cycle();
        proof {
            irq::lemma_request_keeps_wf(self.irq, irq::Interrupt::TimerOverflow);
            lemma_timer_request(self.irq);
        }
        if a == 0x04 {
            self.peripherals.timer.div_write_cycle(&mut self.irq);
        } else if a == 0x05 {
            self.peripherals.timer.tima_write_cycle(value, &mut self.irq);
        } else if a == 0x06 {
            self.peripherals.timer.tma_write_cycle(value, &mut self.irq);
        } else {
            self.peripherals.timer.tac_write_cycle(value, &mut self.irq);
        }
    }

    /// A write cycle to a register of the PPU, OAM DMA or the boot ROM
    /// switch, after the devices advanced.
    #[verifier::rlimit(50)]
    fn write_video_register(&mut self, a: u8, value: u8)
        requires
            old(self).wf(),
            0x40 <= a <= 0x50,
        ensures
            final(self).wf(),
            final(self).trace == old(self).trace,
            final(self).emu_time == old(self).emu_time,
            final(self).peripherals.timer == old(self).peripherals.timer,
            final(self).peripherals.apu == old(self).peripherals.apu,
            final(self).peripherals.work_ram == old(self).peripherals.work_ram,
            final(self).peripherals.hiram == old(self).peripherals.hiram,
            final(self).peripherals.cartridge == old(self).peripherals.cartridge,
            final(self).peripherals.serial == old(self).peripherals.serial,
            final(self).irq == old(self).irq,
            final(self).peripherals.joypad == old(self).peripherals.joypad,
            final(self).peripherals.ppu.vram == old(self).peripherals.ppu.vram,
            final(self).peripherals.ppu.oam == old(self).peripherals.ppu.oam,
            final(self).peripherals.bootrom.data == old(self).peripherals.bootrom.data,
            spec_plain_register((0xff00 + a) as u16) ==> final(self).spec_peek_high(a) == value,
            spec_video_write_effect(*old(self), *final(self), a, value),
            a == 0x46 || a > 0x4b ==> final(self).peripherals.ppu == old(self).peripherals.ppu,
    {
        if a == 0x40 {
            if self.peripherals.ppu.lcd_off_outside_vblank(value) {
                self.fault = Some(Fault::LcdOffOutsideVBlank);
            } else {
                self.peripherals.ppu.set_control(value);
            }
        } else if a == 0x41 {
            self.peripherals.ppu.set_stat(value);
        } else if a == 0x42 {
            self.peripherals.ppu.set_scroll_y(value);
        } else if a == 0x43 {
            self.peripherals.ppu.set_scroll_x(value);
        } else if a == 0x44 {
            self.peripherals.ppu.reset_current_line();
        } else if a == 0x45 {
            self.peripherals.ppu.set_compare_line(value);
        } else if a == 0x46 {
            self.peripherals.oam_dma.request(value);
        } else if a == 0x47 {
            self.peripherals.ppu.set_bg_palette(value);
        } else if a == 0x48 {
            self.peripherals.ppu.set_obj_palette0(value);
        } else if a == 0x49 {
            self.peripherals.ppu.set_obj_palette1(value);
        } else if a == 0x4a {
            self.peripherals.ppu.set_window_y(value);
        } else if a == 0x4b {
            self.peripherals.ppu.set_window_x(value);
        } else if a == 0x50 {
            if self.peripherals.bootrom.is_active() && value & 0b1 != 0 {
                self.peripherals.bootrom.deactivate();
                self.emu_events.insert(EmuEvents::BOOTROM_DISABLED);
            }
        }
        proof {
            let old_stat = old(self).peripherals.ppu.stat;
            assert(((old_stat & ppu::STAT_COMPARE) | (value & ppu::STAT_WRITABLE)) & ppu::STAT_WRITABLE
                == value & ppu::STAT_WRITABLE) by (bit_vector);
        }
    }

    /// A write cycle to an I/O register.
    #[verifier::rlimit(50)]
    fn write_high(&mut self, addr: u16, value: u8)
        requires
            old(self).wf(),
            addr >= 0xff00,
        ensures
            final(self).wf(),
            final(self).trace == old(self).trace,
            final(self).emu_time == old(self).emu_time,
            0xff80 <= addr < 0xffff ==> final(self).spec_peek(addr) == value,
            addr == 0xffff ==> final(self).spec_peek(addr) == value,
            addr == 0xff0f ==> final(self).spec_peek(addr) == (value & irq::INTERRUPT_MASK)
                | irq::IF_UNUSED_MASK,
            !(0xff04 <= addr <= 0xff07) ==> final(self).peripherals.timer
                == old(self).peripherals.timer.spec_tick(),
            !(0xff10 <= addr <= 0xff3f) ==> final(self).peripherals.apu
                == old(self).peripherals.apu.spec_tick(),
            0xff10 <= addr < 0xff30 ==> final(self).peripherals.apu
                == old(self).peripherals.apu.spec_tick().spec_write(addr, value),
            final(self).peripherals.cartridge == old(self).peripherals.cartridge,
            final(self).peripherals.work_ram == old(self).peripherals.work_ram,
            spec_plain_register(addr) ==> final(self).spec_peek(addr) == value,
            spec_write_effect(*old(self), *final(self), addr, value),
    {
        let a = (addr % 256) as u8;
        proof {
            lemma_event_bits(old(self).emu_events.bits);
        }
        if 0x04 <= a && a <= 0x07 {
            self.write_timer(a, value);
            return ;
        }
        if 0x10 <= a && a < 0x40 {
            self.emulate_video();
            self.timer_cycle();
            self.peripherals.apu.write_cycle(addr, value);
            return ;
        }
        self.generic_cycle();
        if a == 0x00 {
            self.peripherals.joypad.set_register(value);
        } else if a == 0x01 {
            self.peripherals.serial.set_data(value);
        } else if a == 0x02 {
            self.peripherals.serial.set_control(value);
        } else if a == 0x0f {
            self.irq.set_interrupt_flag(value);
        } else if 0x40 <= a && a <= 0x50 {
            proof {
                lemma_event_bits(self.emu_events.bits);
            }
            self.write_video_register(a, value);
        } else if 0x80 <= a && a < 0xff {
            self.peripherals.hiram.set((a - 0x80) as usize, value);
        } else if a == 0xff {
            self.irq.set_interrupt_enable(value);
        }
    }

    /// A write cycle of `value` to `addr`.
    fn write(&mut self, addr: u16, value: u8)
        requires
            old(self).wf(),
        ensures
            final(self).wf(),
            final(self).trace == old(self).trace,
            final(self).emu_time == old(self).emu_time,
            0xc000 <= addr < 0xfe00 ==> final(self).spec_peek(addr) == value,
            0xff80 <= addr < 0xffff ==> final(self).spec_peek(addr) == value,
            addr == 0xffff ==> final(self).spec_peek(addr) == value,
            addr == 0xff0f ==> final(self).spec_peek(addr) == (value & irq::INTERRUPT_MASK)
                | irq::IF_UNUSED_MASK,
            !(0xff04 <= addr <= 0xff07) ==> final(self).peripherals.timer
                == old(self).peripherals.timer.spec_tick(),
            !(0xff10 <= addr <= 0xff3f) ==> final(self).peripherals.apu
                == old(self).peripherals.apu.spec_tick(),
            0xff10 <= addr < 0xff30 ==> final(self).peripherals.apu
                == old(self).peripherals.apu.spec_tick().spec_write(addr, value),
            addr < 0x8000 && !(addr < 0x100 && old(self).peripherals.bootrom.active) ==> {
                let c = final(self).peripherals.cartridge;
                (c.mbc, (c.rom_lower, c.rom_upper), c.ram_offset)
                    == old(self).peripherals.cartridge.spec_write_control(addr, value)
            },
            0xa000 <= addr < 0xc000 ==> final(self).peripherals.cartridge.ram@
                == old(self).peripherals.cartridge.spec_ram_after_write(addr, value),
            spec_plain_register(addr) ==> final(self).spec_peek(addr) == value,
            spec_write_effect(*old(self), *final(self), addr, value),
    {
        if addr >= 0xff00 {
            self.write_high(addr, value);
            return ;
        }
        proof {
            lemma_event_bits(old(self).emu_events.bits);
            if 0x8000 <= addr < 0xa000 {
                assert(((addr - 0x8000) as u16) as usize & 0x1fff == (addr - 0x8000) as usize)
                    by (bit_vector)
                    requires
                        0x8000 <= addr < 0xa000,
                ;
            }
            if 0xfe00 <= addr < 0xfea0 {
                assert((addr % 256) as usize & 0xff == (addr - 0xfe00) as usize) by (bit_vector)
                    requires
                        0xfe00 <= addr < 0xfea0,
                ;
            }
        }
        self.generic_cycle();
        if addr < 0x100 && self.peripherals.bootrom.is_active() {
        } else if addr < 0x8000 {
            self.peripherals.cartridge.write_control(addr, value);
        } else if addr < 0xa000 {
            self.peripherals.ppu.write_video_ram(addr - 0x8000, value);
        } else if addr < 0xc000 {
            self.peripherals.cartridge.write_a000_bfff(addr, value);
        } else if addr < 0xfe00 {
            if (addr / 0x1000) % 2 == 0 {
                self.peripherals.work_ram.write_lower(addr, value);
            } else {
                self.peripherals.work_ram.write_upper(addr, value);
            }
        } else if addr < 0xfea0 {
            if !self.peripherals.oam_dma.is_active() {
                self.peripherals.ppu.write_oam(addr % 256, value);
            }
        }
    }
}

impl CpuContext for Hardware {
    open spec fn trace(&self) -> Seq<BusEvent> {
        self.trace@
    }

    open spec fn mid_interrupt(&self) -> InterruptLine {
        InterruptLine { bits: self.irq.spec_mid_pending() }
    }

    open spec fn end_interrupt(&self) -> InterruptLine {
        InterruptLine { bits: self.irq.spec_end_pending() }
    }

    /// The hardware's consistency with its trace starts from nothing.
    open spec fn origin(&self) -> Seq<u8> {
        Seq::empty()
    }

    /// The hardware is well-formed, and the emulated time counts the
    /// machine cycles of the trace, modulo 2^64.
    open spec fn trace_consistent(&self) -> bool {
        &&& self.wf()
        &&& self.emu_time.machine_cycles as int == cycles(self.trace@) as int % 0x1_0000_0000_0000_0000
    }

    /// A read cycle: the devices advance one cycle and the memory map
    /// answers.
    fn read_cycle(&mut self, addr: u16) -> (data: u8)
        ensures
            final(self).emu_time.machine_cycles == old(self).emu_time.machine_cycles.wrapping_add(1),
            old(self).wf() ==> final(self).wf() && data == final(self).spec_peek(addr),
            old(self).wf() ==> final(self).peripherals.timer == old(self).peripherals.timer.spec_tick()
                && final(self).peripherals.apu == old(self).peripherals.apu.spec_tick()
                && final(self).peripherals.work_ram == old(self).peripherals.work_ram
                && final(self).peripherals.cartridge == old(self).peripherals.cartridge
                && final(self).peripherals.hiram == old(self).peripherals.hiram
                && final(self).peripherals.bootrom == old(self).peripherals.bootrom
                && final(self).peripherals.joypad == old(self).peripherals.joypad
                && final(self).peripherals.serial == old(self).peripherals.serial
                && final(self).irq.int_enable == old(self).irq.int_enable,
            old(self).wf() && !old(self).peripherals.oam_dma.spec_is_active()
                ==> old(self).peripherals.ppu.spec_cycle(final(self).peripherals.ppu),
    {
        self.emu_time.machine_cycles = self.emu_time.machine_cycles.wrapping_add(1);
        let data = if self.check_wf() {
            self.irq.begin_cycle();
            self.read(addr)
        } else {
            0xff
        };
        proof {
            lemma_cycles_push(self.trace@, BusEvent::Read(addr, data));
            lemma_clock_step(cycles(self.trace@));
        }
        self.trace = Ghost(self.trace@.push(BusEvent::Read(addr, data)));
        data
    }

    /// A write cycle: the devices advance one cycle and the write lands.
    /// Work RAM, its echo, high RAM, IE and IF read back what was written.
    fn write_cycle(&mut self, addr: u16, data: u8)
        ensures
            final(self).emu_time.machine_cycles == old(self).emu_time.machine_cycles.wrapping_add(1),
            old(self).wf() ==> final(self).wf(),
            old(self).wf() && 0xc000 <= addr < 0xfe00 ==> final(self).spec_peek(addr) == data,
            old(self).wf() && 0xff80 <= addr ==> final(self).spec_peek(addr) == data,
            old(self).wf() && addr == 0xff0f ==> final(self).spec_peek(addr) == (data
                & irq::INTERRUPT_MASK) | irq::IF_UNUSED_MASK,
            old(self).wf() && !(0xff04 <= addr <= 0xff07) ==> final(self).peripherals.timer
                == old(self).peripherals.timer.spec_tick(),
            old(self).wf() && !(0xff10 <= addr <= 0xff3f) ==> final(self).peripherals.apu
                == old(self).peripherals.apu.spec_tick(),
            old(self).wf() && 0xff10 <= addr < 0xff30 ==> final(self).peripherals.apu
                == old(self).peripherals.apu.spec_tick().spec_write(addr, data),
            old(self).wf() && addr < 0x8000 && !(addr < 0x100 && old(self).peripherals.bootrom.active)
                ==> {
                let c = final(self).peripherals.cartridge;
                (c.mbc, (c.rom_lower, c.rom_upper), c.ram_offset)
                    == old(self).peripherals.cartridge.spec_write_control(addr, data)
            },
            old(self).wf() && 0xa000 <= addr < 0xc000 ==> final(self).peripherals.cartridge.ram@
                == old(self).peripherals.cartridge.spec_ram_after_write(addr, data),
            old(self).wf() && spec_plain_register(addr) ==> final(self).spec_peek(addr) == data,
            old(self).wf() ==> spec_write_effect(*old(self), *final(self), addr, data),
    {
        self.emu_time.machine_cycles = self.emu_time.machine_cycles.wrapping_add(1);
        if self.check_wf() {
            self.irq.begin_cycle();
            self.write(addr, data);
        }
        proof {
            lemma_cycles_push(self.trace@, BusEvent::Write(addr, data));
            lemma_clock_step(cycles(self.trace@));
        }
        self.trace = Ghost(self.trace@.push(BusEvent::Write(addr, data)));
    }

    /// An internal cycle of the CPU: the devices advance one cycle.
    fn tick_cycle(&mut self)
        ensures
            final(self).emu_time.machine_cycles == old(self).emu_time.machine_cycles.wrapping_add(1),
            old(self).wf() ==> final(self).wf(),
            old(self).wf() ==> final(self).peripherals.timer == old(self).peripherals.timer.spec_tick()
                && final(self).peripherals.apu == old(self).peripherals.apu.spec_tick()
                && final(self).peripherals.work_ram == old(self).peripherals.work_ram,
            old(self).wf() && !old(self).peripherals.oam_dma.spec_is_active()
                ==> old(self).peripherals.ppu.spec_cycle(final(self).peripherals.ppu),
    {
        self.emu_time.machine_cycles = self.emu_time.machine_cycles.wrapping_add(1);
        if self.check_wf() {
            self.irq.begin_cycle();
            self.generic_cycle();
        }
        proof {
            lemma_cycles_push(self.trace@, BusEvent::Tick);
            lemma_clock_step(cycles(self.trace@));
        }
        self.trace = Ghost(self.trace@.push(BusEvent::Tick));
    }

    fn get_mid_interrupt(&self) -> (r: InterruptLine) {
        InterruptLine { bits: (self.irq.int_enable & irq::INTERRUPT_MASK) & self.irq.mid_intr }
    }

    fn get_end_interrupt(&self) -> (r: InterruptLine) {
        InterruptLine { bits: (self.irq.int_enable & irq::INTERRUPT_MASK) & self.irq.end_intr }
    }

    /// Clears the requests of the acknowledged interrupts.
    fn ack_interrupt(&mut self, mask: InterruptLine)
        ensures
            old(self).wf() ==> final(self).wf() && final(self).irq == (Irq {
                mid_intr: old(self).irq.mid_intr & !mask.bits,
                end_intr: old(self).irq.end_intr & !mask.bits,
                ..old(self).irq
            }),
    {
        let ghost pending = self.mid_interrupt().bits;
        if self.check_wf() {
            self.irq.ack_lines(mask.bits);
        }
        proof {
            lemma_cycles_push(self.trace@, BusEvent::Ack(pending, mask.bits));
        }
        self.trace = Ghost(self.trace@.push(BusEvent::Ack(pending, mask.bits)));
    }

    fn debug_opcode_callback(&mut self)
        ensures
            final(self).emu_events.bits == old(self).emu_events.bits | EmuEvents::DEBUG_OP,
            final(self).wf() == old(self).wf(),
    {
        self.emu_events.insert(EmuEvents::DEBUG_OP);
        proof {
            lemma_cycles_push(self.trace@, BusEvent::DebugOpcode);
        }
        self.trace = Ghost(self.trace@.push(BusEvent::DebugOpcode));
    }
}

/// One more cycle moves the count modulo 2^64 on by one, wrapping.
proof fn lemma_clock_step(c: nat)
    ensures
        (c + 1) % 0x1_0000_0000_0000_0000 == if c % 0x1_0000_0000_0000_0000 == 0xffff_ffff_ffff_ffff {
            0
        } else {
            c % 0x1_0000_0000_0000_0000 + 1
        },
{
    let m: int = 0x1_0000_0000_0000_0000;
    let q = c as int / m;
    let r = c as int % m;
    vstd::arithmetic::div_mod::lemma_fundamental_div_mod(c as int, m);
    if r + 1 < m {
        vstd::arithmetic::div_mod::lemma_fundamental_div_mod_converse(c as int + 1, m, q, r + 1);
    } else {
        assert(c as int + 1 == (q + 1) * m) by (nonlinear_arith)
            requires
                c as int == q * m + r,
                r + 1 == m,
        ;
        vstd::arithmetic::div_mod::lemma_fundamental_div_mod_converse(c as int + 1, m, q + 1, 0);
    }
}

/// A read of high RAM or IE after a write gives back the written byte: the
/// write cycle makes the address read as the byte, and a read cycle keeps
/// high RAM and IE as they were, whatever else it advances.
pub proof fn lemma_high_ram_round_trip(written: Hardware, read: Hardware, addr: u16, value: u8)
    requires
        0xff80 <= addr,
        written.spec_peek(addr) == value,
        read.peripherals.hiram == written.peripherals.hiram,
        read.irq.int_enable == written.irq.int_enable,
    ensures
        read.spec_peek(addr) == value,
{
}

/// Echo RAM: 0xe000 to 0xfdff reads what 0xc000 to 0xddff holds.
pub proof fn lemma_echo_ram(hw: Hardware, addr: u16)
    requires
        0xe000 <= addr < 0xfe00,
    ensures
        hw.spec_peek(addr) == hw.spec_peek((addr - 0x2000) as u16),
{
}

} // verus!
