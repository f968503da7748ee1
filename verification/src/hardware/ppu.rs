//! The picture processing unit: LCD timing, its registers, video RAM, OAM
//! and the rendering of scanlines.
pub mod render;
pub mod sprite_list;

use vstd::prelude::*;
use crate::emulation::EmuEvents;
use crate::gameboy::Color;
use crate::gameboy::SCREEN_PIXELS;
use crate::hardware::irq::Irq;

verus! {

/// Machine cycles of each mode; the pixel transfer and the horizontal blank
/// trade up to two cycles depending on the fine horizontal scroll.
pub const ACCESS_OAM_CYCLES: isize = 21;
pub const ACCESS_VRAM_CYCLES: isize = 43;
pub const HBLANK_CYCLES: isize = 50;
pub const VBLANK_LINE_CYCLES: isize = 114;
/// What video RAM and OAM read as while the PPU holds them.
pub const UNDEFINED_READ: u8 = 0xff;
/// Bit 7 of STAT does not exist and reads as 1.
pub const STAT_UNUSED_MASK: u8 = 0x80;

/// Bits of LCDC.
pub const LCDC_BG_ON: u8 = 0x01;
pub const LCDC_OBJ_ON: u8 = 0x02;
pub const LCDC_OBJ_SIZE: u8 = 0x04;
pub const LCDC_BG_MAP: u8 = 0x08;
pub const LCDC_BG_ADDR: u8 = 0x10;
pub const LCDC_WINDOW_ON: u8 = 0x20;
pub const LCDC_WINDOW_MAP: u8 = 0x40;
pub const LCDC_LCD_ON: u8 = 0x80;

/// Bits of STAT.
pub const STAT_COMPARE: u8 = 0x04;
/// The bits of STAT that the PPU stores: the coincidence flag and the
/// interrupt enables (bits 2 to 6).
pub const STAT_STORED: u8 = 0x7c;
pub const STAT_HBLANK_INT: u8 = 0x08;
pub const STAT_VBLANK_INT: u8 = 0x10;
pub const STAT_ACCESS_OAM_INT: u8 = 0x20;
pub const STAT_COMPARE_INT: u8 = 0x40;
/// The interrupt enable bits of STAT, which the CPU can write.
pub const STAT_WRITABLE: u8 = 0x78;

/// Interrupt lines that the PPU requests.
pub const VBLANK_LINE: u8 = 0x01;
pub const STAT_LINE: u8 = 0x02;

/// A palette: the shade shown for each of the four colour numbers.
#[derive(Clone, Copy, Debug, PartialEq, Eq, Structural)]
pub struct Palette {
    pub off: Color,
    pub light: Color,
    pub dark: Color,
    pub on: Color,
    pub bits: u8,
}

impl Palette {
    pub open spec fn spec_get(self, color: Color) -> Color {
        match color {
            Color::Off => self.off,
            Color::Light => self.light,
            Color::Dark => self.dark,
            Color::On => self.on,
        }
    }

    /// The palette that the register value `value` selects.
    pub open spec fn spec_from_bits(value: u8) -> Palette {
        Palette {
            off: Color::spec_from_u8(value % 4),
            light: Color::spec_from_u8((value / 4) % 4),
            dark: Color::spec_from_u8((value / 16) % 4),
            on: Color::spec_from_u8(value / 64),
            bits: value,
        }
    }

    pub fn new() -> (r: Palette)
        ensures
            r == Palette::spec_from_bits(0xff),
    {
        Palette { off: Color::On, light: Color::On, dark: Color::On, on: Color::On, bits: 0xff }
    }

    pub fn get(&self, color: &Color) -> (r: Color)
        ensures
            r == self.spec_get(*color),
    {
        match *color {
            Color::Off => self.off,
            Color::Light => self.light,
            Color::Dark => self.dark,
            Color::On => self.on,
        }
    }

    pub fn set_bits(&mut self, value: u8)
        ensures
            *final(self) == Palette::spec_from_bits(value),
    {
        self.off = Color::from_u8(value % 4);
        self.light = Color::from_u8((value / 4) % 4);
        self.dark = Color::from_u8((value / 16) % 4);
        self.on = Color::from_u8(value / 64);
        self.bits = value;
    }
}

/// The four modes of a visible line and of the vertical blank.
#[derive(Clone, Copy, Debug, PartialEq, Eq, Structural)]
pub enum Mode {
    AccessOam,
    AccessVram,
    HBlank,
    VBlank,
}

impl Mode {
    /// Cycles of the mode; the fine scroll moves some from the horizontal
    /// blank to the pixel transfer.
    pub open spec fn spec_cycles(self, scroll_x: u8) -> isize {
        let scroll_adjust: isize = if 5 <= scroll_x % 8 {
            2
        } else if 1 <= scroll_x % 8 {
            1
        } else {
            0
        };
        match self {
            Mode::AccessOam => ACCESS_OAM_CYCLES,
            Mode::AccessVram => (ACCESS_VRAM_CYCLES + scroll_adjust) as isize,
            Mode::HBlank => (HBLANK_CYCLES - scroll_adjust) as isize,
            Mode::VBlank => VBLANK_LINE_CYCLES,
        }
    }

    /// The mode number in STAT.
    pub open spec fn spec_bits(self) -> u8 {
        match self {
            Mode::AccessOam => 2,
            Mode::AccessVram => 3,
            Mode::HBlank => 0,
            Mode::VBlank => 1,
        }
    }

    pub fn cycles(&self, scroll_x: u8) -> (r: isize)
        ensures
            r == self.spec_cycles(scroll_x),
            21 <= r <= 114,
    {
        let scroll_adjust: isize = match scroll_x % 0x08 {
            5..=7 => 2,
            1..=4 => 1,
            _ => 0,
        };
        match *self {
            Mode::AccessOam => ACCESS_OAM_CYCLES,
            Mode::AccessVram => ACCESS_VRAM_CYCLES + scroll_adjust,
            Mode::HBlank => HBLANK_CYCLES - scroll_adjust,
            Mode::VBlank => VBLANK_LINE_CYCLES,
        }
    }

    pub fn bits(&self) -> (r: u8)
        ensures
            r == self.spec_bits(),
    {
        match *self {
            Mode::AccessOam => 2,
            Mode::AccessVram => 3,
            Mode::HBlank => 0,
            Mode::VBlank => 1,
        }
    }
}

/// The picture processing unit.
#[derive(Clone, Debug)]
pub struct Ppu {
    pub control: u8,
    pub stat: u8,
    pub current_line: u8,
    pub compare_line: u8,
    pub scroll_x: u8,
    pub scroll_y: u8,
    pub window_x: u8,
    pub window_y: u8,
    pub bg_palette: Palette,
    pub obj_palette0: Palette,
    pub obj_palette1: Palette,
    pub mode: Mode,
    pub cycles: isize,
    pub vram: Vec<u8>,
    pub oam: Vec<u8>,
    pub back_buffer: Vec<Color>,
}

/// Size of video RAM.
pub const VRAM_SIZE: usize = 0x2000;
/// Size of OAM.
pub const OAM_SIZE: usize = 0x100;

impl Ppu {
    /// The memories have their sizes.
    pub open spec fn wf_memory(&self) -> bool {
        &&& self.vram@.len() == VRAM_SIZE
        &&& self.oam@.len() == OAM_SIZE
        &&& self.back_buffer@.len() == SCREEN_PIXELS
    }

    pub open spec fn wf(&self) -> bool {
        &&& self.wf_memory()
        &&& 1 <= self.cycles <= 200
        &&& self.current_line <= 153
        &&& self.mode != Mode::VBlank ==> self.current_line < 144
        &&& self.control & LCDC_LCD_ON == 0 ==> self.current_line == 0
        &&& self.stat & STAT_STORED == self.stat
    }

    /// Checks the invariant at run time.
    pub fn check_wf(&self) -> (r: bool)
        ensures
            r == self.wf(),
    {
        self.vram.len() == VRAM_SIZE && self.oam.len() == OAM_SIZE && self.back_buffer.len()
            == SCREEN_PIXELS && 1 <= self.cycles && self.cycles <= 200 && self.current_line <= 153
            && (self.mode == Mode::VBlank || self.current_line < 144) && (self.control & LCDC_LCD_ON
            != 0 || self.current_line == 0) && self.stat & STAT_STORED == self.stat
    }

    pub open spec fn spec_lcd_on(&self) -> bool {
        self.control & LCDC_LCD_ON != 0
    }

    /// STAT as the CPU reads it.
    pub open spec fn spec_stat(&self) -> u8 {
        if !self.spec_lcd_on() {
            STAT_UNUSED_MASK
        } else {
            self.mode.spec_bits() | self.stat | STAT_UNUSED_MASK
        }
    }

    /// The PPU after entering `mode`.
    pub open spec fn spec_switch_mode(self, mode: Mode) -> Ppu {
        Ppu { mode, cycles: (self.cycles + mode.spec_cycles(self.scroll_x)) as isize, ..self }
    }

    /// The interrupt lines requested on entering `mode`.
    pub open spec fn spec_switch_lines(self, mode: Mode) -> u8 {
        match mode {
            Mode::AccessOam => if self.stat & STAT_ACCESS_OAM_INT != 0 {
                STAT_LINE
            } else {
                0
            },
            Mode::VBlank => if self.stat & STAT_VBLANK_INT != 0 || self.stat & STAT_ACCESS_OAM_INT
                != 0 {
                VBLANK_LINE | STAT_LINE
            } else {
                VBLANK_LINE
            },
            _ => 0,
        }
    }

    /// The coincidence flag updated for the current line, and the line
    /// requested when the coincidence interrupt is enabled.
    pub open spec fn spec_check_compare(self) -> (Ppu, u8) {
        if self.current_line != self.compare_line {
            (Ppu { stat: self.stat & !STAT_COMPARE, ..self }, 0)
        } else {
            (Ppu { stat: self.stat | STAT_COMPARE, ..self }, if self.stat & STAT_COMPARE_INT != 0 {
                STAT_LINE
            } else {
                0
            })
        }
    }

    /// One machine cycle of the PPU, apart from the drawing: the PPU after
    /// it (with the old screen), the interrupt lines requested, whether a
    /// frame was completed and whether a line is drawn.
    pub open spec fn spec_emulate(self) -> (Ppu, u8, bool, bool) {
        if !self.spec_lcd_on() {
            (self, 0, false, false)
        } else {
            let c = (self.cycles - 1) as isize;
            let s = Ppu { cycles: c, ..self };
            if c > 0 {
                let early = if c == 1 && self.mode == Mode::AccessVram && self.stat & STAT_HBLANK_INT
                    != 0 {
                    STAT_LINE
                } else {
                    0
                };
                (s, early, false, false)
            } else {
                match self.mode {
                    Mode::AccessOam => (s.spec_switch_mode(Mode::AccessVram), 0, false, false),
                    Mode::AccessVram => (s.spec_switch_mode(Mode::HBlank), 0, false, true),
                    Mode::HBlank => {
                        let l = Ppu { current_line: (self.current_line + 1) as u8, ..s };
                        let next = if l.current_line < 144 {
                            Mode::AccessOam
                        } else {
                            Mode::VBlank
                        };
                        let checked = l.spec_switch_mode(next).spec_check_compare();
                        (checked.0, l.spec_switch_lines(next) | checked.1, l.current_line >= 144, false)
                    },
                    Mode::VBlank => {
                        if self.current_line + 1 > 153 {
                            let z = Ppu { current_line: 0, ..s };
                            let checked = z.spec_switch_mode(Mode::AccessOam).spec_check_compare();
                            (checked.0, z.spec_switch_lines(Mode::AccessOam) | checked.1, false, false)
                        } else {
                            let n = Ppu {
                                current_line: (self.current_line + 1) as u8,
                                cycles: (c + VBLANK_LINE_CYCLES) as isize,
                                ..s
                            };
                            let checked = n.spec_check_compare();
                            (checked.0, 0 | checked.1, false, false)
                        }
                    },
                }
            }
        }
    }

    pub fn new() -> (r: Ppu)
        ensures
            r.wf(),
            !r.spec_lcd_on(),
            r.control == 0,
            r.stat == 0,
            r.current_line == 0,
            r.mode == Mode::AccessOam,
            r.cycles == ACCESS_OAM_CYCLES,
            r.compare_line == 0,
            r.scroll_x == 0,
            r.scroll_y == 0,
            r.window_x == 0,
            r.window_y == 0,
            r.bg_palette == Palette::spec_from_bits(0xff),
            r.obj_palette0 == Palette::spec_from_bits(0xff),
            r.obj_palette1 == Palette::spec_from_bits(0xff),
            r.vram@ == Seq::new(VRAM_SIZE as nat, |i: int| 0u8),
            r.oam@ == Seq::new(OAM_SIZE as nat, |i: int| 0u8),
            r.back_buffer@ == Seq::new(SCREEN_PIXELS as nat, |i: int| Color::Off),
    {
        let vram = vec![0; VRAM_SIZE];
        let oam = vec![0; OAM_SIZE];
        let back_buffer = vec![Color::Off; SCREEN_PIXELS];
        assert(vram@ =~= Seq::new(VRAM_SIZE as nat, |i: int| 0u8));
        assert(oam@ =~= Seq::new(OAM_SIZE as nat, |i: int| 0u8));
        assert(back_buffer@ =~= Seq::new(SCREEN_PIXELS as nat, |i: int| Color::Off));
        assert(0u8 & LCDC_LCD_ON == 0) by (bit_vector);
        proof {
            lemma_stat_bits(0, 0);
        }
        Ppu {
            control: 0,
            stat: 0,
            current_line: 0,
            compare_line: 0,
            scroll_x: 0,
            scroll_y: 0,
            window_x: 0,
            window_y: 0,
            bg_palette: Palette::new(),
            obj_palette0: Palette::new(),
            obj_palette1: Palette::new(),
            mode: Mode::AccessOam,
            cycles: ACCESS_OAM_CYCLES,
            vram,
            oam,
            back_buffer,
        }
    }

    pub fn get_control(&self) -> (r: u8)
        ensures
            r == self.control,
    {
        self.control
    }

    pub fn get_stat(&self) -> (r: u8)
        ensures
            r == self.spec_stat(),
    {
        if self.control & LCDC_LCD_ON == 0 {
            STAT_UNUSED_MASK
        } else {
            self.mode.bits() | self.stat | STAT_UNUSED_MASK
        }
    }

    pub fn get_scroll_y(&self) -> (r: u8)
        ensures
            r == self.scroll_y,
    {
        self.scroll_y
    }

    pub fn get_scroll_x(&self) -> (r: u8)
        ensures
            r == self.scroll_x,
    {
        self.scroll_x
    }

    pub fn get_current_line(&self) -> (r: u8)
        ensures
            r == self.current_line,
    {
        self.current_line
    }

    pub fn get_compare_line(&self) -> (r: u8)
        ensures
            r == self.compare_line,
    {
        self.compare_line
    }

    pub fn get_bg_palette(&self) -> (r: u8)
        ensures
            r == self.bg_palette.bits,
    {
        self.bg_palette.bits
    }

    pub fn get_obj_palette0(&self) -> (r: u8)
        ensures
            r == self.obj_palette0.bits,
    {
        self.obj_palette0.bits
    }

    pub fn get_obj_palette1(&self) -> (r: u8)
        ensures
            r == self.obj_palette1.bits,
    {
        self.obj_palette1.bits
    }

    pub fn get_window_x(&self) -> (r: u8)
        ensures
            r == self.window_x,
    {
        self.window_x
    }

    pub fn get_window_y(&self) -> (r: u8)
        ensures
            r == self.window_y,
    {
        self.window_y
    }

    /// Whether writing `value` to LCDC would switch the LCD off outside the
    /// vertical blank, which the emulator refuses.
    pub open spec fn spec_lcd_off_outside_vblank(&self, value: u8) -> bool {
        value & LCDC_LCD_ON == 0 && self.spec_lcd_on() && self.mode != Mode::VBlank
    }

    pub fn lcd_off_outside_vblank(&self, value: u8) -> (r: bool)
        ensures
            r == self.spec_lcd_off_outside_vblank(value),
    {
        value & LCDC_LCD_ON == 0 && self.control & LCDC_LCD_ON != 0 && self.mode != Mode::VBlank
    }

    /// Writes LCDC. Switching the LCD off resets the line counter; switching
    /// it on starts the first line.
    pub fn set_control(&mut self, value: u8)
        requires
            old(self).wf(),
            !old(self).spec_lcd_off_outside_vblank(value),
        ensures
            final(self).wf(),
            *final(self) == if value & LCDC_LCD_ON == 0 && old(self).spec_lcd_on() {
                Ppu { control: value, current_line: 0, ..*old(self) }
            } else if value & LCDC_LCD_ON != 0 && !old(self).spec_lcd_on() {
                Ppu {
                    control: value,
                    mode: Mode::HBlank,
                    cycles: ACCESS_OAM_CYCLES,
                    stat: old(self).stat | STAT_COMPARE,
                    ..*old(self)
                }
            } else {
                Ppu { control: value, ..*old(self) }
            },
    {
        proof {
            lemma_stat_bits(self.stat, value);
        }
        if value & LCDC_LCD_ON == 0 && self.control & LCDC_LCD_ON != 0 {
            self.current_line = 0;
        }
        if value & LCDC_LCD_ON != 0 && self.control & LCDC_LCD_ON == 0 {
            self.mode = Mode::HBlank;
            self.cycles = Mode::AccessOam.cycles(self.scroll_x);
            self.stat = self.stat | STAT_COMPARE;
        }
        self.control = value;
    }

    /// Writes STAT: only the interrupt enables can be written.
    pub fn set_stat(&mut self, value: u8)
        ensures
            *final(self) == (Ppu {
                stat: (old(self).stat & STAT_COMPARE) | (value & STAT_WRITABLE),
                ..*old(self)
            }),
            final(self).stat & STAT_STORED == final(self).stat,
    {
        proof {
            lemma_stat_bits(self.stat, value);
        }
        self.stat = (self.stat & STAT_COMPARE) | (value & STAT_WRITABLE);
    }

    pub fn set_scroll_y(&mut self, value: u8)
        ensures
            *final(self) == (Ppu { scroll_y: value, ..*old(self) }),
    {
        self.scroll_y = value;
    }

    pub fn set_scroll_x(&mut self, value: u8)
        ensures
            *final(self) == (Ppu { scroll_x: value, ..*old(self) }),
    {
        self.scroll_x = value;
    }

    /// A write to LY resets the line counter.
    pub fn reset_current_line(&mut self)
        ensures
            *final(self) == (Ppu { current_line: 0, ..*old(self) }),
    {
        self.current_line = 0;
    }

    pub fn set_compare_line(&mut self, value: u8)
        ensures
            *final(self) == (Ppu { compare_line: value, ..*old(self) }),
    {
        self.compare_line = value;
    }

    pub fn set_bg_palette(&mut self, value: u8)
        ensures
            *final(self) == (Ppu { bg_palette: Palette::spec_from_bits(value), ..*old(self) }),
    {
        self.bg_palette.set_bits(value);
    }

    pub fn set_obj_palette0(&mut self, value: u8)
        ensures
            *final(self) == (Ppu { obj_palette0: Palette::spec_from_bits(value), ..*old(self) }),
    {
        self.obj_palette0.set_bits(value);
    }

    pub fn set_obj_palette1(&mut self, value: u8)
        ensures
            *final(self) == (Ppu { obj_palette1: Palette::spec_from_bits(value), ..*old(self) }),
    {
        self.obj_palette1.set_bits(value);
    }

    pub fn set_window_x(&mut self, value: u8)
        ensures
            *final(self) == (Ppu { window_x: value, ..*old(self) }),
    {
        self.window_x = value;
    }

    pub fn set_window_y(&mut self, value: u8)
        ensures
            *final(self) == (Ppu { window_y: value, ..*old(self) }),
    {
        self.window_y = value;
    }

    /// Writes video RAM, unless the PPU is reading it for the pixel transfer.
    pub fn write_video_ram(&mut self, addr: u16, value: u8)
        requires
            old(self).wf(),
        ensures
            final(self).wf(),
            final(self).vram@ == if old(self).mode == Mode::AccessVram {
                old(self).vram@
            } else {
                old(self).vram@.update((addr as usize & 0x1fff) as int, value)
            },
            *final(self) == (Ppu { vram: final(self).vram, ..*old(self) }),
    {
        if self.mode == Mode::AccessVram {
            return ;
        }
        proof {
            crate::util::lemma_and_le_usize(addr as usize, 0x1fff);
        }
        self.vram.set(addr as usize & 0x1fff, value);
    }

    /// Writes OAM, unless the PPU is reading it.
    pub fn write_oam(&mut self, addr: u16, value: u8)
        requires
            old(self).wf(),
        ensures
            final(self).wf(),
            final(self).oam@ == if old(self).mode == Mode::AccessVram || old(self).mode
                == Mode::AccessOam {
                old(self).oam@
            } else {
                old(self).oam@.update((addr as usize & 0xff) as int, value)
            },
            *final(self) == (Ppu { oam: final(self).oam, ..*old(self) }),
    {
        if self.mode == Mode::AccessVram || self.mode == Mode::AccessOam {
            return ;
        }
        proof {
            crate::util::lemma_and_le_usize(addr as usize, 0xff);
        }
        self.oam.set(addr as usize & 0xff, value);
    }

    /// Reads video RAM; it reads as 0xff during the pixel transfer.
    pub fn read_video_ram(&self, addr: u16) -> (r: u8)
        requires
            self.wf(),
        ensures
            r == if self.mode == Mode::AccessVram {
                UNDEFINED_READ
            } else {
                self.vram@[(addr as usize & 0x1fff) as int]
            },
    {
        if self.mode == Mode::AccessVram {
            return UNDEFINED_READ;
        }
        proof {
            crate::util::lemma_and_le_usize(addr as usize, 0x1fff);
        }
        self.vram[addr as usize & 0x1fff]
    }

    /// Reads OAM; it reads as 0xff while the PPU uses it.
    pub fn read_oam(&self, addr: u16) -> (r: u8)
        requires
            self.wf(),
        ensures
            r == if self.mode == Mode::AccessVram || self.mode == Mode::AccessOam {
                UNDEFINED_READ
            } else {
                self.oam@[(addr as usize & 0xff) as int]
            },
    {
        if self.mode == Mode::AccessVram || self.mode == Mode::AccessOam {
            return UNDEFINED_READ;
        }
        proof {
            crate::util::lemma_and_le_usize(addr as usize, 0xff);
        }
        self.oam[addr as usize & 0xff]
    }

    /// Enters `mode` and returns the interrupt lines that this requests.
    fn switch_mode(&mut self, mode: Mode) -> (lines: u8)
        requires
            old(self).cycles <= 0,
            old(self).cycles >= -200,
        ensures
            *final(self) == old(self).spec_switch_mode(mode),
            lines == old(self).spec_switch_lines(mode),
            lines <= 3,
    {
        proof {
            lemma_small_lines(1, 2);
        }
        self.mode = mode;
        self.cycles = self.cycles + self.mode.cycles(self.scroll_x);
        match self.mode {
            Mode::AccessOam => if self.stat & STAT_ACCESS_OAM_INT != 0 {
                STAT_LINE
            } else {
                0
            },
            Mode::VBlank => if self.stat & STAT_VBLANK_INT != 0 || self.stat & STAT_ACCESS_OAM_INT
                != 0 {
                VBLANK_LINE | STAT_LINE
            } else {
                VBLANK_LINE
            },
            _ => 0,
        }
    }

    /// Updates the coincidence flag and returns the interrupt line that it
    /// requests.
    fn check_compare_interrupt(&mut self) -> (lines: u8)
        ensures
            (*final(self), lines) == old(self).spec_check_compare(),
            lines <= 3,
    {
        if self.current_line != self.compare_line {
            self.stat = self.stat & !STAT_COMPARE;
            0
        } else {
            let interrupt_on = self.stat & STAT_COMPARE_INT != 0;
            self.stat = self.stat | STAT_COMPARE;
            if interrupt_on {
                STAT_LINE
            } else {
                0
            }
        }
    }

    /// One machine cycle of the PPU: counts down the current mode, moves to
    /// the next one, draws a line at the end of the pixel transfer and
    /// requests the interrupts of the new mode.
    pub fn emulate(&mut self, irq: &mut Irq, events: &mut EmuEvents)
        requires
            old(self).wf(),
            old(irq).wf(),
        ensures
            final(self).wf(),
            final(irq).wf(),
            final(self).vram == old(self).vram,
            final(self).oam == old(self).oam,
            ({
                let r = old(self).spec_emulate();
                &&& *final(self) == (Ppu { back_buffer: final(self).back_buffer, ..r.0 })
                &&& final(self).back_buffer@ == if r.3 {
                    old(self).spec_drawn_buffer()
                } else {
                    old(self).back_buffer@
                }
                &&& *final(irq) == (Irq { end_intr: old(irq).end_intr | r.1, ..*old(irq) })
                &&& final(events).bits == if r.2 {
                    old(events).bits | EmuEvents::VSYNC
                } else {
                    old(events).bits
                }
            }),
    {
        proof {
            lemma_stat_bits(self.stat, 0);
        }
        let mut lines: u8 = 0;
        let mut vsync = false;
        if self.control & LCDC_LCD_ON != 0 {
            self.cycles = self.cycles - 1;
            if self.cycles > 0 {
                if self.cycles == 1 && self.mode == Mode::AccessVram && self.stat & STAT_HBLANK_INT
                    != 0 {
                    lines = STAT_LINE;
                }
            } else {
                match self.mode {
                    Mode::AccessOam => {
                        lines = self.switch_mode(Mode::AccessVram);
                    },
                    Mode::AccessVram => {
                        proof {
                            render::lemma_drawn_buffer_timing(*old(self), *self);
                        }
                        self.draw_line();
                        lines = self.switch_mode(Mode::HBlank);
                    },
                    Mode::HBlank => {
                        self.current_line = self.current_line + 1;
                        let next = if self.current_line < 144 {
                            Mode::AccessOam
                        } else {
                            vsync = true;
                            Mode::VBlank
                        };
                        let switched = self.switch_mode(next);
                        let compared = self.check_compare_interrupt();
                        proof {
                            lemma_small_lines(switched, compared);
                        }
                        lines = switched | compared;
                    },
                    Mode::VBlank => {
                        if self.current_line + 1 > 153 {
                            self.current_line = 0;
                            let switched = self.switch_mode(Mode::AccessOam);
                            let compared = self.check_compare_interrupt();
                            proof {
                                lemma_small_lines(switched, compared);
                            }
                            lines = switched | compared;
                        } else {
                            self.current_line = self.current_line + 1;
                            self.cycles = self.cycles + VBLANK_LINE_CYCLES;
                            let compared = self.check_compare_interrupt();
                            proof {
                                lemma_small_lines(0, compared);
                            }
                            lines = 0 | compared;
                        }
                    },
                }
            }
        }
        if vsync {
            events.insert(EmuEvents::VSYNC);
        }
        proof {
            lemma_small_lines(lines, 0);
        }
        irq.request_t34_lines(lines);
    }
}

/// Facts on the interrupt lines of the PPU, which are bits 0 and 1.
proof fn lemma_small_lines(a: u8, b: u8)
    by (bit_vector)
    requires
        a <= 3,
        b <= 3,
    ensures
        a | b <= 3,
        (a | b) & 0x1f == a | b,
        a & 0x1f == a,
        1u8 | 2u8 == 3,
{
}

/// The ways the PPU changes STAT keep it within its stored bits.
proof fn lemma_stat_bits(s: u8, v: u8)
    by (bit_vector)
    ensures
        ((s & 0x04) | (v & 0x78)) & 0x7c == (s & 0x04) | (v & 0x78),
        s & 0x7c == s ==> (s | 0x04) & 0x7c == s | 0x04,
        s & 0x7c == s ==> (s & !0x04u8) & 0x7c == s & !0x04u8,
        0u8 & 0x7c == 0u8,
{
}

/// Every line lasts 114 machine cycles: OAM search, pixel transfer and
/// HBlank together take as long as a line of VBlank, whatever the scroll;
/// the fine horizontal scroll only moves up to two cycles from HBlank to the
/// transfer.
pub proof fn lemma_line_length(scroll_x: u8)
    ensures
        Mode::AccessOam.spec_cycles(scroll_x) + Mode::AccessVram.spec_cycles(scroll_x)
            + Mode::HBlank.spec_cycles(scroll_x) == 114,
        Mode::VBlank.spec_cycles(scroll_x) == 114,
        43 <= Mode::AccessVram.spec_cycles(scroll_x) <= 45,
        scroll_x % 8 == 0 ==> Mode::AccessVram.spec_cycles(scroll_x) == 43,
{
}

/// STAT as the CPU reads it: bit 7 always set; while the LCD is on, bits 0
/// and 1 give the mode (0 HBlank, 1 VBlank, 2 OAM search, 3 pixel transfer)
/// and bits 2 to 6 the stored coincidence flag and interrupt enables; while
/// it is off, nothing else.
pub proof fn lemma_stat_read(p: Ppu)
    requires
        p.wf(),
    ensures
        p.spec_stat() & 0x80 == 0x80,
        p.spec_lcd_on() ==> p.spec_stat() & 0x03 == match p.mode {
            Mode::HBlank => 0u8,
            Mode::VBlank => 1u8,
            Mode::AccessOam => 2u8,
            Mode::AccessVram => 3u8,
        },
        p.spec_lcd_on() ==> p.spec_stat() & 0x7c == p.stat,
        !p.spec_lcd_on() ==> p.spec_stat() == 0x80,
{
    lemma_stat_layout(p.mode.spec_bits(), p.stat);
}

proof fn lemma_stat_layout(m: u8, s: u8)
    by (bit_vector)
    requires
        m < 4,
        s & 0x7c == s,
    ensures
        (m | s | 0x80) & 0x80 == 0x80,
        (m | s | 0x80) & 0x03 == m,
        (m | s | 0x80) & 0x7c == s,
        0x80u8 & 0x80 == 0x80,
{
}

} // verus!
