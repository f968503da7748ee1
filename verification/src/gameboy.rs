//! Constants of the Game Boy hardware.
use vstd::prelude::*;

verus! {

/// Width of the screen in pixels.
pub const SCREEN_WIDTH: usize = 160;
/// Height of the screen in pixels.
pub const SCREEN_HEIGHT: usize = 144;
/// Number of pixels on the screen.
pub const SCREEN_PIXELS: usize = 23040;
/// Size of one switchable ROM bank.
pub const ROM_BANK_SIZE: usize = 0x4000;
/// Size of one switchable cartridge RAM bank.
pub const RAM_BANK_SIZE: usize = 0x2000;
/// Size of the high RAM at 0xff80 to 0xfffe.
pub const HIRAM_SIZE: usize = 0x80;

/// The four shades of the monochrome screen.
#[derive(Clone, Copy, Debug, PartialEq, Eq, Structural)]
pub enum Color {
    Off,
    Light,
    Dark,
    On,
}

impl Color {
    /// The shade with number `value & 3`.
    pub open spec fn spec_from_u8(value: u8) -> Color {
        if value % 4 == 0 {
            Color::Off
        } else if value % 4 == 1 {
            Color::Light
        } else if value % 4 == 2 {
            Color::Dark
        } else {
            Color::On
        }
    }

    pub fn from_u8(value: u8) -> (r: Color)
        ensures
            r == Color::spec_from_u8(value),
    {
        match value % 4 {
            0 => Color::Off,
            1 => Color::Light,
            2 => Color::Dark,
            _ => Color::On,
        }
    }
}

} // verus!
