//! Cartridge images: checking the header and reading what it declares.
use vstd::prelude::*;
use vstd::arithmetic::power2::{lemma2_to64, pow2};
use vstd::string::*;
use vstd::utf8::*;
use crate::config::checksum_ieee;
use crate::config::crc32_ieee;
use crate::gameboy::ROM_BANK_SIZE;

verus! {

/// The memory bank controller and extras of a cartridge, from header byte
/// 0x147.
#[derive(Clone, Copy, Debug, PartialEq, Eq, Structural)]
pub enum CartridgeType {
    NoMbc { ram: bool, battery: bool },
    Mbc1 { ram: bool, battery: bool, multicart: bool },
    Mbc2 { battery: bool },
    Mbc3 { ram: bool, battery: bool, rtc: bool },
    Mbc5 { ram: bool, battery: bool, rumble: bool },
    Mbc6,
    Mbc7,
    Huc1,
    Huc3,
}

/// The ROM size of a cartridge, from header byte 0x148.
#[derive(Clone, Copy, Debug, PartialEq, Eq, Structural)]
pub enum CartridgeRomSize {
    NoRomBanks,
    RomBanks4,
    RomBanks8,
    RomBanks16,
    RomBanks32,
    RomBanks64,
    RomBanks128,
    RomBanks256,
    RomBanks512,
}

/// The RAM size of a cartridge, from header byte 0x149.
#[derive(Clone, Copy, Debug, PartialEq, Eq, Structural)]
pub enum CartridgeRamSize {
    NoRam,
    Ram2K,
    Ram8K,
    Ram32K,
    Ram128K,
    Ram64K,
}

/// Why a cartridge image was refused.
#[derive(Clone, Copy, Debug, PartialEq, Eq, Structural)]
pub enum CartridgeError {
    /// The image is shorter than two banks or not a whole number of banks.
    InvalidLength { len: usize },
    /// The title is not UTF-8.
    InvalidTitle,
    UnsupportedType { value: u8 },
    UnsupportedRomSize { value: u8 },
    UnsupportedRamSize { value: u8 },
    /// The type has a RAM chip but the header declares no RAM.
    MissingRam { cartridge_type: CartridgeType },
    /// The type has no RAM chip but the header declares some.
    UnexpectedRam { cartridge_type: CartridgeType, value: u8 },
    /// The image is not as long as the header's ROM size.
    RomSizeMismatch { expected: usize, actual: usize },
}

/// A cartridge image with its header read.
#[derive(Clone, Debug)]
pub struct Cartridge {
    pub data: Vec<u8>,
    pub title: String,
    pub cartridge_type: CartridgeType,
    pub rom_size: CartridgeRomSize,
    pub ram_size: CartridgeRamSize,
}

/// The CRC-32 of the Nintendo logo in a cartridge header.
pub const NINTENDO_LOGO_CRC32: u32 = 0x4619_5417;
/// Size of an MBC1 multicart: eight megabits.
pub const MULTICART_SIZE: usize = 1_048_576;
/// Distance between the games of an MBC1 multicart.
pub const MULTICART_PAGE_SIZE: usize = 0x40000;

impl CartridgeType {
    pub open spec fn spec_from_u8(value: u8) -> Option<CartridgeType> {
        match value {
            0x00 => Some(CartridgeType::NoMbc { ram: false, battery: false }),
            0x08 => Some(CartridgeType::NoMbc { ram: true, battery: false }),
            0x09 => Some(CartridgeType::NoMbc { ram: true, battery: true }),
            0x01 => Some(CartridgeType::Mbc1 { ram: false, battery: false, multicart: false }),
            0x02 => Some(CartridgeType::Mbc1 { ram: true, battery: false, multicart: false }),
            0x03 => Some(CartridgeType::Mbc1 { ram: true, battery: true, multicart: false }),
            0x05 => Some(CartridgeType::Mbc2 { battery: false }),
            0x06 => Some(CartridgeType::Mbc2 { battery: true }),
            0x11 => Some(CartridgeType::Mbc3 { ram: false, battery: false, rtc: false }),
            0x12 => Some(CartridgeType::Mbc3 { ram: true, battery: false, rtc: false }),
            0x13 => Some(CartridgeType::Mbc3 { ram: true, battery: true, rtc: false }),
            0x0f => Some(CartridgeType::Mbc3 { ram: false, battery: true, rtc: true }),
            0x10 => Some(CartridgeType::Mbc3 { ram: true, battery: true, rtc: true }),
            0x19 => Some(CartridgeType::Mbc5 { ram: false, battery: false, rumble: false }),
            0x1a => Some(CartridgeType::Mbc5 { ram: true, battery: false, rumble: false }),
            0x1b => Some(CartridgeType::Mbc5 { ram: true, battery: true, rumble: false }),
            0x1c => Some(CartridgeType::Mbc5 { ram: false, battery: false, rumble: true }),
            0x1d => Some(CartridgeType::Mbc5 { ram: true, battery: false, rumble: true }),
            0x1e => Some(CartridgeType::Mbc5 { ram: true, battery: true, rumble: true }),
            0x20 => Some(CartridgeType::Mbc6),
            0x22 => Some(CartridgeType::Mbc7),
            0xff => Some(CartridgeType::Huc1),
            0xfe => Some(CartridgeType::Huc3),
            _ => None,
        }
    }

    pub open spec fn spec_has_ram_chip(self) -> bool {
        match self {
            CartridgeType::NoMbc { ram, .. } => ram,
            CartridgeType::Mbc1 { ram, .. } => ram,
            CartridgeType::Mbc2 { .. } => false,
            CartridgeType::Mbc3 { ram, .. } => ram,
            CartridgeType::Mbc5 { ram, .. } => ram,
            _ => true,
        }
    }

    pub fn from_u8(value: u8) -> (r: Option<CartridgeType>)
        ensures
            r == CartridgeType::spec_from_u8(value),
    {
        match value {
            0x00 => Some(CartridgeType::NoMbc { ram: false, battery: false }),
            0x08 => Some(CartridgeType::NoMbc { ram: true, battery: false }),
            0x09 => Some(CartridgeType::NoMbc { ram: true, battery: true }),
            0x01 => Some(CartridgeType::Mbc1 { ram: false, battery: false, multicart: false }),
            0x02 => Some(CartridgeType::Mbc1 { ram: true, battery: false, multicart: false }),
            0x03 => Some(CartridgeType::Mbc1 { ram: true, battery: true, multicart: false }),
            0x05 => Some(CartridgeType::Mbc2 { battery: false }),
            0x06 => Some(CartridgeType::Mbc2 { battery: true }),
            0x11 => Some(CartridgeType::Mbc3 { ram: false, battery: false, rtc: false }),
            0x12 => Some(CartridgeType::Mbc3 { ram: true, battery: false, rtc: false }),
            0x13 => Some(CartridgeType::Mbc3 { ram: true, battery: true, rtc: false }),
            0x0f => Some(CartridgeType::Mbc3 { ram: false, battery: true, rtc: true }),
            0x10 => Some(CartridgeType::Mbc3 { ram: true, battery: true, rtc: true }),
            0x19 => Some(CartridgeType::Mbc5 { ram: false, battery: false, rumble: false }),
            0x1a => Some(CartridgeType::Mbc5 { ram: true, battery: false, rumble: false }),
            0x1b => Some(CartridgeType::Mbc5 { ram: true, battery: true, rumble: false }),
            0x1c => Some(CartridgeType::Mbc5 { ram: false, battery: false, rumble: true }),
            0x1d => Some(CartridgeType::Mbc5 { ram: true, battery: false, rumble: true }),
            0x1e => Some(CartridgeType::Mbc5 { ram: true, battery: true, rumble: true }),
            0x20 => Some(CartridgeType::Mbc6),
            0x22 => Some(CartridgeType::Mbc7),
            0xff => Some(CartridgeType::Huc1),
            0xfe => Some(CartridgeType::Huc3),
            _ => None,
        }
    }

    /// Whether the cartridge carries a RAM chip; the RAM of an MBC2 is
    /// inside the controller.
    pub fn has_ram_chip(&self) -> (r: bool)
        ensures
            r == self.spec_has_ram_chip(),
    {
        match *self {
            CartridgeType::NoMbc { ram, .. } => ram,
            CartridgeType::Mbc1 { ram, .. } => ram,
            CartridgeType::Mbc2 { .. } => false,
            CartridgeType::Mbc3 { ram, .. } => ram,
            CartridgeType::Mbc5 { ram, .. } => ram,
            CartridgeType::Mbc6 | CartridgeType::Mbc7 | CartridgeType::Huc1 | CartridgeType::Huc3 => {
                true
            },
        }
    }
}

impl CartridgeRomSize {
    pub open spec fn spec_from_u8(value: u8) -> Option<CartridgeRomSize> {
        match value {
            0x00 => Some(CartridgeRomSize::NoRomBanks),
            0x01 => Some(CartridgeRomSize::RomBanks4),
            0x02 => Some(CartridgeRomSize::RomBanks8),
            0x03 => Some(CartridgeRomSize::RomBanks16),
            0x04 => Some(CartridgeRomSize::RomBanks32),
            0x05 => Some(CartridgeRomSize::RomBanks64),
            0x06 => Some(CartridgeRomSize::RomBanks128),
            0x07 => Some(CartridgeRomSize::RomBanks256),
            0x08 => Some(CartridgeRomSize::RomBanks512),
            _ => None,
        }
    }

    pub open spec fn spec_banks(self) -> usize {
        match self {
            CartridgeRomSize::NoRomBanks => 2,
            CartridgeRomSize::RomBanks4 => 4,
            CartridgeRomSize::RomBanks8 => 8,
            CartridgeRomSize::RomBanks16 => 16,
            CartridgeRomSize::RomBanks32 => 32,
            CartridgeRomSize::RomBanks64 => 64,
            CartridgeRomSize::RomBanks128 => 128,
            CartridgeRomSize::RomBanks256 => 256,
            CartridgeRomSize::RomBanks512 => 512,
        }
    }

    pub open spec fn spec_as_usize(self) -> usize {
        (self.spec_banks() * ROM_BANK_SIZE) as usize
    }

    pub fn from_u8(value: u8) -> (r: Option<CartridgeRomSize>)
        ensures
            r == CartridgeRomSize::spec_from_u8(value),
    {
        match value {
            0x00 => Some(CartridgeRomSize::NoRomBanks),
            0x01 => Some(CartridgeRomSize::RomBanks4),
            0x02 => Some(CartridgeRomSize::RomBanks8),
            0x03 => Some(CartridgeRomSize::RomBanks16),
            0x04 => Some(CartridgeRomSize::RomBanks32),
            0x05 => Some(CartridgeRomSize::RomBanks64),
            0x06 => Some(CartridgeRomSize::RomBanks128),
            0x07 => Some(CartridgeRomSize::RomBanks256),
            0x08 => Some(CartridgeRomSize::RomBanks512),
            _ => None,
        }
    }

    /// The number of 16 KiB ROM banks.
    pub fn banks(&self) -> (r: usize)
        ensures
            r == self.spec_banks(),
    {
        match *self {
            CartridgeRomSize::NoRomBanks => 2,
            CartridgeRomSize::RomBanks4 => 4,
            CartridgeRomSize::RomBanks8 => 8,
            CartridgeRomSize::RomBanks16 => 16,
            CartridgeRomSize::RomBanks32 => 32,
            CartridgeRomSize::RomBanks64 => 64,
            CartridgeRomSize::RomBanks128 => 128,
            CartridgeRomSize::RomBanks256 => 256,
            CartridgeRomSize::RomBanks512 => 512,
        }
    }

    /// The ROM size as shown to the user.
    pub fn description(&self) -> (r: &'static str)
        ensures
            r@ == match *self {
                CartridgeRomSize::NoRomBanks => "256 kbit"@,
                CartridgeRomSize::RomBanks4 => "512 kbit"@,
                CartridgeRomSize::RomBanks8 => "1 Mbit"@,
                CartridgeRomSize::RomBanks16 => "2 Mbit"@,
                CartridgeRomSize::RomBanks32 => "4 Mbit"@,
                CartridgeRomSize::RomBanks64 => "8 Mbit"@,
                CartridgeRomSize::RomBanks128 => "16 Mbit"@,
                CartridgeRomSize::RomBanks256 => "32 Mbit"@,
                CartridgeRomSize::RomBanks512 => "64 Mbit"@,
            },
    {
        match *self {
            CartridgeRomSize::NoRomBanks => "256 kbit",
            CartridgeRomSize::RomBanks4 => "512 kbit",
            CartridgeRomSize::RomBanks8 => "1 Mbit",
            CartridgeRomSize::RomBanks16 => "2 Mbit",
            CartridgeRomSize::RomBanks32 => "4 Mbit",
            CartridgeRomSize::RomBanks64 => "8 Mbit",
            CartridgeRomSize::RomBanks128 => "16 Mbit",
            CartridgeRomSize::RomBanks256 => "32 Mbit",
            CartridgeRomSize::RomBanks512 => "64 Mbit",
        }
    }

    /// The ROM size in bytes.
    pub fn as_usize(&self) -> (r: usize)
        ensures
            r == self.spec_as_usize(),
            r == self.spec_banks() * ROM_BANK_SIZE,
    {
        self.banks() * ROM_BANK_SIZE
    }
}

impl CartridgeRamSize {
    pub open spec fn spec_from_u8(value: u8) -> Option<CartridgeRamSize> {
        match value {
            0x00 => Some(CartridgeRamSize::NoRam),
            0x01 => Some(CartridgeRamSize::Ram2K),
            0x02 => Some(CartridgeRamSize::Ram8K),
            0x03 => Some(CartridgeRamSize::Ram32K),
            0x04 => Some(CartridgeRamSize::Ram128K),
            0x05 => Some(CartridgeRamSize::Ram64K),
            _ => None,
        }
    }

    pub open spec fn spec_as_usize(self) -> usize {
        match self {
            CartridgeRamSize::NoRam => 0,
            CartridgeRamSize::Ram2K => 2048,
            CartridgeRamSize::Ram8K => 8192,
            CartridgeRamSize::Ram32K => 32768,
            CartridgeRamSize::Ram128K => 131072,
            CartridgeRamSize::Ram64K => 65536,
        }
    }

    pub fn from_u8(value: u8) -> (r: Option<CartridgeRamSize>)
        ensures
            r == CartridgeRamSize::spec_from_u8(value),
    {
        match value {
            0x00 => Some(CartridgeRamSize::NoRam),
            0x01 => Some(CartridgeRamSize::Ram2K),
            0x02 => Some(CartridgeRamSize::Ram8K),
            0x03 => Some(CartridgeRamSize::Ram32K),
            0x04 => Some(CartridgeRamSize::Ram128K),
            0x05 => Some(CartridgeRamSize::Ram64K),
            _ => None,
        }
    }

    /// The RAM size as shown to the user.
    pub fn description(&self) -> (r: &'static str)
        ensures
            r@ == match *self {
                CartridgeRamSize::NoRam => "-"@,
                CartridgeRamSize::Ram2K => "16 kbit"@,
                CartridgeRamSize::Ram8K => "64 kbit"@,
                CartridgeRamSize::Ram32K => "256 kbit"@,
                CartridgeRamSize::Ram128K => "1 Mbit"@,
                CartridgeRamSize::Ram64K => "512 kbit"@,
            },
    {
        match *self {
            CartridgeRamSize::NoRam => "-",
            CartridgeRamSize::Ram2K => "16 kbit",
            CartridgeRamSize::Ram8K => "64 kbit",
            CartridgeRamSize::Ram32K => "256 kbit",
            CartridgeRamSize::Ram128K => "1 Mbit",
            CartridgeRamSize::Ram64K => "512 kbit",
        }
    }

    /// The RAM size in bytes.
    pub fn as_usize(&self) -> (r: usize)
        ensures
            r == self.spec_as_usize(),
    {
        match *self {
            CartridgeRamSize::NoRam => 0,
            CartridgeRamSize::Ram2K => 2048,
            CartridgeRamSize::Ram8K => 8192,
            CartridgeRamSize::Ram32K => 32768,
            CartridgeRamSize::Ram128K => 131_072,
            CartridgeRamSize::Ram64K => 65536,
        }
    }
}

/// `std::str::from_utf8`: the text of `bytes` when they are well-formed
/// UTF-8, nothing when they are not.
#[verifier::external_body]
fn str_from_utf8(bytes: &[u8]) -> (r: Option<&str>)
    ensures
        r is Some <==> valid_utf8(bytes@),
        r matches Some(s) ==> s@ == decode_utf8(bytes@),
{
    std::str::from_utf8(bytes).ok()
}

/// `s` without its trailing NUL characters.
pub open spec fn trim_end_nul(s: Seq<char>) -> Seq<char>
    decreases s.len(),
{
    if s.len() > 0 && s.last() == '\0' {
        trim_end_nul(s.drop_last())
    } else {
        s
    }
}

/// The header bytes that hold the title: sixteen bytes in old headers,
/// eleven in those with the new licensee code (0x33 at 0x14b).
pub open spec fn title_bytes(data: Seq<u8>) -> Seq<u8> {
    if data[0x14b] == 0x33 {
        data.subrange(0x134, 0x13f)
    } else {
        data.subrange(0x134, 0x143)
    }
}

/// The checksums of the Nintendo logos at the start of the four quarters
/// of an eight-megabit image.
pub open spec fn multicart_logo_checksums(rom: Seq<u8>) -> Seq<u32> {
    Seq::new(
        4,
        |page: int|
            crc32_ieee(
                rom.subrange(page * 0x40000 + 0x104, page * 0x40000 + 0x104 + 0x30),
            ),
    )
}

/// How many of `checksums` are that of the Nintendo logo.
pub open spec fn logo_count(checksums: Seq<u32>) -> nat
    decreases checksums.len(),
{
    if checksums.len() == 0 {
        0
    } else {
        logo_count(checksums.drop_last()) + (if checksums.last() == NINTENDO_LOGO_CRC32 {
            1nat
        } else {
            0
        })
    }
}

/// An MBC1 image is a multicart when it is eight megabits long and at least
/// three of its quarters (a menu and two games) start with a valid logo.
pub open spec fn spec_is_mbc1_multicart(rom: Seq<u8>) -> bool {
    rom.len() == MULTICART_SIZE && logo_count(multicart_logo_checksums(rom)) >= 3
}

/// Whether enough of the logo checksums of an eight-megabit image are valid
/// for it to be a multicart.
pub fn is_multicart_logo_checksums(checksums: &[u32]) -> (r: bool)
    ensures
        r == (logo_count(checksums@) >= 3),
{
    let mut count: usize = 0;
    let mut i: usize = 0;
    while i < checksums.len()
        invariant
            i <= checksums@.len(),
            count == logo_count(checksums@.subrange(0, i as int)),
            count <= i,
        decreases checksums@.len() - i,
    {
        assert(checksums@.subrange(0, i as int + 1).drop_last() =~= checksums@.subrange(0, i as int));
        if checksums[i] == NINTENDO_LOGO_CRC32 {
            count += 1;
        }
        i += 1;
    }
    assert(checksums@.subrange(0, i as int) =~= checksums@);
    count >= 3
}

/// Whether an MBC1 image is a multicart; only eight-megabit ones exist.
pub fn is_mbc1_multicart(rom: &[u8]) -> (r: bool)
    ensures
        r == spec_is_mbc1_multicart(rom@),
{
    if rom.len() != MULTICART_SIZE {
        return false;
    }
    let mut checksums: Vec<u32> = Vec::new();
    let mut page: usize = 0;
    while page < 4
        invariant
            rom@.len() == MULTICART_SIZE,
            page <= 4,
            checksums@ == multicart_logo_checksums(rom@).subrange(0, page as int),
        decreases 4 - page,
    {
        let start = page * MULTICART_PAGE_SIZE + 0x0104;
        let end = start + 0x30;
        let c = checksum_ieee(vstd::slice::slice_subrange(rom, start, end));
        checksums.push(c);
        page += 1;
        assert(checksums@ =~= multicart_logo_checksums(rom@).subrange(0, page as int));
    }
    assert(checksums@ =~= multicart_logo_checksums(rom@));
    is_multicart_logo_checksums(checksums.as_slice())
}

/// The first check that an image fails, if any; the title is checked by
/// the caller.
pub open spec fn header_error(data: Seq<u8>) -> Option<CartridgeError> {
    if data.len() < 0x8000 || data.len() % 0x4000 != 0 {
        Some(CartridgeError::InvalidLength { len: data.len() as usize })
    } else if !valid_utf8(title_bytes(data)) {
        Some(CartridgeError::InvalidTitle)
    } else if CartridgeType::spec_from_u8(data[0x147]) is None {
        Some(CartridgeError::UnsupportedType { value: data[0x147] })
    } else if CartridgeRomSize::spec_from_u8(data[0x148]) is None {
        Some(CartridgeError::UnsupportedRomSize { value: data[0x148] })
    } else if CartridgeRamSize::spec_from_u8(data[0x149]) is None {
        Some(CartridgeError::UnsupportedRamSize { value: data[0x149] })
    } else {
        let t = spec_cartridge_type(data);
        let ram = CartridgeRamSize::spec_from_u8(data[0x149]).unwrap();
        let rom = CartridgeRomSize::spec_from_u8(data[0x148]).unwrap();
        if t.spec_has_ram_chip() && ram == CartridgeRamSize::NoRam {
            Some(CartridgeError::MissingRam { cartridge_type: t })
        } else if !t.spec_has_ram_chip() && ram != CartridgeRamSize::NoRam {
            Some(CartridgeError::UnexpectedRam { cartridge_type: t, value: data[0x149] })
        } else if data.len() != rom.spec_as_usize() {
            Some(CartridgeError::RomSizeMismatch {
                expected: rom.spec_as_usize(),
                actual: data.len() as usize,
            })
        } else {
            None
        }
    }
}

/// The cartridge type that the header declares, with the multicart flag of
/// MBC1 filled in.
pub open spec fn spec_cartridge_type(data: Seq<u8>) -> CartridgeType {
    match CartridgeType::spec_from_u8(data[0x147]).unwrap() {
        CartridgeType::Mbc1 { ram, battery, .. } => CartridgeType::Mbc1 {
            ram,
            battery,
            multicart: spec_is_mbc1_multicart(data),
        },
        t => t,
    }
}

impl Cartridge {
    pub open spec fn wf(&self) -> bool {
        self.data@.len() >= 1
    }

    /// The stand-in for an empty cartridge slot.
    pub fn no_cartridge() -> (r: Cartridge)
        ensures
            r.wf(),
            r.data@ == seq![0xffu8, 0xffu8],
            r.title@ == "-"@,
            r.cartridge_type == (CartridgeType::NoMbc { ram: false, battery: false }),
            r.rom_size == CartridgeRomSize::NoRomBanks,
            r.ram_size == CartridgeRamSize::NoRam,
    {
        let data = vec![0xff, 0xff];
        assert(data@ =~= seq![0xffu8, 0xffu8]);
        Cartridge {
            data,
            title: String::from_str("-"),
            cartridge_type: CartridgeType::NoMbc { ram: false, battery: false },
            rom_size: CartridgeRomSize::NoRomBanks,
            ram_size: CartridgeRamSize::NoRam,
        }
    }

    /// The title of the header, without trailing NULs.
    fn read_title(data: &[u8]) -> (r: Option<String>)
        requires
            data@.len() >= 0x8000,
        ensures
            r is Some <==> valid_utf8(title_bytes(data@)),
            r matches Some(t) ==> t@ == trim_end_nul(decode_utf8(title_bytes(data@))),
    {
        let slice = if data[0x14b] == 0x33 {
            vstd::slice::slice_subrange(data, 0x134, 0x13f)
        } else {
            vstd::slice::slice_subrange(data, 0x134, 0x143)
        };
        match str_from_utf8(slice) {
            None => None,
            Some(text) => {
                let mut end = text.unicode_len();
                assert(text@.subrange(0, end as int) =~= text@);
                while end > 0 && text.get_char(end - 1) == '\0'
                    invariant
                        end <= text@.len(),
                        trim_end_nul(text@) == trim_end_nul(text@.subrange(0, end as int)),
                    decreases end,
                {
                    assert(text@.subrange(0, end as int).drop_last() =~= text@.subrange(
                        0,
                        end as int - 1,
                    ));
                    end -= 1;
                }
                let trimmed = text.substring_char(0, end);
                assert(trimmed@ == trim_end_nul(text@)) by {
                    if end > 0 {
                        assert(trimmed@.last() == text@[end - 1]);
                    }
                }
                Some(String::from_str(trimmed))
            },
        }
    }

    /// Checks a cartridge image and reads its header.
    pub fn from_data(data: Vec<u8>) -> (r: Result<Cartridge, CartridgeError>)
        ensures
            r is Err <==> header_error(data@) is Some,
            r matches Err(e) ==> header_error(data@) == Some(e),
            r matches Ok(c) ==> {
                &&& c.wf()
                &&& c.data@ == data@
                &&& c.title@ == trim_end_nul(decode_utf8(title_bytes(data@)))
                &&& c.cartridge_type == spec_cartridge_type(data@)
                &&& Some(c.rom_size) == CartridgeRomSize::spec_from_u8(data@[0x148])
                &&& Some(c.ram_size) == CartridgeRamSize::spec_from_u8(data@[0x149])
            },
    {
        if data.len() < 0x8000 || data.len() % 0x4000 != 0 {
            return Err(CartridgeError::InvalidLength { len: data.len() });
        }
        let title = match Cartridge::read_title(data.as_slice()) {
            Some(t) => t,
            None => {
                return Err(CartridgeError::InvalidTitle);
            },
        };
        let mut cartridge_type = match CartridgeType::from_u8(data[0x147]) {
            Some(t) => t,
            None => {
                return Err(CartridgeError::UnsupportedType { value: data[0x147] });
            },
        };
        if let CartridgeType::Mbc1 { ram, battery, .. } = cartridge_type {
            cartridge_type = CartridgeType::Mbc1 {
                ram,
                battery,
                multicart: is_mbc1_multicart(data.as_slice()),
            };
        }
        let rom_size = match CartridgeRomSize::from_u8(data[0x148]) {
            Some(s) => s,
            None => {
                return Err(CartridgeError::UnsupportedRomSize { value: data[0x148] });
            },
        };
        let ram_size = match CartridgeRamSize::from_u8(data[0x149]) {
            Some(s) => s,
            None => {
                return Err(CartridgeError::UnsupportedRamSize { value: data[0x149] });
            },
        };
        if cartridge_type.has_ram_chip() && ram_size == CartridgeRamSize::NoRam {
            return Err(CartridgeError::MissingRam { cartridge_type });
        }
        if !cartridge_type.has_ram_chip() && ram_size != CartridgeRamSize::NoRam {
            return Err(CartridgeError::UnexpectedRam { cartridge_type, value: data[0x149] });
        }
        if data.len() != rom_size.as_usize() {
            return Err(
                CartridgeError::RomSizeMismatch { expected: rom_size.as_usize(), actual: data.len() },
            );
        }
        Ok(Cartridge { data, title, cartridge_type, rom_size, ram_size })
    }
}

/// Header byte 0x148: a value n from 0 to 8 stands for 2 << n ROM banks of
/// 16 KiB, that is 32 KiB << n; any other value stands for no ROM size.
pub proof fn lemma_rom_size_header(n: u8)
    ensures
        n <= 8 ==> (CartridgeRomSize::spec_from_u8(n) matches Some(size) && size.spec_banks() == 2
            * pow2(n as nat) && size.spec_as_usize() == 0x8000 * pow2(n as nat)),
        n > 8 ==> CartridgeRomSize::spec_from_u8(n) is None,
{
    lemma2_to64();
}

/// Header byte 0x149: no RAM, 2 KiB, 8 KiB, 32 KiB (four 8 KiB banks),
/// 128 KiB (sixteen banks) or 64 KiB (eight banks) for the values 0 to 5;
/// any other value stands for no RAM size.
pub proof fn lemma_ram_size_header(n: u8)
    ensures
        n == 0 ==> (CartridgeRamSize::spec_from_u8(n) matches Some(size) && size.spec_as_usize() == 0),
        n == 1 ==> (CartridgeRamSize::spec_from_u8(n) matches Some(size) && size.spec_as_usize()
            == 2 * 1024),
        n == 2 ==> (CartridgeRamSize::spec_from_u8(n) matches Some(size) && size.spec_as_usize()
            == 8 * 1024),
        n == 3 ==> (CartridgeRamSize::spec_from_u8(n) matches Some(size) && size.spec_as_usize()
            == 4 * 8 * 1024),
        n == 4 ==> (CartridgeRamSize::spec_from_u8(n) matches Some(size) && size.spec_as_usize()
            == 16 * 8 * 1024),
        n == 5 ==> (CartridgeRamSize::spec_from_u8(n) matches Some(size) && size.spec_as_usize()
            == 64 * 1024),
        n > 5 ==> CartridgeRamSize::spec_from_u8(n) is None,
{
}

/// Header byte 0x147 by families: 0x01-0x03 is an MBC1 with RAM from 0x02
/// and a battery at 0x03; 0x05-0x06 an MBC2, with a battery at 0x06;
/// 0x0f-0x13 an MBC3, with the clock at 0x0f-0x10, RAM at 0x10 and from
/// 0x12, a battery at 0x0f, 0x10 and 0x13; 0x19-0x1e an MBC5, the last three
/// with rumble, each group of three being no RAM, RAM, RAM with battery.
pub proof fn lemma_cartridge_type_families(n: u8)
    ensures
        1 <= n <= 3 ==> CartridgeType::spec_from_u8(n) == Some(
            CartridgeType::Mbc1 { ram: n >= 2, battery: n == 3, multicart: false },
        ),
        5 <= n <= 6 ==> CartridgeType::spec_from_u8(n) == Some(CartridgeType::Mbc2 { battery: n == 6 }),
        0x0f <= n <= 0x13 ==> CartridgeType::spec_from_u8(n) == Some(
            CartridgeType::Mbc3 {
                ram: n == 0x10 || n >= 0x12,
                battery: n <= 0x10 || n == 0x13,
                rtc: n <= 0x10,
            },
        ),
        0x19 <= n <= 0x1e ==> CartridgeType::spec_from_u8(n) == Some(
            CartridgeType::Mbc5 {
                ram: (n - 0x19) % 3 != 0,
                battery: (n - 0x19) % 3 == 2,
                rumble: n >= 0x1c,
            },
        ),
{
}

} // verus!
