//! The CPU register file.
use vstd::prelude::*;

verus! {

/// The flag register F. Only its upper four bits exist; the lower four always
/// read as zero.
#[derive(Clone, Copy, Debug, PartialEq, Eq, Structural)]
pub struct Flags {
    pub zero: bool,
    pub add_subtract: bool,
    pub half_carry: bool,
    pub carry: bool,
}

impl Flags {
    /// Bit of F that holds the zero flag.
    pub const ZERO: u8 = 0b_1000_0000;
    /// Bit of F that holds the add/subtract flag.
    pub const ADD_SUBTRACT: u8 = 0b_0100_0000;
    /// Bit of F that holds the half carry flag.
    pub const HALF_CARRY: u8 = 0b_0010_0000;
    /// Bit of F that holds the carry flag.
    pub const CARRY: u8 = 0b_0001_0000;

    /// The flags with the given four bits.
    pub open spec fn spec_new(z: bool, n: bool, h: bool, c: bool) -> Flags {
        Flags { zero: z, add_subtract: n, half_carry: h, carry: c }
    }

    /// The register value of the flags.
    pub open spec fn spec_bits(self) -> u8 {
        ((if self.zero { Flags::ZERO as int } else { 0 }) + (if self.add_subtract {
            Flags::ADD_SUBTRACT as int
        } else {
            0
        }) + (if self.half_carry { Flags::HALF_CARRY as int } else { 0 }) + (if self.carry {
            Flags::CARRY as int
        } else {
            0
        })) as u8
    }

    /// The flags that the register value `value` sets; its low four bits are dropped.
    pub open spec fn spec_from_bits_truncate(value: u8) -> Flags {
        Flags {
            zero: value & Flags::ZERO != 0,
            add_subtract: value & Flags::ADD_SUBTRACT != 0,
            half_carry: value & Flags::HALF_CARRY != 0,
            carry: value & Flags::CARRY != 0,
        }
    }

    pub fn empty() -> (r: Flags)
        ensures
            r == Flags::spec_new(false, false, false, false),
    {
        Flags { zero: false, add_subtract: false, half_carry: false, carry: false }
    }

    pub fn bits(&self) -> (r: u8)
        ensures
            r == self.spec_bits(),
    {
        (if self.zero { Flags::ZERO } else { 0 }) + (if self.add_subtract {
            Flags::ADD_SUBTRACT
        } else {
            0
        }) + (if self.half_carry { Flags::HALF_CARRY } else { 0 }) + (if self.carry {
            Flags::CARRY
        } else {
            0
        })
    }

    pub fn from_bits_truncate(value: u8) -> (r: Flags)
        ensures
            r == Flags::spec_from_bits_truncate(value),
    {
        Flags {
            zero: value & Flags::ZERO != 0,
            add_subtract: value & Flags::ADD_SUBTRACT != 0,
            half_carry: value & Flags::HALF_CARRY != 0,
            carry: value & Flags::CARRY != 0,
        }
    }

    /// Returns these flags if `test` holds, and no flags otherwise.
    pub fn test(&self, test: bool) -> (r: Flags)
        ensures
            r == (if test { *self } else { Flags::spec_new(false, false, false, false) }),
    {
        if test {
            *self
        } else {
            Flags::empty()
        }
    }

    /// The flags set in either operand.
    pub fn union(self, other: Flags) -> (r: Flags)
        ensures
            r == Flags::spec_new(
                self.zero || other.zero,
                self.add_subtract || other.add_subtract,
                self.half_carry || other.half_carry,
                self.carry || other.carry,
            ),
    {
        Flags {
            zero: self.zero || other.zero,
            add_subtract: self.add_subtract || other.add_subtract,
            half_carry: self.half_carry || other.half_carry,
            carry: self.carry || other.carry,
        }
    }

    /// Every flag of `other` is set in `self`.
    pub fn contains(&self, other: Flags) -> (r: bool)
        ensures
            r == ((other.zero ==> self.zero) && (other.add_subtract ==> self.add_subtract) && (
            other.half_carry ==> self.half_carry) && (other.carry ==> self.carry)),
    {
        (!other.zero || self.zero) && (!other.add_subtract || self.add_subtract) && (
        !other.half_carry || self.half_carry) && (!other.carry || self.carry)
    }

    pub fn is_empty(&self) -> (r: bool)
        ensures
            r == (*self == Flags::spec_new(false, false, false, false)),
    {
        !self.zero && !self.add_subtract && !self.half_carry && !self.carry
    }
}

/// Reading back the register value of flags built from `value` gives `value`
/// with its four unused low bits cleared.
pub proof fn lemma_flags_bits_roundtrip(value: u8)
    ensures
        Flags::spec_from_bits_truncate(value).spec_bits() == value & 0xf0,
        Flags::spec_from_bits_truncate(Flags::spec_from_bits_truncate(value).spec_bits())
            == Flags::spec_from_bits_truncate(value),
{
    let f = Flags::spec_from_bits_truncate(value);
    let z = value & 0x80 != 0;
    let n = value & 0x40 != 0;
    let h = value & 0x20 != 0;
    let c = value & 0x10 != 0;
    assert(((if z { 0x80int } else { 0 }) + (if n { 0x40int } else { 0 }) + (if h {
        0x20int
    } else {
        0
    }) + (if c { 0x10int } else { 0 })) == (value & 0xf0) as int) by (bit_vector)
        requires
            z == (value & 0x80 != 0),
            n == (value & 0x40 != 0),
            h == (value & 0x20 != 0),
            c == (value & 0x10 != 0),
    ;
    let b = f.spec_bits();
    assert((b & 0x80 != 0) == (value & 0x80 != 0) && (b & 0x40 != 0) == (value & 0x40 != 0) && (b
        & 0x20 != 0) == (value & 0x20 != 0) && (b & 0x10 != 0) == (value & 0x10 != 0))
        by (bit_vector)
        requires
            b == (value & 0xf0),
    ;
}

/// The 16-bit word with high byte `hi` and low byte `lo`.
pub open spec fn word(hi: u8, lo: u8) -> u16 {
    (hi as int * 256 + lo as int) as u16
}

/// The high byte of a 16-bit word.
pub open spec fn hi_byte(v: u16) -> u8 {
    (v as int / 256) as u8
}

/// The low byte of a 16-bit word.
pub open spec fn lo_byte(v: u16) -> u8 {
    (v as int % 256) as u8
}

/// Shifts and masks on 16-bit words compute their bytes.
pub proof fn lemma_word_bytes(hi: u8, lo: u8, v: u16)
    by (bit_vector)
    ensures
        (((hi as u16) << 8u16) | (lo as u16)) == (hi as u16) * 256 + (lo as u16),
        (hi as u16) * 256 + (lo as u16) <= 0xffff,
        ((v >> 8u16) as u8) == v / 256,
        (v as u8) == v % 256,
        (v & 0xfff0) == (v / 256) * 256 + (((v % 256) as u8) & 0xf0) as u16,
{
}

/// The 8-bit registers.
#[derive(Clone, Copy, Debug, PartialEq, Eq, Structural)]
pub enum Reg8 {
    A,
    B,
    C,
    D,
    E,
    H,
    L,
}

/// The 16-bit register pairs.
#[derive(Clone, Copy, Debug, PartialEq, Eq, Structural)]
pub enum Reg16 {
    AF,
    BC,
    DE,
    HL,
    SP,
}

/// The register file of the CPU.
#[derive(Clone, Copy, Debug, PartialEq, Eq, Structural)]
pub struct Registers {
    pub pc: u16,
    pub sp: u16,
    pub a: u8,
    pub f: Flags,
    pub b: u8,
    pub c: u8,
    pub d: u8,
    pub e: u8,
    pub h: u8,
    pub l: u8,
}

/// The register file as the machine hands it out.
pub type RegisterFile = Registers;

impl Registers {
    /// The value of an 8-bit register.
    pub open spec fn get8(self, reg: Reg8) -> u8 {
        match reg {
            Reg8::A => self.a,
            Reg8::B => self.b,
            Reg8::C => self.c,
            Reg8::D => self.d,
            Reg8::E => self.e,
            Reg8::H => self.h,
            Reg8::L => self.l,
        }
    }

    /// The register file with an 8-bit register replaced.
    pub open spec fn set8(self, reg: Reg8, v: u8) -> Registers {
        match reg {
            Reg8::A => Registers { a: v, ..self },
            Reg8::B => Registers { b: v, ..self },
            Reg8::C => Registers { c: v, ..self },
            Reg8::D => Registers { d: v, ..self },
            Reg8::E => Registers { e: v, ..self },
            Reg8::H => Registers { h: v, ..self },
            Reg8::L => Registers { l: v, ..self },
        }
    }

    /// The value of a 16-bit register pair.
    pub open spec fn get16(self, reg: Reg16) -> u16 {
        match reg {
            Reg16::AF => word(self.a, self.f.spec_bits()),
            Reg16::BC => word(self.b, self.c),
            Reg16::DE => word(self.d, self.e),
            Reg16::HL => word(self.h, self.l),
            Reg16::SP => self.sp,
        }
    }

    /// The register file with a 16-bit register pair replaced. Writing AF keeps
    /// only the four flag bits of the low byte.
    pub open spec fn set16(self, reg: Reg16, v: u16) -> Registers {
        match reg {
            Reg16::AF => Registers {
                a: hi_byte(v),
                f: Flags::spec_from_bits_truncate(lo_byte(v)),
                ..self
            },
            Reg16::BC => Registers { b: hi_byte(v), c: lo_byte(v), ..self },
            Reg16::DE => Registers { d: hi_byte(v), e: lo_byte(v), ..self },
            Reg16::HL => Registers { h: hi_byte(v), l: lo_byte(v), ..self },
            Reg16::SP => Registers { sp: v, ..self },
        }
    }

    /// The register file with the four flags replaced.
    pub open spec fn with_flags(self, z: bool, n: bool, h: bool, c: bool) -> Registers {
        Registers { f: Flags::spec_new(z, n, h, c), ..self }
    }

    /// All registers zero.
    pub open spec fn initial() -> Registers {
        Registers {
            pc: 0,
            sp: 0,
            a: 0,
            f: Flags::spec_new(false, false, false, false),
            b: 0,
            c: 0,
            d: 0,
            e: 0,
            h: 0,
            l: 0,
        }
    }

    pub fn new() -> (r: Registers)
        ensures
            r == Registers::initial(),
    {
        Registers {
            pc: 0,
            sp: 0,
            a: 0,
            f: Flags::empty(),
            b: 0,
            c: 0,
            d: 0,
            e: 0,
            h: 0,
            l: 0,
        }
    }

    pub fn read8(&self, reg: Reg8) -> (r: u8)
        ensures
            r == self.get8(reg),
    {
        match reg {
            Reg8::A => self.a,
            Reg8::B => self.b,
            Reg8::C => self.c,
            Reg8::D => self.d,
            Reg8::E => self.e,
            Reg8::H => self.h,
            Reg8::L => self.l,
        }
    }

    pub fn write8(&mut self, reg: Reg8, value: u8)
        ensures
            *final(self) == old(self).set8(reg, value),
    {
        match reg {
            Reg8::A => self.a = value,
            Reg8::B => self.b = value,
            Reg8::C => self.c = value,
            Reg8::D => self.d = value,
            Reg8::E => self.e = value,
            Reg8::H => self.h = value,
            Reg8::L => self.l = value,
        }
    }

    pub fn read16(&self, reg: Reg16) -> (r: u16)
        ensures
            r == self.get16(reg),
    {
        proof {
            lemma_word_bytes(self.a, self.f.spec_bits(), 0);
            lemma_word_bytes(self.b, self.c, 0);
            lemma_word_bytes(self.d, self.e, 0);
            lemma_word_bytes(self.h, self.l, 0);
        }
        match reg {
            Reg16::AF => ((self.a as u16) << 8) | (self.f.bits() as u16),
            Reg16::BC => ((self.b as u16) << 8) | (self.c as u16),
            Reg16::DE => ((self.d as u16) << 8) | (self.e as u16),
            Reg16::HL => ((self.h as u16) << 8) | (self.l as u16),
            Reg16::SP => self.sp,
        }
    }

    pub fn write16(&mut self, reg: Reg16, value: u16)
        ensures
            *final(self) == old(self).set16(reg, value),
    {
        proof {
            lemma_word_bytes(0, 0, value);
        }
        match reg {
            Reg16::AF => {
                self.a = (value >> 8) as u8;
                self.f = Flags::from_bits_truncate(value as u8)
            },
            Reg16::BC => {
                self.b = (value >> 8) as u8;
                self.c = value as u8
            },
            Reg16::DE => {
                self.d = (value >> 8) as u8;
                self.e = value as u8
            },
            Reg16::HL => {
                self.h = (value >> 8) as u8;
                self.l = value as u8
            },
            Reg16::SP => self.sp = value,
        }
    }

    pub fn zf(&self) -> (r: bool)
        ensures
            r == self.f.zero,
    {
        self.f.zero
    }

    pub fn nf(&self) -> (r: bool)
        ensures
            r == self.f.add_subtract,
    {
        self.f.add_subtract
    }

    pub fn hf(&self) -> (r: bool)
        ensures
            r == self.f.half_carry,
    {
        self.f.half_carry
    }

    pub fn cf(&self) -> (r: bool)
        ensures
            r == self.f.carry,
    {
        self.f.carry
    }

    pub fn set_zf(&mut self, value: bool)
        ensures
            *final(self) == (Registers { f: Flags { zero: value, ..old(self).f }, ..*old(self) }),
    {
        self.f.zero = value;
    }

    pub fn set_nf(&mut self, value: bool)
        ensures
            *final(self) == (Registers {
                f: Flags { add_subtract: value, ..old(self).f },
                ..*old(self)
            }),
    {
        self.f.add_subtract = value;
    }

    pub fn set_hf(&mut self, value: bool)
        ensures
            *final(self) == (Registers {
                f: Flags { half_carry: value, ..old(self).f },
                ..*old(self)
            }),
    {
        self.f.half_carry = value;
    }

    pub fn set_cf(&mut self, value: bool)
        ensures
            *final(self) == (Registers { f: Flags { carry: value, ..old(self).f }, ..*old(self) }),
    {
        self.f.carry = value;
    }
}

/// Writing a register pair and reading it back gives the written value, except
/// that AF loses the four unused low bits of F; no other register changes.
pub proof fn lemma_write16_read16(regs: Registers, reg: Reg16, v: u16)
    ensures
        regs.set16(reg, v).get16(reg) == (if reg == Reg16::AF { v & 0xfff0 } else { v }),
        forall|other: Reg16|
            other != reg ==> #[trigger] regs.set16(reg, v).get16(other) == regs.get16(other),
        regs.set16(reg, v).pc == regs.pc,
{
    lemma_word_bytes(hi_byte(v), lo_byte(v), v);
    lemma_flags_bits_roundtrip(lo_byte(v));
}

} // verus!
