//! What the arithmetic and logic unit computes, as spec functions.
use vstd::prelude::*;
use crate::cpu::registers::{Flags, Registers};
use crate::cpu::wrap8;

verus! {

/// 1 for a set carry, 0 otherwise.
pub open spec fn b2i(b: bool) -> int {
    if b {
        1
    } else {
        0
    }
}

/// `a + v + carry`, wrapped to 8 bits.
pub open spec fn add_result(a: u8, v: u8, cy: bool) -> u8 {
    wrap8(a + v + b2i(cy))
}

/// Flags of `a + v + carry`: zero, no subtraction, carry out of bit 3, carry
/// out of bit 7.
pub open spec fn add_flags(a: u8, v: u8, cy: bool) -> Flags {
    Flags::spec_new(
        add_result(a, v, cy) == 0,
        false,
        a % 16 + v % 16 + b2i(cy) > 15,
        a + v + b2i(cy) > 255,
    )
}

/// `a - v - carry`, wrapped to 8 bits.
pub open spec fn sub_result(a: u8, v: u8, cy: bool) -> u8 {
    wrap8(a - v - b2i(cy))
}

/// Flags of `a - v - carry`: zero, subtraction, borrow from bit 4, borrow.
pub open spec fn sub_flags(a: u8, v: u8, cy: bool) -> Flags {
    Flags::spec_new(sub_result(a, v, cy) == 0, true, a % 16 < v % 16 + b2i(cy), a < v + b2i(cy))
}

/// The operations on the accumulator that read one 8-bit source.
#[derive(Clone, Copy, Debug, PartialEq, Eq, Structural)]
pub enum AluOp {
    Add,
    Adc,
    Sub,
    Sbc,
    Cp,
    And,
    Or,
    Xor,
    /// BIT b: tests bit b of the source.
    Bit(u8),
}

/// The registers after an accumulator operation with source value `v`.
pub open spec fn alu8_regs(op: AluOp, r: Registers, v: u8) -> Registers {
    let a = r.a;
    let f = r.f;
    match op {
        AluOp::Add => Registers { a: add_result(a, v, false), f: add_flags(a, v, false), ..r },
        AluOp::Adc => Registers { a: add_result(a, v, f.carry), f: add_flags(a, v, f.carry), ..r },
        AluOp::Sub => Registers { a: sub_result(a, v, false), f: sub_flags(a, v, false), ..r },
        AluOp::Sbc => Registers { a: sub_result(a, v, f.carry), f: sub_flags(a, v, f.carry), ..r },
        AluOp::Cp => Registers { f: sub_flags(a, v, false), ..r },
        AluOp::And => Registers {
            a: a & v,
            f: Flags::spec_new(a & v == 0, false, true, false),
            ..r
        },
        AluOp::Or => Registers {
            a: a | v,
            f: Flags::spec_new(a | v == 0, false, false, false),
            ..r
        },
        AluOp::Xor => Registers {
            a: a ^ v,
            f: Flags::spec_new(a ^ v == 0, false, false, false),
            ..r
        },
        AluOp::Bit(b) => Registers {
            f: Flags::spec_new(v & (1u8 << b) == 0, false, true, f.carry),
            ..r
        },
    }
}

/// The read-modify-write operations on an 8-bit operand.
#[derive(Clone, Copy, Debug, PartialEq, Eq, Structural)]
pub enum RmwOp {
    Inc,
    Dec,
    Rlc,
    Rl,
    Rrc,
    Rr,
    Sla,
    Sra,
    Srl,
    Swap,
    /// SET b
    SetBit(u8),
    /// RES b
    ResBit(u8),
}

/// Rotate left, bit 7 to bit 0.
pub open spec fn rlc_result(v: u8) -> u8 {
    ((v % 128) * 2 + v / 128) as u8
}

/// Rotate left through the carry.
pub open spec fn rl_result(v: u8, cy: bool) -> u8 {
    ((v % 128) * 2 + b2i(cy)) as u8
}

/// Rotate right, bit 0 to bit 7.
pub open spec fn rrc_result(v: u8) -> u8 {
    (v / 2 + (v % 2) * 128) as u8
}

/// Rotate right through the carry.
pub open spec fn rr_result(v: u8, cy: bool) -> u8 {
    (v / 2 + b2i(cy) * 128) as u8
}

/// The new value of a read-modify-write operation.
pub open spec fn rmw_value(op: RmwOp, v: u8, f: Flags) -> u8 {
    match op {
        RmwOp::Inc => wrap8(v + 1),
        RmwOp::Dec => wrap8(v - 1),
        RmwOp::Rlc => rlc_result(v),
        RmwOp::Rl => rl_result(v, f.carry),
        RmwOp::Rrc => rrc_result(v),
        RmwOp::Rr => rr_result(v, f.carry),
        RmwOp::Sla => ((v % 128) * 2) as u8,
        RmwOp::Sra => (v / 2 + (if v >= 128 { 128int } else { 0 })) as u8,
        RmwOp::Srl => (v / 2) as u8,
        RmwOp::Swap => (v / 16 + (v % 16) * 16) as u8,
        RmwOp::SetBit(b) => v | (1u8 << b),
        RmwOp::ResBit(b) => v & !(1u8 << b),
    }
}

/// The flags after a read-modify-write operation.
pub open spec fn rmw_flags(op: RmwOp, v: u8, f: Flags) -> Flags {
    let r = rmw_value(op, v, f);
    match op {
        RmwOp::Inc => Flags::spec_new(r == 0, false, v % 16 == 15, f.carry),
        RmwOp::Dec => Flags::spec_new(r == 0, true, v % 16 == 0, f.carry),
        RmwOp::Rlc | RmwOp::Rl | RmwOp::Sla => Flags::spec_new(r == 0, false, false, v >= 128),
        RmwOp::Rrc | RmwOp::Rr | RmwOp::Sra | RmwOp::Srl => Flags::spec_new(
            r == 0,
            false,
            false,
            v % 2 == 1,
        ),
        RmwOp::Swap => Flags::spec_new(v == 0, false, false, false),
        RmwOp::SetBit(_) | RmwOp::ResBit(_) => f,
    }
}

/// DAA: the accumulator and carry after decimal adjustment, following the
/// table of the Game Boy Programming Manual.
pub open spec fn daa_result(a: u8, n: bool, h: bool, c: bool) -> (u8, bool) {
    if !n {
        let a1 = if c || a > 0x99 {
            wrap8(a + 0x60)
        } else {
            a
        };
        let a2 = if h || a1 % 16 > 9 {
            wrap8(a1 + 0x06)
        } else {
            a1
        };
        (a2, c || a > 0x99)
    } else if c {
        (wrap8(a + (if h { 0x9aint } else { 0xa0int })), true)
    } else if h {
        (wrap8(a + 0xfa), false)
    } else {
        (a, false)
    }
}

/// Sign extension of a relative jump offset.
pub open spec fn sext(e: u8) -> int {
    if e < 128 {
        e as int
    } else {
        e - 256
    }
}

/// Both nibbles of `x` are decimal digits.
pub open spec fn is_bcd(x: u8) -> bool {
    x / 16 <= 9 && x % 16 <= 9
}

/// The number that the BCD byte `x` stands for.
pub open spec fn bcd_value(x: u8) -> int {
    (x / 16) * 10 + x % 16
}

/// The BCD byte of a number from 0 to 99.
pub open spec fn bcd_byte(v: int) -> u8 {
    ((v / 10) * 16 + v % 10) as u8
}

/// DAA after an addition of two BCD bytes (ADD A, then DAA): A becomes the
/// BCD digits of the decimal sum modulo 100, and the carry says whether the
/// sum reached 100. The input is what the addition left: A = x + y wrapped
/// to a byte, H the carry out of the low nibble, C the carry out of the
/// byte.
pub proof fn lemma_daa_after_add(x: u8, y: u8)
    requires
        is_bcd(x),
        is_bcd(y),
    ensures
        daa_result(((x + y) % 256) as u8, false, x % 16 + y % 16 > 15, x + y > 255) == (
            bcd_byte((bcd_value(x) + bcd_value(y)) % 100),
            bcd_value(x) + bcd_value(y) >= 100,
        ),
{
    lemma_daa_add_bits(x, y);
}

/// DAA after a subtraction of two BCD bytes (SUB, then DAA): A becomes the
/// BCD digits of the decimal difference modulo 100, and the carry says
/// whether a borrow was needed. The input is what the subtraction left:
/// A = x - y wrapped to a byte, N set, H the borrow into the low nibble, C
/// the borrow out of the byte.
pub proof fn lemma_daa_after_sub(x: u8, y: u8)
    requires
        is_bcd(x),
        is_bcd(y),
    ensures
        daa_result(((x + 256 - y) % 256) as u8, true, x % 16 < y % 16, x < y) == (
            bcd_byte((bcd_value(x) + 100 - bcd_value(y)) % 100),
            x < y,
        ),
{
    let (hx, lx, hy, ly) = ((x / 16) as int, (x % 16) as int, (y / 16) as int, (y % 16) as int);
    assert(x == 16 * hx + lx && y == 16 * hy + ly);
    let v = bcd_value(x) + 100 - bcd_value(y);
    assert(v == 10 * (hx - hy) + (lx - ly) + 100);
    // The tens and ones of the decimal difference, and the byte DAA leaves.
    let (tens, ones, byte) = if x >= y {
        if lx >= ly {
            (hx - hy, lx - ly, x - y)
        } else {
            (hx - hy - 1, 10 + lx - ly, x - y - 6)
        }
    } else if lx >= ly {
        (10 + hx - hy, lx - ly, x - y + 160)
    } else {
        (9 + hx - hy, 10 + lx - ly, x - y + 154)
    };
    assert(0 <= tens < 10 && 0 <= ones < 10);
    assert(v % 100 == 10 * tens + ones) by {
        if x >= y {
            vstd::arithmetic::div_mod::lemma_fundamental_div_mod_converse(v, 100, 1, v - 100);
        } else {
            vstd::arithmetic::div_mod::lemma_fundamental_div_mod_converse(v, 100, 0, v);
        }
    }
    vstd::arithmetic::div_mod::lemma_fundamental_div_mod_converse(v % 100, 10, tens, ones);
    assert(bcd_byte(v % 100) == byte);
    let a = x + 256 - y;
    if x >= y {
        vstd::arithmetic::div_mod::lemma_fundamental_div_mod_converse(a, 256, 1, x - y);
    } else {
        vstd::arithmetic::div_mod::lemma_fundamental_div_mod_converse(a, 256, 0, a);
    }
    let a8 = (a % 256) as u8;
    if x < y && lx < ly {
        vstd::arithmetic::div_mod::lemma_fundamental_div_mod_converse(a8 + 0x9a, 256, 1, byte);
    } else if x < y {
        vstd::arithmetic::div_mod::lemma_fundamental_div_mod_converse(a8 + 0xa0, 256, 1, byte);
    } else if lx < ly {
        vstd::arithmetic::div_mod::lemma_fundamental_div_mod_converse(a8 + 0xfa, 256, 1, byte);
    }
}

proof fn lemma_daa_add_bits(x: u8, y: u8)
    by (bit_vector)
    requires
        x / 16 <= 9 && x % 16 <= 9,
        y / 16 <= 9 && y % 16 <= 9,
    ensures
        daa_result(((x as u16 + y as u16) % 256) as u8, false, x % 16 + y % 16 > 15, x as u16
            + y as u16 > 255).0 == ((((x / 16) * 10 + x % 16 + (y / 16) * 10 + y % 16) % 100) / 10
            * 16 + (((x / 16) * 10 + x % 16 + (y / 16) * 10 + y % 16) % 100) % 10) as u8,
        daa_result(((x as u16 + y as u16) % 256) as u8, false, x % 16 + y % 16 > 15, x as u16
            + y as u16 > 255).1 == ((x / 16) * 10 + x % 16 + (y / 16) * 10 + y % 16 >= 100),
{
}

/// Addition and subtraction with carry: the result and the carry flag
/// together hold the whole sum `a + v + carry` (the carry worth 256), the
/// result and the borrow flag the whole difference, and subtracting what was
/// added, with the same carry, gives back `a`.
pub proof fn lemma_add_sub_carry(a: u8, v: u8, cy: bool)
    ensures
        add_result(a, v, cy) + 256 * b2i(add_flags(a, v, cy).carry) == a + v + b2i(cy),
        sub_result(a, v, cy) - 256 * b2i(sub_flags(a, v, cy).carry) == a - v - b2i(cy),
        add_flags(a, v, cy).zero == (add_result(a, v, cy) == 0),
        sub_flags(a, v, cy).zero == (sub_result(a, v, cy) == 0),
        sub_result(add_result(a, v, cy), v, cy) == a,
        add_result(sub_result(a, v, cy), v, cy) == a,
{
}

/// The rotates: rotating left then right (each through the carry that the
/// other leaves, or without it) gives the value back; the bit shifted out
/// is the carry; a swap of nibbles undone by a second swap gives the value
/// back.
pub proof fn lemma_rotate_round_trips(v: u8, cy: bool)
    ensures
        rrc_result(rlc_result(v)) == v,
        rlc_result(rrc_result(v)) == v,
        rr_result(rl_result(v, cy), v >= 128) == v,
        rl_result(rr_result(v, cy), v % 2 == 1) == v,
        rlc_result(v) % 2 == (if v >= 128 { 1int } else { 0 }),
        rrc_result(v) >= 128 <==> v % 2 == 1,
        rmw_value(RmwOp::Swap, rmw_value(RmwOp::Swap, v, Flags::spec_new(false, false, false, cy)), Flags::spec_new(false, false, false, cy)) == v,
        rmw_value(RmwOp::Sla, v, Flags::spec_new(false, false, false, cy)) == (2 * v) % 256,
        rmw_value(RmwOp::Srl, v, Flags::spec_new(false, false, false, cy)) == v / 2,
{
    let f = Flags::spec_new(false, false, false, cy);
    let (h, l) = (v / 128, v % 128);
    let (q, r) = (v / 2, v % 2);
    let c = b2i(cy);
    assert(v == 128 * h + l && v == 2 * q + r);
    assert(0 <= h <= 1 && 0 <= r <= 1);
    // Left rotates put the shifted bits above bit 0.
    let x = 2 * l + h;
    let y = 2 * l + c;
    assert(x / 2 == l && x % 2 == h) by (nonlinear_arith)
        requires
            x == 2 * l + h,
            0 <= h <= 1,
            0 <= l < 128,
    ;
    assert(y / 2 == l && y % 2 == c) by (nonlinear_arith)
        requires
            y == 2 * l + c,
            0 <= c <= 1,
            0 <= l < 128,
    ;
    assert(rlc_result(v) == x && rl_result(v, cy) == y);
    // Right rotates put the shifted bit on top.
    let z = q + 128 * r;
    let w = q + 128 * c;
    assert(z % 128 == q && z / 128 == r) by (nonlinear_arith)
        requires
            z == q + 128 * r,
            0 <= r <= 1,
            0 <= q < 128,
    ;
    assert(w % 128 == q) by (nonlinear_arith)
        requires
            w == q + 128 * c,
            0 <= c <= 1,
            0 <= q < 128,
    ;
    assert(rrc_result(v) == z && rr_result(v, cy) == w);
    let (hi, lo) = (v / 16, v % 16);
    let swapped = lo * 16 + hi;
    assert(swapped / 16 == lo && swapped % 16 == hi) by (nonlinear_arith)
        requires
            swapped == lo * 16 + hi,
            0 <= hi < 16,
            0 <= lo < 16,
    ;
    assert(rmw_value(RmwOp::Swap, v, f) == swapped);
}

/// SET b sets bit b and no other; RES b clears bit b and no other; BIT b
/// then reports the bit: Z is clear after SET b and set after RES b.
pub proof fn lemma_set_res_bit(v: u8, b: u8, j: u8, r: Registers)
    requires
        b < 8,
        j < 8,
    ensures
        ({
            let f = r.f;
            let set = rmw_value(RmwOp::SetBit(b), v, f);
            let res = rmw_value(RmwOp::ResBit(b), v, f);
            &&& (set >> b) & 1 == 1
            &&& (res >> b) & 1 == 0
            &&& j != b ==> (set >> j) & 1 == (v >> j) & 1 && (res >> j) & 1 == (v >> j) & 1
            &&& !alu8_regs(AluOp::Bit(b), r, set).f.zero
            &&& alu8_regs(AluOp::Bit(b), r, res).f.zero
        }),
{
    lemma_bit_ops(v, b, j);
}

proof fn lemma_bit_ops(v: u8, b: u8, j: u8)
    by (bit_vector)
    requires
        b < 8,
        j < 8,
    ensures
        ((v | (1u8 << b)) >> b) & 1 == 1,
        ((v & !(1u8 << b)) >> b) & 1 == 0,
        j != b ==> ((v | (1u8 << b)) >> j) & 1 == (v >> j) & 1,
        j != b ==> ((v & !(1u8 << b)) >> j) & 1 == (v >> j) & 1,
        (v | (1u8 << b)) & (1u8 << b) != 0,
        (v & !(1u8 << b)) & (1u8 << b) == 0,
{
}

/// INC and DEC undo each other; INC sets H exactly when the low nibble of
/// the result wraps to 0, DEC exactly when it wraps to 0xF; neither touches
/// the carry.
pub proof fn lemma_inc_dec(v: u8, f: Flags)
    ensures
        rmw_value(RmwOp::Dec, rmw_value(RmwOp::Inc, v, f), f) == v,
        rmw_value(RmwOp::Inc, rmw_value(RmwOp::Dec, v, f), f) == v,
        rmw_value(RmwOp::Inc, v, f) == (v + 1) % 256,
        rmw_flags(RmwOp::Inc, v, f).half_carry == (rmw_value(RmwOp::Inc, v, f) % 16 == 0),
        rmw_flags(RmwOp::Dec, v, f).half_carry == (rmw_value(RmwOp::Dec, v, f) % 16 == 15),
        rmw_flags(RmwOp::Inc, v, f).carry == f.carry,
        rmw_flags(RmwOp::Dec, v, f).carry == f.carry,
        !rmw_flags(RmwOp::Inc, v, f).add_subtract,
        rmw_flags(RmwOp::Dec, v, f).add_subtract,
{
}

/// A relative jump offset is the signed byte: it lies in -128..127 and
/// wraps back to the byte it came from.
pub proof fn lemma_sext(e: u8)
    ensures
        -128 <= sext(e) < 128,
        (sext(e) + 256) % 256 == e,
        e < 128 ==> sext(e) == e,
{
}

/// The conditions of jumps, calls and returns read the flags register F:
/// Z and NZ its bit 7, C and NC its bit 4, each the negation of the other.
pub proof fn lemma_conditions(f: u8)
    ensures
        crate::cpu::Cond::Z.holds(Flags::spec_from_bits_truncate(f)) == (f & 0x80 != 0),
        crate::cpu::Cond::NZ.holds(Flags::spec_from_bits_truncate(f)) == (f & 0x80 == 0),
        crate::cpu::Cond::C.holds(Flags::spec_from_bits_truncate(f)) == (f & 0x10 != 0),
        crate::cpu::Cond::NC.holds(Flags::spec_from_bits_truncate(f)) == (f & 0x10 == 0),
{
}

} // verus!
