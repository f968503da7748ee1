//! Bit manipulation helpers on the unsigned integer types used by the emulator.
use vstd::prelude::*;

verus! {

/// `r` is the rightmost set bit of `x` (or zero when `x` is zero).
pub open spec fn is_rightmost_one_u8(x: u8, r: u8) -> bool {
    &&& (x == 0 ==> r == 0)
    &&& (x != 0 ==> r != 0 && r & ((r - 1) as u8) == 0 && x & r == r && x & ((r - 1) as u8) == 0)
}

/// `r` is the rightmost set bit of `x` (or zero when `x` is zero).
pub open spec fn is_rightmost_one_u16(x: u16, r: u16) -> bool {
    &&& (x == 0 ==> r == 0)
    &&& (x != 0 ==> r != 0 && r & ((r - 1) as u16) == 0 && x & r == r && x & ((r - 1) as u16) == 0)
}

/// Adding `a` and `b` carries out of bit `bit` into bit `bit + 1`: that bit of
/// the sum differs from the exclusive or of the operands' bits.
pub open spec fn carry_from_bit_u8(bit: u8, a: u8, b: u8) -> bool {
    let sum: u16 = ((a as u16) + (b as u16)) as u16;
    (sum ^ (a as u16) ^ (b as u16)) & (1u16 << ((bit + 1) as u16)) != 0
}

/// Adding `a` and `b` carries out of bit `bit` into bit `bit + 1`: that bit of
/// the sum differs from the exclusive or of the operands' bits.
pub open spec fn carry_from_bit_u16(bit: u16, a: u16, b: u16) -> bool {
    let sum: u32 = ((a as u32) + (b as u32)) as u32;
    (sum ^ (a as u32) ^ (b as u32)) & (1u32 << ((bit + 1) as u32)) != 0
}

/// Bit helpers of Hacker's Delight, 2nd ed, 2-1 "Manipulating Rightmost Bits".
pub trait IntExt: Sized {
    /// Number of bits in the type.
    spec fn bit_width() -> nat;

    /// Isolates the rightmost 1-bit leaving all other bits as 0
    /// e.g. 1010 1000 -> 0000 1000
    ///
    /// Equivalent to Intel BMI1 instruction BLSI
    fn isolate_rightmost_one(self) -> Self;

    /// Returns the specified bit as 0 or 1
    fn bit(self, bit: usize) -> Self
        requires
            bit < Self::bit_width(),
    ;

    /// Returns the specified bit as boolean
    fn bit_bool(self, bit: usize) -> bool
        requires
            bit < Self::bit_width(),
    ;

    /// Sets all rightmost 0-bits to 1
    /// e.g. 1010 1000 -> 1010 1111
    ///
    /// Equivalent to Intel BMI1 instruction BLSMSK
    fn activate_rightmost_zeros(self) -> Self;

    /// Tests if addition results in a carry from the specified bit.
    /// Does not support overflow, so cannot be used to check carry from the leftmost bit
    fn test_add_carry_bit(bit: usize, a: Self, b: Self) -> bool
        requires
            bit + 1 < Self::bit_width(),
    ;
}

impl IntExt for u8 {
    open spec fn bit_width() -> nat {
        8
    }

    fn isolate_rightmost_one(self) -> (r: u8)
        ensures
            r == self & ((!self + 1) as u8),
            is_rightmost_one_u8(self, r),
    {
        let x = self;
        // Unsigned negation: -x == !x + 1
        let minus_x = (!x).wrapping_add(1);
        assert(is_rightmost_one_u8(x, x & minus_x) && minus_x == ((!x + 1) as u8)) by (bit_vector)
            requires
                minus_x == (if !x == 255u8 { 0u8 } else { (!x + 1) as u8 }),
        ;
        x & minus_x
    }

    fn bit(self, bit: usize) -> (r: u8)
        ensures
            r == (self >> bit) & 1,
            r == 1 <==> self & (1u8 << bit) != 0,
            r == 0 || r == 1,
    {
        let r = (self >> bit) & 1;
        let b = bit as u8;
        assert((((self >> b) & 1) == 1 <==> self & (1u8 << b) != 0)
            && (((self >> b) & 1) == 0 || ((self >> b) & 1) == 1)) by (bit_vector)
            requires b < 8;
        r
    }

    fn bit_bool(self, bit: usize) -> (r: bool)
        ensures
            r == (self & (1u8 << bit) != 0),
    {
        self.bit(bit) != 0
    }

    fn activate_rightmost_zeros(self) -> (r: u8)
        ensures
            r == self | ((self - 1) as u8),
    {
        let x = self;
        let w = x.wrapping_sub(1);
        assert(w == ((x - 1) as u8)) by (bit_vector)
            requires w == (if x == 0 { 255u8 } else { (x - 1) as u8 });
        x | w
    }

    fn test_add_carry_bit(bit: usize, a: u8, b: u8) -> (r: bool)
        ensures
            r == carry_from_bit_u8(bit as u8, a, b),
    {
        // Create a mask that includes the specified bit and 1-bits on the right side
        // e.g. for u8:
        //   bit=0 -> 0000 0001
        //   bit=3 -> 0000 1111
        //   bit=6 -> 0111 1111
        let mask = (1u8 << bit).activate_rightmost_zeros();
        let k = bit as u8;
        assert(((a & mask) as u16) + ((b & mask) as u16) <= 255
            && ((((a & mask) + (b & mask)) as u8 > mask) == carry_from_bit_u8(k, a, b))) by (bit_vector)
            requires k < 7, mask == ((1u8 << k) | (((1u8 << k) - 1) as u8));
        let r = (a & mask) + (b & mask) > mask;
        r
    }
}


impl IntExt for u16 {
    open spec fn bit_width() -> nat {
        16
    }

    fn isolate_rightmost_one(self) -> (r: u16)
        ensures
            r == self & ((!self + 1) as u16),
            is_rightmost_one_u16(self, r),
    {
        let x = self;
        // Unsigned negation: -x == !x + 1
        let minus_x = (!x).wrapping_add(1);
        assert(is_rightmost_one_u16(x, x & minus_x) && minus_x == ((!x + 1) as u16)) by (bit_vector)
            requires
                minus_x == (if !x == 65535u16 { 0u16 } else { (!x + 1) as u16 }),
        ;
        x & minus_x
    }

    fn bit(self, bit: usize) -> (r: u16)
        ensures
            r == (self >> bit) & 1,
            r == 1 <==> self & (1u16 << bit) != 0,
            r == 0 || r == 1,
    {
        let r = (self >> bit) & 1;
        let b = bit as u16;
        assert((((self >> b) & 1) == 1 <==> self & (1u16 << b) != 0)
            && (((self >> b) & 1) == 0 || ((self >> b) & 1) == 1)) by (bit_vector)
            requires b < 16;
        r
    }

    fn bit_bool(self, bit: usize) -> (r: bool)
        ensures
            r == (self & (1u16 << bit) != 0),
    {
        self.bit(bit) != 0
    }

    fn activate_rightmost_zeros(self) -> (r: u16)
        ensures
            r == self | ((self - 1) as u16),
    {
        let x = self;
        let w = x.wrapping_sub(1);
        assert(w == ((x - 1) as u16)) by (bit_vector)
            requires w == (if x == 0 { 65535u16 } else { (x - 1) as u16 });
        x | w
    }

    fn test_add_carry_bit(bit: usize, a: u16, b: u16) -> (r: bool)
        ensures
            r == carry_from_bit_u16(bit as u16, a, b),
    {
        // Create a mask that includes the specified bit and 1-bits on the right side
        // e.g. for u16:
        //   bit=0 -> 0000 0001
        //   bit=3 -> 0000 1111
        //   bit=6 -> 0111 1111
        let mask = (1u16 << bit).activate_rightmost_zeros();
        let k = bit as u16;
        assert(((a & mask) as u32) + ((b & mask) as u32) <= 65535
            && ((((a & mask) + (b & mask)) as u16 > mask) == carry_from_bit_u16(k, a, b))) by (bit_vector)
            requires k < 15, mask == ((1u16 << k) | (((1u16 << k) - 1) as u16));
        let r = (a & mask) + (b & mask) > mask;
        r
    }
}

/// `x & m` never exceeds `m`: masking keeps an index in bounds.
pub proof fn lemma_and_le_usize(x: usize, m: usize)
    by (bit_vector)
    ensures
        x & m <= m,
{
}

} // verus!
