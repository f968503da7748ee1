//! Properties of the bit helpers on integers.
use mooneye_gb::util::IntExt;
use quickcheck::quickcheck;

fn check_isolate_rightmost_one_u8(x: u8) -> bool {
    let y = x.isolate_rightmost_one();
    if x == 0 {
        y == 0
    } else {
        let mut value = x;
        let mut expected: u8 = 1;
        while !value.bit_bool(0) {
            value = value >> 1;
            expected = expected << 1;
        }
        y == expected
    }
}

fn check_isolate_rightmost_one_u16(x: u16) -> bool {
    let y = x.isolate_rightmost_one();
    if x == 0 {
        y == 0
    } else {
        let mut value = x;
        let mut expected: u16 = 1;
        while !value.bit_bool(0) {
            value = value >> 1;
            expected = expected << 1;
        }
        y == expected
    }
}

#[test]
fn test_u8_isolate_rightmost_one() {
    quickcheck(check_isolate_rightmost_one_u8 as fn(u8) -> bool);
}

#[test]
fn test_u16_isolate_rightmost_one() {
    quickcheck(check_isolate_rightmost_one_u16 as fn(u16) -> bool);
}

#[test]
fn isolate_rightmost_one_examples() {
    assert_eq!(0b1010_1000u8.isolate_rightmost_one(), 0b0000_1000);
    assert_eq!(0u8.isolate_rightmost_one(), 0);
    assert_eq!(0x8000u16.isolate_rightmost_one(), 0x8000);
}

#[test]
fn activate_rightmost_zeros_examples() {
    assert_eq!(0b1010_1000u8.activate_rightmost_zeros(), 0b1010_1111);
    assert_eq!(0u8.activate_rightmost_zeros(), 0xff);
    assert_eq!(0x0100u16.activate_rightmost_zeros(), 0x01ff);
}

#[test]
fn test_add_carry_bit_examples() {
    assert!(u8::test_add_carry_bit(3, 0x0f, 0x01));
    assert!(!u8::test_add_carry_bit(3, 0x0e, 0x01));
    assert!(u16::test_add_carry_bit(11, 0x0fff, 0x0001));
    assert!(!u16::test_add_carry_bit(11, 0x0ffe, 0x0001));
}
