//! Register files and small registers: flags, 16-bit pairs, emulated time,
//! the serial port.
use mooneye_gb::cpu::registers::{Flags, Reg16, Registers};
use mooneye_gb::emulation::EmuTime;
use mooneye_gb::hardware::serial::Serial;

#[test]
fn flags_keep_only_the_upper_nibble() {
    assert_eq!(Flags::from_bits_truncate(0xff).bits(), 0xf0);
    assert_eq!(Flags::from_bits_truncate(0x0f).bits(), 0x00);
    assert_eq!(Flags::from_bits_truncate(0xa0).bits(), 0xa0);
    assert!(Flags::from_bits_truncate(Flags::ZERO | Flags::CARRY)
        .contains(Flags::from_bits_truncate(Flags::CARRY)));
    assert!(Flags::empty().is_empty());
}

#[test]
fn register_pairs_read_back() {
    let mut regs = Registers::new();
    regs.write16(Reg16::BC, 0x1234);
    regs.write16(Reg16::AF, 0xabcd);
    assert_eq!(regs.b, 0x12);
    assert_eq!(regs.c, 0x34);
    assert_eq!(regs.read16(Reg16::BC), 0x1234);
    assert_eq!(regs.read16(Reg16::AF), 0xabc0);
}

#[test]
fn emu_time_add_then_sub() {
    let a = EmuTime::from_machine_cycles(1000);
    let b = EmuTime::from_machine_cycles(234);
    assert_eq!(a.add(b).machine_cycles, 1234);
    assert_eq!(a.add(b).sub(b), a);
    let mut c = EmuTime::zero();
    c.add_assign(b);
    assert_eq!(c, b);
}

#[test]
fn serial_registers_read_back() {
    let mut serial = Serial::new();
    serial.set_data(0x5a);
    assert_eq!(serial.get_data(), 0x5a);
    serial.set_control(0x81);
    assert_eq!(serial.get_control(), 0xff);
    serial.set_control(0x00);
    assert_eq!(serial.get_control(), 0x7e);
}
