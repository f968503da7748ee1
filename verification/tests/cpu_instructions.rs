//! Instruction-level tests of the CPU against a flat 64 KiB memory.
use mooneye_gb::cpu::registers::{Flags, Reg16};
use mooneye_gb::cpu::flat_bus::FlatBus;
use mooneye_gb::cpu::{Cpu, Step};
use quickcheck::quickcheck;

pub struct TestMachine {
    cpu: Cpu,
    hardware: FlatBus,
    step: Step,
}

/// Runs the instructions, followed by the opcode 0xed, which stops the run.
pub fn run_test<I: Fn(&mut TestMachine)>(instructions: &[u8], init: I) -> TestMachine {
    let mut memory = instructions.to_vec();
    memory.push(0xed);

    let mut machine = TestMachine {
        cpu: Cpu::new(),
        hardware: FlatBus::from_memory(&memory),
        step: Step::Running,
    };
    init(&mut machine);

    machine.step = machine.cpu.execute_step(&mut machine.hardware, machine.step);
    machine.hardware.t_cycles = 0;

    while machine.cpu.opcode != 0xed && machine.step != Step::Halt {
        machine.step = machine.cpu.execute_step(&mut machine.hardware, machine.step);
    }
    machine
}

#[test]
fn test_00() {
    let machine = run_test(
        &[0x00], // NOP
        |_| {},
    );
    assert_eq!(machine.hardware.clock_cycles(), 4);
}

#[test]
fn test_02() {
    let machine = run_test(
        &[0x02, 0xed, 0x00], // LD (BC), A
        |machine| {
            machine.cpu.regs.a = 0x42;
            machine.cpu.regs.b = 0x00;
            machine.cpu.regs.c = 0x02;
        },
    );
    assert_eq!(machine.hardware.clock_cycles(), 8);
    assert_eq!(machine.hardware.memory[0x02], 0x42);
}

#[test]
fn test_04() {
    let machine = run_test(
        &[0x04], // INC B
        |machine| {
            machine.cpu.regs.b = 0x42;
        },
    );
    assert_eq!(machine.hardware.clock_cycles(), 4);
    assert_eq!(machine.cpu.regs.b, 0x43);
    assert_eq!(machine.cpu.regs.f, Flags::empty());
}

#[test]
fn test_04_zero() {
    let machine = run_test(
        &[0x04], // INC B
        |machine| {
            machine.cpu.regs.b = 0xff;
        },
    );
    assert_eq!(machine.hardware.clock_cycles(), 4);
    assert_eq!(machine.cpu.regs.b, 0x00);
    assert_eq!(machine.cpu.regs.f, Flags::from_bits_truncate(Flags::ZERO | Flags::HALF_CARRY));
}

#[test]
fn test_04_half_carry() {
    let machine = run_test(
        &[0x04], // INC B
        |machine| {
            machine.cpu.regs.b = 0x0f;
        },
    );
    assert_eq!(machine.hardware.clock_cycles(), 4);
    assert_eq!(machine.cpu.regs.b, 0x10);
    assert_eq!(machine.cpu.regs.f, Flags::from_bits_truncate(Flags::HALF_CARRY));
}

#[test]
fn test_05() {
    let machine = run_test(
        &[0x05], // DEC B
        |machine| {
            machine.cpu.regs.b = 0x42;
        },
    );
    assert_eq!(machine.hardware.clock_cycles(), 4);
    assert_eq!(machine.cpu.regs.b, 0x41);
    assert_eq!(machine.cpu.regs.f, Flags::from_bits_truncate(Flags::ADD_SUBTRACT));
}

#[test]
fn test_05_zero() {
    let machine = run_test(
        &[0x05], // DEC B
        |machine| {
            machine.cpu.regs.b = 0x01;
        },
    );
    assert_eq!(machine.hardware.clock_cycles(), 4);
    assert_eq!(machine.cpu.regs.b, 0x00);
    assert_eq!(machine.cpu.regs.f, Flags::from_bits_truncate(Flags::ZERO | Flags::ADD_SUBTRACT));
}

#[test]
fn test_05_half_carry() {
    let machine = run_test(
        &[0x05], // DEC B
        |machine| {
            machine.cpu.regs.b = 0x00;
        },
    );
    assert_eq!(machine.hardware.clock_cycles(), 4);
    assert_eq!(machine.cpu.regs.b, 0xff);
    assert_eq!(machine.cpu.regs.f, Flags::from_bits_truncate(Flags::ADD_SUBTRACT | Flags::HALF_CARRY));
}

#[test]
fn test_06() {
    let machine = run_test(
        &[0x06, 0x42], // LD B, n
        |_| {},
    );
    assert_eq!(machine.hardware.clock_cycles(), 8);
    assert_eq!(machine.cpu.regs.b, 0x42);
}

#[test]
fn test_07() {
    let machine = run_test(
        &[0x07], // RLCA
        |machine| {
            machine.cpu.regs.a = 0x77;
        },
    );
    assert_eq!(machine.hardware.clock_cycles(), 4);
    assert_eq!(machine.cpu.regs.a, 0xee);
    assert_eq!(machine.cpu.regs.f, Flags::empty());
}

#[test]
fn test_07_carry() {
    let machine = run_test(
        &[0x07], // RLCA
        |machine| {
            machine.cpu.regs.a = 0xf7;
        },
    );
    assert_eq!(machine.hardware.clock_cycles(), 4);
    assert_eq!(machine.cpu.regs.a, 0xef);
    assert_eq!(machine.cpu.regs.f, Flags::from_bits_truncate(Flags::CARRY));
}

#[test]
fn test_0a() {
    let machine = run_test(
        &[0x0a, 0xed, 0x42], // LD A, (BC)
        |machine| {
            machine.cpu.regs.b = 0x00;
            machine.cpu.regs.c = 0x02;
        },
    );
    assert_eq!(machine.hardware.clock_cycles(), 8);
    assert_eq!(machine.cpu.regs.a, 0x42);
}

#[test]
fn test_0c() {
    let machine = run_test(
        &[0x0c], // INC C
        |machine| {
            machine.cpu.regs.c = 0x42;
        },
    );
    assert_eq!(machine.hardware.clock_cycles(), 4);
    assert_eq!(machine.cpu.regs.c, 0x43);
    assert_eq!(machine.cpu.regs.f, Flags::empty());
}

#[test]
fn test_0c_zero() {
    let machine = run_test(
        &[0x0c], // INC C
        |machine| {
            machine.cpu.regs.c = 0xff;
        },
    );
    assert_eq!(machine.hardware.clock_cycles(), 4);
    assert_eq!(machine.cpu.regs.c, 0x00);
    assert_eq!(machine.cpu.regs.f, Flags::from_bits_truncate(Flags::ZERO | Flags::HALF_CARRY));
}

#[test]
fn test_0c_half_carry() {
    let machine = run_test(
        &[0x0c], // INC C
        |machine| {
            machine.cpu.regs.c = 0x0f;
        },
    );
    assert_eq!(machine.hardware.clock_cycles(), 4);
    assert_eq!(machine.cpu.regs.c, 0x10);
    assert_eq!(machine.cpu.regs.f, Flags::from_bits_truncate(Flags::HALF_CARRY));
}

#[test]
fn test_0d() {
    let machine = run_test(
        &[0x0d], // DEC C
        |machine| {
            machine.cpu.regs.c = 0x42;
        },
    );
    assert_eq!(machine.hardware.clock_cycles(), 4);
    assert_eq!(machine.cpu.regs.c, 0x41);
    assert_eq!(machine.cpu.regs.f, Flags::from_bits_truncate(Flags::ADD_SUBTRACT));
}

#[test]
fn test_0d_zero() {
    let machine = run_test(
        &[0x0d], // DEC C
        |machine| {
            machine.cpu.regs.c = 0x01;
        },
    );
    assert_eq!(machine.hardware.clock_cycles(), 4);
    assert_eq!(machine.cpu.regs.c, 0x00);
    assert_eq!(machine.cpu.regs.f, Flags::from_bits_truncate(Flags::ZERO | Flags::ADD_SUBTRACT));
}

#[test]
fn test_0d_half_carry() {
    let machine = run_test(
        &[0x0d], // DEC C
        |machine| {
            machine.cpu.regs.c = 0x00;
        },
    );
    assert_eq!(machine.hardware.clock_cycles(), 4);
    assert_eq!(machine.cpu.regs.c, 0xff);
    assert_eq!(machine.cpu.regs.f, Flags::from_bits_truncate(Flags::ADD_SUBTRACT | Flags::HALF_CARRY));
}

#[test]
fn test_0e() {
    let machine = run_test(
        &[0x0e, 0x42], // LD C, n
        |_| {},
    );
    assert_eq!(machine.hardware.clock_cycles(), 8);
    assert_eq!(machine.cpu.regs.c, 0x42);
}

#[test]
fn test_0f() {
    let machine = run_test(
        &[0x0f], // RRCA
        |machine| {
            machine.cpu.regs.a = 0xee;
        },
    );
    assert_eq!(machine.hardware.clock_cycles(), 4);
    assert_eq!(machine.cpu.regs.a, 0x77);
    assert!(!machine.cpu.regs.f.contains(Flags::from_bits_truncate(Flags::CARRY)));
}

#[test]
fn test_0f_carry() {
    let machine = run_test(
        &[0x0f], // RRCA
        |machine| {
            machine.cpu.regs.a = 0xef;
        },
    );
    assert_eq!(machine.hardware.clock_cycles(), 4);
    assert_eq!(machine.cpu.regs.a, 0xf7);
    assert!(machine.cpu.regs.f.contains(Flags::from_bits_truncate(Flags::CARRY)));
}

#[test]
fn test_12() {
    let machine = run_test(
        &[0x12, 0xed, 0x00], // LD (DE), A
        |machine| {
            machine.cpu.regs.a = 0x42;
            machine.cpu.regs.d = 0x00;
            machine.cpu.regs.e = 0x02;
        },
    );
    assert_eq!(machine.hardware.clock_cycles(), 8);
    assert_eq!(machine.hardware.memory[0x02], 0x42);
}

#[test]
fn test_14() {
    let machine = run_test(
        &[0x14], // INC D
        |machine| {
            machine.cpu.regs.d = 0x42;
        },
    );
    assert_eq!(machine.hardware.clock_cycles(), 4);
    assert_eq!(machine.cpu.regs.d, 0x43);
    assert_eq!(machine.cpu.regs.f, Flags::empty());
}

#[test]
fn test_14_zero() {
    let machine = run_test(
        &[0x14], // INC D
        |machine| {
            machine.cpu.regs.d = 0xff;
        },
    );
    assert_eq!(machine.hardware.clock_cycles(), 4);
    assert_eq!(machine.cpu.regs.d, 0x00);
    assert_eq!(machine.cpu.regs.f, Flags::from_bits_truncate(Flags::ZERO | Flags::HALF_CARRY));
}

#[test]
fn test_14_half_carry() {
    let machine = run_test(
        &[0x14], // INC D
        |machine| {
            machine.cpu.regs.d = 0x0f;
        },
    );
    assert_eq!(machine.hardware.clock_cycles(), 4);
    assert_eq!(machine.cpu.regs.d, 0x10);
    assert_eq!(machine.cpu.regs.f, Flags::from_bits_truncate(Flags::HALF_CARRY));
}

#[test]
fn test_15() {
    let machine = run_test(
        &[0x15], // DEC D
        |machine| {
            machine.cpu.regs.d = 0x42;
        },
    );
    assert_eq!(machine.hardware.clock_cycles(), 4);
    assert_eq!(machine.cpu.regs.d, 0x41);
    assert_eq!(machine.cpu.regs.f, Flags::from_bits_truncate(Flags::ADD_SUBTRACT));
}

#[test]
fn test_15_zero() {
    let machine = run_test(
        &[0x15], // DEC D
        |machine| {
            machine.cpu.regs.d = 0x01;
        },
    );
    assert_eq!(machine.hardware.clock_cycles(), 4);
    assert_eq!(machine.cpu.regs.d, 0x00);
    assert_eq!(machine.cpu.regs.f, Flags::from_bits_truncate(Flags::ZERO | Flags::ADD_SUBTRACT));
}

#[test]
fn test_15_half_carry() {
    let machine = run_test(
        &[0x15], // DEC D
        |machine| {
            machine.cpu.regs.d = 0x00;
        },
    );
    assert_eq!(machine.hardware.clock_cycles(), 4);
    assert_eq!(machine.cpu.regs.d, 0xff);
    assert_eq!(machine.cpu.regs.f, Flags::from_bits_truncate(Flags::ADD_SUBTRACT | Flags::HALF_CARRY));
}

#[test]
fn test_16() {
    let machine = run_test(
        &[0x16, 0x42], // LD D, n
        |_| {},
    );
    assert_eq!(machine.hardware.clock_cycles(), 8);
    assert_eq!(machine.cpu.regs.d, 0x42);
}

#[test]
fn test_17() {
    let machine = run_test(
        &[0x17], // RLA
        |machine| {
            machine.cpu.regs.a = 0x55;
        },
    );
    assert_eq!(machine.hardware.clock_cycles(), 4);
    assert_eq!(machine.cpu.regs.a, 0xaa);
    assert_eq!(machine.cpu.regs.f, Flags::empty());
}

#[test]
fn test_17_carry() {
    let machine = run_test(
        &[0x17], // RLA
        |machine| {
            machine.cpu.regs.a = 0xaa;
            machine.cpu.regs.f = Flags::from_bits_truncate(Flags::CARRY);
        },
    );
    assert_eq!(machine.hardware.clock_cycles(), 4);
    assert_eq!(machine.cpu.regs.a, 0x55);
    assert_eq!(machine.cpu.regs.f, Flags::from_bits_truncate(Flags::CARRY));
}

#[test]
fn test_1a() {
    let machine = run_test(
        &[0x1a, 0xed, 0x42], // LD A, (DE)
        |machine| {
            machine.cpu.regs.d = 0x00;
            machine.cpu.regs.e = 0x02;
        },
    );
    assert_eq!(machine.hardware.clock_cycles(), 8);
    assert_eq!(machine.cpu.regs.a, 0x42);
}

#[test]
fn test_1c() {
    let machine = run_test(
        &[0x1c], // INC E
        |machine| {
            machine.cpu.regs.e = 0x42;
        },
    );
    assert_eq!(machine.hardware.clock_cycles(), 4);
    assert_eq!(machine.cpu.regs.e, 0x43);
    assert_eq!(machine.cpu.regs.f, Flags::empty());
}

#[test]
fn test_1c_zero() {
    let machine = run_test(
        &[0x1c], // INC E
        |machine| {
            machine.cpu.regs.e = 0xff;
        },
    );
    assert_eq!(machine.hardware.clock_cycles(), 4);
    assert_eq!(machine.cpu.regs.e, 0x00);
    assert_eq!(machine.cpu.regs.f, Flags::from_bits_truncate(Flags::ZERO | Flags::HALF_CARRY));
}

#[test]
fn test_1c_half_carry() {
    let machine = run_test(
        &[0x1c], // INC E
        |machine| {
            machine.cpu.regs.e = 0x0f;
        },
    );
    assert_eq!(machine.hardware.clock_cycles(), 4);
    assert_eq!(machine.cpu.regs.e, 0x10);
    assert_eq!(machine.cpu.regs.f, Flags::from_bits_truncate(Flags::HALF_CARRY));
}

#[test]
fn test_1d() {
    let machine = run_test(
        &[0x1d], // DEC E
        |machine| {
            machine.cpu.regs.e = 0x42;
        },
    );
    assert_eq!(machine.hardware.clock_cycles(), 4);
    assert_eq!(machine.cpu.regs.e, 0x41);
    assert_eq!(machine.cpu.regs.f, Flags::from_bits_truncate(Flags::ADD_SUBTRACT));
}

#[test]
fn test_1d_zero() {
    let machine = run_test(
        &[0x1d], // DEC E
        |machine| {
            machine.cpu.regs.e = 0x01;
        },
    );
    assert_eq!(machine.hardware.clock_cycles(), 4);
    assert_eq!(machine.cpu.regs.e, 0x00);
    assert_eq!(machine.cpu.regs.f, Flags::from_bits_truncate(Flags::ZERO | Flags::ADD_SUBTRACT));
}

#[test]
fn test_1d_half_carry() {
    let machine = run_test(
        &[0x1d], // DEC E
        |machine| {
            machine.cpu.regs.e = 0x00;
        },
    );
    assert_eq!(machine.hardware.clock_cycles(), 4);
    assert_eq!(machine.cpu.regs.e, 0xff);
    assert_eq!(machine.cpu.regs.f, Flags::from_bits_truncate(Flags::ADD_SUBTRACT | Flags::HALF_CARRY));
}

#[test]
fn test_1e() {
    let machine = run_test(
        &[0x1e, 0x42], // LD E, n
        |_| {},
    );
    assert_eq!(machine.hardware.clock_cycles(), 8);
    assert_eq!(machine.cpu.regs.e, 0x42);
}

#[test]
fn test_1f() {
    let machine = run_test(
        &[0x1f], // RRA
        |machine| {
            machine.cpu.regs.a = 0xaa;
        },
    );
    assert_eq!(machine.hardware.clock_cycles(), 4);
    assert_eq!(machine.cpu.regs.a, 0x55);
    assert_eq!(machine.cpu.regs.f, Flags::empty());
}

#[test]
fn test_1f_carry() {
    let machine = run_test(
        &[0x1f], // RRA
        |machine| {
            machine.cpu.regs.a = 0x55;
            machine.cpu.regs.f = Flags::from_bits_truncate(Flags::CARRY);
        },
    );
    assert_eq!(machine.hardware.clock_cycles(), 4);
    assert_eq!(machine.cpu.regs.a, 0xaa);
    assert_eq!(machine.cpu.regs.f, Flags::from_bits_truncate(Flags::CARRY));
}

#[test]
fn test_20() {
    let machine = run_test(
        &[0x20, 0x01, 0xed, 0xed], // JR NZ, e
        |_| {},
    );
    assert_eq!(machine.hardware.clock_cycles(), 12);
    assert_eq!(machine.cpu.regs.pc, 0x04);
}

#[test]
fn test_20_negative() {
    let machine = run_test(
        &[0x00, 0xed, 0x20, -3i8 as u8], // JR NZ, e
        |machine| {
            machine.cpu.regs.pc = 0x02;
        },
    );
    assert_eq!(machine.hardware.clock_cycles(), 12);
    assert_eq!(machine.cpu.regs.pc, 0x02);
}

#[test]
fn test_20_nojump() {
    let machine = run_test(
        &[0x20, 0x01, 0xed, 0x00], // JR NZ, e
        |machine| {
            machine.cpu.regs.f = Flags::from_bits_truncate(Flags::ZERO);
        },
    );
    assert_eq!(machine.hardware.clock_cycles(), 8);
    assert_eq!(machine.cpu.regs.pc, 0x03);
}

#[test]
fn test_22() {
    let machine = run_test(
        &[0x22, 0xed, 0x00], // LDI (HL), A
        |machine| {
            machine.cpu.regs.a = 0x42;
            machine.cpu.regs.h = 0x00;
            machine.cpu.regs.l = 0x02;
        },
    );
    assert_eq!(machine.hardware.clock_cycles(), 8);
    assert_eq!(machine.cpu.regs.h, 0x00);
    assert_eq!(machine.cpu.regs.l, 0x03);
    assert_eq!(machine.hardware.memory[0x02], 0x42);
}

#[test]
fn test_24() {
    let machine = run_test(
        &[0x24], // INC H
        |machine| {
            machine.cpu.regs.h = 0x42;
        },
    );
    assert_eq!(machine.hardware.clock_cycles(), 4);
    assert_eq!(machine.cpu.regs.h, 0x43);
    assert_eq!(machine.cpu.regs.f, Flags::empty());
}

#[test]
fn test_24_zero() {
    let machine = run_test(
        &[0x24], // INC H
        |machine| {
            machine.cpu.regs.h = 0xff;
        },
    );
    assert_eq!(machine.hardware.clock_cycles(), 4);
    assert_eq!(machine.cpu.regs.h, 0x00);
    assert_eq!(machine.cpu.regs.f, Flags::from_bits_truncate(Flags::ZERO | Flags::HALF_CARRY));
}

#[test]
fn test_24_half_carry() {
    let machine = run_test(
        &[0x24], // INC H
        |machine| {
            machine.cpu.regs.h = 0x0f;
        },
    );
    assert_eq!(machine.hardware.clock_cycles(), 4);
    assert_eq!(machine.cpu.regs.h, 0x10);
    assert_eq!(machine.cpu.regs.f, Flags::from_bits_truncate(Flags::HALF_CARRY));
}

#[test]
fn test_25() {
    let machine = run_test(
        &[0x25], // DEC H
        |machine| {
            machine.cpu.regs.h = 0x42;
        },
    );
    assert_eq!(machine.hardware.clock_cycles(), 4);
    assert_eq!(machine.cpu.regs.h, 0x41);
    assert_eq!(machine.cpu.regs.f, Flags::from_bits_truncate(Flags::ADD_SUBTRACT));
}

#[test]
fn test_25_zero() {
    let machine = run_test(
        &[0x25], // DEC H
        |machine| {
            machine.cpu.regs.h = 0x01;
        },
    );
    assert_eq!(machine.hardware.clock_cycles(), 4);
    assert_eq!(machine.cpu.regs.h, 0x00);
    assert_eq!(machine.cpu.regs.f, Flags::from_bits_truncate(Flags::ZERO | Flags::ADD_SUBTRACT));
}

#[test]
fn test_25_half_carry() {
    let machine = run_test(
        &[0x25], // DEC H
        |machine| {
            machine.cpu.regs.h = 0x00;
        },
    );
    assert_eq!(machine.hardware.clock_cycles(), 4);
    assert_eq!(machine.cpu.regs.h, 0xff);
    assert_eq!(machine.cpu.regs.f, Flags::from_bits_truncate(Flags::ADD_SUBTRACT | Flags::HALF_CARRY));
}

#[test]
fn test_26() {
    let machine = run_test(
        &[0x26, 0x42], // LD H, n
        |_| {},
    );
    assert_eq!(machine.hardware.clock_cycles(), 8);
    assert_eq!(machine.cpu.regs.h, 0x42);
}

#[test]
fn test_28() {
    let machine = run_test(
        &[0x28, 0x01, 0xed, 0xed], // JR Z, e
        |machine| {
            machine.cpu.regs.f = Flags::from_bits_truncate(Flags::ZERO);
        },
    );
    assert_eq!(machine.hardware.clock_cycles(), 12);
    assert_eq!(machine.cpu.regs.pc, 0x04);
}

#[test]
fn test_28_negative() {
    let machine = run_test(
        &[0x00, 0xed, 0x28, -3i8 as u8], // JR Z, e
        |machine| {
            machine.cpu.regs.f = Flags::from_bits_truncate(Flags::ZERO);
            machine.cpu.regs.pc = 0x02;
        },
    );
    assert_eq!(machine.hardware.clock_cycles(), 12);
    assert_eq!(machine.cpu.regs.pc, 0x02);
}

#[test]
fn test_28_nojump() {
    let machine = run_test(
        &[0x28, 0x01, 0xed, 0x00], // JR Z, e
        |_| {},
    );
    assert_eq!(machine.hardware.clock_cycles(), 8);
    assert_eq!(machine.cpu.regs.pc, 0x03);
}

#[test]
fn test_2a() {
    let machine = run_test(
        &[0x2a, 0xed, 0x42], // LD A, (HL+)
        |machine| {
            machine.cpu.regs.h = 0x00;
            machine.cpu.regs.l = 0x02;
        },
    );
    assert_eq!(machine.hardware.clock_cycles(), 8);
    assert_eq!(machine.cpu.regs.a, 0x42);
    assert_eq!(machine.cpu.regs.h, 0x00);
    assert_eq!(machine.cpu.regs.l, 0x03);
}

#[test]
fn test_2c() {
    let machine = run_test(
        &[0x2c], // INC L
        |machine| {
            machine.cpu.regs.l = 0x42;
        },
    );
    assert_eq!(machine.hardware.clock_cycles(), 4);
    assert_eq!(machine.cpu.regs.l, 0x43);
    assert_eq!(machine.cpu.regs.f, Flags::empty());
}

#[test]
fn test_2c_zero() {
    let machine = run_test(
        &[0x2c], // INC L
        |machine| {
            machine.cpu.regs.l = 0xff;
        },
    );
    assert_eq!(machine.hardware.clock_cycles(), 4);
    assert_eq!(machine.cpu.regs.l, 0x00);
    assert_eq!(machine.cpu.regs.f, Flags::from_bits_truncate(Flags::ZERO | Flags::HALF_CARRY));
}

#[test]
fn test_2c_half_carry() {
    let machine = run_test(
        &[0x2c], // INC L
        |machine| {
            machine.cpu.regs.l = 0x0f;
        },
    );
    assert_eq!(machine.hardware.clock_cycles(), 4);
    assert_eq!(machine.cpu.regs.l, 0x10);
    assert_eq!(machine.cpu.regs.f, Flags::from_bits_truncate(Flags::HALF_CARRY));
}

#[test]
fn test_2d() {
    let machine = run_test(
        &[0x2d], // DEC L
        |machine| {
            machine.cpu.regs.l = 0x42;
        },
    );
    assert_eq!(machine.hardware.clock_cycles(), 4);
    assert_eq!(machine.cpu.regs.l, 0x41);
    assert_eq!(machine.cpu.regs.f, Flags::from_bits_truncate(Flags::ADD_SUBTRACT));
}

#[test]
fn test_2d_zero() {
    let machine = run_test(
        &[0x2d], // DEC L
        |machine| {
            machine.cpu.regs.l = 0x01;
        },
    );
    assert_eq!(machine.hardware.clock_cycles(), 4);
    assert_eq!(machine.cpu.regs.l, 0x00);
    assert_eq!(machine.cpu.regs.f, Flags::from_bits_truncate(Flags::ZERO | Flags::ADD_SUBTRACT));
}

#[test]
fn test_2d_half_carry() {
    let machine = run_test(
        &[0x2d], // DEC L
        |machine| {
            machine.cpu.regs.l = 0x00;
        },
    );
    assert_eq!(machine.hardware.clock_cycles(), 4);
    assert_eq!(machine.cpu.regs.l, 0xff);
    assert_eq!(machine.cpu.regs.f, Flags::from_bits_truncate(Flags::ADD_SUBTRACT | Flags::HALF_CARRY));
}

#[test]
fn test_2e() {
    let machine = run_test(
        &[0x2e, 0x42], // LD L, n
        |_| {},
    );
    assert_eq!(machine.hardware.clock_cycles(), 8);
    assert_eq!(machine.cpu.regs.l, 0x42);
}

#[test]
fn test_2f() {
    let machine = run_test(
        &[0x2f], // CPL
        |machine| {
            machine.cpu.regs.a = 0xaa;
        },
    );
    assert_eq!(machine.hardware.clock_cycles(), 4);
    assert_eq!(machine.cpu.regs.a, 0x55);
    assert_eq!(machine.cpu.regs.f, Flags::from_bits_truncate(Flags::ADD_SUBTRACT | Flags::HALF_CARRY));
}

#[test]
fn test_30() {
    let machine = run_test(
        &[0x30, 0x01, 0xed, 0xed], // JR NC, e
        |_| {},
    );
    assert_eq!(machine.hardware.clock_cycles(), 12);
    assert_eq!(machine.cpu.regs.pc, 0x04);
}

#[test]
fn test_30_negative() {
    let machine = run_test(
        &[0x00, 0xed, 0x30, -3i8 as u8], // JR NC, e
        |machine| {
            machine.cpu.regs.pc = 0x02;
        },
    );
    assert_eq!(machine.hardware.clock_cycles(), 12);
    assert_eq!(machine.cpu.regs.pc, 0x02);
}

#[test]
fn test_30_nojump() {
    let machine = run_test(
        &[0x30, 0x01, 0xed, 0x00], // JR NC, e
        |machine| {
            machine.cpu.regs.f = Flags::from_bits_truncate(Flags::CARRY);
        },
    );
    assert_eq!(machine.hardware.clock_cycles(), 8);
    assert_eq!(machine.cpu.regs.pc, 0x03);
}

#[test]
fn test_32() {
    let machine = run_test(
        &[0x32, 0xed, 0x00], // LDD (HL), A
        |machine| {
            machine.cpu.regs.a = 0x42;
            machine.cpu.regs.h = 0x00;
            machine.cpu.regs.l = 0x02;
        },
    );
    assert_eq!(machine.hardware.clock_cycles(), 8);
    assert_eq!(machine.cpu.regs.h, 0x00);
    assert_eq!(machine.cpu.regs.l, 0x01);
    assert_eq!(machine.hardware.memory[0x02], 0x42);
}

#[test]
fn test_34() {
    let machine = run_test(
        &[0x34, 0xed, 0x42], // INC (HL)
        |machine| {
            machine.cpu.regs.h = 0x00;
            machine.cpu.regs.l = 0x02;
        },
    );
    assert_eq!(machine.hardware.clock_cycles(), 12);
    assert_eq!(machine.hardware.memory[0x02], 0x43);
    assert_eq!(machine.cpu.regs.f, Flags::empty());
}

#[test]
fn test_34_zero() {
    let machine = run_test(
        &[0x34, 0xed, 0xff], // INC (HL)
        |machine| {
            machine.cpu.regs.h = 0x00;
            machine.cpu.regs.l = 0x02;
        },
    );
    assert_eq!(machine.hardware.clock_cycles(), 12);
    assert_eq!(machine.hardware.memory[0x02], 0x00);
    assert_eq!(machine.cpu.regs.f, Flags::from_bits_truncate(Flags::ZERO | Flags::HALF_CARRY));
}

#[test]
fn test_34_half_carry() {
    let machine = run_test(
        &[0x34, 0xed, 0x0f], // INC (HL)
        |machine| {
            machine.cpu.regs.h = 0x00;
            machine.cpu.regs.l = 0x02;
        },
    );
    assert_eq!(machine.hardware.clock_cycles(), 12);
    assert_eq!(machine.hardware.memory[0x02], 0x10);
    assert_eq!(machine.cpu.regs.f, Flags::from_bits_truncate(Flags::HALF_CARRY));
}

#[test]
fn test_35() {
    let machine = run_test(
        &[0x35, 0xed, 0x42], // DEC (HL)
        |machine| {
            machine.cpu.regs.h = 0x00;
            machine.cpu.regs.l = 0x02;
        },
    );
    assert_eq!(machine.hardware.clock_cycles(), 12);
    assert_eq!(machine.hardware.memory[0x02], 0x41);
    assert_eq!(machine.cpu.regs.f, Flags::from_bits_truncate(Flags::ADD_SUBTRACT));
}

#[test]
fn test_35_zero() {
    let machine = run_test(
        &[0x35, 0xed, 0x01], // DEC (HL)
        |machine| {
            machine.cpu.regs.h = 0x00;
            machine.cpu.regs.l = 0x02;
        },
    );
    assert_eq!(machine.hardware.clock_cycles(), 12);
    assert_eq!(machine.hardware.memory[0x02], 0x00);
    assert_eq!(machine.cpu.regs.f, Flags::from_bits_truncate(Flags::ZERO | Flags::ADD_SUBTRACT));
}

#[test]
fn test_35_half_carry() {
    let machine = run_test(
        &[0x35, 0xed, 0x00], // DEC (HL)
        |machine| {
            machine.cpu.regs.h = 0x00;
            machine.cpu.regs.l = 0x02;
        },
    );
    assert_eq!(machine.hardware.clock_cycles(), 12);
    assert_eq!(machine.hardware.memory[0x02], 0xff);
    assert_eq!(machine.cpu.regs.f, Flags::from_bits_truncate(Flags::ADD_SUBTRACT | Flags::HALF_CARRY));
}

#[test]
fn test_36() {
    let machine = run_test(
        &[0x36, 0x42, 0xed, 0x00], // LD (HL), n
        |machine| {
            machine.cpu.regs.h = 0x00;
            machine.cpu.regs.l = 0x03;
        },
    );
    assert_eq!(machine.hardware.clock_cycles(), 12);
    assert_eq!(machine.hardware.memory[0x03], 0x42);
}

#[test]
fn test_37() {
    let machine = run_test(
        &[0x37], // SCF
        |machine| {
            machine.cpu.regs.f = Flags::from_bits_truncate(Flags::ADD_SUBTRACT | Flags::HALF_CARRY);
        },
    );
    assert_eq!(machine.hardware.clock_cycles(), 4);
    assert_eq!(machine.cpu.regs.f, Flags::from_bits_truncate(Flags::CARRY));
}

#[test]
fn test_38() {
    let machine = run_test(
        &[0x38, 0x01, 0xed, 0xed], // JR C, e
        |machine| {
            machine.cpu.regs.f = Flags::from_bits_truncate(Flags::CARRY);
        },
    );
    assert_eq!(machine.hardware.clock_cycles(), 12);
    assert_eq!(machine.cpu.regs.pc, 0x04);
}

#[test]
fn test_38_negative() {
    let machine = run_test(
        &[0x00, 0xed, 0x38, -3i8 as u8], // JR C, e
        |machine| {
            machine.cpu.regs.f = Flags::from_bits_truncate(Flags::CARRY);
            machine.cpu.regs.pc = 0x02;
        },
    );
    assert_eq!(machine.hardware.clock_cycles(), 12);
    assert_eq!(machine.cpu.regs.pc, 0x02);
}

#[test]
fn test_38_nojump() {
    let machine = run_test(
        &[0x38, 0x01, 0xed, 0x00], // JR C, e
        |_| {},
    );
    assert_eq!(machine.hardware.clock_cycles(), 8);
    assert_eq!(machine.cpu.regs.pc, 0x03);
}

#[test]
fn test_3a() {
    let machine = run_test(
        &[0x3a, 0xed, 0x42], // LD A, (HL-)
        |machine| {
            machine.cpu.regs.h = 0x00;
            machine.cpu.regs.l = 0x02;
        },
    );
    assert_eq!(machine.hardware.clock_cycles(), 8);
    assert_eq!(machine.cpu.regs.a, 0x42);
    assert_eq!(machine.cpu.regs.h, 0x00);
    assert_eq!(machine.cpu.regs.l, 0x01);
}

#[test]
fn test_3c() {
    let machine = run_test(
        &[0x3c], // INC A
        |machine| {
            machine.cpu.regs.a = 0x42;
        },
    );
    assert_eq!(machine.hardware.clock_cycles(), 4);
    assert_eq!(machine.cpu.regs.a, 0x43);
    assert_eq!(machine.cpu.regs.f, Flags::empty());
}

#[test]
fn test_3c_zero() {
    let machine = run_test(
        &[0x3c], // INC A
        |machine| {
            machine.cpu.regs.a = 0xff;
        },
    );
    assert_eq!(machine.hardware.clock_cycles(), 4);
    assert_eq!(machine.cpu.regs.a, 0x00);
    assert_eq!(machine.cpu.regs.f, Flags::from_bits_truncate(Flags::ZERO | Flags::HALF_CARRY));
}

#[test]
fn test_3c_half_carry() {
    let machine = run_test(
        &[0x3c], // INC A
        |machine| {
            machine.cpu.regs.a = 0x0f;
        },
    );
    assert_eq!(machine.hardware.clock_cycles(), 4);
    assert_eq!(machine.cpu.regs.a, 0x10);
    assert_eq!(machine.cpu.regs.f, Flags::from_bits_truncate(Flags::HALF_CARRY));
}

#[test]
fn test_3d() {
    let machine = run_test(
        &[0x3d], // DEC A
        |machine| {
            machine.cpu.regs.a = 0x42;
        },
    );
    assert_eq!(machine.hardware.clock_cycles(), 4);
    assert_eq!(machine.cpu.regs.a, 0x41);
    assert_eq!(machine.cpu.regs.f, Flags::from_bits_truncate(Flags::ADD_SUBTRACT));
}

#[test]
fn test_3d_zero() {
    let machine = run_test(
        &[0x3d], // DEC A
        |machine| {
            machine.cpu.regs.a = 0x01;
        },
    );
    assert_eq!(machine.hardware.clock_cycles(), 4);
    assert_eq!(machine.cpu.regs.a, 0x00);
    assert_eq!(machine.cpu.regs.f, Flags::from_bits_truncate(Flags::ZERO | Flags::ADD_SUBTRACT));
}

#[test]
fn test_3d_half_carry() {
    let machine = run_test(
        &[0x3d], // DEC A
        |machine| {
            machine.cpu.regs.a = 0x00;
        },
    );
    assert_eq!(machine.hardware.clock_cycles(), 4);
    assert_eq!(machine.cpu.regs.a, 0xff);
    assert_eq!(machine.cpu.regs.f, Flags::from_bits_truncate(Flags::ADD_SUBTRACT | Flags::HALF_CARRY));
}

#[test]
fn test_3e() {
    let machine = run_test(
        &[0x3e, 0x42], // LD A, n
        |_| {},
    );
    assert_eq!(machine.hardware.clock_cycles(), 8);
    assert_eq!(machine.cpu.regs.a, 0x42);
}

#[test]
fn test_3f() {
    let machine = run_test(
        &[0x3f], // CCF
        |machine| {
            machine.cpu.regs.f = Flags::from_bits_truncate(Flags::ADD_SUBTRACT | Flags::HALF_CARRY);
        },
    );
    assert_eq!(machine.hardware.clock_cycles(), 4);
    assert_eq!(machine.cpu.regs.f, Flags::from_bits_truncate(Flags::CARRY));
}

#[test]
fn test_3f_carry() {
    let machine = run_test(
        &[0x3f], // CCF
        |machine| {
            machine.cpu.regs.f = Flags::from_bits_truncate(Flags::ADD_SUBTRACT | Flags::HALF_CARRY | Flags::CARRY);
        },
    );
    assert_eq!(machine.hardware.clock_cycles(), 4);
    assert_eq!(machine.cpu.regs.f, Flags::empty());
}

#[test]
fn test_50() {
    let machine = run_test(
        &[0x50], // LD D, B
        |machine| {
            machine.cpu.regs.b = 0x42;
        },
    );
    assert_eq!(machine.hardware.clock_cycles(), 4);
    assert_eq!(machine.cpu.regs.d, 0x42);
}

#[test]
fn test_51() {
    let machine = run_test(
        &[0x51], // LD D, C
        |machine| {
            machine.cpu.regs.c = 0x42;
        },
    );
    assert_eq!(machine.hardware.clock_cycles(), 4);
    assert_eq!(machine.cpu.regs.d, 0x42);
}

#[test]
fn test_52() {
    let machine = run_test(
        &[0x52], // LD D, D
        |machine| {
            machine.cpu.regs.d = 0x42;
        },
    );
    assert_eq!(machine.hardware.clock_cycles(), 4);
    assert_eq!(machine.cpu.regs.d, 0x42);
}

#[test]
fn test_53() {
    let machine = run_test(
        &[0x53], // LD D, E
        |machine| {
            machine.cpu.regs.e = 0x42;
        },
    );
    assert_eq!(machine.hardware.clock_cycles(), 4);
    assert_eq!(machine.cpu.regs.d, 0x42);
}

#[test]
fn test_54() {
    let machine = run_test(
        &[0x54], // LD D, H
        |machine| {
            machine.cpu.regs.h = 0x42;
        },
    );
    assert_eq!(machine.hardware.clock_cycles(), 4);
    assert_eq!(machine.cpu.regs.d, 0x42);
}

#[test]
fn test_55() {
    let machine = run_test(
        &[0x55], // LD D, L
        |machine| {
            machine.cpu.regs.l = 0x42;
        },
    );
    assert_eq!(machine.hardware.clock_cycles(), 4);
    assert_eq!(machine.cpu.regs.d, 0x42);
}

#[test]
fn test_56() {
    let machine = run_test(
        &[0x56, 0xed, 0x42], // LD D, (HL)
        |machine| {
            machine.cpu.regs.h = 0x00;
            machine.cpu.regs.l = 0x02;
        },
    );
    assert_eq!(machine.hardware.clock_cycles(), 8);
    assert_eq!(machine.cpu.regs.d, 0x42);
}

#[test]
fn test_57() {
    let machine = run_test(
        &[0x57], // LD D, A
        |machine| {
            machine.cpu.regs.a = 0x42;
        },
    );
    assert_eq!(machine.hardware.clock_cycles(), 4);
    assert_eq!(machine.cpu.regs.d, 0x42);
}

#[test]
fn test_58() {
    let machine = run_test(
        &[0x58], // LD E, B
        |machine| {
            machine.cpu.regs.b = 0x42;
        },
    );
    assert_eq!(machine.hardware.clock_cycles(), 4);
    assert_eq!(machine.cpu.regs.e, 0x42);
}

#[test]
fn test_59() {
    let machine = run_test(
        &[0x59], // LD E, C
        |machine| {
            machine.cpu.regs.c = 0x42;
        },
    );
    assert_eq!(machine.hardware.clock_cycles(), 4);
    assert_eq!(machine.cpu.regs.e, 0x42);
}

#[test]
fn test_5a() {
    let machine = run_test(
        &[0x5a], // LD E, D
        |machine| {
            machine.cpu.regs.d = 0x42;
        },
    );
    assert_eq!(machine.hardware.clock_cycles(), 4);
    assert_eq!(machine.cpu.regs.e, 0x42);
}

#[test]
fn test_5b() {
    let machine = run_test(
        &[0x5b], // LD E, E
        |machine| {
            machine.cpu.regs.e = 0x42;
        },
    );
    assert_eq!(machine.hardware.clock_cycles(), 4);
    assert_eq!(machine.cpu.regs.e, 0x42);
}

#[test]
fn test_5c() {
    let machine = run_test(
        &[0x5c], // LD E, H
        |machine| {
            machine.cpu.regs.h = 0x42;
        },
    );
    assert_eq!(machine.hardware.clock_cycles(), 4);
    assert_eq!(machine.cpu.regs.e, 0x42);
}

#[test]
fn test_5d() {
    let machine = run_test(
        &[0x5d], // LD E, L
        |machine| {
            machine.cpu.regs.l = 0x42;
        },
    );
    assert_eq!(machine.hardware.clock_cycles(), 4);
    assert_eq!(machine.cpu.regs.e, 0x42);
}

#[test]
fn test_5e() {
    let machine = run_test(
        &[0x5e, 0xed, 0x42], // LD E, (HL)
        |machine| {
            machine.cpu.regs.h = 0x00;
            machine.cpu.regs.l = 0x02;
        },
    );
    assert_eq!(machine.hardware.clock_cycles(), 8);
    assert_eq!(machine.cpu.regs.e, 0x42);
}

#[test]
fn test_5f() {
    let machine = run_test(
        &[0x5f], // LD E, A
        |machine| {
            machine.cpu.regs.a = 0x42;
        },
    );
    assert_eq!(machine.hardware.clock_cycles(), 4);
    assert_eq!(machine.cpu.regs.e, 0x42);
}

#[test]
fn test_60() {
    let machine = run_test(
        &[0x60], // LD H, B
        |machine| {
            machine.cpu.regs.b = 0x42;
        },
    );
    assert_eq!(machine.hardware.clock_cycles(), 4);
    assert_eq!(machine.cpu.regs.h, 0x42);
}

#[test]
fn test_61() {
    let machine = run_test(
        &[0x61], // LD H, C
        |machine| {
            machine.cpu.regs.c = 0x42;
        },
    );
    assert_eq!(machine.hardware.clock_cycles(), 4);
    assert_eq!(machine.cpu.regs.h, 0x42);
}

#[test]
fn test_62() {
    let machine = run_test(
        &[0x62], // LD H, D
        |machine| {
            machine.cpu.regs.d = 0x42;
        },
    );
    assert_eq!(machine.hardware.clock_cycles(), 4);
    assert_eq!(machine.cpu.regs.h, 0x42);
}

#[test]
fn test_63() {
    let machine = run_test(
        &[0x63], // LD H, E
        |machine| {
            machine.cpu.regs.e = 0x42;
        },
    );
    assert_eq!(machine.hardware.clock_cycles(), 4);
    assert_eq!(machine.cpu.regs.h, 0x42);
}

#[test]
fn test_64() {
    let machine = run_test(
        &[0x64], // LD H, H
        |machine| {
            machine.cpu.regs.h = 0x42;
        },
    );
    assert_eq!(machine.hardware.clock_cycles(), 4);
    assert_eq!(machine.cpu.regs.h, 0x42);
}

#[test]
fn test_65() {
    let machine = run_test(
        &[0x65], // LD H, L
        |machine| {
            machine.cpu.regs.l = 0x42;
        },
    );
    assert_eq!(machine.hardware.clock_cycles(), 4);
    assert_eq!(machine.cpu.regs.h, 0x42);
}

#[test]
fn test_66() {
    let machine = run_test(
        &[0x66, 0xed, 0x42], // LD H, (HL)
        |machine| {
            machine.cpu.regs.h = 0x00;
            machine.cpu.regs.l = 0x02;
        },
    );
    assert_eq!(machine.hardware.clock_cycles(), 8);
    assert_eq!(machine.cpu.regs.h, 0x42);
}

#[test]
fn test_67() {
    let machine = run_test(
        &[0x67], // LD H, A
        |machine| {
            machine.cpu.regs.a = 0x42;
        },
    );
    assert_eq!(machine.hardware.clock_cycles(), 4);
    assert_eq!(machine.cpu.regs.h, 0x42);
}

#[test]
fn test_68() {
    let machine = run_test(
        &[0x68], // LD L, B
        |machine| {
            machine.cpu.regs.b = 0x42;
        },
    );
    assert_eq!(machine.hardware.clock_cycles(), 4);
    assert_eq!(machine.cpu.regs.l, 0x42);
}

#[test]
fn test_69() {
    let machine = run_test(
        &[0x69], // LD L, C
        |machine| {
            machine.cpu.regs.c = 0x42;
        },
    );
    assert_eq!(machine.hardware.clock_cycles(), 4);
    assert_eq!(machine.cpu.regs.l, 0x42);
}

#[test]
fn test_6a() {
    let machine = run_test(
        &[0x6a], // LD L, D
        |machine| {
            machine.cpu.regs.d = 0x42;
        },
    );
    assert_eq!(machine.hardware.clock_cycles(), 4);
    assert_eq!(machine.cpu.regs.l, 0x42);
}

#[test]
fn test_6b() {
    let machine = run_test(
        &[0x6b], // LD L, E
        |machine| {
            machine.cpu.regs.e = 0x42;
        },
    );
    assert_eq!(machine.hardware.clock_cycles(), 4);
    assert_eq!(machine.cpu.regs.l, 0x42);
}

#[test]
fn test_6c() {
    let machine = run_test(
        &[0x6c], // LD L, H
        |machine| {
            machine.cpu.regs.h = 0x42;
        },
    );
    assert_eq!(machine.hardware.clock_cycles(), 4);
    assert_eq!(machine.cpu.regs.l, 0x42);
}

#[test]
fn test_6d() {
    let machine = run_test(
        &[0x6d], // LD L, L
        |machine| {
            machine.cpu.regs.l = 0x42;
        },
    );
    assert_eq!(machine.hardware.clock_cycles(), 4);
    assert_eq!(machine.cpu.regs.l, 0x42);
}

#[test]
fn test_6e() {
    let machine = run_test(
        &[0x6e, 0xed, 0x42], // LD L, (HL)
        |machine| {
            machine.cpu.regs.h = 0x00;
            machine.cpu.regs.l = 0x02;
        },
    );
    assert_eq!(machine.hardware.clock_cycles(), 8);
    assert_eq!(machine.cpu.regs.l, 0x42);
}

#[test]
fn test_6f() {
    let machine = run_test(
        &[0x6f], // LD L, A
        |machine| {
            machine.cpu.regs.a = 0x42;
        },
    );
    assert_eq!(machine.hardware.clock_cycles(), 4);
    assert_eq!(machine.cpu.regs.l, 0x42);
}

#[test]
fn test_f0() {
    let machine = run_test(
        &[0xf0, 0x80], // LDH A, (n)
        |machine| {
            machine.hardware.memory[0xff80] = 0x42;
        },
    );
    assert_eq!(machine.hardware.clock_cycles(), 12);
    assert_eq!(machine.cpu.regs.a, 0x42);
}

#[test]
fn test_f2() {
    let machine = run_test(
        &[0xf2], // LDH A, (C)
        |machine| {
            machine.hardware.memory[0xff80] = 0x42;
            machine.cpu.regs.c = 0x80;
        },
    );
    assert_eq!(machine.hardware.clock_cycles(), 8);
    assert_eq!(machine.cpu.regs.a, 0x42);
}

#[test]
fn test_f3() {
    let machine = run_test(
        &[0xf3], // DI
        |machine| {
            machine.cpu.ime = true;
        },
    );
    assert_eq!(machine.hardware.clock_cycles(), 4);
    assert_eq!(machine.cpu.ime, false);
}

#[test]
fn test_fb() {
    let machine = run_test(
        &[0xfb], // EI
        |machine| {
            machine.cpu.ime = false;
        },
    );
    assert_eq!(machine.hardware.clock_cycles(), 4);
    assert_eq!(machine.cpu.ime, true);
}

fn test_add16<F: Fn(Flags) -> bool>(
    opcode: u8,
    hl: u16,
    reg: Reg16,
    x: u16,
    check_flags: F,
) -> bool {
    let machine = run_test(&[opcode], |machine| {
        machine.cpu.regs.write16(Reg16::HL, hl);
        machine.cpu.regs.write16(reg, x);
    });
    let expected = hl.wrapping_add(x);
    machine.hardware.clock_cycles() == 8
        && machine.cpu.regs.read16(Reg16::HL) == expected
        && check_flags(machine.cpu.regs.f)
}

#[test]
fn test_09() {
    assert!(test_add16(0x09, 0x0003, Reg16::BC, 0x0ffc, |f| f == Flags::empty()));
}

#[test]
fn test_09_carry() {
    assert!(test_add16(0x09, 0x5002, Reg16::BC, 0xb7fd, |f| f == Flags::from_bits_truncate(Flags::CARRY)));
}

#[test]
fn test_09_gb_manual() {
    assert!(test_add16(0x09, 0x8a23, Reg16::BC, 0x0605, |f| f == Flags::from_bits_truncate(Flags::HALF_CARRY)));
}

#[test]
fn test_19() {
    assert!(test_add16(0x19, 0x0003, Reg16::DE, 0x0ffc, |f| f == Flags::empty()));
}

#[test]
fn test_19_half_carry() {
    assert!(test_add16(0x19, 0x8a23, Reg16::DE, 0x0605, |f| f == Flags::from_bits_truncate(Flags::HALF_CARRY)));
}

#[test]
fn test_19_carry() {
    assert!(test_add16(0x19, 0x5002, Reg16::DE, 0xb7fd, |f| f == Flags::from_bits_truncate(Flags::CARRY)));
}

#[test]
fn test_29() {
    assert!(test_add16(0x29, 0x02aa, Reg16::HL, 0x02aa, |f| f == Flags::empty()));
}

#[test]
fn test_29_half_carry() {
    assert!(test_add16(0x29, 0x0fff, Reg16::HL, 0x0fff, |f| f == Flags::from_bits_truncate(Flags::HALF_CARRY)));
}

#[test]
fn test_29_carry() {
    assert!(test_add16(0x29, 0x8001, Reg16::HL, 0x8001, |f| f == Flags::from_bits_truncate(Flags::CARRY)));
}

#[test]
fn test_29_gb_manual() {
    assert!(test_add16(0x29, 0x8a23, Reg16::HL, 0x8a23, |f| f
        == Flags::from_bits_truncate(Flags::HALF_CARRY | Flags::CARRY)));
}

#[test]
fn test_39() {
    assert!(test_add16(0x39, 0x0003, Reg16::SP, 0x0ffc, |f| f == Flags::empty()));
}

#[test]
fn test_39_half_carry() {
    assert!(test_add16(0x39, 0x8a23, Reg16::SP, 0x0605, |f| f == Flags::from_bits_truncate(Flags::HALF_CARRY)));
}

#[test]
fn test_39_carry() {
    assert!(test_add16(0x39, 0x5002, Reg16::SP, 0xb7fd, |f| f == Flags::from_bits_truncate(Flags::CARRY)));
}

fn test_dec16(opcode: u8, x: u16, reg: Reg16) -> bool {
    let machine = run_test(&[opcode], |machine| {
        machine.cpu.regs.write16(reg, x);
    });
    let expected = x.wrapping_sub(1);
    machine.hardware.clock_cycles() == 8 && machine.cpu.regs.read16(reg) == expected
}

fn prop_0b(x: u16) -> bool {
    test_dec16(0x0b, x, Reg16::BC)
}

#[test]
fn test_0b() {
    quickcheck(prop_0b as fn(u16) -> bool);
}

#[test]
fn test_0b_overflow() {
    assert!(test_dec16(0x0b, 0x0000, Reg16::BC))
}

fn prop_1b(x: u16) -> bool {
    test_dec16(0x1b, x, Reg16::DE)
}

#[test]
fn test_1b() {
    quickcheck(prop_1b as fn(u16) -> bool);
}

#[test]
fn test_1b_overflow() {
    assert!(test_dec16(0x1b, 0x0000, Reg16::DE))
}

fn prop_2b(x: u16) -> bool {
    test_dec16(0x2b, x, Reg16::HL)
}

#[test]
fn test_2b() {
    quickcheck(prop_2b as fn(u16) -> bool);
}

#[test]
fn test_2b_overflow() {
    assert!(test_dec16(0x2b, 0x0000, Reg16::HL))
}

fn prop_3b(x: u16) -> bool {
    test_dec16(0x3b, x, Reg16::SP)
}

#[test]
fn test_3b() {
    quickcheck(prop_3b as fn(u16) -> bool);
}

#[test]
fn test_3b_overflow() {
    assert!(test_dec16(0x3b, 0x0000, Reg16::SP))
}

fn test_inc16(opcode: u8, x: u16, reg: Reg16) -> bool {
    let machine = run_test(&[opcode], |machine| {
        machine.cpu.regs.write16(reg, x);
    });
    let expected = x.wrapping_add(1);
    machine.hardware.clock_cycles() == 8 && machine.cpu.regs.read16(reg) == expected
}

fn prop_03(x: u16) -> bool {
    test_inc16(0x03, x, Reg16::BC)
}

#[test]
fn test_03() {
    quickcheck(prop_03 as fn(u16) -> bool);
}

#[test]
fn test_03_overflow() {
    assert!(test_inc16(0x03, 0xffff, Reg16::BC))
}

fn prop_13(x: u16) -> bool {
    test_inc16(0x13, x, Reg16::DE)
}

#[test]
fn test_13() {
    quickcheck(prop_13 as fn(u16) -> bool);
}

#[test]
fn test_13_overflow() {
    assert!(test_inc16(0x13, 0xffff, Reg16::DE))
}

fn prop_23(x: u16) -> bool {
    test_inc16(0x23, x, Reg16::HL)
}

#[test]
fn test_23() {
    quickcheck(prop_23 as fn(u16) -> bool);
}

#[test]
fn test_23_overflow() {
    assert!(test_inc16(0x23, 0xffff, Reg16::HL))
}

fn prop_33(x: u16) -> bool {
    test_inc16(0x33, x, Reg16::SP)
}

#[test]
fn test_33() {
    quickcheck(prop_33 as fn(u16) -> bool);
}

#[test]
fn test_33_overflow() {
    assert!(test_inc16(0x33, 0xffff, Reg16::SP))
}

fn test_load16(opcode: u8, x: u16, reg: Reg16) -> bool {
    let h = (x >> 8) as u8;
    let l = x as u8;
    let machine = run_test(&[opcode, l, h], |_| {});
    machine.hardware.clock_cycles() == 12 && machine.cpu.regs.read16(reg) == x
}

fn prop_01(x: u16) -> bool {
    test_load16(0x01, x, Reg16::BC)
}

#[test]
fn test_01() {
    quickcheck(prop_01 as fn(u16) -> bool);
}

fn prop_11(x: u16) -> bool {
    test_load16(0x11, x, Reg16::DE)
}

#[test]
fn test_11() {
    quickcheck(prop_11 as fn(u16) -> bool);
}

fn prop_21(x: u16) -> bool {
    test_load16(0x21, x, Reg16::HL)
}

#[test]
fn test_21() {
    quickcheck(prop_21 as fn(u16) -> bool);
}

fn prop_31(x: u16) -> bool {
    test_load16(0x31, x, Reg16::SP)
}

#[test]
fn test_31() {
    quickcheck(prop_31 as fn(u16) -> bool);
}

#[test]
fn test_08() {
    let machine = run_test(
        &[0x08, 0x04, 0x00, 0xed, 0x00, 0x00], // LD (nn), SP
        |machine| {
            machine.cpu.regs.sp = 0x8042;
        },
    );
    assert_eq!(machine.hardware.clock_cycles(), 20);
    assert_eq!(machine.hardware.memory[0x04], 0x42);
    assert_eq!(machine.hardware.memory[0x05], 0x80);
}

fn test_load16_hl_sp_e<F: Fn(Flags) -> bool>(sp: u16, e: i8, check_flags: F) -> bool {
    let machine = run_test(&[0xf8, e as u8], |machine| {
        machine.cpu.regs.write16(Reg16::SP, sp);
    });
    let expected = sp.wrapping_add(e as i16 as u16);
    machine.hardware.clock_cycles() == 12
        && machine.cpu.regs.read16(Reg16::HL) == expected
        && check_flags(machine.cpu.regs.f)
}

fn prop_f8(sp: u16, e: i8) -> bool {
    test_load16_hl_sp_e(sp, e, |_| true)
}

#[test]
fn test_f8() {
    quickcheck(prop_f8 as fn(u16, i8) -> bool);
}

#[test]
fn test_f8_overflow_inc() {
    assert!(test_load16_hl_sp_e(0xffff, 1, |f| f == Flags::from_bits_truncate(Flags::HALF_CARRY | Flags::CARRY)));
}

#[test]
fn test_f8_overflow_dec() {
    assert!(test_load16_hl_sp_e(0x0000, -1, |f| f == Flags::empty()));
}

fn prop_f9(hl: u16) -> bool {
    let machine = run_test(&[0xf9], |machine| {
        machine.cpu.regs.write16(Reg16::HL, hl);
    });
    machine.hardware.clock_cycles() == 8 && machine.cpu.regs.read16(Reg16::SP) == hl
}

#[test]
fn test_f9() {
    quickcheck(prop_f9 as fn(u16) -> bool);
}

fn test_pop16(opcode: u8, x: u16, reg: Reg16) -> bool {
    let h = (x >> 8) as u8;
    let l = x as u8;
    let machine = run_test(&[opcode, 0xed, l, h], |machine| {
        machine.cpu.regs.sp = 0x0002;
    });
    machine.hardware.clock_cycles() == 12
        && machine.cpu.regs.sp == 0x0004
        && machine.cpu.regs.read16(reg) == x
}

fn prop_c1(x: u16) -> bool {
    test_pop16(0xc1, x, Reg16::BC)
}

#[test]
fn test_c1() {
    quickcheck(prop_c1 as fn(u16) -> bool);
}

fn prop_d1(x: u16) -> bool {
    test_pop16(0xd1, x, Reg16::DE)
}

#[test]
fn test_d1() {
    quickcheck(prop_d1 as fn(u16) -> bool);
}

fn prop_e1(x: u16) -> bool {
    test_pop16(0xe1, x, Reg16::HL)
}

#[test]
fn test_e1() {
    quickcheck(prop_e1 as fn(u16) -> bool);
}

fn prop_f1(a: u8, f: u8) -> bool {
    let machine = run_test(&[0xf1, 0xed, f, a], |machine| {
        machine.cpu.regs.sp = 0x0002;
    });
    machine.hardware.clock_cycles() == 12
        && machine.cpu.regs.a == a
        && machine.cpu.regs.f == Flags::from_bits_truncate(f)
}

#[test]
fn test_f1() {
    quickcheck(prop_f1 as fn(u8, u8) -> bool);
}

#[test]
fn call_then_ret_comes_back_after_the_call() {
    // CALL 0x0006; LD A, 0x42; (0xed stops); at 0x0006: LD B, 0x24; RET
    let machine = run_test(&[0xcd, 0x06, 0x00, 0x3e, 0x42, 0xed, 0x06, 0x24, 0xc9], |machine| {
        machine.cpu.regs.sp = 0xfffe;
    });
    assert_eq!(machine.cpu.regs.b, 0x24);
    assert_eq!(machine.cpu.regs.a, 0x42);
    assert_eq!(machine.cpu.regs.sp, 0xfffe);
    assert_eq!(machine.cpu.regs.pc, 0x0006);
    assert_eq!(machine.hardware.memory[0xfffc], 0x03);
    assert_eq!(machine.hardware.memory[0xfffd], 0x00);
}
