//! A whole machine running programs from a cartridge.
use mooneye_gb::config::cartridge::Cartridge;
use mooneye_gb::config::model::Model;
use mooneye_gb::config::HardwareConfig;
use mooneye_gb::emulation::{EmuEvents, EmuTime};
use mooneye_gb::hardware::bootrom::BootromData;
use mooneye_gb::machine::{Machine, MachineFault};

fn machine_with_program(program: &[u8]) -> Machine {
    let mut data = vec![0u8; 0x8000];
    data[..program.len()].copy_from_slice(program);
    data[0x134..0x138].copy_from_slice(b"TEST");
    let cartridge = Cartridge::from_data(data).unwrap();
    Machine::new(HardwareConfig { model: Model::Dmg, bootrom: None, cartridge })
}

#[test]
fn machine_runs_a_program() {
    // LD A, 0x42; LD (0xc000), A; LD B, A; JR -2
    let mut machine = machine_with_program(&[0x3e, 0x42, 0xea, 0x00, 0xc0, 0x47, 0x18, 0xfe]);
    for _ in 0..6 {
        machine.emulate_step();
    }
    assert_eq!(machine.regs().a, 0x42);
    assert_eq!(machine.regs().b, 0x42);
    assert_eq!(machine.hardware.peek(0xc000), 0x42);
    assert_eq!(machine.fault(), None);
}

#[test]
fn machine_emulates_until_the_target_time() {
    let mut machine = machine_with_program(&[0x18, 0xfe]);
    let (events, time) = machine.emulate(EmuTime::from_machine_cycles(1000));
    assert!(events.is_empty());
    assert!(time.machine_cycles >= 1000);
    assert_eq!(machine.emu_time(), time);
}

#[test]
fn machine_stops_on_an_undefined_opcode() {
    let mut machine = machine_with_program(&[0x00, 0xd3]);
    machine.emulate_step();
    machine.emulate_step();
    assert_eq!(machine.fault(), Some(MachineFault::UndefinedOpcode { opcode: 0xd3 }));
    let before = machine.emu_time();
    machine.emulate_step();
    assert_eq!(machine.emu_time(), before);
}

#[test]
fn machine_reports_vsync() {
    // Switch the LCD on, then loop.
    let mut machine = machine_with_program(&[0x3e, 0x80, 0xe0, 0x40, 0x18, 0xfe]);
    let (events, _) = machine.emulate(EmuTime::from_machine_cycles(100_000));
    assert!(events.contains(mooneye_gb::emulation::EmuEvents::VSYNC));
    assert_eq!(machine.screen_buffer().len(), 160 * 144);
}

#[test]
fn key_presses_reach_the_joypad() {
    let mut machine = machine_with_program(&[0x18, 0xfe]);
    machine.key_down(mooneye_gb::GbKey::A);
    assert_eq!(machine.hardware.peripherals.joypad.pressed_button & 0x01, 0x01);
    machine.key_up(mooneye_gb::GbKey::A);
    assert_eq!(machine.hardware.peripherals.joypad.pressed_button & 0x01, 0x00);
}

fn machine_with_code(code: &[(usize, &[u8])], bootrom: Option<BootromData>) -> Machine {
    let mut data = vec![0u8; 0x8000];
    for (at, bytes) in code {
        data[*at..*at + bytes.len()].copy_from_slice(bytes);
    }
    data[0x134..0x138].copy_from_slice(b"TEST");
    let cartridge = Cartridge::from_data(data).unwrap();
    Machine::new(HardwareConfig { model: Model::Dmg, bootrom, cartridge })
}

#[test]
fn dispatch_serves_the_highest_priority_interrupt() {
    // LD SP, 0xfffe; LD A, 0x06; LDH (IE), A; LDH (IF), A; EI; NOP; JR -2,
    // and a loop at the STAT vector 0x48.
    let program: &[u8] =
        &[0x31, 0xfe, 0xff, 0x3e, 0x06, 0xe0, 0xff, 0xe0, 0x0f, 0xfb, 0x00, 0x18, 0xfe];
    let mut machine = machine_with_code(&[(0, program), (0x48, &[0x18, 0xfe])], None);
    for _ in 0..14 {
        machine.emulate_step();
    }
    assert_eq!(machine.regs().pc, 0x49);
    assert_eq!(machine.hardware.peek(0xff0f) & 0x1f, 0x04);
    assert!(!machine.cpu.ime);
    // The return address, 0x000b, is on the stack.
    assert_eq!(machine.regs().sp, 0xfffc);
    assert_eq!(machine.hardware.peek(0xfffc), 0x0b);
    assert_eq!(machine.hardware.peek(0xfffd), 0x00);
}

#[test]
fn emulate_runs_a_step_when_the_target_time_has_passed() {
    let mut machine = machine_with_program(&[0x18, 0xfe]);
    let (events, time) = machine.emulate(EmuTime::from_machine_cycles(0));
    assert!(events.is_empty());
    assert!(time.machine_cycles > 0);
}

#[test]
fn writing_the_boot_rom_switch_raises_the_event() {
    // In the boot ROM: LD A, 0x01; LDH (0x50), A; then the cartridge runs.
    let mut image = vec![0u8; 0x100];
    image[..4].copy_from_slice(&[0x3e, 0x01, 0xe0, 0x50]);
    let mut machine = machine_with_code(&[(0x100, &[0x18, 0xfe])], Some(BootromData(image)));
    assert!(machine.hardware.peripherals.bootrom.active);
    let (events, _) = machine.emulate(EmuTime::from_machine_cycles(1000));
    assert!(events.contains(EmuEvents::BOOTROM_DISABLED));
    assert!(!machine.hardware.peripherals.bootrom.active);
}

#[test]
fn writing_zero_to_the_boot_rom_switch_keeps_it_on() {
    // LD A, 0x00; LDH (0x50), A; JR -2
    let mut image = vec![0u8; 0x100];
    image[..6].copy_from_slice(&[0x3e, 0x00, 0xe0, 0x50, 0x18, 0xfe]);
    let mut machine = machine_with_code(&[], Some(BootromData(image)));
    let (events, _) = machine.emulate(EmuTime::from_machine_cycles(100));
    assert!(!events.contains(EmuEvents::BOOTROM_DISABLED));
    assert!(machine.hardware.peripherals.bootrom.active);
}
