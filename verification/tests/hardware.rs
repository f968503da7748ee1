//! The devices on the bus: sound registers, cartridge banking, interrupts,
//! the LCD controller and the memory map.
use mooneye_gb::config::cartridge::Cartridge as CartridgeConfig;
use mooneye_gb::config::cartridge::{CartridgeRamSize, CartridgeRomSize, CartridgeType};
use mooneye_gb::config::model::Model;
use mooneye_gb::config::HardwareConfig;
use mooneye_gb::cpu::CpuContext;
use mooneye_gb::gameboy::Color;
use mooneye_gb::hardware::apu::Apu;
use mooneye_gb::hardware::cartridge::{is_supported, Cartridge, Mbc};
use mooneye_gb::hardware::irq::{Interrupt, InterruptRequest, Irq};
use mooneye_gb::hardware::ppu::{Mode, Ppu};
use mooneye_gb::hardware::Hardware;
use mooneye_gb::hardware::Fault;
use mooneye_gb::hardware::interrupts::{InterruptLine, Interrupts};
use mooneye_gb::hardware::timer::Timer;

fn mbc1_config(banks: usize) -> CartridgeConfig {
    let mut data = vec![0u8; banks * 0x4000];
    for bank in 0..banks {
        data[bank * 0x4000] = bank as u8;
    }
    CartridgeConfig {
        data,
        title: String::from("TEST"),
        cartridge_type: CartridgeType::Mbc1 { ram: true, battery: false, multicart: false },
        rom_size: CartridgeRomSize::RomBanks64,
        ram_size: CartridgeRamSize::Ram32K,
    }
}

#[test]
fn apu_registers_read_back_with_masks() {
    let mut apu = Apu::new();
    apu.nr52_write_cycle(0x80);
    apu.nr11_write_cycle(0x00);
    assert_eq!(apu.nr11_read_cycle(), 0x3f);
    apu.nr11_write_cycle(0xc0);
    assert_eq!(apu.nr11_read_cycle(), 0xff);
    apu.nr10_write_cycle(0x00);
    assert_eq!(apu.nr10_read_cycle(), 0x80);
    apu.nr12_write_cycle(0x5a);
    assert_eq!(apu.nr12_read_cycle(), 0x5a);
    apu.nr13_write_cycle(0x12);
    assert_eq!(apu.nr13_read_cycle(), 0xff);
    apu.nr30_write_cycle(0x00);
    assert_eq!(apu.nr30_read_cycle(), 0x7f);
    apu.nr32_write_cycle(0x00);
    assert_eq!(apu.nr32_read_cycle(), 0x9f);
    apu.nr50_write_cycle(0x77);
    assert_eq!(apu.nr50_read_cycle(), 0x77);
    apu.nr51_write_cycle(0xf3);
    assert_eq!(apu.nr51_read_cycle(), 0xf3);
}

#[test]
fn apu_off_ignores_writes_and_resets() {
    let mut apu = Apu::new();
    apu.nr50_write_cycle(0x77);
    assert_eq!(apu.nr50_read_cycle(), 0x00);
    apu.nr52_write_cycle(0x80);
    apu.nr50_write_cycle(0x77);
    assert_eq!(apu.nr52_read_cycle(), 0xf0);
    apu.nr11_write_cycle(0xc0);
    apu.nr52_write_cycle(0x00);
    assert_eq!(apu.nr50_read_cycle(), 0x00);
    assert_eq!(apu.nr11_read_cycle(), 0x3f);
    assert_eq!(apu.nr10_read_cycle(), 0x80);
    assert_eq!(apu.nr52_read_cycle(), 0x70);
}

#[test]
fn apu_wave_ram_is_written_while_off() {
    let mut apu = Apu::new();
    apu.wave_ram_write_cycle(0xff35, 0xab);
    assert_eq!(apu.wave_ram_read_cycle(0xff35), 0xab);
    assert_eq!(apu.read_cycle(0xff35), 0xab);
}

#[test]
fn apu_channel_status_after_trigger() {
    let mut apu = Apu::new();
    apu.nr52_write_cycle(0x80);
    apu.nr14_write_cycle(0x80);
    assert_eq!(apu.nr52_read_cycle(), 0xf1);
}

#[test]
fn mbc1_bank_zero_selects_bank_one() {
    let mut cartridge = Cartridge::new(mbc1_config(64));
    assert_eq!(cartridge.read_4000_7fff(0x4000), 1);
    cartridge.write_control(0x2000, 0x00);
    assert_eq!(cartridge.read_4000_7fff(0x4000), 1);
    cartridge.write_control(0x2000, 0x05);
    assert_eq!(cartridge.read_4000_7fff(0x4000), 5);
    cartridge.write_control(0x4000, 0x01);
    assert_eq!(cartridge.read_4000_7fff(0x4000), 0x25);
    assert_eq!(cartridge.read_0000_3fff(0x0000), 0);
    cartridge.write_control(0x6000, 0x01);
    assert_eq!(cartridge.read_0000_3fff(0x0000), 0x20);
}

#[test]
fn mbc1_ram_needs_enable() {
    let mut cartridge = Cartridge::new(mbc1_config(64));
    cartridge.write_a000_bfff(0xa000, 0x42);
    assert_eq!(cartridge.read_a000_bfff(0xa000, 0xff), 0xff);
    cartridge.write_control(0x0000, 0x0a);
    cartridge.write_a000_bfff(0xa000, 0x42);
    assert_eq!(cartridge.read_a000_bfff(0xa000, 0xff), 0x42);
    cartridge.write_control(0x0000, 0x00);
    assert_eq!(cartridge.read_a000_bfff(0xa000, 0xff), 0xff);
}

#[test]
fn mbc2_ram_keeps_four_bits() {
    let mut config = mbc1_config(4);
    config.cartridge_type = CartridgeType::Mbc2 { battery: false };
    config.ram_size = CartridgeRamSize::NoRam;
    let mut cartridge = Cartridge::new(config);
    assert_eq!(cartridge.ram.len(), 512);
    cartridge.write_control(0x0000, 0x0a);
    cartridge.write_a000_bfff(0xa001, 0xab);
    assert_eq!(cartridge.read_a000_bfff(0xa001, 0xff), 0xfb);
    cartridge.write_control(0x0100, 0x03);
    assert_eq!(cartridge.read_4000_7fff(0x4000), 3);
}

#[test]
fn unsupported_cartridge_types() {
    assert!(!is_supported(CartridgeType::Mbc6));
    assert!(!is_supported(CartridgeType::Huc3));
    assert!(is_supported(CartridgeType::Huc1));
    let config = mbc1_config(4);
    assert_eq!(
        Mbc::from_config(&config),
        Cartridge::new(mbc1_config(4)).mbc
    );
}

#[test]
fn irq_acknowledges_the_highest_priority() {
    let mut irq = Irq::new();
    irq.set_interrupt_enable(0x1f);
    irq.request_t12_interrupt(Interrupt::TimerOverflow);
    irq.request_t12_interrupt(Interrupt::LcdStat);
    assert!(irq.has_mid_interrupt());
    assert_eq!(irq.ack_interrupt(), Some(Interrupt::LcdStat));
    assert_eq!(irq.ack_interrupt(), Some(Interrupt::TimerOverflow));
    assert_eq!(irq.ack_interrupt(), None);
    assert_eq!(Interrupt::Joypad.get_addr(), 0x60);
    assert_eq!(Interrupt::from_u8(3), None);
}

#[test]
fn irq_late_request_is_seen_at_the_end() {
    let mut irq = Irq::new();
    irq.set_interrupt_enable(0x01);
    irq.request_t34_interrupt(Interrupt::VBlank);
    assert!(!irq.has_mid_interrupt());
    assert!(irq.has_end_interrupt());
    irq.begin_cycle();
    assert!(irq.has_mid_interrupt());
    assert_eq!(irq.get_interrupt_flag(), 0xe1);
}

#[test]
fn ppu_lcd_timing() {
    let mut ppu = Ppu::new();
    let mut irq = Irq::new();
    let mut events = mooneye_gb::emulation::EmuEvents::empty();
    ppu.set_control(0x80);
    assert_eq!(ppu.get_stat() & 0x03, 0);
    for _ in 0..21 {
        ppu.emulate(&mut irq, &mut events);
    }
    assert_eq!(ppu.get_current_line(), 1);
    assert_eq!(ppu.mode, Mode::AccessOam);
    for _ in 0..21 {
        ppu.emulate(&mut irq, &mut events);
    }
    assert_eq!(ppu.mode, Mode::AccessVram);
    assert_eq!(ppu.get_stat() & 0x03, 3);
    assert_eq!(ppu.read_video_ram(0x0000), 0xff);
    for _ in 0..43 {
        ppu.emulate(&mut irq, &mut events);
    }
    assert_eq!(ppu.mode, Mode::HBlank);
    for _ in 0..50 {
        ppu.emulate(&mut irq, &mut events);
    }
    assert_eq!(ppu.get_current_line(), 2);
    assert_eq!(ppu.mode, Mode::AccessOam);
}

#[test]
fn ppu_vblank_raises_the_interrupt_and_vsync() {
    let mut ppu = Ppu::new();
    let mut irq = Irq::new();
    let mut events = mooneye_gb::emulation::EmuEvents::empty();
    ppu.set_control(0x80);
    let mut cycles = 0;
    while ppu.mode != Mode::VBlank {
        ppu.emulate(&mut irq, &mut events);
        cycles += 1;
    }
    assert_eq!(ppu.get_current_line(), 144);
    assert_eq!(irq.end_intr & 0x01, 0x01);
    assert!(events.contains(mooneye_gb::emulation::EmuEvents::VSYNC));
    assert!(cycles > 144 * 100);
}

#[test]
fn ppu_draws_the_background() {
    let mut ppu = Ppu::new();
    let mut irq = Irq::new();
    let mut events = mooneye_gb::emulation::EmuEvents::empty();
    // Tile 0: every row has its leftmost pixel of colour 3.
    for row in 0..8 {
        ppu.write_video_ram(row * 2, 0x80);
        ppu.write_video_ram(row * 2 + 1, 0x80);
    }
    ppu.set_bg_palette(0xe4);
    ppu.set_control(0x91);
    while ppu.mode != Mode::HBlank || ppu.get_current_line() != 1 {
        ppu.emulate(&mut irq, &mut events);
    }
    assert_eq!(ppu.back_buffer[160], Color::On);
    assert_eq!(ppu.back_buffer[161], Color::Off);
    assert_eq!(ppu.back_buffer[168], Color::On);
}

fn hardware() -> Hardware {
    Hardware::new(HardwareConfig {
        model: Model::Dmg,
        bootrom: None,
        cartridge: CartridgeConfig::no_cartridge(),
    })
}

#[test]
fn work_ram_and_its_echo() {
    let mut hw = hardware();
    hw.write_cycle(0xc123, 0x5a);
    assert_eq!(hw.read_cycle(0xc123), 0x5a);
    assert_eq!(hw.read_cycle(0xe123), 0x5a);
    hw.write_cycle(0xfd00, 0x77);
    assert_eq!(hw.read_cycle(0xdd00), 0x77);
    assert_eq!(hw.emu_time().machine_cycles, 5);
}

#[test]
fn high_ram_and_interrupt_registers() {
    let mut hw = hardware();
    hw.write_cycle(0xff80, 0x12);
    assert_eq!(hw.read_cycle(0xff80), 0x12);
    hw.write_cycle(0xffff, 0x1f);
    assert_eq!(hw.read_cycle(0xffff), 0x1f);
    hw.write_cycle(0xff0f, 0x04);
    assert_eq!(hw.read_cycle(0xff0f), 0xe4);
    assert_eq!(hw.get_mid_interrupt().bits, 0x04);
}

#[test]
fn unusable_area_is_a_fault() {
    let mut hw = hardware();
    assert_eq!(hw.fault(), None);
    assert_eq!(hw.read_cycle(0xfea0), 0xff);
    assert_eq!(hw.fault(), Some(Fault::UnsupportedRead { addr: 0xfea0 }));
}

#[test]
fn lcd_off_outside_vblank_is_a_fault() {
    let mut hw = hardware();
    hw.write_cycle(0xff40, 0x80);
    hw.write_cycle(0xff40, 0x00);
    assert_eq!(hw.fault(), Some(Fault::LcdOffOutsideVBlank));
}

#[test]
fn oam_dma_holds_oam() {
    let mut hw = hardware();
    hw.write_cycle(0xff46, 0xc0);
    hw.tick_cycle();
    hw.tick_cycle();
    assert_eq!(hw.read_cycle(0xfe00), 0xff);
    for _ in 0..0xa0 {
        hw.tick_cycle();
    }
    assert_eq!(hw.read_cycle(0xff46), 0xc0);
}

#[test]
fn timer_divider_counts_machine_cycles() {
    let mut hw = hardware();
    for _ in 0..63 {
        hw.tick_cycle();
    }
    assert_eq!(hw.read_cycle(0xff04), 1);
    hw.write_cycle(0xff04, 0x55);
    assert_eq!(hw.read_cycle(0xff04), 0);
}

#[test]
fn ppu_sprite_with_lower_x_wins() {
    let mut ppu = Ppu::new();
    let mut irq = Irq::new();
    let mut events = mooneye_gb::emulation::EmuEvents::empty();
    // Tile 1: every pixel of colour 3.
    for i in 16..32 {
        ppu.write_video_ram(i, 0xff);
    }
    ppu.set_obj_palette0(0xe4);
    ppu.set_obj_palette1(0x40);
    ppu.set_control(0x92);
    // Two sprites covering lines 1 to 8: A at x 10, B at x 12 with palette 1.
    let sprites = [(17u8, 18u8, 1u8, 0x00u8), (17, 20, 1, 0x10)];
    for (k, (y, x, tile, flags)) in sprites.iter().enumerate() {
        let base = (k * 4) as u16;
        ppu.write_oam(base, *y);
        ppu.write_oam(base + 1, *x);
        ppu.write_oam(base + 2, *tile);
        ppu.write_oam(base + 3, *flags);
    }
    while ppu.mode != Mode::HBlank || ppu.get_current_line() != 1 {
        ppu.emulate(&mut irq, &mut events);
    }
    let line = 160;
    assert_eq!(ppu.back_buffer[line + 9], Color::Off);
    assert_eq!(ppu.back_buffer[line + 10], Color::On);
    assert_eq!(ppu.back_buffer[line + 12], Color::On);
    assert_eq!(ppu.back_buffer[line + 17], Color::On);
    assert_eq!(ppu.back_buffer[line + 18], Color::Light);
    assert_eq!(ppu.back_buffer[line + 19], Color::Light);
    assert_eq!(ppu.back_buffer[line + 20], Color::Off);
}

#[test]
fn interrupt_lines_and_registers() {
    let line = InterruptLine::from_bits_truncate(0xec);
    assert_eq!(line.bits(), 0x0c);
    assert_eq!(line.highest_priority().bits(), InterruptLine::TIMER);
    assert!(InterruptLine::empty().highest_priority().is_empty());
    let mut interrupts = Interrupts::new();
    interrupts.set_interrupt_enable(0x05);
    interrupts.set_interrupt_flag(0xff);
    assert_eq!(interrupts.get_interrupt_flag(), 0xff);
    assert_eq!(interrupts.get_interrupt().bits(), 0x05);
    interrupts.ack_interrupt(InterruptLine::from_bits_truncate(InterruptLine::VBLANK));
    assert_eq!(interrupts.get_interrupt().bits(), 0x04);
    assert_eq!(interrupts.get_interrupt_flag(), 0xfe);
}

#[test]
fn timer_overflow_requests_the_interrupt() {
    let mut timer = Timer::new();
    let mut irq = Irq::new();
    timer.tma_write_cycle(0xf0, &mut irq);
    timer.tima_write_cycle(0xff, &mut irq);
    // Enable the timer at 262144 Hz: TIMA counts every four cycles.
    timer.tac_write_cycle(0x05, &mut irq);
    let mut cycles = 0;
    while irq.end_intr & 0x04 == 0 {
        timer.tick_cycle(&mut irq);
        cycles += 1;
        assert!(cycles < 16);
    }
    assert_eq!(timer.counter, 0xf0);
}

#[test]
fn video_registers_read_back() {
    let mut hw = hardware();
    for (addr, value) in [(0xff42u16, 0x12u8), (0xff43, 0x34), (0xff45, 0x56), (0xff47, 0xe4), (0xff4a, 0x78), (0xff4b, 0x9a), (0xff01, 0xbc)] {
        hw.write_cycle(addr, value);
        assert_eq!(hw.read_cycle(addr), value);
    }
    // STAT reads as 0x80 while the LCD is off.
    hw.write_cycle(0xff41, 0x78);
    assert_eq!(hw.read_cycle(0xff41), 0x80);
}

#[test]
fn video_ram_takes_a_write_while_the_lcd_is_off() {
    let mut hw = hardware();
    hw.write_cycle(0x8123, 0x3c);
    assert_eq!(hw.peripherals.ppu.vram[0x123], 0x3c);
    assert_eq!(hw.read_cycle(0x8123), 0x3c);
}

#[test]
fn high_ram_survives_other_cycles() {
    let mut hw = hardware();
    hw.write_cycle(0xff90, 0xa5);
    hw.write_cycle(0xffff, 0x03);
    hw.tick_cycle();
    hw.write_cycle(0xc000, 0x11);
    assert_eq!(hw.read_cycle(0xff90), 0xa5);
    assert_eq!(hw.read_cycle(0xffff), 0x03);
}

#[test]
fn oam_dma_register_requests_a_transfer() {
    let mut hw = hardware();
    hw.write_cycle(0xff46, 0xc1);
    assert_eq!(hw.peripherals.oam_dma.requested, Some(0xc1));
    assert_eq!(hw.read_cycle(0xff46), 0xff);
    hw.tick_cycle();
    assert_eq!(hw.read_cycle(0xff46), 0xc1);
}

#[test]
fn serial_control_keeps_its_two_bits() {
    let mut hw = hardware();
    hw.write_cycle(0xff02, 0xff);
    assert_eq!(hw.peripherals.serial.control, 0x81);
}

#[test]
fn key_press_requests_the_joypad_interrupt_and_shows_in_p1() {
    let mut hw = hardware();
    // Select the action keys (P15 low).
    hw.write_cycle(0xff00, 0x10);
    assert_eq!(hw.peek(0xff00) & 0x0f, 0x0f);
    hw.key_down(mooneye_gb::GbKey::A);
    assert_eq!(hw.peek(0xff00) & 0x0f, 0x0e);
    assert_eq!(hw.peek(0xff0f) & 0x10, 0x10);
    hw.key_up(mooneye_gb::GbKey::A);
    assert_eq!(hw.peek(0xff00) & 0x0f, 0x0f);
}

#[test]
fn timer_registers_take_writes() {
    let mut hw = hardware();
    hw.write_cycle(0xff06, 0x80);
    hw.write_cycle(0xff05, 0xfe);
    hw.write_cycle(0xff07, 0x05);
    assert_eq!(hw.peripherals.timer.modulo, 0x80);
    assert_eq!(hw.peripherals.timer.counter, 0xfe);
    assert!(hw.peripherals.timer.enabled);
    assert_eq!(hw.read_cycle(0xff07), 0xfd);
    hw.write_cycle(0xff04, 0x12);
    assert_eq!(hw.peripherals.timer.internal_counter, 0);
}

#[test]
fn wave_ram_takes_a_write() {
    let mut hw = hardware();
    hw.write_cycle(0xff35, 0x9c);
    assert_eq!(hw.peripherals.apu.ch3.wave_ram[5], 0x9c);
    assert_eq!(hw.read_cycle(0xff35), 0x9c);
}
