//! A whole Game Boy: the CPU stepping against the hardware.
use vstd::prelude::*;
use crate::config::HardwareConfig;
use crate::cpu::decode::exec_post;
use crate::cpu::decode::is_defined_opcode;
use crate::cpu::dispatch_post;
use crate::cpu::halt_wait_post;
use crate::cpu::registers::Registers;
use crate::cpu::CpuContext;
use crate::cpu::Cpu;
use crate::cpu::Step;
use crate::cpu::cycles;
use crate::emulation::EmuEvents;
use crate::emulation::EmuTime;
use crate::gameboy::Color;
use crate::hardware::cartridge::spec_is_supported;
use crate::hardware::Fault;
use crate::hardware::Hardware;
use crate::GbKey;

verus! {

/// Why a machine stopped.
#[derive(Clone, Copy, Debug, PartialEq, Eq, Structural)]
pub enum MachineFault {
    /// The hardware met something it does not emulate.
    Hardware { fault: Fault },
    /// The CPU fetched an opcode that does not exist, or STOP.
    UndefinedOpcode { opcode: u8 },
}

/// A Game Boy.
#[derive(Clone)]
pub struct Machine {
    pub cpu: Cpu,
    pub hardware: Hardware,
    pub step: Step,
}

impl Machine {
    pub open spec fn wf(&self) -> bool {
        self.hardware.wf()
    }

    /// Why the machine cannot go on, if it cannot.
    pub open spec fn spec_fault(&self) -> Option<MachineFault> {
        match self.hardware.fault {
            Some(fault) => Some(MachineFault::Hardware { fault }),
            None => if self.step == Step::Running && !is_defined_opcode(self.cpu.opcode) {
                Some(MachineFault::UndefinedOpcode { opcode: self.cpu.opcode })
            } else {
                None
            },
        }
    }

    pub fn new(config: HardwareConfig) -> (r: Machine)
        requires
            config.wf(),
            spec_is_supported(config.cartridge.cartridge_type),
        ensures
            r.wf(),
            r.cpu.regs == Registers::initial(),
            !r.cpu.ime,
            r.cpu.opcode == 0,
            r.step == Step::Running,
            r.hardware.emu_time.machine_cycles == 0,
            r.hardware.trace@.len() == 0,
            r.hardware.trace_consistent(),
            r.hardware.fault is None,
            r.hardware.emu_events.bits == 0,
            r.hardware.irq == (crate::hardware::irq::Irq { mid_intr: 0, end_intr: 0, int_enable: 0 }),
            r.hardware.peripherals.bootrom.active == config.bootrom.is_some(),
            r.hardware.peripherals.cartridge.rom@ == config.cartridge.data@,
            r.hardware.peripherals.hiram@ == Seq::new(crate::gameboy::HIRAM_SIZE as nat, |i: int| 0u8),
            !r.hardware.peripherals.ppu.spec_lcd_on(),
    {
        Machine { cpu: Cpu::new(), hardware: Hardware::new(config), step: Step::Running }
    }

    pub fn fault(&self) -> (r: Option<MachineFault>)
        ensures
            r == self.spec_fault(),
    {
        match self.hardware.fault() {
            Some(fault) => Some(MachineFault::Hardware { fault }),
            None => if self.step == Step::Running && !crate::cpu::decode::defined_opcode(
                self.cpu.opcode,
            ) {
                Some(MachineFault::UndefinedOpcode { opcode: self.cpu.opcode })
            } else {
                None
            },
        }
    }

    /// Runs one step of the CPU, unless the machine has stopped, and hands
    /// out the events raised so far and the time.
    pub fn emulate_step(&mut self) -> (r: (EmuEvents, EmuTime))
        ensures
            old(self).spec_fault() is Some || !old(self).wf() ==> final(self).cpu == old(self).cpu
                && final(self).step == old(self).step && final(self).hardware.trace
                == old(self).hardware.trace,
            old(self).spec_fault() is None && old(self).wf() ==> self_step_post(
                *old(self),
                *final(self),
            ),
            old(self).spec_fault() is Some || !old(self).wf() ==> r.0 == old(self).hardware.emu_events,
            r.1 == final(self).hardware.emu_time,
            final(self).hardware.emu_events.bits == 0,
            old(self).hardware.trace_consistent() ==> final(self).hardware.trace_consistent(),
    {
        if self.fault().is_none() && self.hardware.check_wf() {
            self.step = self.cpu.execute_step(&mut self.hardware, self.step);
        }
        let events = self.hardware.ack_emu_events();
        (events, self.hardware.emu_time())
    }

    /// Runs steps until an event is raised, the time reaches `target_time`
    /// or the machine stops; hands out the events and the time. At least
    /// one step runs unless the machine had stopped already.
    pub fn emulate(&mut self, target_time: EmuTime) -> (r: (EmuEvents, EmuTime))
        ensures
            r.1 == final(self).hardware.emu_time,
            final(self).hardware.emu_events.bits == 0,
            crate::cpu::appends(old(self).hardware.trace@, final(self).hardware.trace@),
            old(self).hardware.trace_consistent() ==> final(self).hardware.trace_consistent(),
            old(self).spec_fault() is None && old(self).wf() ==> crate::cpu::grows(
                old(self).hardware.trace@,
                final(self).hardware.trace@,
            ),
            old(self).spec_fault() is Some || !old(self).wf() ==> final(self).cpu == old(self).cpu
                && final(self).step == old(self).step && final(self).hardware.trace
                == old(self).hardware.trace && r.0 == old(self).hardware.emu_events,
            old(self).spec_fault() is None && old(self).wf() ==> cycles(old(self).hardware.trace@)
                < cycles(final(self).hardware.trace@),
            old(self).spec_fault() is None && old(self).hardware.trace_consistent() && cycles(
                final(self).hardware.trace@,
            ) < 0x1_0000_0000_0000_0000 ==> r.1.machine_cycles
                > old(self).hardware.emu_time.machine_cycles,
            old(self).hardware.trace_consistent() ==> final(self).wf(),
            r.0.bits != 0 || r.1.machine_cycles >= target_time.machine_cycles
                || final(self).spec_fault() is Some || !old(self).hardware.trace_consistent()
                || cycles(final(self).hardware.trace@) >= 0x1_0000_0000_0000_0000,
    {
        let ghost start = *self;
        let ghost mut stepped = false;
        loop
            invariant
                crate::cpu::appends(start.hardware.trace@, self.hardware.trace@),
                stepped ==> crate::cpu::grows(start.hardware.trace@, self.hardware.trace@),
                !stepped ==> *self == start,
                stepped ==> start.spec_fault() is None && start.wf(),
                start.hardware.trace_consistent() ==> self.hardware.trace_consistent(),
                cycles(start.hardware.trace@) <= cycles(self.hardware.trace@),
                stepped ==> cycles(start.hardware.trace@) < cycles(self.hardware.trace@),
            ensures
                crate::cpu::appends(start.hardware.trace@, self.hardware.trace@),
                stepped ==> crate::cpu::grows(start.hardware.trace@, self.hardware.trace@),
                !stepped ==> *self == start,
                stepped ==> start.spec_fault() is None && start.wf(),
                start.hardware.trace_consistent() ==> self.hardware.trace_consistent(),
                cycles(start.hardware.trace@) <= cycles(self.hardware.trace@),
                stepped ==> cycles(start.hardware.trace@) < cycles(self.hardware.trace@),
                start.spec_fault() is None && start.wf() ==> stepped,
                self.hardware.emu_events.bits != 0 || self.hardware.emu_time.machine_cycles
                    >= target_time.machine_cycles || self.spec_fault() is Some
                    || !start.hardware.trace_consistent() || cycles(self.hardware.trace@)
                    >= 0x1_0000_0000_0000_0000,
            decreases target_time.machine_cycles - self.hardware.emu_time.machine_cycles,
        {
            if self.fault().is_some() || !self.hardware.check_wf() {
                break ;
            }
            let before = self.hardware.emu_time();
            let ghost pre = self.hardware;
            self.step = self.cpu.execute_step(&mut self.hardware, self.step);
            proof {
                stepped = true;
            }
            let now = self.hardware.emu_time();
            if !self.hardware.emu_events().is_empty() || now.machine_cycles
                >= target_time.machine_cycles || now.machine_cycles <= before.machine_cycles {
                proof {
                    if now.machine_cycles <= before.machine_cycles && start.hardware.trace_consistent() {
                        lemma_clock_wrapped(
                            cycles(pre.trace@),
                            cycles(self.hardware.trace@),
                            before.machine_cycles,
                            now.machine_cycles,
                        );
                    }
                }
                break ;
            }
        }
        proof {
            if stepped && start.hardware.trace_consistent() && cycles(self.hardware.trace@)
                < 0x1_0000_0000_0000_0000 {
                vstd::arithmetic::div_mod::lemma_small_mod(
                    cycles(self.hardware.trace@),
                    0x1_0000_0000_0000_0000,
                );
                vstd::arithmetic::div_mod::lemma_small_mod(
                    cycles(start.hardware.trace@),
                    0x1_0000_0000_0000_0000,
                );
            }
        }
        let events = self.hardware.ack_emu_events();
        (events, self.hardware.emu_time())
    }

    pub fn emu_time(&self) -> (r: EmuTime)
        ensures
            r == self.hardware.emu_time,
    {
        self.hardware.emu_time()
    }

    /// Presses a key, which requests the joypad interrupt.
    pub fn key_down(&mut self, key: GbKey)
        ensures
            old(self).wf() ==> final(self).wf() && *final(self) == (Machine {
                hardware: Hardware {
                    peripherals: crate::hardware::Peripherals {
                        joypad: old(self).hardware.peripherals.joypad.spec_key_down(key),
                        ..old(self).hardware.peripherals
                    },
                    irq: old(self).hardware.irq.spec_request_t12(
                        crate::hardware::irq::Interrupt::Joypad.spec_bits(),
                    ),
                    ..old(self).hardware
                },
                ..*old(self)
            }),
            !old(self).wf() ==> *final(self) == *old(self),
            old(self).hardware.trace_consistent() ==> final(self).hardware.trace_consistent(),
    {
        if self.hardware.check_wf() {
            self.hardware.key_down(key);
        }
    }

    /// Releases a key.
    pub fn key_up(&mut self, key: GbKey)
        ensures
            old(self).wf() ==> final(self).wf() && *final(self) == (Machine {
                hardware: Hardware {
                    peripherals: crate::hardware::Peripherals {
                        joypad: old(self).hardware.peripherals.joypad.spec_key_up(key),
                        ..old(self).hardware.peripherals
                    },
                    ..old(self).hardware
                },
                ..*old(self)
            }),
            !old(self).wf() ==> *final(self) == *old(self),
            old(self).hardware.trace_consistent() ==> final(self).hardware.trace_consistent(),
    {
        if self.hardware.check_wf() {
            self.hardware.key_up(key);
        }
    }

    pub fn regs(&self) -> (r: Registers)
        ensures
            r == self.cpu.regs,
    {
        self.cpu.regs
    }

    pub fn screen_buffer(&self) -> (r: &Vec<Color>)
        ensures
            r@ == self.hardware.peripherals.ppu.back_buffer@,
    {
        self.hardware.screen_buffer()
    }
}

/// A clock that counts cycles modulo 2^64 only stays put or goes back over
/// a step of at least one cycle once the count passed 2^64.
proof fn lemma_clock_wrapped(c0: nat, c1: nat, t0: u64, t1: u64)
    requires
        c0 < c1,
        t0 as int == c0 as int % 0x1_0000_0000_0000_0000,
        t1 as int == c1 as int % 0x1_0000_0000_0000_0000,
        t1 <= t0,
    ensures
        c1 >= 0x1_0000_0000_0000_0000,
{
    if c1 < 0x1_0000_0000_0000_0000 {
        vstd::arithmetic::div_mod::lemma_small_mod(c1, 0x1_0000_0000_0000_0000);
        vstd::arithmetic::div_mod::lemma_small_mod(c0, 0x1_0000_0000_0000_0000);
    }
}

/// What one step of the CPU did to the machine, as the CPU's contract
/// states it.
pub open spec fn self_step_post(pre: Machine, post: Machine) -> bool {
    let t0 = pre.hardware.trace@;
    let t1 = post.hardware.trace@;
    &&& crate::cpu::grows(t0, t1)
    &&& pre.step == Step::Running ==> exec_post(
        pre.cpu.opcode,
        pre.cpu,
        t0,
        t1,
        post.hardware.mid_interrupt(),
        post.cpu,
        post.step,
    )
    &&& pre.step == Step::InterruptDispatch ==> dispatch_post(pre.cpu, t0, t1, post.cpu, post.step)
    &&& pre.step == Step::Halt ==> halt_wait_post(
        pre.cpu,
        pre.hardware.end_interrupt(),
        t0,
        t1,
        post.hardware.mid_interrupt(),
        post.cpu,
        post.step,
    )
}

} // verus!
