//! Verified core of a Game Boy emulator: CPU, memory-mapped hardware and
//! cartridge handling.
pub mod config;
pub mod cpu;
pub mod emulation;
pub mod gameboy;
pub mod hardware;
pub mod machine;
pub mod util;

use vstd::prelude::*;
use crate::emulation::EmuEvents;

verus! {

/// The keys of the Game Boy.
#[derive(Clone, Copy, Debug, PartialEq, Eq, Structural)]
pub enum GbKey {
    Right,
    Left,
    Up,
    Down,
    A,
    B,
    Select,
    Start,
}

/// Notifications from the emulated hardware to its host.
pub trait Callbacks {
    fn debug_opcode(&mut self);

    fn bootrom_disabled(&mut self);

    fn trigger_emu_events(&mut self, emu_events: EmuEvents);
}

impl Callbacks for EmuEvents {
    fn debug_opcode(&mut self)
        ensures
            final(self).bits == old(self).bits | EmuEvents::DEBUG_OP,
    {
        self.insert(EmuEvents::DEBUG_OP);
    }

    fn bootrom_disabled(&mut self)
        ensures
            final(self).bits == old(self).bits | EmuEvents::BOOTROM_DISABLED,
    {
        self.insert(EmuEvents::BOOTROM_DISABLED);
    }

    fn trigger_emu_events(&mut self, emu_events: EmuEvents)
        ensures
            final(self).bits == old(self).bits | emu_events.bits,
    {
        self.insert(emu_events.bits);
    }
}

} // verus!
