//! Events and time of the emulation.
use vstd::prelude::*;

verus! {

/// Events that the emulated machine reports to its host.
#[derive(Clone, Copy, Debug, PartialEq, Eq, Structural)]
pub struct EmuEvents {
    pub bits: u8,
}

impl EmuEvents {
    /// The debug breakpoint opcode ran.
    pub const DEBUG_OP: u8 = 0b_0000_0001;
    /// A frame is complete.
    pub const VSYNC: u8 = 0b_0000_0010;
    /// The boot ROM was switched off.
    pub const BOOTROM_DISABLED: u8 = 0b_0000_0100;

    pub fn empty() -> (r: EmuEvents)
        ensures
            r.bits == 0,
    {
        EmuEvents { bits: 0 }
    }

    pub fn bits(&self) -> (r: u8)
        ensures
            r == self.bits,
    {
        self.bits
    }

    pub fn is_empty(&self) -> (r: bool)
        ensures
            r == (self.bits == 0),
    {
        self.bits == 0
    }

    /// Every event of `events` is set.
    pub fn contains(&self, events: u8) -> (r: bool)
        ensures
            r == (self.bits & events == events),
    {
        self.bits & events == events
    }

    pub fn insert(&mut self, events: u8)
        ensures
            final(self).bits == old(self).bits | events,
    {
        self.bits = self.bits | events;
    }
}

/// Emulated time, counted in machine cycles.
#[derive(Clone, Copy, Debug, PartialEq, Eq, Structural)]
pub struct EmuTime {
    pub machine_cycles: u64,
}

impl EmuTime {
    pub fn zero() -> (r: EmuTime)
        ensures
            r.machine_cycles == 0,
    {
        EmuTime { machine_cycles: 0 }
    }

    pub fn from_machine_cycles(machine_cycles: u64) -> (r: EmuTime)
        ensures
            r.machine_cycles == machine_cycles,
    {
        EmuTime { machine_cycles }
    }

    /// The sum of two times.
    pub fn add(self, rhs: EmuTime) -> (r: EmuTime)
        requires
            self.machine_cycles + rhs.machine_cycles <= u64::MAX,
        ensures
            r.machine_cycles == self.machine_cycles + rhs.machine_cycles,
    {
        EmuTime { machine_cycles: self.machine_cycles + rhs.machine_cycles }
    }

    /// Adds `rhs` to this time.
    pub fn add_assign(&mut self, rhs: EmuTime)
        requires
            old(self).machine_cycles + rhs.machine_cycles <= u64::MAX,
        ensures
            final(self).machine_cycles == old(self).machine_cycles + rhs.machine_cycles,
    {
        self.machine_cycles = self.machine_cycles + rhs.machine_cycles;
    }

    /// The time from `rhs` to this time.
    pub fn sub(self, rhs: EmuTime) -> (r: EmuTime)
        requires
            self.machine_cycles >= rhs.machine_cycles,
        ensures
            r.machine_cycles == self.machine_cycles - rhs.machine_cycles,
    {
        EmuTime { machine_cycles: self.machine_cycles - rhs.machine_cycles }
    }
}

/// Subtracting what was added gives back the time one started from.
pub proof fn lemma_emu_time_add_sub(a: EmuTime, b: EmuTime)
    requires
        a.machine_cycles + b.machine_cycles <= u64::MAX,
    ensures
        ({
            let s = EmuTime { machine_cycles: (a.machine_cycles + b.machine_cycles) as u64 };
            s.machine_cycles - b.machine_cycles == a.machine_cycles
        }),
{
}

} // verus!
