//! The 8 KiB work RAM at 0xc000 to 0xdfff, mirrored at 0xe000 to 0xfdff.
use vstd::prelude::*;

verus! {

/// Size of the work RAM.
pub const WORK_RAM_SIZE: usize = 0x2000;

/// The work RAM: a lower and an upper 4 KiB bank.
#[derive(Clone, Debug)]
pub struct WorkRam {
    pub ram: Vec<u8>,
}

/// Offset of an address in the lower bank.
pub open spec fn lower_index(addr: u16) -> int {
    (addr % 0x1000) as int
}

/// Offset of an address in the upper bank.
pub open spec fn upper_index(addr: u16) -> int {
    0x1000 + (addr % 0x1000) as int
}

impl WorkRam {
    pub open spec fn wf(&self) -> bool {
        self.ram@.len() == WORK_RAM_SIZE
    }

    pub fn new() -> (r: WorkRam)
        ensures
            r.wf(),
            forall|i: int| 0 <= i < WORK_RAM_SIZE ==> r.ram@[i] == 0,
    {
        WorkRam { ram: vec![0; WORK_RAM_SIZE] }
    }

    pub fn read_lower(&self, addr: u16) -> (r: u8)
        requires
            self.wf(),
        ensures
            r == self.ram@[lower_index(addr)],
    {
        self.ram[(addr % 0x1000) as usize]
    }

    pub fn write_lower(&mut self, addr: u16, value: u8)
        requires
            old(self).wf(),
        ensures
            final(self).ram@ == old(self).ram@.update(lower_index(addr), value),
    {
        self.ram.set((addr % 0x1000) as usize, value);
    }

    pub fn read_upper(&self, addr: u16) -> (r: u8)
        requires
            self.wf(),
        ensures
            r == self.ram@[upper_index(addr)],
    {
        self.ram[0x1000 + (addr % 0x1000) as usize]
    }

    pub fn write_upper(&mut self, addr: u16, value: u8)
        requires
            old(self).wf(),
        ensures
            final(self).ram@ == old(self).ram@.update(upper_index(addr), value),
    {
        self.ram.set(0x1000 + (addr % 0x1000) as usize, value);
    }
}

} // verus!
