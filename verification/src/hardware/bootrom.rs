//! The boot ROM, mapped over the start of the cartridge until switched off.
use vstd::prelude::*;

verus! {

/// Size of a boot ROM.
pub const BOOTROM_SIZE: usize = 0x100;

/// The bytes of a boot ROM.
#[derive(Clone, Debug)]
pub struct BootromData(pub Vec<u8>);

impl BootromData {
    pub open spec fn wf(&self) -> bool {
        self.0@.len() == BOOTROM_SIZE
    }

    /// A boot ROM of zeros.
    pub fn new() -> (r: BootromData)
        ensures
            r.wf(),
            forall|i: int| 0 <= i < BOOTROM_SIZE ==> r.0@[i] == 0,
    {
        BootromData(vec![0; BOOTROM_SIZE])
    }
}

/// The boot ROM and whether it is still mapped.
#[derive(Clone, Debug)]
pub struct Bootrom {
    pub data: BootromData,
    pub active: bool,
}

impl Bootrom {
    pub open spec fn wf(&self) -> bool {
        self.data.wf()
    }

    /// A machine with a boot ROM starts with it mapped; one without has it
    /// switched off from the start.
    pub fn new(config: Option<BootromData>) -> (r: Bootrom)
        requires
            config matches Some(d) ==> d.wf(),
        ensures
            r.wf(),
            r.active == config.is_some(),
            config matches Some(d) ==> r.data == d,
    {
        let (active, data) = match config {
            Some(config_data) => (true, config_data),
            None => (false, BootromData::new()),
        };
        Bootrom { data, active }
    }

    pub fn is_active(&self) -> (r: bool)
        ensures
            r == self.active,
    {
        self.active
    }

    pub fn deactivate(&mut self)
        ensures
            final(self).data == old(self).data,
            !final(self).active,
    {
        self.active = false;
    }

    /// The byte at `index`.
    pub fn read(&self, index: u16) -> (r: u8)
        requires
            self.wf(),
            index < BOOTROM_SIZE,
        ensures
            r == self.data.0@[index as int],
    {
        self.data.0[index as usize]
    }
}

} // verus!
