//! The volume envelope of channels 1, 2 and 4.
use vstd::prelude::*;

verus! {

/// The volume envelope register NRx2.
#[derive(Clone, Copy, Debug, PartialEq, Eq, Structural)]
pub struct Envelope {
    /// Initial volume, bits 4-7.
    pub volume: u8,
    /// Direction, bit 3.
    pub increasing: bool,
    /// Step length, bits 0-2.
    pub length: u8,
}

impl Envelope {
    pub open spec fn wf(self) -> bool {
        self.volume < 16 && self.length < 8
    }

    /// The register value of the envelope.
    pub open spec fn spec_reg(self) -> u8 {
        (self.volume * 16 + (if self.increasing { 8int } else { 0 }) + self.length) as u8
    }

    /// The envelope that a write of `value` to its register sets.
    pub open spec fn spec_from_reg(value: u8) -> Envelope {
        Envelope { volume: value / 16, increasing: (value / 8) % 2 == 1, length: value % 8 }
    }

    pub fn new() -> (r: Envelope)
        ensures
            r == (Envelope { volume: 0, increasing: false, length: 0 }),
    {
        Envelope { volume: 0, increasing: false, length: 0 }
    }

    pub fn read_reg(&self) -> (r: u8)
        requires
            self.wf(),
        ensures
            r == self.spec_reg(),
    {
        self.volume * 16 + (if self.increasing {
            8
        } else {
            0
        }) + self.length
    }

    pub fn write_reg(&mut self, value: u8)
        ensures
            *final(self) == Envelope::spec_from_reg(value),
            final(self).wf(),
    {
        self.volume = value / 16;
        self.increasing = (value / 8) % 2 == 1;
        self.length = value % 8;
    }
}

/// Reading the envelope register gives back the byte last written to it.
pub proof fn lemma_envelope_roundtrip(value: u8)
    ensures
        Envelope::spec_from_reg(value).spec_reg() == value,
{
}

} // verus!
