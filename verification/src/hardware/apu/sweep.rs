//! The frequency sweep of channel 1.
use vstd::prelude::*;

verus! {

/// The sweep time, in steps of 1/128 s.
#[derive(Clone, Copy, Debug, PartialEq, Eq, Structural)]
pub enum Time {
    Off,
    Div1,
    Div2,
    Div3,
    Div4,
    Div5,
    Div6,
    Div7,
}

impl Time {
    /// The number of the sweep time.
    pub open spec fn spec_bits(self) -> u8 {
        match self {
            Time::Off => 0,
            Time::Div1 => 1,
            Time::Div2 => 2,
            Time::Div3 => 3,
            Time::Div4 => 4,
            Time::Div5 => 5,
            Time::Div6 => 6,
            Time::Div7 => 7,
        }
    }

    /// The sweep time with the given number, taken modulo 8.
    pub open spec fn spec_from(value: u8) -> Time {
        match value % 8 {
            0 => Time::Off,
            1 => Time::Div1,
            2 => Time::Div2,
            3 => Time::Div3,
            4 => Time::Div4,
            5 => Time::Div5,
            6 => Time::Div6,
            _ => Time::Div7,
        }
    }

    pub fn from_u8(value: u8) -> (r: Option<Time>)
        ensures
            value < 8 <==> r.is_some(),
            r matches Some(t) ==> t.spec_bits() == value && t == Time::spec_from(value),
    {
        match value {
            0 => Some(Time::Off),
            1 => Some(Time::Div1),
            2 => Some(Time::Div2),
            3 => Some(Time::Div3),
            4 => Some(Time::Div4),
            5 => Some(Time::Div5),
            6 => Some(Time::Div6),
            7 => Some(Time::Div7),
            _ => Option::None,
        }
    }

    pub fn bits(&self) -> (r: u8)
        ensures
            r == self.spec_bits(),
    {
        match *self {
            Time::Off => 0,
            Time::Div1 => 1,
            Time::Div2 => 2,
            Time::Div3 => 3,
            Time::Div4 => 4,
            Time::Div5 => 5,
            Time::Div6 => 6,
            Time::Div7 => 7,
        }
    }
}

/// The sweep register NR10.
#[derive(Clone, Copy, Debug, PartialEq, Eq, Structural)]
pub struct Sweep {
    pub time: Time,
    pub increasing: bool,
    pub shift: u8,
}

/// Bit 7 of NR10 does not exist and reads as 1.
pub const SWEEP_MASK: u8 = 0x80;

impl Sweep {
    pub open spec fn wf(self) -> bool {
        self.shift < 8
    }

    /// The register value of the sweep.
    pub open spec fn spec_reg(self) -> u8 {
        (SWEEP_MASK + self.time.spec_bits() * 16 + (if self.increasing { 8int } else { 0 })
            + self.shift) as u8
    }

    /// The sweep that a write of `value` to NR10 sets.
    pub open spec fn spec_from_reg(value: u8) -> Sweep {
        Sweep { time: Time::spec_from(value / 16), increasing: (value / 8) % 2 == 1, shift: value % 8 }
    }

    pub fn new() -> (r: Sweep)
        ensures
            r == (Sweep { time: Time::Off, increasing: false, shift: 0 }),
    {
        Sweep { time: Time::Off, increasing: false, shift: 0 }
    }

    pub fn read_reg(&self) -> (r: u8)
        requires
            self.wf(),
        ensures
            r == self.spec_reg(),
    {
        SWEEP_MASK + self.time.bits() * 16 + (if self.increasing {
            8
        } else {
            0
        }) + self.shift
    }

    pub fn write_reg(&mut self, value: u8)
        ensures
            *final(self) == Sweep::spec_from_reg(value),
            final(self).time.spec_bits() == (value / 16) % 8,
            final(self).wf(),
    {
        self.time = Time::from_u8((value / 16) % 8).unwrap();
        self.increasing = (value / 8) % 2 == 1;
        self.shift = value % 8;
    }
}

/// Reading the sweep register gives back the byte last written to it, with
/// the unused bit 7 set.
pub proof fn lemma_sweep_roundtrip(value: u8)
    ensures
        Sweep::spec_from_reg(value).spec_reg() == 128 + value % 128,
{
    let t = (value / 16) % 8;
    assert(Time::spec_from(value / 16).spec_bits() == t);
    assert(((value / 16) % 8) * 16 + ((value / 8) % 2) * 8 + value % 8 == value % 128)
        by (bit_vector);
}

} // verus!
