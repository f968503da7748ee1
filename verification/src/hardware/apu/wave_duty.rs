//! The duty cycle of the square wave channels.
use vstd::prelude::*;

verus! {

/// The share of each period that the square wave is high.
#[derive(Clone, Copy, Debug, PartialEq, Eq, Structural)]
pub enum WaveDuty {
    HalfQuarter,
    Quarter,
    Half,
    ThreeQuarters,
}

impl WaveDuty {
    /// The number of the duty cycle.
    pub open spec fn spec_bits(self) -> u8 {
        match self {
            WaveDuty::HalfQuarter => 0,
            WaveDuty::Quarter => 1,
            WaveDuty::Half => 2,
            WaveDuty::ThreeQuarters => 3,
        }
    }

    /// The duty cycle with the given number, taken modulo 4.
    pub open spec fn spec_from(value: u8) -> WaveDuty {
        match value % 4 {
            0 => WaveDuty::HalfQuarter,
            1 => WaveDuty::Quarter,
            2 => WaveDuty::Half,
            _ => WaveDuty::ThreeQuarters,
        }
    }

    pub fn from_u8(value: u8) -> (r: Option<WaveDuty>)
        ensures
            value < 4 <==> r.is_some(),
            r matches Some(d) ==> d.spec_bits() == value && d == WaveDuty::spec_from(value),
    {
        match value {
            0 => Some(WaveDuty::HalfQuarter),
            1 => Some(WaveDuty::Quarter),
            2 => Some(WaveDuty::Half),
            3 => Some(WaveDuty::ThreeQuarters),
            _ => None,
        }
    }

    pub fn bits(&self) -> (r: u8)
        ensures
            r == self.spec_bits(),
    {
        match *self {
            WaveDuty::HalfQuarter => 0,
            WaveDuty::Quarter => 1,
            WaveDuty::Half => 2,
            WaveDuty::ThreeQuarters => 3,
        }
    }
}

} // verus!
