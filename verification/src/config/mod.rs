//! What a machine is built from: the model, its boot ROM and the cartridge.
pub mod bootrom;
pub mod cartridge;
pub mod model;

use vstd::prelude::*;
use crate::config::cartridge::Cartridge;
use crate::config::model::Model;
use crate::hardware::bootrom::BootromData;

verus! {

/// The CRC-32 (IEEE 802.3 polynomial) of a byte sequence.
pub uninterp spec fn crc32_ieee(data: Seq<u8>) -> u32;

/// `crc::crc32::checksum_ieee`: the CRC-32 of `bytes` with the IEEE
/// polynomial. Its value is a function of the bytes alone; which value it
/// is, is left to the crate.
#[verifier::external_body]
pub(crate) fn checksum_ieee(bytes: &[u8]) -> (r: u32)
    ensures
        r == crc32_ieee(bytes@),
{
    crc::crc32::checksum_ieee(bytes)
}

/// The hardware of one machine.
#[derive(Clone, Debug)]
pub struct HardwareConfig {
    pub model: Model,
    pub bootrom: Option<BootromData>,
    pub cartridge: Cartridge,
}

impl HardwareConfig {
    pub open spec fn wf(&self) -> bool {
        &&& self.bootrom matches Some(b) ==> b.wf()
        &&& self.cartridge.wf()
    }
}

} // verus!
