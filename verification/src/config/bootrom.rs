//! Recognizing a boot ROM by its checksum.
use vstd::prelude::*;
use crate::config::checksum_ieee;
use crate::config::crc32_ieee;
use crate::config::model::Model;
use crate::hardware::bootrom::BootromData;

verus! {

/// Why a boot ROM was refused.
#[derive(Clone, Copy, Debug, PartialEq, Eq, Structural)]
pub enum BootromError {
    /// Its checksum is that of no known boot ROM.
    Checksum { crc32: u32 },
}

/// A boot ROM together with the model it belongs to.
#[derive(Clone, Debug)]
pub struct Bootrom {
    pub model: Model,
    pub data: BootromData,
}

/// The model whose boot ROM has the given CRC-32, if any.
pub open spec fn spec_model_for_checksum(checksum: u32) -> Option<Model> {
    if checksum == 0xc2f5_cc97 {
        Some(Model::Dmg0)
    } else if checksum == 0x59c8_598e {
        Some(Model::Dmg)
    } else if checksum == 0xe692_0754 {
        Some(Model::Mgb)
    } else if checksum == 0xec8a_83b9 {
        Some(Model::Sgb)
    } else if checksum == 0x53d0_dd63 {
        Some(Model::Sgb2)
    } else {
        None
    }
}

/// The model whose boot ROM has the given CRC-32, if any.
pub fn model_for_checksum(checksum: u32) -> (r: Option<Model>)
    ensures
        r == spec_model_for_checksum(checksum),
{
    match checksum {
        0xc2f5_cc97 => Some(Model::Dmg0),
        0x59c8_598e => Some(Model::Dmg),
        0xe692_0754 => Some(Model::Mgb),
        0xec8a_83b9 => Some(Model::Sgb),
        0x53d0_dd63 => Some(Model::Sgb2),
        _ => None,
    }
}

impl Bootrom {
    /// Recognizes a boot ROM by the CRC-32 of its bytes.
    pub fn from_data(data: BootromData) -> (r: Result<Bootrom, BootromError>)
        ensures
            r matches Ok(b) ==> spec_model_for_checksum(crc32_ieee(data.0@)) == Some(b.model)
                && b.data == data,
            r matches Err(e) ==> e == (BootromError::Checksum { crc32: crc32_ieee(data.0@) })
                && spec_model_for_checksum(crc32_ieee(data.0@)) is None,
            r is Ok <==> spec_model_for_checksum(crc32_ieee(data.0@)) is Some,
    {
        let checksum = checksum_ieee(data.0.as_slice());
        match model_for_checksum(checksum) {
            Some(model) => Ok(Bootrom { model, data }),
            None => Err(BootromError::Checksum { crc32: checksum }),
        }
    }
}

} // verus!
