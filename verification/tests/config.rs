//! Reading cartridge headers and recognizing boot ROMs.
use mooneye_gb::config::bootrom::{model_for_checksum, Bootrom, BootromError};
use mooneye_gb::config::cartridge::{
    is_mbc1_multicart, is_multicart_logo_checksums, Cartridge, CartridgeError, CartridgeRamSize,
    CartridgeRomSize, CartridgeType,
};
use mooneye_gb::config::model::{candidate_models, default_model_priority, Model};
use mooneye_gb::hardware::bootrom::BootromData;

const NINTENDO_LOGO: [u8; 48] = [
    0xce, 0xed, 0x66, 0x66, 0xcc, 0x0d, 0x00, 0x0b, 0x03, 0x73, 0x00, 0x83, 0x00, 0x0c, 0x00, 0x0d,
    0x00, 0x08, 0x11, 0x1f, 0x88, 0x89, 0x00, 0x0e, 0xdc, 0xcc, 0x6e, 0xe6, 0xdd, 0xdd, 0xd9, 0x99,
    0xbb, 0xbb, 0x67, 0x63, 0x6e, 0x0e, 0xec, 0xcc, 0xdd, 0xdc, 0x99, 0x9f, 0xbb, 0xb9, 0x33, 0x3e,
];

fn rom_image(len: usize, title: &[u8], cartridge_type: u8, rom_size: u8, ram_size: u8) -> Vec<u8> {
    let mut data = vec![0u8; len];
    data[0x134..0x134 + title.len()].copy_from_slice(title);
    data[0x147] = cartridge_type;
    data[0x148] = rom_size;
    data[0x149] = ram_size;
    data
}

#[test]
fn cartridge_from_valid_image() {
    let cartridge = Cartridge::from_data(rom_image(0x8000, b"TETRIS", 0x00, 0x00, 0x00)).unwrap();
    assert_eq!(cartridge.title, "TETRIS");
    assert_eq!(cartridge.cartridge_type, CartridgeType::NoMbc { ram: false, battery: false });
    assert_eq!(cartridge.rom_size, CartridgeRomSize::NoRomBanks);
    assert_eq!(cartridge.ram_size, CartridgeRamSize::NoRam);
    assert_eq!(cartridge.data.len(), 0x8000);
}

#[test]
fn cartridge_title_of_new_header_is_eleven_bytes() {
    let mut data = rom_image(0x8000, b"ABCDEFGHIJKLMNO", 0x00, 0x00, 0x00);
    data[0x14b] = 0x33;
    let cartridge = Cartridge::from_data(data).unwrap();
    assert_eq!(cartridge.title, "ABCDEFGHIJK");
}

#[test]
fn cartridge_invalid_length() {
    assert_eq!(
        Cartridge::from_data(vec![0; 0x4000]).unwrap_err(),
        CartridgeError::InvalidLength { len: 0x4000 }
    );
    assert_eq!(
        Cartridge::from_data(vec![0; 0x8001]).unwrap_err(),
        CartridgeError::InvalidLength { len: 0x8001 }
    );
}

#[test]
fn cartridge_invalid_title() {
    let data = rom_image(0x8000, &[0xff, 0xfe], 0x00, 0x00, 0x00);
    assert_eq!(Cartridge::from_data(data).unwrap_err(), CartridgeError::InvalidTitle);
}

#[test]
fn cartridge_unsupported_type_and_sizes() {
    let data = rom_image(0x8000, b"X", 0x04, 0x00, 0x00);
    assert_eq!(Cartridge::from_data(data).unwrap_err(), CartridgeError::UnsupportedType { value: 0x04 });
    let data = rom_image(0x8000, b"X", 0x00, 0x09, 0x00);
    assert_eq!(Cartridge::from_data(data).unwrap_err(), CartridgeError::UnsupportedRomSize { value: 0x09 });
    let data = rom_image(0x8000, b"X", 0x00, 0x00, 0x06);
    assert_eq!(Cartridge::from_data(data).unwrap_err(), CartridgeError::UnsupportedRamSize { value: 0x06 });
}

#[test]
fn cartridge_ram_must_match_type() {
    let data = rom_image(0x8000, b"X", 0x02, 0x00, 0x00);
    assert_eq!(
        Cartridge::from_data(data).unwrap_err(),
        CartridgeError::MissingRam {
            cartridge_type: CartridgeType::Mbc1 { ram: true, battery: false, multicart: false }
        }
    );
    let data = rom_image(0x8000, b"X", 0x01, 0x00, 0x02);
    assert_eq!(
        Cartridge::from_data(data).unwrap_err(),
        CartridgeError::UnexpectedRam {
            cartridge_type: CartridgeType::Mbc1 { ram: false, battery: false, multicart: false },
            value: 0x02
        }
    );
}

#[test]
fn cartridge_rom_size_must_match_length() {
    let data = rom_image(0x8000, b"X", 0x01, 0x01, 0x00);
    assert_eq!(
        Cartridge::from_data(data).unwrap_err(),
        CartridgeError::RomSizeMismatch { expected: 0x10000, actual: 0x8000 }
    );
}

#[test]
fn no_cartridge_is_two_bytes_of_ff() {
    let cartridge = Cartridge::no_cartridge();
    assert_eq!(cartridge.data, vec![0xff, 0xff]);
    assert_eq!(cartridge.title, "-");
}

#[test]
fn rom_and_ram_sizes() {
    assert_eq!(CartridgeRomSize::RomBanks64.banks(), 64);
    assert_eq!(CartridgeRomSize::RomBanks64.as_usize(), 1_048_576);
    assert_eq!(CartridgeRamSize::Ram32K.as_usize(), 32768);
    assert!(CartridgeType::Mbc2 { battery: true }.has_ram_chip() == false);
    assert!(CartridgeType::Huc1.has_ram_chip());
}

#[test]
fn multicart_needs_three_logos() {
    let logo = 0x4619_5417;
    assert!(is_multicart_logo_checksums(&[logo, logo, 0, logo]));
    assert!(!is_multicart_logo_checksums(&[logo, 0, 0, logo]));
}

fn multicart_image(logos: usize) -> Vec<u8> {
    let mut data = rom_image(1_048_576, b"MULTI", 0x01, 0x05, 0x00);
    for page in 0..logos {
        let start = page * 0x40000 + 0x104;
        data[start..start + 48].copy_from_slice(&NINTENDO_LOGO);
    }
    data
}

#[test]
fn mbc1_multicart_detection() {
    assert!(is_mbc1_multicart(&multicart_image(3)));
    assert!(!is_mbc1_multicart(&multicart_image(2)));
    assert!(!is_mbc1_multicart(&rom_image(0x8000, b"X", 0x01, 0x00, 0x00)));
    let cartridge = Cartridge::from_data(multicart_image(4)).unwrap();
    assert_eq!(
        cartridge.cartridge_type,
        CartridgeType::Mbc1 { ram: false, battery: false, multicart: true }
    );
}

#[test]
fn bootrom_of_unknown_checksum_is_refused() {
    let result = Bootrom::from_data(BootromData::new());
    assert_eq!(result.unwrap_err(), BootromError::Checksum { crc32: 0x0d96_8558 });
}

#[test]
fn bootrom_models_by_checksum() {
    assert_eq!(model_for_checksum(0x59c8_598e), Some(Model::Dmg));
    assert_eq!(model_for_checksum(0xc2f5_cc97), Some(Model::Dmg0));
    assert_eq!(model_for_checksum(0xe692_0754), Some(Model::Mgb));
    assert_eq!(model_for_checksum(0xec8a_83b9), Some(Model::Sgb));
    assert_eq!(model_for_checksum(0x53d0_dd63), Some(Model::Sgb2));
    assert_eq!(model_for_checksum(0), None);
}

#[test]
fn model_file_names_and_priority() {
    assert_eq!(Model::Dmg0.bootrom_file_name(), "dmg0_boot.bin");
    assert_eq!(Model::Sgb2.bootrom_file_name(), "sgb2_boot.bin");
    assert_eq!(Model::Mgb.display_name(), "MGB (Game Boy Pocket)");
    assert_eq!(
        default_model_priority(),
        vec![Model::Dmg, Model::Mgb, Model::Sgb2, Model::Sgb, Model::Dmg0]
    );
    assert_eq!(candidate_models(&[]), default_model_priority());
    assert_eq!(candidate_models(&[Model::Sgb]), vec![Model::Sgb]);
}

#[test]
fn size_descriptions() {
    assert_eq!(CartridgeRomSize::NoRomBanks.description(), "256 kbit");
    assert_eq!(CartridgeRomSize::RomBanks512.description(), "64 Mbit");
    assert_eq!(CartridgeRamSize::NoRam.description(), "-");
    assert_eq!(CartridgeRamSize::Ram64K.description(), "512 kbit");
}
