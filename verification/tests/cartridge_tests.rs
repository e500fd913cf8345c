use cathode8::nes::cartridge::{Cartridge, CartridgeError};
use cathode8::nes::mapper::{
    create_mapper, mapper_name, AnyMapper, Mapper, MapperError, Mirroring,
};

fn image(header6: u8, prg_units: u8, chr_units: u8, len_prg: usize, len_chr: usize) -> Vec<u8> {
    let mut v = vec![0x4E, 0x45, 0x53, 0x1A, prg_units, chr_units, header6, 0, 0, 0, 0, 0, 0, 0, 0, 0];
    v.extend(std::iter::repeat(0xAAu8).take(len_prg));
    v.extend(std::iter::repeat(0xBBu8).take(len_chr));
    v
}

#[test]
fn refuses_short_images() {
    assert_eq!(Cartridge::from_bytes(&[0x4E, 0x45]).err(), Some(CartridgeError::TooSmall));
}

#[test]
fn refuses_bad_magic() {
    let mut v = image(0, 1, 1, 0x4000, 0x2000);
    v[3] = 0;
    assert_eq!(Cartridge::from_bytes(&v).err(), Some(CartridgeError::BadMagic));
}

#[test]
fn refuses_truncated_prg_and_chr() {
    let v = image(0, 2, 1, 0x4000, 0);
    assert_eq!(Cartridge::from_bytes(&v).err(), Some(CartridgeError::PrgTruncated(0x8000)));
    let v = image(0, 1, 2, 0x4000, 0x2000);
    assert_eq!(Cartridge::from_bytes(&v).err(), Some(CartridgeError::ChrTruncated(0x4000)));
}

#[test]
fn refuses_exponent_size_encoding() {
    let mut v = image(0, 1, 1, 0x4000, 0x2000);
    v[7] = 0x08;
    v[9] = 0x0F;
    assert_eq!(Cartridge::from_bytes(&v).err(), Some(CartridgeError::UnsupportedSizeEncoding));
}

#[test]
fn decodes_ines_header() {
    // Mapper 4, vertical mirroring, battery.
    let v = image(0x43, 2, 1, 0x8000, 0x2000);
    let cart = Cartridge::from_bytes(&v).unwrap();
    assert_eq!(cart.mapper_id, 4);
    assert_eq!(cart.submapper_id, 0);
    assert_eq!(cart.mirroring, Mirroring::Vertical);
    assert!(cart.has_battery_backed_ram);
    assert!(!cart.four_screen);
    assert_eq!(cart.prg_rom.len(), 0x8000);
    assert_eq!(cart.chr_data.len(), 0x2000);
    assert!(!cart.chr_is_ram);
    assert_eq!(cart.prg_ram_size, 8192);
    assert!(cart.prg_rom.iter().all(|&b| b == 0xAA));
    assert!(cart.chr_data.iter().all(|&b| b == 0xBB));
}

#[test]
fn skips_trainer_and_gives_chr_ram() {
    let mut v = image(0x04, 1, 0, 0, 0);
    v.extend(std::iter::repeat(0x11u8).take(512));
    v.extend(std::iter::repeat(0x22u8).take(0x4000));
    let cart = Cartridge::from_bytes(&v).unwrap();
    assert!(cart.prg_rom.iter().all(|&b| b == 0x22));
    assert!(cart.chr_is_ram);
    assert_eq!(cart.chr_data.len(), 8192);
    assert!(cart.chr_data.iter().all(|&b| b == 0));
}

#[test]
fn decodes_nes2_mapper_and_submapper() {
    let mut v = image(0x18, 1, 1, 0x4000, 0x2000);
    v[7] = 0x48;
    v[8] = 0x21;
    v[10] = 0x07;
    let cart = Cartridge::from_bytes(&v).unwrap();
    assert_eq!(cart.mapper_id, 0x141);
    assert_eq!(cart.submapper_id, 2);
    assert_eq!(cart.mirroring, Mirroring::FourScreen);
    assert_eq!(cart.prg_ram_size, 64 << 7);
}

#[test]
fn names_mappers() {
    assert_eq!(mapper_name(0), "NROM");
    assert_eq!(mapper_name(4), "MMC3");
    assert_eq!(mapper_name(52), "MMC3 variant");
    assert_eq!(mapper_name(365), "NES 2.0 Mapper 365");
    assert_eq!(mapper_name(400), "Documented Mapper (generic)");
    assert_eq!(mapper_name(559), "Documented Mapper (generic)");
    assert_eq!(mapper_name(560), "Unsupported");
}

#[test]
fn creates_boards_by_number() {
    let cart = Cartridge::from_bytes(&image(0x40, 2, 1, 0x8000, 0x2000)).unwrap();
    assert!(matches!(create_mapper(cart), Ok(AnyMapper::Mapper4(_))));
    let cart = Cartridge::from_bytes(&image(0x00, 2, 1, 0x8000, 0x2000)).unwrap();
    let mut m = create_mapper(cart).unwrap();
    assert!(matches!(m, AnyMapper::Mapper0(_)));
    assert_eq!(m.cpu_read(0x8000), 0xAA);
    assert_eq!(m.mirroring(), Mirroring::Horizontal);
}

#[test]
fn generic_board_for_other_documented_numbers() {
    let mut v = image(0xF0, 2, 1, 0x8000, 0x2000);
    v[7] = 0x08;
    v[8] = 0x01;
    let cart = Cartridge::from_bytes(&v).unwrap();
    assert_eq!(cart.mapper_id, 0x10F);
    assert!(matches!(create_mapper(cart), Ok(AnyMapper::GenericMapper(_))));
}

#[test]
fn refuses_numbers_past_the_documented_range() {
    let mut v = image(0x00, 2, 1, 0x8000, 0x2000);
    v[7] = 0x08;
    v[8] = 0x03;
    let cart = Cartridge::from_bytes(&v).unwrap();
    assert_eq!(cart.mapper_id, 0x300);
    assert_eq!(create_mapper(cart).err(), Some(MapperError::Unsupported(0x300)));
}
