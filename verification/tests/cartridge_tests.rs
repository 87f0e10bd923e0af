use nes::cartridge::{Cartridge, CartridgeError, Mirror};

fn ines_image(prg_banks: u8, chr_banks: u8, flags6: u8, flags7: u8) -> Vec<u8> {
    let mut raw = vec![0x4E, 0x45, 0x53, 0x1A, prg_banks, chr_banks, flags6, flags7];
    raw.resize(16, 0);
    let trainer = if flags6 & 0b100 != 0 { 512 } else { 0 };
    let total = 16 + trainer + prg_banks as usize * 16384 + chr_banks as usize * 8192;
    raw.resize(total, 0);
    raw
}

#[test]
fn test_parse_minimal_image() {
    let mut raw = ines_image(1, 1, 0, 0);
    raw[16] = 0xAA; // first PRG byte
    raw[16 + 16384] = 0xBB; // first CHR byte
    let c = Cartridge::new(&raw).unwrap();
    assert_eq!(c.mapper_id, 0);
    assert_eq!(c.num_prg_banks, 1);
    assert_eq!(c.num_chr_banks, 1);
    assert_eq!(c.mirror, Mirror::Horizontal);
    assert_eq!(c.prg_rom.len(), 16384);
    assert_eq!(c.chr_rom.len(), 8192);
    assert_eq!(c.prg_rom[0], 0xAA);
    assert_eq!(c.chr_rom[0], 0xBB);
}

#[test]
fn test_parse_mirroring_flags() {
    let c = Cartridge::new(&ines_image(1, 0, 0b0000_0001, 0)).unwrap();
    assert_eq!(c.mirror, Mirror::Vertical);
    let c = Cartridge::new(&ines_image(1, 0, 0b0000_1000, 0)).unwrap();
    assert_eq!(c.mirror, Mirror::FourScreen);
}

#[test]
fn test_parse_trainer_is_skipped() {
    let mut raw = ines_image(1, 0, 0b0000_0100, 0);
    raw[16 + 512] = 0xCC; // first PRG byte sits after the trainer
    let c = Cartridge::new(&raw).unwrap();
    assert_eq!(c.prg_rom[0], 0xCC);
}

#[test]
fn test_parse_bad_magic() {
    let mut raw = ines_image(1, 1, 0, 0);
    raw[0] = 0x4F;
    assert_eq!(Cartridge::new(&raw).err(), Some(CartridgeError::FormatInvalid));
    assert_eq!(Cartridge::new(&vec![1, 2, 3]).err(), Some(CartridgeError::FormatInvalid));
}

#[test]
fn test_parse_unsupported_mapper() {
    // mapper id 1: low nibble in byte 6 bits 4-7
    let raw = ines_image(1, 1, 0b0001_0000, 0);
    assert_eq!(Cartridge::new(&raw).err(), Some(CartridgeError::MapperUnsupported(1)));
    // mapper id 16: high nibble in byte 7 bits 4-7
    let raw = ines_image(1, 1, 0, 0b0001_0000);
    assert_eq!(Cartridge::new(&raw).err(), Some(CartridgeError::MapperUnsupported(16)));
}

#[test]
fn test_parse_ines2_refused() {
    let raw = ines_image(1, 1, 0, 0b0000_1000);
    assert_eq!(Cartridge::new(&raw).err(), Some(CartridgeError::Ines2NotSupported));
}

#[test]
fn test_parse_truncated_image() {
    let mut raw = ines_image(1, 1, 0, 0);
    raw.truncate(raw.len() - 1);
    assert_eq!(Cartridge::new(&raw).err(), Some(CartridgeError::SizeInvalid));
}

#[test]
fn test_prg_mirroring_with_one_bank() {
    let mut raw = ines_image(1, 0, 0, 0);
    raw[16] = 0x42;
    let c = Cartridge::new(&raw).unwrap();
    // $8000 and $C000 both reach PRG offset 0 with a single 16 KiB bank
    assert_eq!(c.cpu_read(0x8000), Some(0x42));
    assert_eq!(c.cpu_read(0xC000), Some(0x42));
    assert_eq!(c.cpu_read(0x7FFF), None);
}

#[test]
fn test_prg_two_banks_no_mirroring() {
    let mut raw = ines_image(2, 0, 0, 0);
    raw[16] = 0x11;
    raw[16 + 16384] = 0x22;
    let c = Cartridge::new(&raw).unwrap();
    assert_eq!(c.cpu_read(0x8000), Some(0x11));
    assert_eq!(c.cpu_read(0xC000), Some(0x22));
}

#[test]
fn test_cpu_write_discarded() {
    let mut raw = ines_image(1, 0, 0, 0);
    raw[16] = 0x42;
    let mut c = Cartridge::new(&raw).unwrap();
    assert!(c.cpu_write(0x8000, 0x99)); // claimed by the mapper...
    assert_eq!(c.cpu_read(0x8000), Some(0x42)); // ...but PRG is ROM
    assert!(!c.cpu_write(0x1000, 0x99));
}

#[test]
fn test_ppu_read_chr() {
    let mut raw = ines_image(1, 1, 0, 0);
    raw[16 + 16384] = 0x5A;
    let c = Cartridge::new(&raw).unwrap();
    assert_eq!(c.ppu_read(0x0000), Some(0x5A));
    assert_eq!(c.ppu_read(0x2000), None);
}

#[test]
fn test_mapper_factory() {
    assert!(nes::mapper::new(0, 1, 1).is_some());
    assert!(nes::mapper::new(4, 1, 1).is_none());
}
