use cozynes::rom::{Error, Mirroring, Rom};

/// A minimal iNES image: 16-byte header, `prg_pages` 16KB pages of PRG-ROM
/// and `chr_pages` 8KB pages of CHR-ROM.
fn ines(prg_pages: u8, chr_pages: u8, flags6: u8, flags7: u8) -> Vec<u8> {
    let mut raw = vec![0x4E, 0x45, 0x53, 0x1A, prg_pages, chr_pages, flags6, flags7];
    raw.resize(16, 0);
    if flags6 & 0x04 != 0 {
        raw.resize(raw.len() + 512, 0xAA);
    }
    raw.resize(raw.len() + prg_pages as usize * 16384, 0);
    raw.resize(raw.len() + chr_pages as usize * 8192, 0);
    raw
}

#[test]
fn load_minimal_image() {
    let rom = Rom::new(&ines(1, 1, 0, 0)).unwrap();
    assert_eq!(rom.prg_rom.len(), 16384);
    assert_eq!(rom.chr_rom.len(), 8192);
    assert_eq!(rom.mapper, 0);
    assert!(rom.mirroring == Mirroring::Horizontal);
}

#[test]
fn bad_magic_is_invalid_header() {
    let mut raw = ines(1, 0, 0, 0);
    raw[0] = 0x4D;
    assert!(matches!(Rom::new(&raw), Err(Error::InvalidHeader)));
}

#[test]
fn short_buffer_is_invalid_header() {
    assert!(matches!(Rom::new(&[0x4E, 0x45, 0x53, 0x1A]), Err(Error::InvalidHeader)));
}

#[test]
fn truncated_banks_are_invalid_header() {
    let mut raw = ines(1, 0, 0, 0);
    raw.truncate(16 + 1000);
    assert!(matches!(Rom::new(&raw), Err(Error::InvalidHeader)));
}

#[test]
fn nes2_version_bits_are_unsupported() {
    let raw = ines(1, 0, 0, 0x04);
    assert!(matches!(Rom::new(&raw), Err(Error::UnsupportedVersion)));
}

#[test]
fn mapper_nibbles_combine() {
    let rom = Rom::new(&ines(1, 0, 0x40, 0xB0)).unwrap();
    assert_eq!(rom.mapper, 0xB4);
}

#[test]
fn mirroring_from_flag_bits() {
    assert!(Rom::new(&ines(1, 0, 0x01, 0)).unwrap().mirroring == Mirroring::Vertical);
    assert!(Rom::new(&ines(1, 0, 0x00, 0)).unwrap().mirroring == Mirroring::Horizontal);
    assert!(Rom::new(&ines(1, 0, 0x08, 0)).unwrap().mirroring == Mirroring::FourScreen);
    assert!(Rom::new(&ines(1, 0, 0x09, 0)).unwrap().mirroring == Mirroring::FourScreen);
}

#[test]
fn trainer_block_is_skipped() {
    let mut raw = ines(1, 0, 0x04, 0);
    raw[16 + 512] = 0x77;
    let rom = Rom::new(&raw).unwrap();
    assert_eq!(rom.prg_rom[0], 0x77);
}
