use cozynes::bus::Bus;
use cozynes::rom::Rom;

fn rom_with_prg(pages: u8, fill: impl Fn(usize) -> u8) -> Rom {
    let mut raw = vec![0x4E, 0x45, 0x53, 0x1A, pages, 0, 0, 0];
    raw.resize(16, 0);
    for i in 0..pages as usize * 16384 {
        raw.push(fill(i));
    }
    Rom::new(&raw).unwrap()
}

#[test]
fn ram_is_mirrored_every_0x800_bytes() {
    let mut bus = Bus::new(rom_with_prg(1, |_| 0));
    bus.write_byte(0x0042, 0x99).unwrap();
    assert_eq!(bus.read_byte(0x0042), 0x99);
    assert_eq!(bus.read_byte(0x0842), 0x99);
    assert_eq!(bus.read_byte(0x1042), 0x99);
    assert_eq!(bus.read_byte(0x1842), 0x99);
    bus.write_byte(0x1F00, 0x55).unwrap();
    assert_eq!(bus.read_byte(0x0700), 0x55);
}

#[test]
fn ppu_window_reads_zero_and_swallows_writes() {
    let mut bus = Bus::new(rom_with_prg(1, |_| 0xAB));
    assert_eq!(bus.read_byte(0x2000), 0);
    assert_eq!(bus.read_byte(0x3FFF), 0);
    bus.write_byte(0x2002, 0x12).unwrap();
    assert_eq!(bus.read_byte(0x2002), 0);
}

#[test]
fn unmapped_space_reads_zero_and_swallows_writes() {
    let mut bus = Bus::new(rom_with_prg(1, |_| 0xAB));
    assert_eq!(bus.read_byte(0x5000), 0);
    bus.write_byte(0x5000, 0x12).unwrap();
    assert_eq!(bus.read_byte(0x5000), 0);
}

#[test]
fn sixteen_kb_prg_is_mirrored_across_the_window() {
    let bus = Bus::new(rom_with_prg(1, |i| (i % 251) as u8));
    for addr in [0x8000u16, 0x8001, 0x9ABC, 0xBFFF] {
        assert_eq!(bus.read_byte(addr), bus.read_byte(addr + 0x4000));
    }
    assert_eq!(bus.read_byte(0x8005), 5);
    assert_eq!(bus.read_byte(0xC005), 5);
}

#[test]
fn thirty_two_kb_prg_maps_directly() {
    let bus = Bus::new(rom_with_prg(2, |i| if i < 16384 { 1 } else { 2 }));
    assert_eq!(bus.read_byte(0x8005), 1);
    assert_eq!(bus.read_byte(0xC005), 2);
    assert_ne!(bus.read_byte(0x8005), bus.read_byte(0xC005));
}

#[test]
fn rom_write_is_an_error_and_changes_nothing() {
    let mut bus = Bus::new(rom_with_prg(1, |i| i as u8));
    assert!(bus.write_byte(0x8010, 0xFF).is_err());
    assert_eq!(bus.read_byte(0x8010), 0x10);
}

#[test]
fn words_are_little_endian() {
    let mut bus = Bus::new(rom_with_prg(1, |_| 0));
    bus.write_word(0x0010, 0xBEEF).unwrap();
    assert_eq!(bus.read_byte(0x0010), 0xEF);
    assert_eq!(bus.read_byte(0x0011), 0xBE);
    assert_eq!(bus.read_word(0x0010), 0xBEEF);
}

#[test]
fn empty_prg_reads_zero_without_panicking() {
    let bus = Bus::new(rom_with_prg(0, |_| 0));
    assert_eq!(bus.read_byte(0x8000), 0);
    assert_eq!(bus.read_byte(0xFFFF), 0);
}
