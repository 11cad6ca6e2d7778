use gb_core::cartridge::mbc2::Mbc2;
use gb_core::cartridge::{Cartridge, Header};
use gb_core::Error;

fn header_rom() -> Vec<u8> {
    let mut rom = vec![0u8; 0x8000];
    rom[0x0134..0x0139].copy_from_slice(b"TETRA");
    rom[0x0143] = 0x80;
    rom[0x0146] = 0x03;
    rom[0x0147] = 0x01;
    rom[0x0148] = 0x01;
    rom[0x0149] = 0x02;
    let mut x: u8 = 0;
    for i in 0x0134..=0x014C {
        x = x.wrapping_sub(rom[i]).wrapping_sub(1);
    }
    rom[0x014D] = x;
    rom
}

#[test]
fn header_fields_parse() {
    let rom = header_rom();
    let h = Header::parse(&rom).unwrap();
    assert_eq!(h.title, "TETRA");
    assert_eq!(h.cart_type, 0x01);
    assert_eq!(h.rom_size_bytes, 64 * 1024);
    assert_eq!(h.ram_size_bytes, 8 * 1024);
    assert_eq!(h.cgb_flag, 0x80);
    assert_eq!(h.sgb_flag, 0x03);
    assert!(h.header_checksum_ok);
    assert!(h.is_cgb() && !h.is_cgb_only());
}

#[test]
fn bad_checksum_is_reported() {
    let mut rom = header_rom();
    rom[0x014D] ^= 1;
    assert!(!Header::parse(&rom).unwrap().header_checksum_ok);
}

#[test]
fn from_rom_picks_the_controller() {
    let c = Cartridge::from_rom(header_rom()).unwrap();
    assert!(!c.has_battery());
    assert_eq!(c.read_rom(0x0147), 0x01);
    match Cartridge::from_rom(vec![0; 0x10]) {
        Err(Error::InvalidRom(_)) => {}
        _ => panic!("expected InvalidRom"),
    }
}

#[test]
fn mbc2_ram_keeps_nibbles() {
    let mut rom = header_rom();
    rom[0x0147] = 0x06;
    let mut c = Cartridge::from_rom(rom).unwrap();
    c.write_ram(0xA010, 0xAB);
    assert_eq!(c.read_ram(0xA010), 0xFB);
    assert_eq!(c.read_ram(0xA210), 0xFB);
    assert!(c.has_battery());
}

#[test]
fn mbc2_selects_rom_banks_with_address_bit_8() {
    let mut rom = vec![0u8; 16 * 0x4000];
    for (i, b) in rom.iter_mut().enumerate() {
        *b = (i / 0x4000) as u8;
    }
    let mut m = Mbc2::new(rom);
    assert_eq!(m.read_rom(0x4000), 1);
    m.write_rom(0x2100, 0x03);
    assert_eq!(m.read_rom(0x4000), 3);
    assert_eq!(m.read_rom(0x7FFF), 3);
    assert_eq!(m.read_rom(0x0000), 0);
    // Address bit 8 clear: not the bank register.
    m.write_rom(0x2000, 0x05);
    assert_eq!(m.read_rom(0x4000), 3);
    // 0 selects bank 1; only the low nibble counts.
    m.write_rom(0x0100, 0x00);
    assert_eq!(m.read_rom(0x4000), 1);
    m.write_rom(0x3FFF, 0xFF);
    assert_eq!(m.read_rom(0x4000), 15);
}
