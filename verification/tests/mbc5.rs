use gb_core::cartridge::mbc5::Mbc5;

/// Build a synthetic ROM with N 16-KiB banks. Each byte is `bank_number as u8`.
fn rom_with_n_banks(n: usize) -> Vec<u8> {
    let mut rom = vec![0u8; n * 0x4000];
    for bank in 0..n {
        for i in 0..0x4000 {
            rom[bank * 0x4000 + i] = bank as u8;
        }
    }
    rom
}

#[test]
fn mbc5_defaults_select_bank_0_and_bank_1() {
    let m = Mbc5::new(rom_with_n_banks(4), 0);
    assert_eq!(m.read_rom(0x0000), 0);
    assert_eq!(m.read_rom(0x4000), 1);
}

#[test]
fn bank_0_can_be_selected() {
    // Unlike MBC1, writing 0 to the bank register selects bank 0 verbatim.
    let mut m = Mbc5::new(rom_with_n_banks(4), 0);
    m.write_rom(0x2000, 0x00);
    m.write_rom(0x3000, 0x00);
    assert_eq!(m.read_rom(0x4000), 0);
}

#[test]
fn rom_bank_high_bit_extends_to_9_bits() {
    // 512 banks = 8 MiB. Select bank 0x101 (= 257).
    let mut m = Mbc5::new(rom_with_n_banks(512), 0);
    m.write_rom(0x2000, 0x01);
    m.write_rom(0x3000, 0x01);
    // Byte at any addr in 0x4000–0x7FFF equals (257 % 256) = 1.
    assert_eq!(m.read_rom(0x4000), 0x101u16 as u8);
    // And bank 0x100 (256).
    m.write_rom(0x2000, 0x00);
    m.write_rom(0x3000, 0x01);
    assert_eq!(m.read_rom(0x4000), 0x100u16 as u8);
}

#[test]
fn ram_bank_switching_16_banks() {
    // 128 KiB RAM = 16 banks.
    let mut m = Mbc5::new(rom_with_n_banks(2), 16 * 0x2000);
    m.write_rom(0x0000, 0x0A);
    for b in 0u8..16 {
        m.write_rom(0x4000, b);
        m.write_ram(0xA000, 0xC0 + b);
    }
    for b in 0u8..16 {
        m.write_rom(0x4000, b);
        assert_eq!(m.read_ram(0xA000), 0xC0 + b, "bank {b}");
    }
    // Upper nibble of the ram-bank write is masked.
    m.write_rom(0x4000, 0xF3);
    assert_eq!(m.read_ram(0xA000), 0xC0 + 3, "0xF3 → low 4 bits = 3");
}

#[test]
fn mbc5_ram_writes_only_when_enabled() {
    let mut m = Mbc5::new(rom_with_n_banks(2), 0x2000);
    m.write_ram(0xA000, 0x42);
    assert_eq!(m.read_ram(0xA000), 0xFF);
    m.write_rom(0x0000, 0x0A);
    m.write_ram(0xA000, 0x42);
    assert_eq!(m.read_ram(0xA000), 0x42);
    m.write_rom(0x0000, 0x00);
    assert_eq!(m.read_ram(0xA000), 0xFF);
}
