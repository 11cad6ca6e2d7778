use gb_core::cartridge::mbc1::Mbc1;

/// Build a synthetic ROM with N 16-KiB banks, each filled with its bank number.
fn rom_with_n_banks(n: usize) -> Vec<u8> {
    let mut rom = vec![0u8; n * 0x4000];
    for bank in 0..n {
        for i in 0..0x4000 {
            rom[bank * 0x4000 + i] = bank as u8;
        }
    }
    rom
}

#[test]
fn mbc1_defaults_select_bank_0_and_bank_1() {
    let m = Mbc1::new(rom_with_n_banks(4), 0);
    assert_eq!(m.read_rom(0x0000), 0);
    assert_eq!(m.read_rom(0x4000), 1);
}

#[test]
fn bank1_zero_maps_to_one() {
    let mut m = Mbc1::new(rom_with_n_banks(4), 0);
    m.write_rom(0x2000, 0x00);
    assert_eq!(m.read_rom(0x4000), 1);
}

#[test]
fn switching_rom_banks_through_bank1() {
    let mut m = Mbc1::new(rom_with_n_banks(8), 0);
    m.write_rom(0x2000, 3);
    assert_eq!(m.read_rom(0x4000), 3);
    m.write_rom(0x2000, 7);
    assert_eq!(m.read_rom(0x4000), 7);
}

#[test]
fn bank2_extends_rom_bank_address() {
    // 64-bank ROM (1 MiB). With bank2=1, bank1=1, expect bank 0x21 = 33.
    let mut m = Mbc1::new(rom_with_n_banks(64), 0);
    m.write_rom(0x2000, 1);
    m.write_rom(0x4000, 1);
    assert_eq!(m.read_rom(0x4000), 0x21);
}

#[test]
fn mode1_remaps_low_region_to_upper_bank() {
    // 64-bank ROM, mode=1, bank2=1 → low region maps to bank 0x20 = 32.
    let mut m = Mbc1::new(rom_with_n_banks(64), 0);
    m.write_rom(0x4000, 1);
    m.write_rom(0x6000, 1);
    assert_eq!(m.read_rom(0x0000), 0x20);
}

#[test]
fn mbc1_ram_writes_only_when_enabled() {
    let mut m = Mbc1::new(rom_with_n_banks(2), 0x2000);
    m.write_ram(0xA000, 0x42);
    assert_eq!(m.read_ram(0xA000), 0xFF, "disabled RAM reads 0xFF");
    m.write_rom(0x0000, 0x0A); // enable
    m.write_ram(0xA000, 0x42);
    assert_eq!(m.read_ram(0xA000), 0x42);
    m.write_rom(0x0000, 0x00); // disable again
    assert_eq!(m.read_ram(0xA000), 0xFF);
}

#[test]
fn ram_banking_uses_bank2_in_mode1() {
    let mut m = Mbc1::new(rom_with_n_banks(2), 0x8000); // 32 KiB RAM = 4 banks
    m.write_rom(0x0000, 0x0A); // enable RAM
    m.write_rom(0x6000, 1); // mode 1
    m.write_rom(0x4000, 0); // bank2 = 0
    m.write_ram(0xA000, 0x11);
    m.write_rom(0x4000, 1); // bank2 = 1
    m.write_ram(0xA000, 0x22);
    m.write_rom(0x4000, 0);
    assert_eq!(m.read_ram(0xA000), 0x11);
    m.write_rom(0x4000, 1);
    assert_eq!(m.read_ram(0xA000), 0x22);
}

#[test]
fn mbc1_rom_bank_wraps_to_rom_size() {
    let mut m = Mbc1::new(rom_with_n_banks(4), 0);
    m.write_rom(0x2000, 5); // 5 & (4 - 1) = 1
    assert_eq!(m.read_rom(0x4000), 1);
    assert_eq!(m.read_rom(0x7FFF), 1);
}

#[test]
fn mbc1_load_ram_clamps() {
    let mut m = Mbc1::new(rom_with_n_banks(2), 0x2000);
    m.load_ram(&[1, 2, 3]);
    m.write_rom(0x0000, 0x0A);
    assert_eq!(m.read_ram(0xA001), 2);
    assert_eq!(m.read_ram(0xA003), 0);
}
