use gb_core::bus::Bus;
use gb_core::cartridge::Cartridge;
use gb_core::joypad::JoypadState;

fn rom(cart_type: u8, ram_code: u8, program: &[u8]) -> Vec<u8> {
    let mut rom = vec![0u8; 0x8000];
    rom[0x0147] = cart_type;
    rom[0x0149] = ram_code;
    for (i, b) in program.iter().enumerate() {
        rom[0x0100 + i] = *b;
    }
    rom
}

fn bus(cgb: bool) -> Bus {
    let cart = Cartridge::from_rom(rom(0x00, 0x00, &[])).expect("rom");
    Bus::new_with_mode(cart, None, cgb)
}

#[test]
fn work_ram_and_echo() {
    let mut b = bus(false);
    b.write(0xC123, 0x5A);
    assert_eq!(b.read(0xC123), 0x5A);
    assert_eq!(b.read(0xE123), 0x5A);
    b.write(0xFD00, 0x77);
    assert_eq!(b.read(0xDD00), 0x77);
    b.write(0xFF90, 0x33);
    assert_eq!(b.read(0xFF90), 0x33);
}

#[test]
fn prohibited_area_reads_ff() {
    let mut b = bus(false);
    b.write(0xFEA5, 0x12);
    assert_eq!(b.read(0xFEA5), 0xFF);
}

#[test]
fn cgb_wram_banks_switch_at_d000() {
    let mut b = bus(true);
    b.write(0xFF70, 2);
    b.write(0xD000, 0x22);
    b.write(0xFF70, 3);
    b.write(0xD000, 0x33);
    b.write(0xFF70, 0); // bank 0 selects bank 1
    b.write(0xD000, 0x11);
    b.write(0xFF70, 2);
    assert_eq!(b.read(0xD000), 0x22);
    assert_eq!(b.read(0xFF70), 0xF8 | 2);
    b.write(0xFF70, 1);
    assert_eq!(b.read(0xD000), 0x11);
    // DMG ignores SVBK.
    let mut d = bus(false);
    d.write(0xFF70, 3);
    assert_eq!(d.read(0xFF70), 0xFF);
}

#[test]
fn ie_keeps_five_sources() {
    let mut b = bus(false);
    b.write(0xFFFF, 0xFF);
    assert_eq!(b.read(0xFFFF), 0x1F);
    assert_eq!(b.ie().bits(), 0x1F);
    b.write(0xFF0F, 0x01);
    assert_eq!(b.read(0xFF0F), 0xE1);
    assert_eq!(b.pending_interrupts().bits(), 0x01);
}

#[test]
fn oam_dma_copies_a_page() {
    let mut b = bus(false);
    for i in 0..0xA0u16 {
        b.write(0xC000 + i, (i as u8) ^ 0x5A);
    }
    b.write(0xFF46, 0xC0);
    for i in 0..0xA0u16 {
        assert_eq!(b.read(0xFE00 + i), (i as u8) ^ 0x5A);
    }
}

#[test]
fn general_hdma_copies_to_vram() {
    let mut b = bus(true);
    for i in 0..0x20u16 {
        b.write(0xC000 + i, i as u8 + 1);
    }
    b.write(0xFF51, 0xC0);
    b.write(0xFF52, 0x00);
    b.write(0xFF53, 0x81);
    b.write(0xFF54, 0x00);
    b.write(0xFF55, 0x01); // two blocks, general purpose
    for i in 0..0x20u16 {
        assert_eq!(b.read(0x8100 + i), i as u8 + 1);
    }
    assert_eq!(b.read(0xFF55), 0xFF);
}

#[test]
fn general_hdma_past_9fff_goes_on_into_bank_1() {
    let mut b = bus(true);
    for i in 0..0x20u16 {
        b.write(0xC000 + i, i as u8 + 1);
    }
    b.write(0xFF51, 0xC0);
    b.write(0xFF52, 0x00);
    b.write(0xFF53, 0x1F);
    b.write(0xFF54, 0xF0);
    b.write(0xFF55, 0x01); // two blocks from 0x9FF0, VBK = 0
    for i in 0..0x10u16 {
        assert_eq!(b.read(0x9FF0 + i), i as u8 + 1);
    }
    assert_eq!(b.read(0x8000), 0x00);
    b.write(0xFF4F, 0x01);
    for i in 0..0x10u16 {
        assert_eq!(b.read(0x8000 + i), i as u8 + 0x11);
    }
}

#[test]
fn serial_output_is_captured() {
    let mut b = bus(false);
    b.write(0xFF01, b'O');
    b.write(0xFF02, 0x81);
    b.write(0xFF01, b'K');
    b.write(0xFF02, 0x81);
    assert_eq!(b.serial_output(), b"OK");
    assert_eq!(b.read(0xFF02), 0x7E | 0x01);
}

#[test]
fn joypad_press_requests_interrupt() {
    let mut b = bus(false);
    b.write(0xFF00, 0x20); // select the d-pad (bit 4 low)
    b.set_joypad(JoypadState::right().union(JoypadState::a()));
    assert_eq!(b.iflag().bits() & 0x10, 0x10);
    assert_eq!(b.read(0xFF00), 0xC0 | 0x20 | 0x0E);
    b.clear_if(gb_core::IntFlags::joypad());
    b.set_joypad(JoypadState::right());
    assert_eq!(b.iflag().bits() & 0x10, 0);
}

#[test]
fn boot_rom_overlay_until_ff50() {
    let cart = Cartridge::from_rom(rom(0x00, 0x00, &[0x42])).expect("rom");
    let mut boot = vec![0u8; 0x100];
    boot[0x00] = 0x31;
    let mut b = Bus::new(cart, Some(boot));
    assert_eq!(b.read(0x0000), 0x31);
    assert_eq!(b.read(0x0100), 0x42);
    b.write(0xFF50, 0x01);
    assert_eq!(b.read(0x0000), 0x00);
}

#[test]
fn boot_rom_stays_unmapped() {
    let cart = Cartridge::from_rom(rom(0x00, 0x00, &[0x42])).expect("rom");
    let mut boot = vec![0u8; 0x100];
    boot[0x00] = 0x31;
    let mut b = Bus::new(cart, Some(boot));
    b.write(0xFF50, 0x00);
    assert_eq!(b.read(0x0000), 0x31);
    b.write(0xFF50, 0x01);
    b.write(0xFF50, 0x00);
    b.write(0xFF50, 0x01);
    assert_eq!(b.read(0x0000), 0x00);
}

#[test]
fn key1_speed_switch_on_stop() {
    let mut b = bus(true);
    b.write(0xFF4D, 0x01);
    assert_eq!(b.read(0xFF4D), 0x7E | 0x01);
    b.handle_stop();
    assert_eq!(b.key1(), 0x80);
    assert_eq!(b.read(0xFF4D), 0xFE);
}

#[test]
fn cart_ram_save_and_restore() {
    let cart = Cartridge::from_rom(rom(0x03, 0x02, &[])).expect("rom");
    let mut b = Bus::new(cart, None);
    assert!(b.cart_has_battery());
    b.load_cart_ram(&[9, 8, 7]);
    assert_eq!(&b.cart_ram().unwrap()[..3], &[9, 8, 7]);
    b.write(0x0000, 0x0A);
    assert_eq!(b.read(0xA002), 7);
}

#[test]
fn bus_tick_runs_timer_and_ppu() {
    let mut b = bus(false);
    b.tick(456);
    assert_eq!(b.read(0xFF44), 1);
    assert_eq!(b.read(0xFF04), 1);
    assert_eq!(b.ppu().cgb_mode(), false);
}

#[test]
fn vram_round_trip_through_the_bus() {
    let mut b = bus(false);
    b.write(0x9FFF, 0x3C);
    assert_eq!(b.read(0x9FFF), 0x3C);
}

#[test]
fn hblank_hdma_copies_one_block_per_line() {
    let mut b = bus(true);
    for i in 0..0x20u16 {
        b.write(0xC000 + i, 0xA0 + i as u8);
    }
    b.write(0xFF51, 0xC0);
    b.write(0xFF52, 0x00);
    b.write(0xFF53, 0x80);
    b.write(0xFF54, 0x00);
    b.write(0xFF55, 0x81); // HBlank mode, two blocks
    assert_eq!(b.read(0xFF55), 0x01);
    b.tick(456);
    assert_eq!(b.read(0x800F), 0xAF);
    assert_eq!(b.read(0x8010), 0x00);
    assert_eq!(b.read(0xFF55), 0x00);
    b.tick(456);
    assert_eq!(b.read(0x801F), 0xBF);
    assert_eq!(b.read(0xFF55), 0xFF);
}
