use gb_core::{Error, Gameboy, GameboyOptions, JoypadState};

fn rom_with(cart_type: u8, cgb_flag: u8, program: &[u8]) -> Vec<u8> {
    let mut rom = vec![0u8; 0x8000];
    rom[0x0143] = cgb_flag;
    rom[0x0147] = cart_type;
    for (i, b) in program.iter().enumerate() {
        rom[0x0100 + i] = *b;
    }
    rom
}

fn opts() -> GameboyOptions {
    GameboyOptions { boot_rom: None, force_dmg: false }
}

#[test]
fn new_rejects_short_rom() {
    match Gameboy::new(vec![0u8; 0x100], opts()) {
        Err(Error::InvalidRom(msg)) => assert_eq!(msg, "ROM too small to contain header"),
        _ => panic!("expected InvalidRom"),
    }
}

#[test]
fn new_rejects_unsupported_cartridge() {
    match Gameboy::new(rom_with(0x22, 0x00, &[]), opts()) {
        Err(Error::UnsupportedCartridge(t)) => assert_eq!(t, 0x22),
        _ => panic!("expected UnsupportedCartridge"),
    }
}

#[test]
fn cgb_mode_follows_header_and_options() {
    let gb = Gameboy::new(rom_with(0x00, 0x80, &[]), opts()).unwrap();
    assert!(gb.cgb_mode());
    let gb = Gameboy::new(rom_with(0x00, 0x80, &[]), GameboyOptions { boot_rom: None, force_dmg: true }).unwrap();
    assert!(!gb.cgb_mode());
    let gb = Gameboy::new(rom_with(0x00, 0xC0, &[]), GameboyOptions { boot_rom: None, force_dmg: true }).unwrap();
    assert!(gb.cgb_mode());
    assert_eq!(gb.cpu.regs.a, 0x11);
    let gb = Gameboy::new(rom_with(0x00, 0x00, &[]), opts()).unwrap();
    assert!(!gb.cgb_mode());
    assert_eq!(gb.cpu.regs.a, 0x01);
}

#[test]
fn run_frame_stops_at_vblank() {
    // JR -2: spin forever.
    let mut gb = Gameboy::new(rom_with(0x00, 0x00, &[0x18, 0xFE]), opts()).unwrap();
    let t = gb.run_frame();
    // The first frame ends when line 144 starts: 144 * 456 dots after power-on.
    assert!(t >= 144 * 456 && t < 144 * 456 + 24, "first frame took {t}");
    let t2 = gb.run_frame();
    assert!(t2 > 70224 - 24 && t2 < 70224 + 24, "second frame took {t2}");
    assert_eq!(t % 4, 0);
    assert_eq!(t2 % 4, 0);
    assert_eq!(gb.frame_buffer().len(), 160 * 144);
}

#[test]
fn run_frame_stops_before_an_undefined_opcode() {
    let mut gb = Gameboy::new(rom_with(0x00, 0x00, &[0x00, 0xD3]), opts()).unwrap();
    assert!(gb.can_step());
    let t = gb.run_frame();
    assert_eq!(t, 4);
    assert!(!gb.can_step());
    assert_eq!(gb.cpu.regs.pc, 0x0101);
}

#[test]
fn step_returns_t_cycles() {
    let mut gb = Gameboy::new(rom_with(0x00, 0x00, &[0x00, 0xC3, 0x00, 0x01]), opts()).unwrap();
    assert_eq!(gb.step(), 4);
    assert_eq!(gb.step(), 16);
    assert_eq!(gb.cpu.regs.pc, 0x0100);
}

#[test]
fn serial_program_output() {
    // LD A,'H'; LDH (01),A; LD A,0x81; LDH (02),A; JR -2
    let prog = [0x3E, b'H', 0xE0, 0x01, 0x3E, 0x81, 0xE0, 0x02, 0x18, 0xFE];
    let mut gb = Gameboy::new(rom_with(0x00, 0x00, &prog), opts()).unwrap();
    for _ in 0..5 {
        gb.step();
    }
    assert_eq!(gb.serial_output(), b"H");
}

#[test]
fn peek_byte_and_buttons() {
    let mut gb = Gameboy::new(rom_with(0x00, 0x00, &[0x18, 0xFE]), opts()).unwrap();
    assert_eq!(gb.peek_byte(0x0100), 0x18);
    gb.set_buttons(JoypadState::start());
    assert_eq!(gb.peek_byte(0xFF0F) & 0x10, 0x10);
}

#[test]
fn reset_restores_power_on_state() {
    let mut gb = Gameboy::new(rom_with(0x00, 0x00, &[0x3C, 0x18, 0xFD]), opts()).unwrap();
    gb.step();
    assert_eq!(gb.cpu.regs.a, 0x02);
    gb.reset();
    assert_eq!(gb.cpu.regs.a, 0x01);
    assert_eq!(gb.cpu.regs.pc, 0x0100);
}

#[test]
fn audio_samples_come_per_frame() {
    let mut gb = Gameboy::new(rom_with(0x00, 0x00, &[0x18, 0xFE]), opts()).unwrap();
    let t = gb.run_frame();
    let samples = gb.take_audio_samples();
    assert_eq!(samples.len() as u64, (t as u64 * 48_000) / 4_194_304);
    assert!(gb.take_audio_samples().is_empty());
}

#[test]
fn battery_ram_round_trip() {
    let mut gb = Gameboy::new(rom_with(0x13, 0x00, &[]), opts()).unwrap();
    assert!(gb.cart_has_battery());
    assert!(gb.cart_ram().is_none());
    let mut rom = rom_with(0x03, 0x00, &[]);
    rom[0x0149] = 0x03;
    let mut gb = Gameboy::new(rom, opts()).unwrap();
    gb.load_cart_ram(&[1, 2, 3, 4]);
    assert_eq!(gb.cart_ram().unwrap().len(), 0x8000);
    assert_eq!(&gb.cart_ram().unwrap()[..4], &[1, 2, 3, 4]);
}

#[test]
fn run_frame_is_bounded_with_the_lcd_off() {
    // LD A,0x11; LDH (40),A; JR -2
    let mut gb = Gameboy::new(rom_with(0x00, 0x00, &[0x3E, 0x11, 0xE0, 0x40, 0x18, 0xFE]), opts()).unwrap();
    let t = gb.run_frame();
    assert!(t >= 2 * 70224 && t < 2 * 70224 + 24, "ran {t}");
    assert_eq!(t % 4, 0);
    assert_eq!(gb.peek_byte(0xFF44), 0);
}
