use gb_core::interrupts::Interrupts;
use gb_core::ppu::Ppu;

#[test]
fn frame_is_154_lines_of_456_dots() {
    let mut p = Ppu::new();
    let mut ints = Interrupts::new();
    p.tick(70224, &mut ints);
    assert_eq!(p.read_reg(0xFF44), 0);
    assert_eq!(p.line_dot, 0);
    assert_eq!(ints.iflag.bits() & 0x01, 0x01);
    assert!(p.take_frame_ready());
}

#[test]
fn vblank_starts_at_line_144() {
    let mut p = Ppu::new();
    let mut ints = Interrupts::new();
    p.tick(144 * 456 - 1, &mut ints);
    assert_eq!(ints.iflag.bits() & 0x01, 0);
    p.tick(1, &mut ints);
    assert_eq!(ints.iflag.bits() & 0x01, 0x01);
    assert_eq!(p.read_reg(0xFF44), 144);
    assert_eq!(p.read_reg(0xFF41) & 0x03, 1);
}

#[test]
fn lcd_off_freezes_the_ppu() {
    let mut p = Ppu::new();
    let mut ints = Interrupts::new();
    p.write_reg(0xFF40, 0x11);
    p.tick(10_000, &mut ints);
    assert_eq!(p.read_reg(0xFF44), 0);
    assert_eq!(ints.iflag.bits(), 0);
}

#[test]
fn stat_reports_coincidence() {
    let mut p = Ppu::new();
    let mut ints = Interrupts::new();
    p.write_reg(0xFF45, 2);
    p.write_reg(0xFF41, 0x40);
    p.tick(2 * 456, &mut ints);
    assert_eq!(p.read_reg(0xFF41) & 0x04, 0x04);
    assert_eq!(ints.iflag.bits() & 0x02, 0x02);
}

#[test]
fn vram_and_oam_access() {
    let mut p = Ppu::new();
    p.write_vram(0x8010, 0xAB);
    assert_eq!(p.read_vram(0x8010), 0xAB);
    p.write_oam(0xFE04, 0xCD);
    assert_eq!(p.read_oam(0xFE04), 0xCD);
}
