use gb_core::bus::Bus;
use gb_core::cartridge::Cartridge;
use gb_core::cpu::registers::Flags;
use gb_core::cpu::Cpu;

fn make_bus(rom_at_100: &[u8]) -> Bus {
    // A 32 KiB ROM-only cartridge with the program at 0x0100.
    let mut rom = vec![0u8; 0x8000];
    rom[0x0147] = 0x00; // ROM ONLY
    for (i, b) in rom_at_100.iter().enumerate() {
        rom[0x0100 + i] = *b;
    }
    let cart = Cartridge::from_rom(rom).expect("rom");
    Bus::new(cart, None)
}

#[test]
fn ld_a_imm_and_add() {
    // 0x3E 0x05  LD A, 0x05
    // 0xC6 0x03  ADD A, 0x03
    // 0x76       HALT
    let mut bus = make_bus(&[0x3E, 0x05, 0xC6, 0x03, 0x76]);
    let mut cpu = Cpu::post_boot();
    cpu.regs.pc = 0x0100;
    cpu.step(&mut bus);
    assert_eq!(cpu.regs.a, 0x05);
    cpu.step(&mut bus);
    assert_eq!(cpu.regs.a, 0x08);
}

#[test]
fn jp_nn() {
    // 0xC3 0x34 0x12  JP 0x1234
    let mut bus = make_bus(&[0xC3, 0x34, 0x12]);
    let mut cpu = Cpu::post_boot();
    cpu.regs.pc = 0x0100;
    let c = cpu.step(&mut bus);
    assert_eq!(c, 4);
    assert_eq!(cpu.regs.pc, 0x1234);
}

#[test]
fn call_then_ret() {
    // 0xCD 0x05 0x01   CALL 0x0105    (at 0x0100)
    // 0x00 0x00         filler
    // 0xC9              RET            (at 0x0105)
    let mut bus = make_bus(&[0xCD, 0x05, 0x01, 0x00, 0x00, 0xC9]);
    let mut cpu = Cpu::post_boot();
    cpu.regs.pc = 0x0100;
    cpu.regs.sp = 0xFFFE;
    cpu.step(&mut bus);
    assert_eq!(cpu.regs.pc, 0x0105);
    assert_eq!(cpu.regs.sp, 0xFFFC);
    cpu.step(&mut bus);
    assert_eq!(cpu.regs.pc, 0x0103);
    assert_eq!(cpu.regs.sp, 0xFFFE);
}

#[test]
fn push_pop_af_low_nibble_zero() {
    // 0x01 0xCD 0xAB   LD BC, 0xABCD
    // 0xC5             PUSH BC
    // 0xF1             POP AF
    let mut bus = make_bus(&[0x01, 0xCD, 0xAB, 0xC5, 0xF1]);
    let mut cpu = Cpu::post_boot();
    cpu.regs.pc = 0x0100;
    cpu.regs.sp = 0xFFFE;
    cpu.step(&mut bus);
    cpu.step(&mut bus);
    cpu.step(&mut bus);
    assert_eq!(cpu.regs.a, 0xAB);
    assert_eq!(cpu.regs.f.bits(), 0xCD & 0xF0);
}

#[test]
fn ld_r_r_basic() {
    // 0x06 0x42  LD B, 0x42
    // 0x78       LD A, B
    let mut bus = make_bus(&[0x06, 0x42, 0x78]);
    let mut cpu = Cpu::post_boot();
    cpu.regs.pc = 0x0100;
    cpu.step(&mut bus);
    cpu.step(&mut bus);
    assert_eq!(cpu.regs.a, 0x42);
}

#[test]
fn daa_smoke() {
    // 0x3E 0x45  LD A, 0x45
    // 0xC6 0x38  ADD A, 0x38
    // 0x27       DAA
    let mut bus = make_bus(&[0x3E, 0x45, 0xC6, 0x38, 0x27]);
    let mut cpu = Cpu::post_boot();
    cpu.regs.pc = 0x0100;
    cpu.step(&mut bus);
    cpu.step(&mut bus);
    cpu.step(&mut bus);
    assert_eq!(cpu.regs.a, 0x83);
    assert!(!cpu.regs.f.contains(Flags::c()));
}

#[test]
fn cycle_counts_of_common_instructions() {
    // NOP; LD HL,0xC000; LD (HL),0x12; INC (HL); JR +0; JR NZ +0 (taken: Z clear)
    let mut bus = make_bus(&[0x00, 0x21, 0x00, 0xC0, 0x36, 0x12, 0x34, 0x18, 0x00, 0xAF, 0x20, 0x00]);
    let mut cpu = Cpu::post_boot();
    cpu.regs.pc = 0x0100;
    assert_eq!(cpu.step(&mut bus), 1);
    assert_eq!(cpu.step(&mut bus), 3);
    assert_eq!(cpu.step(&mut bus), 3);
    assert_eq!(cpu.step(&mut bus), 3);
    assert_eq!(bus.read(0xC000), 0x13);
    assert_eq!(cpu.step(&mut bus), 3);
    // XOR A sets Z, so JR NZ is not taken.
    assert_eq!(cpu.step(&mut bus), 1);
    assert_eq!(cpu.step(&mut bus), 2);
    assert_eq!(cpu.regs.pc, 0x010C);
}

#[test]
fn cb_prefixed_ops() {
    // LD A,0x80; SET 0,A (CB C7); BIT 7,A (CB 7F); RES 7,A (CB BF); SWAP A (CB 37)
    let mut bus = make_bus(&[0x3E, 0x80, 0xCB, 0xC7, 0xCB, 0x7F, 0xCB, 0xBF, 0xCB, 0x37]);
    let mut cpu = Cpu::post_boot();
    cpu.regs.pc = 0x0100;
    cpu.step(&mut bus);
    assert_eq!(cpu.step(&mut bus), 2);
    assert_eq!(cpu.regs.a, 0x81);
    assert_eq!(cpu.step(&mut bus), 2);
    assert!(!cpu.regs.f.contains(Flags::z()));
    cpu.step(&mut bus);
    assert_eq!(cpu.regs.a, 0x01);
    cpu.step(&mut bus);
    assert_eq!(cpu.regs.a, 0x10);
}

#[test]
fn interrupt_dispatch_pushes_pc_and_jumps_to_vector() {
    let mut bus = make_bus(&[0x00]);
    let mut cpu = Cpu::post_boot();
    cpu.regs.pc = 0x0150;
    cpu.regs.sp = 0xFFFE;
    cpu.ime = true;
    bus.write(0xFFFF, 0x1F);
    bus.write(0xFF0F, 0x06); // STAT and timer pending: STAT wins
    let c = cpu.step(&mut bus);
    assert_eq!(c, 5);
    assert_eq!(cpu.regs.pc, 0x0048);
    assert!(!cpu.ime);
    assert_eq!(bus.read(0xFF0F), 0xE0 | 0x04);
    assert_eq!(bus.read(0xFFFD), 0x01);
    assert_eq!(bus.read(0xFFFC), 0x50);
}

#[test]
fn ei_takes_effect_after_the_next_instruction() {
    // EI; NOP; NOP
    let mut bus = make_bus(&[0xFB, 0x00, 0x00]);
    let mut cpu = Cpu::post_boot();
    cpu.regs.pc = 0x0100;
    cpu.step(&mut bus);
    assert!(!cpu.ime && cpu.ime_pending);
    cpu.step(&mut bus);
    assert!(cpu.ime && !cpu.ime_pending);
}

#[test]
fn halt_sleeps_until_an_interrupt_is_pending() {
    let mut bus = make_bus(&[0x76, 0x00]);
    let mut cpu = Cpu::post_boot();
    cpu.regs.pc = 0x0100;
    cpu.step(&mut bus);
    assert!(cpu.halted);
    assert_eq!(cpu.step(&mut bus), 1);
    assert_eq!(cpu.regs.pc, 0x0101);
    bus.write(0xFFFF, 0x04);
    bus.write(0xFF0F, 0x04);
    cpu.step(&mut bus);
    assert!(!cpu.halted);
    assert_eq!(cpu.regs.pc, 0x0102);
}

#[test]
fn halt_bug_reads_the_next_byte_twice() {
    // HALT with IME off and an interrupt pending; then INC A (0x3C) runs twice.
    let mut bus = make_bus(&[0x76, 0x3C, 0x00]);
    let mut cpu = Cpu::post_boot();
    cpu.regs.pc = 0x0100;
    cpu.regs.a = 0;
    bus.write(0xFFFF, 0x01);
    bus.write(0xFF0F, 0x01);
    cpu.step(&mut bus);
    assert!(!cpu.halted && cpu.halt_bug);
    cpu.step(&mut bus);
    assert_eq!(cpu.regs.pc, 0x0101);
    cpu.step(&mut bus);
    assert_eq!(cpu.regs.a, 2);
    assert_eq!(cpu.regs.pc, 0x0102);
}

#[test]
fn can_step_rejects_undefined_opcodes() {
    let bus = make_bus(&[0xD3]);
    let mut cpu = Cpu::post_boot();
    cpu.regs.pc = 0x0100;
    assert!(!cpu.can_step(&bus));
    cpu.regs.pc = 0x0101;
    assert!(cpu.can_step(&bus));
}

#[test]
fn ei_pending_before_di_still_takes_effect() {
    // 0xFB EI, 0xF3 DI, 0x00 NOP: the enable pending when DI starts is applied
    // after it.
    let mut bus = make_bus(&[0xFB, 0xF3, 0x00]);
    let mut cpu = Cpu::post_boot();
    cpu.regs.pc = 0x0100;
    cpu.step(&mut bus);
    assert!(!cpu.ime && cpu.ime_pending);
    cpu.step(&mut bus);
    assert!(cpu.ime && !cpu.ime_pending);
}
