use gb_core::cpu::alu::{add, add16, add_sp_i8, adc, and, bit, cp, daa, dec, inc, or, res, rl, rlc, rr, rrc, sbc, sla, sra, srl, sub, swap, xor};
use gb_core::cpu::registers::Flags;

#[test]
fn add_basics() {
    let mut f = Flags::empty();
    assert_eq!(add(0x0F, 0x01, &mut f), 0x10);
    assert!(f.contains(Flags::h()));
    assert!(!f.contains(Flags::c()));
    assert_eq!(add(0xFF, 0x01, &mut f), 0x00);
    assert!(f.contains(Flags::z()) && f.contains(Flags::c()) && f.contains(Flags::h()));
}

#[test]
fn daa_after_bcd_add() {
    // 0x45 + 0x38 = 0x7D → DAA = 0x83
    let mut f = Flags::empty();
    let s = add(0x45, 0x38, &mut f);
    let r = daa(s, &mut f);
    assert_eq!(r, 0x83);
    assert!(!f.contains(Flags::c()));
}

#[test]
fn daa_after_bcd_sub() {
    // 0x83 - 0x38 = 0x4B → DAA = 0x45
    let mut f = Flags::empty();
    let s = sub(0x83, 0x38, &mut f);
    let r = daa(s, &mut f);
    assert_eq!(r, 0x45);
}

#[test]
fn add_sp_i8_flags() {
    let mut f = Flags::empty();
    let r = add_sp_i8(0x0008, 0x08, &mut f);
    assert_eq!(r, 0x0010);
    assert!(f.contains(Flags::h()));
    assert!(!f.contains(Flags::c()));
}

#[test]
fn adc_and_sbc_use_the_carry() {
    let mut f = Flags::c();
    assert_eq!(adc(0x10, 0x20, &mut f), 0x31);
    assert_eq!(f.bits(), 0);
    let mut f = Flags::c();
    assert_eq!(sbc(0x10, 0x0F, &mut f), 0x00);
    assert!(f.contains(Flags::z()) && f.contains(Flags::n()) && f.contains(Flags::h()));
    assert!(!f.contains(Flags::c()));
}

#[test]
fn logic_ops_set_flags() {
    let mut f = Flags::c();
    assert_eq!(and(0xF0, 0x0F, &mut f), 0);
    assert_eq!(f.bits(), 0xA0);
    assert_eq!(or(0xF0, 0x0F, &mut f), 0xFF);
    assert_eq!(f.bits(), 0);
    assert_eq!(xor(0xAA, 0xAA, &mut f), 0);
    assert_eq!(f.bits(), 0x80);
    cp(0x10, 0x20, &mut f);
    assert!(f.contains(Flags::c()) && f.contains(Flags::n()));
}

#[test]
fn inc_dec_keep_carry() {
    let mut f = Flags::c();
    assert_eq!(inc(0xFF, &mut f), 0);
    assert_eq!(f.bits(), 0x80 | 0x20 | 0x10);
    let mut f = Flags::c();
    assert_eq!(dec(0x10, &mut f), 0x0F);
    assert_eq!(f.bits(), 0x40 | 0x20 | 0x10);
}

#[test]
fn rotates_and_shifts() {
    let mut f = Flags::empty();
    assert_eq!(rlc(0x85, &mut f), 0x0B);
    assert!(f.contains(Flags::c()));
    assert_eq!(rrc(0x01, &mut f), 0x80);
    assert!(f.contains(Flags::c()));
    let mut f = Flags::c();
    assert_eq!(rl(0x80, &mut f), 0x01);
    assert!(f.contains(Flags::c()));
    let mut f = Flags::empty();
    assert_eq!(rr(0x01, &mut f), 0x00);
    assert!(f.contains(Flags::z()) && f.contains(Flags::c()));
    assert_eq!(sla(0xC0, &mut f), 0x80);
    assert_eq!(sra(0x81, &mut f), 0xC0);
    assert_eq!(srl(0x81, &mut f), 0x40);
    assert_eq!(swap(0x12, &mut f), 0x21);
    assert_eq!(f.bits(), 0);
}

#[test]
fn bit_res_set() {
    let mut f = Flags::c();
    bit(3, 0x08, &mut f);
    assert_eq!(f.bits(), 0x20 | 0x10);
    bit(2, 0x08, &mut f);
    assert_eq!(f.bits(), 0x80 | 0x20 | 0x10);
    assert_eq!(res(7, 0xFF), 0x7F);
    assert_eq!(gb_core::cpu::alu::set(0, 0x00), 0x01);
}

#[test]
fn add16_carries_from_bits_11_and_15() {
    let mut f = Flags::z();
    assert_eq!(add16(0x0FFF, 0x0001, &mut f), 0x1000);
    assert_eq!(f.bits(), 0x80 | 0x20);
    assert_eq!(add16(0xFFFF, 0x0001, &mut f), 0x0000);
    assert_eq!(f.bits(), 0x80 | 0x20 | 0x10);
}

#[test]
fn add_sp_negative_offset() {
    let mut f = Flags::empty();
    assert_eq!(add_sp_i8(0x0000, -1, &mut f), 0xFFFF);
    assert_eq!(f.bits(), 0);
    assert_eq!(add_sp_i8(0x00FF, 1, &mut f), 0x0100);
    assert_eq!(f.bits(), 0x20 | 0x10);
}
