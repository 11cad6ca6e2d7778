use gb_core::cpu::registers::Registers;

#[test]
fn af_low_nibble_is_zero() {
    let mut r = Registers::default();
    r.set_af(0xABCD);
    assert_eq!(r.af() & 0x000F, 0, "F low nibble must be zero");
}

#[test]
fn register_pairs_round_trip() {
    let mut r = Registers::default();
    r.set_bc(0x1234);
    r.set_de(0x5678);
    r.set_hl(0x9ABC);
    assert_eq!((r.b, r.c, r.bc()), (0x12, 0x34, 0x1234));
    assert_eq!(r.de(), 0x5678);
    assert_eq!(r.hl(), 0x9ABC);
    r.set_af(0xABCD);
    assert_eq!(r.af(), 0xABC0);
}

#[test]
fn post_boot_register_values() {
    let r = Registers::post_boot();
    assert_eq!((r.af(), r.bc(), r.de(), r.hl(), r.sp, r.pc), (0x01B0, 0x0013, 0x00D8, 0x014D, 0xFFFE, 0x0100));
    let c = Registers::post_boot_cgb();
    assert_eq!((c.af(), c.bc(), c.de(), c.hl()), (0x1180, 0x0000, 0xFF56, 0x000D));
}
