//! 8-bit and 16-bit ALU primitives with their flag effects (Pan Docs, CPU
//! instruction set). Each result is stated over mathematical integers; each
//! flag effect is stated as the sequence of flag updates it performs.

use vstd::prelude::*;
use crate::cpu::registers::{Flags, update_flag, FLAG_Z, FLAG_N, FLAG_H, FLAG_C};

verus! {

/// `x` reduced modulo 256.
pub open spec fn wrap8(x: int) -> u8 {
    (x % 256) as u8
}

/// `x` reduced modulo 65536.
pub open spec fn wrap16(x: int) -> u16 {
    (x % 65536) as u16
}

/// Flag byte after setting Z, N, H, C as given and keeping the other bits.
pub open spec fn znhc(bits: u8, z: bool, n: bool, h: bool, c: bool) -> u8 {
    update_flag(update_flag(update_flag(update_flag(bits, FLAG_Z, z), FLAG_N, n), FLAG_H, h), FLAG_C, c)
}

/// Flag byte of the form written by the logic, rotate and shift operations:
/// every bit cleared except Z, H, C as given.
pub open spec fn fresh_flags(z: bool, h: bool, c: bool) -> u8 {
    update_flag(update_flag(update_flag(0, FLAG_Z, z), FLAG_H, h), FLAG_C, c)
}

pub open spec fn carry_in(f: Flags) -> int {
    if f.c_set() { 1 } else { 0 }
}

pub open spec fn add_flags(a: u8, b: u8, cin: int, f: u8) -> u8 {
    znhc(f, wrap8(a + b + cin) == 0, false, (a % 16) + (b % 16) + cin > 15, a + b + cin > 255)
}

pub open spec fn sub_flags(a: u8, b: u8, cin: int, f: u8) -> u8 {
    znhc(f, wrap8(a - b - cin) == 0, true, (a % 16) < (b % 16) + cin, a < b + cin)
}

/// `ADD A, b`: result modulo 256; Z, N=0, H = carry out of bit 3, C = carry out of bit 7.
pub fn add(a: u8, b: u8, f: &mut Flags) -> (r: u8)
    ensures
        r == wrap8(a + b),
        final(f).bits == add_flags(a, b, 0, old(f).bits),
{
    let r = ((a as u16 + b as u16) % 256) as u8;
    f.set(Flags::z(), r == 0);
    f.remove(Flags::n());
    f.set(Flags::h(), (a % 16) + (b % 16) > 15);
    f.set(Flags::c(), a as u16 + b as u16 > 255);
    r
}

/// `ADC A, b`: like `add` with the carry flag added in.
pub fn adc(a: u8, b: u8, f: &mut Flags) -> (r: u8)
    ensures
        r == wrap8(a + b + carry_in(*old(f))),
        final(f).bits == add_flags(a, b, carry_in(*old(f)), old(f).bits),
{
    let c: u16 = if f.contains(Flags::c()) { 1 } else { 0 };
    let r = ((a as u16 + b as u16 + c) % 256) as u8;
    f.set(Flags::z(), r == 0);
    f.remove(Flags::n());
    f.set(Flags::h(), (a as u16 % 16) + (b as u16 % 16) + c > 15);
    f.set(Flags::c(), a as u16 + b as u16 + c > 255);
    r
}

/// `SUB b`: result modulo 256; Z, N=1, H = borrow from bit 4, C = borrow.
pub fn sub(a: u8, b: u8, f: &mut Flags) -> (r: u8)
    ensures
        r == wrap8(a - b),
        final(f).bits == sub_flags(a, b, 0, old(f).bits),
{
    let r = ((a as u16 + 256 - b as u16) % 256) as u8;
    f.set(Flags::z(), r == 0);
    f.insert(Flags::n());
    f.set(Flags::h(), (a % 16) < (b % 16));
    f.set(Flags::c(), a < b);
    r
}

/// `SBC A, b`: like `sub` with the carry flag subtracted too.
pub fn sbc(a: u8, b: u8, f: &mut Flags) -> (r: u8)
    ensures
        r == wrap8(a - b - carry_in(*old(f))),
        final(f).bits == sub_flags(a, b, carry_in(*old(f)), old(f).bits),
{
    let c: u16 = if f.contains(Flags::c()) { 1 } else { 0 };
    let r = ((a as u16 + 512 - b as u16 - c) % 256) as u8;
    f.set(Flags::z(), r == 0);
    f.insert(Flags::n());
    f.set(Flags::h(), (a as u16 % 16) < (b as u16 % 16) + c);
    f.set(Flags::c(), (a as u16) < (b as u16) + c);
    r
}

/// `AND b`: Z from the result, H=1, N=C=0.
pub fn and(a: u8, b: u8, f: &mut Flags) -> (r: u8)
    ensures
        r == a & b,
        final(f).bits == update_flag(FLAG_H, FLAG_Z, r == 0),
{
    let r = a & b;
    *f = Flags::h();
    f.set(Flags::z(), r == 0);
    r
}

/// `OR b`: Z from the result, the other flags cleared.
pub fn or(a: u8, b: u8, f: &mut Flags) -> (r: u8)
    ensures
        r == a | b,
        final(f).bits == update_flag(0, FLAG_Z, r == 0),
{
    let r = a | b;
    *f = Flags::empty();
    f.set(Flags::z(), r == 0);
    r
}

/// `XOR b`: Z from the result, the other flags cleared.
pub fn xor(a: u8, b: u8, f: &mut Flags) -> (r: u8)
    ensures
        r == a ^ b,
        final(f).bits == update_flag(0, FLAG_Z, r == 0),
{
    let r = a ^ b;
    *f = Flags::empty();
    f.set(Flags::z(), r == 0);
    r
}

/// `CP b`: the flags of `sub(a, b)`; A is left alone.
pub fn cp(a: u8, b: u8, f: &mut Flags)
    ensures final(f).bits == sub_flags(a, b, 0, old(f).bits),
{
    let _ = self::sub(a, b, f);
}

/// `INC`: Z, N=0, H = carry out of bit 3; C is kept.
pub fn inc(a: u8, f: &mut Flags) -> (r: u8)
    ensures
        r == wrap8(a + 1),
        final(f).bits == update_flag(update_flag(update_flag(old(f).bits, FLAG_Z, r == 0), FLAG_N, false), FLAG_H, a % 16 == 15),
{
    let r = ((a as u16 + 1) % 256) as u8;
    f.set(Flags::z(), r == 0);
    f.remove(Flags::n());
    f.set(Flags::h(), a % 16 == 15);
    r
}

/// `DEC`: Z, N=1, H = borrow from bit 4; C is kept.
pub fn dec(a: u8, f: &mut Flags) -> (r: u8)
    ensures
        r == wrap8(a - 1),
        final(f).bits == update_flag(update_flag(update_flag(old(f).bits, FLAG_Z, r == 0), FLAG_N, true), FLAG_H, a % 16 == 0),
{
    let r = ((a as u16 + 255) % 256) as u8;
    f.set(Flags::z(), r == 0);
    f.insert(Flags::n());
    f.set(Flags::h(), a % 16 == 0);
    r
}

/// The accumulator after `DAA`: the BCD correction chosen by N, H and C.
pub open spec fn daa_result(a: u8, f: Flags) -> u8 {
    if !f.n_set() {
        let a1: int = if f.c_set() || a > 0x99 { a + 0x60 } else { a as int };
        let a1w = wrap8(a1);
        if f.h_set() || a1w % 16 > 9 { wrap8(a1w + 0x06) } else { a1w }
    } else {
        let a1: int = if f.c_set() { a - 0x60 } else { a as int };
        let a1w = wrap8(a1);
        if f.h_set() { wrap8(a1w - 0x06) } else { a1w }
    }
}

/// The carry after `DAA`: set when an addition needed the 0x60 correction, else kept.
pub open spec fn daa_carry(a: u8, f: Flags) -> bool {
    if !f.n_set() { f.c_set() || a > 0x99 } else { f.c_set() }
}

fn daa_value(a: u8, f: Flags) -> (r: u8)
    ensures r == daa_result(a, f),
{
    let n = f.contains(Flags::n());
    let h = f.contains(Flags::h());
    let c = f.contains(Flags::c());
    proof {
        lemma_wrap8_small(a + 0x60);
        lemma_wrap8_small(a - 0x60);
    }
    let a1: u8 = if !n {
        if c || a > 0x99 {
            if a >= 0xA0 { a - 0xA0 } else { a + 0x60 }
        } else {
            a
        }
    } else {
        if c {
            if a >= 0x60 { a - 0x60 } else { a + 0xA0 }
        } else {
            a
        }
    };
    proof {
        lemma_wrap8_small(a1 + 0x06);
        lemma_wrap8_small(a1 - 0x06);
    }
    let a2: u8 = if !n {
        if h || a1 % 16 > 9 {
            if a1 >= 0xFA { a1 - 0xFA } else { a1 + 0x06 }
        } else {
            a1
        }
    } else {
        if h {
            if a1 >= 0x06 { a1 - 0x06 } else { a1 + 0xFA }
        } else {
            a1
        }
    };
    a2
}

/// Reduction modulo 256 of a value within one wrap of the byte range.
pub proof fn lemma_wrap8_small(x: int)
    requires -256 <= x < 512,
    ensures
        wrap8(x) == (if x >= 256 { x - 256 } else if x < 0 { x + 256 } else { x }),
{
}

/// A byte holding two BCD digits (each nibble 0-9).
pub open spec fn is_bcd(x: u8) -> bool {
    x / 16 <= 9 && x % 16 <= 9
}

/// The number 0-99 a BCD byte stands for.
pub open spec fn bcd_value(x: u8) -> int {
    (x / 16) * 10 + x % 16
}

/// The BCD byte for a number 0-99.
pub open spec fn bcd_byte(n: int) -> int {
    (n / 10) * 16 + n % 10
}

/// `daa_result` with the three flags it reads given as booleans.
spec fn daa_of(a: u8, n: bool, h: bool, c: bool) -> u8 {
    if !n {
        let a1: int = if c || a > 0x99 { a + 0x60 } else { a as int };
        let a1w = wrap8(a1);
        if h || a1w % 16 > 9 { wrap8(a1w + 0x06) } else { a1w }
    } else {
        let a1: int = if c { a - 0x60 } else { a as int };
        let a1w = wrap8(a1);
        if h { wrap8(a1w - 0x06) } else { a1w }
    }
}

proof fn lemma_daa_of(a: u8, f: Flags)
    ensures
        daa_result(a, f) == daa_of(a, f.n_set(), f.h_set(), f.c_set()),
{
}

proof fn lemma_daa_add_digits(x: u8, y: u8)
    by (bit_vector)
    requires
        x / 16 <= 9, x % 16 <= 9, y / 16 <= 9, y % 16 <= 9,
    ensures
        daa_of(wrap8(x + y), false, (x % 16) + (y % 16) > 15, x + y > 255)
            == ((((x / 16) * 10 + x % 16 + (y / 16) * 10 + y % 16) % 100) / 10) * 16
                + (((x / 16) * 10 + x % 16 + (y / 16) * 10 + y % 16) % 100) % 10,
        ((x + y > 255) || wrap8(x + y) > 0x99) == ((x / 16) * 10 + x % 16 + (y / 16) * 10 + y % 16 >= 100),
{
}

proof fn lemma_daa_sub_digits(x: u8, y: u8)
    by (bit_vector)
    requires
        x / 16 <= 9, x % 16 <= 9, y / 16 <= 9, y % 16 <= 9,
    ensures
        daa_of(wrap8(x - y), true, (x % 16) < (y % 16), x < y)
            == ((((x / 16) * 10 + x % 16 + 100 - (y / 16) * 10 - y % 16) % 100) / 10) * 16
                + (((x / 16) * 10 + x % 16 + 100 - (y / 16) * 10 - y % 16) % 100) % 10,
        (x < y) == ((x / 16) * 10 + x % 16 < (y / 16) * 10 + y % 16),
{
}

/// `DAA` after `ADD A, y` on BCD bytes gives the BCD sum modulo 100, with C set
/// exactly when the decimal sum reached 100. `f` is any flag byte with N, H and C as
/// the addition leaves them.
pub proof fn lemma_daa_after_add(x: u8, y: u8, f: Flags)
    requires
        is_bcd(x),
        is_bcd(y),
        !f.n_set(),
        f.h_set() == ((x % 16) + (y % 16) > 15),
        f.c_set() == (x + y > 255),
    ensures
        daa_result(wrap8(x + y), f) == bcd_byte((bcd_value(x) + bcd_value(y)) % 100),
        daa_carry(wrap8(x + y), f) == (bcd_value(x) + bcd_value(y) >= 100),
{
    lemma_daa_of(wrap8(x + y), f);
    lemma_daa_add_digits(x, y);
}

/// `DAA` after `SUB y` on BCD bytes gives the BCD difference modulo 100 (a borrow
/// wraps below 0 to 99 down), with C set exactly when a borrow occurred. `f` is any
/// flag byte with N, H and C as the subtraction leaves them.
pub proof fn lemma_daa_after_sub(x: u8, y: u8, f: Flags)
    requires
        is_bcd(x),
        is_bcd(y),
        f.n_set(),
        f.h_set() == ((x % 16) < (y % 16)),
        f.c_set() == (x < y),
    ensures
        daa_result(wrap8(x - y), f) == bcd_byte((bcd_value(x) - bcd_value(y) + 100) % 100),
        daa_carry(wrap8(x - y), f) == (bcd_value(x) < bcd_value(y)),
{
    lemma_daa_of(wrap8(x - y), f);
    lemma_daa_sub_digits(x, y);
}

/// `DAA`: adjusts A after a BCD addition or subtraction. Z from the result, H=0,
/// C as `daa_carry`; N kept.
pub fn daa(a_in: u8, f: &mut Flags) -> (r: u8)
    ensures
        r == daa_result(a_in, *old(f)),
        final(f).bits == update_flag(update_flag(update_flag(old(f).bits, FLAG_Z, r == 0), FLAG_H, false), FLAG_C, daa_carry(a_in, *old(f))),
{
    let n = f.contains(Flags::n());
    let h = f.contains(Flags::h());
    let c = f.contains(Flags::c());
    let a = daa_value(a_in, *f);
    let carry = if !n { c || a_in > 0x99 } else { c };
    f.set(Flags::z(), a == 0);
    f.remove(Flags::h());
    f.set(Flags::c(), carry);
    a
}

/// `RLC`: rotate left; bit 7 goes to C and to bit 0.
pub fn rlc(v: u8, f: &mut Flags) -> (r: u8)
    ensures
        r == (v << 1) | (v >> 7),
        final(f).bits == fresh_flags(r == 0, false, v & 0x80 != 0),
{
    let c = v >> 7;
    let r = (v << 1) | c;
    *f = Flags::empty();
    f.set(Flags::z(), r == 0);
    f.set(Flags::h(), false);
    assert((v >> 7 != 0) == (v & 0x80 != 0)) by (bit_vector);
    f.set(Flags::c(), c != 0);
    r
}

/// `RRC`: rotate right; bit 0 goes to C and to bit 7.
pub fn rrc(v: u8, f: &mut Flags) -> (r: u8)
    ensures
        r == (v >> 1) | (v << 7),
        final(f).bits == fresh_flags(r == 0, false, v & 1 != 0),
{
    let c = v & 1;
    let r = (v >> 1) | (c << 7);
    assert((v & 1) << 7 == v << 7) by (bit_vector);
    *f = Flags::empty();
    f.set(Flags::z(), r == 0);
    f.set(Flags::h(), false);
    f.set(Flags::c(), c != 0);
    r
}

/// `RL`: rotate left through carry; the old C enters bit 0, bit 7 goes to C.
pub fn rl(v: u8, f: &mut Flags) -> (r: u8)
    ensures
        r == (v << 1) | (if old(f).c_set() { 1u8 } else { 0u8 }),
        final(f).bits == fresh_flags(r == 0, false, v & 0x80 != 0),
{
    let old_c: u8 = if f.contains(Flags::c()) { 1 } else { 0 };
    let r = (v << 1) | old_c;
    *f = Flags::empty();
    f.set(Flags::z(), r == 0);
    f.set(Flags::h(), false);
    f.set(Flags::c(), v & 0x80 != 0);
    r
}

/// `RR`: rotate right through carry; the old C enters bit 7, bit 0 goes to C.
pub fn rr(v: u8, f: &mut Flags) -> (r: u8)
    ensures
        r == (v >> 1) | (if old(f).c_set() { 0x80u8 } else { 0u8 }),
        final(f).bits == fresh_flags(r == 0, false, v & 1 != 0),
{
    let old_c: u8 = if f.contains(Flags::c()) { 0x80 } else { 0 };
    let r = (v >> 1) | old_c;
    *f = Flags::empty();
    f.set(Flags::z(), r == 0);
    f.set(Flags::h(), false);
    f.set(Flags::c(), v & 1 != 0);
    r
}

/// `SLA`: shift left; bit 7 goes to C, bit 0 becomes 0.
pub fn sla(v: u8, f: &mut Flags) -> (r: u8)
    ensures
        r == v << 1,
        final(f).bits == fresh_flags(r == 0, false, v & 0x80 != 0),
{
    let r = v << 1;
    *f = Flags::empty();
    f.set(Flags::z(), r == 0);
    f.set(Flags::h(), false);
    f.set(Flags::c(), v & 0x80 != 0);
    r
}

/// `SRA`: arithmetic shift right; bit 7 is kept, bit 0 goes to C.
pub fn sra(v: u8, f: &mut Flags) -> (r: u8)
    ensures
        r == (v >> 1) | (v & 0x80),
        final(f).bits == fresh_flags(r == 0, false, v & 1 != 0),
{
    let r = (v >> 1) | (v & 0x80);
    *f = Flags::empty();
    f.set(Flags::z(), r == 0);
    f.set(Flags::h(), false);
    f.set(Flags::c(), v & 1 != 0);
    r
}

/// `SRL`: logical shift right; bit 0 goes to C, bit 7 becomes 0.
pub fn srl(v: u8, f: &mut Flags) -> (r: u8)
    ensures
        r == v >> 1,
        final(f).bits == fresh_flags(r == 0, false, v & 1 != 0),
{
    let r = v >> 1;
    *f = Flags::empty();
    f.set(Flags::z(), r == 0);
    f.set(Flags::h(), false);
    f.set(Flags::c(), v & 1 != 0);
    r
}

/// `SWAP`: exchanges the two nibbles; Z from the result, the other flags cleared.
pub fn swap(v: u8, f: &mut Flags) -> (r: u8)
    ensures
        r == (v << 4) | (v >> 4),
        final(f).bits == update_flag(0, FLAG_Z, r == 0),
{
    let r = (v << 4) | (v >> 4);
    *f = Flags::empty();
    f.set(Flags::z(), r == 0);
    r
}

/// `BIT n, v`: Z = bit n of v is clear, N=0, H=1; C kept.
pub fn bit(n: u8, v: u8, f: &mut Flags)
    requires n < 8,
    ensures
        final(f).bits == update_flag(update_flag(update_flag(old(f).bits, FLAG_Z, (v >> n) & 1 == 0), FLAG_N, false), FLAG_H, true),
{
    let z = (v >> n) & 1 == 0;
    f.set(Flags::z(), z);
    f.remove(Flags::n());
    f.insert(Flags::h());
}

/// `RES n, v`: clears bit n.
pub fn res(n: u8, v: u8) -> (r: u8)
    requires n < 8,
    ensures r == v & !(1u8 << n),
{
    v & !(1u8 << n)
}

/// `SET n, v`: sets bit n.
pub fn set(n: u8, v: u8) -> (r: u8)
    requires n < 8,
    ensures r == v | (1u8 << n),
{
    v | (1u8 << n)
}

/// `ADD HL, rr`: result modulo 65536; N=0, H = carry out of bit 11,
/// C = carry out of bit 15; Z kept.
pub fn add16(hl: u16, rr: u16, f: &mut Flags) -> (r: u16)
    ensures
        r == wrap16(hl + rr),
        final(f).bits == update_flag(update_flag(update_flag(old(f).bits, FLAG_N, false), FLAG_H, (hl % 4096) + (rr % 4096) > 4095), FLAG_C, hl + rr > 65535),
{
    let r = ((hl as u32 + rr as u32) % 65536) as u16;
    f.remove(Flags::n());
    f.set(Flags::h(), (hl % 4096) + (rr % 4096) > 4095);
    f.set(Flags::c(), hl as u32 + rr as u32 > 65535);
    r
}

/// `ADD SP, e` / `LD HL, SP+e`: SP plus the signed offset modulo 65536. Z=N=0; H and
/// C are the carries out of bits 3 and 7 of the unsigned low-byte addition.
pub fn add_sp_i8(sp: u16, r8: i8, f: &mut Flags) -> (r: u16)
    ensures
        r == wrap16(sp + r8),
        final(f).bits == fresh_flags(false, (sp % 16) + (wrap8(r8 as int) % 16) > 15, (sp % 256) + wrap8(r8 as int) > 255),
{
    let r8u: u8 = if r8 >= 0 { r8 as u8 } else { (256 + r8 as i16) as u8 };
    let sp_lo = (sp % 256) as u8;
    assert(r8u == wrap8(r8 as int));
    *f = Flags::empty();
    f.set(Flags::z(), false);
    f.set(Flags::h(), (sp_lo % 16) as u16 + (r8u % 16) as u16 > 15);
    f.set(Flags::c(), sp_lo as u16 + r8u as u16 > 255);
    proof {
        assert((sp % 256) % 16 == sp % 16) by (nonlinear_arith);
    }
    let off: u32 = if r8 >= 0 { r8 as u32 } else { (65536 + r8 as i32) as u32 };
    ((sp as u32 + off) % 65536) as u16
}

} // verus!
