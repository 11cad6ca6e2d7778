//! Instruction semantics: the unprefixed opcode table and the CB-prefixed table.
//!
//! Opcodes are decoded by their fields: `x = op >> 3` (or its low three bits),
//! `z = op & 7`, and for register pairs `p = x >> 1`, `q = x & 1`. Register fields
//! use the encoding `B C D E H L (HL) A`. Cycle counts are M-cycles.

use vstd::prelude::*;
use crate::bus::{Bus, BusView, BusClock};
use crate::cpu::{Cpu, Clocks, with_regs, with_pc, with_sp, spec_fetch, spec_fetch16, spec_push, spec_pop};
use crate::cpu::alu;
use crate::cpu::alu::{wrap8, wrap16, add_flags, sub_flags, carry_in, fresh_flags, daa_result, daa_carry};
use crate::cpu::registers::{Registers, Flags, update_flag, pair, hi_byte, lo_byte, FLAG_Z, FLAG_N, FLAG_H, FLAG_C, join, high, low};

verus! {

/// CPU state, bus state and M-cycles after an instruction.
pub type Outcome = (Cpu, BusView, u32);

/// The opcodes the SM83 leaves undefined.
pub open spec fn legal(op: u8) -> bool {
    !(op == 0xD3 || op == 0xDB || op == 0xDD || op == 0xE3 || op == 0xE4 || op == 0xEB || op == 0xEC
        || op == 0xED || op == 0xF4 || op == 0xFC || op == 0xFD)
}

pub fn is_legal(op: u8) -> (r: bool)
    ensures r == legal(op),
{
    !(op == 0xD3 || op == 0xDB || op == 0xDD || op == 0xE3 || op == 0xE4 || op == 0xEB || op == 0xEC
        || op == 0xED || op == 0xF4 || op == 0xFC || op == 0xFD)
}

// ---------------------------------------------------------------- operands

/// 8-bit register `r` (0..5 and 7; 6 names `(HL)` and is handled by the callers).
pub open spec fn reg8(regs: Registers, r: u8) -> u8 {
    if r == 0 { regs.b }
    else if r == 1 { regs.c }
    else if r == 2 { regs.d }
    else if r == 3 { regs.e }
    else if r == 4 { regs.h }
    else if r == 5 { regs.l }
    else { regs.a }
}

pub open spec fn set_reg8(regs: Registers, r: u8, v: u8) -> Registers {
    if r == 0 { Registers { b: v, ..regs } }
    else if r == 1 { Registers { c: v, ..regs } }
    else if r == 2 { Registers { d: v, ..regs } }
    else if r == 3 { Registers { e: v, ..regs } }
    else if r == 4 { Registers { h: v, ..regs } }
    else if r == 5 { Registers { l: v, ..regs } }
    else { Registers { a: v, ..regs } }
}

/// Value of operand `r`: a register, or the byte at HL for 6.
pub open spec fn read_operand(c: Cpu, b: BusView, r: u8) -> u8 {
    if r == 6 { b.spec_read(c.regs.spec_hl()) } else { reg8(c.regs, r) }
}

/// Stores `v` in operand `r`: a register, or the byte at HL for 6.
pub open spec fn write_operand(c: Cpu, b: BusView, r: u8, v: u8, k: BusClock) -> (Cpu, BusView) {
    if r == 6 { (c, b.spec_write(c.regs.spec_hl(), v, k)) } else { (with_regs(c, set_reg8(c.regs, r, v)), b) }
}

/// M-cycles an operand access costs: 2 through `(HL)`, 1 for a register.
pub open spec fn operand_cost(r: u8) -> u32 {
    if r == 6 { 2 } else { 1 }
}

/// Register pair `p` of the table `BC DE HL SP`.
pub open spec fn rp(regs: Registers, p: u8) -> u16 {
    if p == 0 { regs.spec_bc() } else if p == 1 { regs.spec_de() } else if p == 2 { regs.spec_hl() } else { regs.sp }
}

pub open spec fn set_rp(regs: Registers, p: u8, v: u16) -> Registers {
    if p == 0 { Registers { b: hi_byte(v), c: lo_byte(v), ..regs } }
    else if p == 1 { Registers { d: hi_byte(v), e: lo_byte(v), ..regs } }
    else if p == 2 { Registers { h: hi_byte(v), l: lo_byte(v), ..regs } }
    else { Registers { sp: v, ..regs } }
}

/// Register pair `p` of the table `BC DE HL AF` (PUSH and POP).
pub open spec fn rp2(regs: Registers, p: u8) -> u16 {
    if p == 3 { regs.spec_af() } else { rp(regs, p) }
}

/// POP AF keeps the low nibble of F zero.
pub open spec fn set_rp2(regs: Registers, p: u8, v: u16) -> Registers {
    if p == 3 { Registers { a: hi_byte(v), f: Flags { bits: lo_byte(v) & 0xF0 }, ..regs } } else { set_rp(regs, p, v) }
}

/// Branch condition `cc` of the table `NZ Z NC C`.
pub open spec fn cond(f: Flags, cc: u8) -> bool {
    if cc == 0 { !f.z_set() } else if cc == 1 { f.z_set() } else if cc == 2 { !f.c_set() } else { f.c_set() }
}

/// A relative jump offset as a signed value.
pub open spec fn sext(off: u8) -> int {
    if off >= 128 { off - 256 } else { off as int }
}

// ---------------------------------------------------------------- ALU

/// `op` of the table `ADD ADC SUB SBC AND XOR OR CP` on A and `v`: new A and F.
pub open spec fn alu8(op: u8, a: u8, v: u8, f: Flags) -> (u8, Flags) {
    if op == 0 {
        (wrap8(a + v), Flags { bits: add_flags(a, v, 0, f.bits) })
    } else if op == 1 {
        (wrap8(a + v + carry_in(f)), Flags { bits: add_flags(a, v, carry_in(f), f.bits) })
    } else if op == 2 {
        (wrap8(a - v), Flags { bits: sub_flags(a, v, 0, f.bits) })
    } else if op == 3 {
        (wrap8(a - v - carry_in(f)), Flags { bits: sub_flags(a, v, carry_in(f), f.bits) })
    } else if op == 4 {
        (a & v, Flags { bits: update_flag(FLAG_H, FLAG_Z, a & v == 0) })
    } else if op == 5 {
        (a ^ v, Flags { bits: update_flag(0, FLAG_Z, a ^ v == 0) })
    } else if op == 6 {
        (a | v, Flags { bits: update_flag(0, FLAG_Z, a | v == 0) })
    } else {
        (a, Flags { bits: sub_flags(a, v, 0, f.bits) })
    }
}

pub open spec fn inc8(v: u8, f: Flags) -> (u8, Flags) {
    let r = wrap8(v + 1);
    (r, Flags { bits: update_flag(update_flag(update_flag(f.bits, FLAG_Z, r == 0), FLAG_N, false), FLAG_H, v % 16 == 15) })
}

pub open spec fn dec8(v: u8, f: Flags) -> (u8, Flags) {
    let r = wrap8(v - 1);
    (r, Flags { bits: update_flag(update_flag(update_flag(f.bits, FLAG_Z, r == 0), FLAG_N, true), FLAG_H, v % 16 == 0) })
}

/// `op` of the CB table `RLC RRC RL RR SLA SRA SWAP SRL` on `v`: result and F.
pub open spec fn rot8(op: u8, v: u8, f: Flags) -> (u8, Flags) {
    if op == 0 {
        let r = (v << 1) | (v >> 7);
        (r, Flags { bits: fresh_flags(r == 0, false, v & 0x80 != 0) })
    } else if op == 1 {
        let r = (v >> 1) | (v << 7);
        (r, Flags { bits: fresh_flags(r == 0, false, v & 1 != 0) })
    } else if op == 2 {
        let r = (v << 1) | (if f.c_set() { 1u8 } else { 0u8 });
        (r, Flags { bits: fresh_flags(r == 0, false, v & 0x80 != 0) })
    } else if op == 3 {
        let r = (v >> 1) | (if f.c_set() { 0x80u8 } else { 0u8 });
        (r, Flags { bits: fresh_flags(r == 0, false, v & 1 != 0) })
    } else if op == 4 {
        let r = v << 1;
        (r, Flags { bits: fresh_flags(r == 0, false, v & 0x80 != 0) })
    } else if op == 5 {
        let r = (v >> 1) | (v & 0x80);
        (r, Flags { bits: fresh_flags(r == 0, false, v & 1 != 0) })
    } else if op == 6 {
        let r = (v << 4) | (v >> 4);
        (r, Flags { bits: update_flag(0, FLAG_Z, r == 0) })
    } else {
        let r = v >> 1;
        (r, Flags { bits: fresh_flags(r == 0, false, v & 1 != 0) })
    }
}

/// `x` of the accumulator table `RLCA RRCA RLA RRA DAA CPL SCF CCF`. The four
/// rotates are the CB rotates of A with Z forced clear.
pub open spec fn acc8(x: u8, a: u8, f: Flags) -> (u8, Flags) {
    if x < 4 {
        let (r, g) = rot8(x, a, f);
        (r, Flags { bits: g.bits & !FLAG_Z })
    } else if x == 4 {
        let r = daa_result(a, f);
        (r, Flags { bits: update_flag(update_flag(update_flag(f.bits, FLAG_Z, r == 0), FLAG_H, false), FLAG_C, daa_carry(a, f)) })
    } else if x == 5 {
        (!a, Flags { bits: f.bits | (FLAG_N | FLAG_H) })
    } else if x == 6 {
        (a, Flags { bits: (f.bits & !(FLAG_N | FLAG_H)) | FLAG_C })
    } else {
        (a, Flags { bits: (f.bits & !(FLAG_N | FLAG_H)) ^ FLAG_C })
    }
}

/// `ADD HL, rr`.
pub open spec fn add16(hl: u16, rr: u16, f: Flags) -> (u16, Flags) {
    (wrap16(hl + rr), Flags {
        bits: update_flag(update_flag(update_flag(f.bits, FLAG_N, false), FLAG_H, (hl % 4096) + (rr % 4096) > 4095), FLAG_C, hl + rr > 65535),
    })
}

/// `ADD SP, e` and `LD HL, SP+e` with the offset byte `o`.
pub open spec fn add_sp(sp: u16, o: u8, f: Flags) -> (u16, Flags) {
    let r8 = o as i8;
    (wrap16(sp + r8), Flags {
        bits: fresh_flags(false, (sp % 16) + (wrap8(r8 as int) % 16) > 15, (sp % 256) + wrap8(r8 as int) > 255),
    })
}

// ---------------------------------------------------------------- control flow

pub open spec fn jr(c: Cpu, b: BusView, take: bool) -> Outcome {
    let (c1, off) = spec_fetch(c, b);
    if take { (with_pc(c1, wrap16(c1.regs.pc + sext(off))), b, 3) } else { (c1, b, 2) }
}

pub open spec fn jp(c: Cpu, b: BusView, take: bool) -> Outcome {
    let (c1, a) = spec_fetch16(c, b);
    if take { (with_pc(c1, a), b, 4) } else { (c1, b, 3) }
}

pub open spec fn call(c: Cpu, b: BusView, take: bool, k1: BusClock, k2: BusClock) -> Outcome {
    let (c1, a) = spec_fetch16(c, b);
    if take {
        let (c2, b2) = spec_push(c1, b, c1.regs.pc, k1, k2);
        (with_pc(c2, a), b2, 6)
    } else {
        (c1, b, 3)
    }
}

pub open spec fn ret(c: Cpu, b: BusView, take: bool) -> Outcome {
    if take {
        let (c1, v) = spec_pop(c, b);
        (with_pc(c1, v), b, 5)
    } else {
        (c, b, 2)
    }
}

pub open spec fn rst(c: Cpu, b: BusView, vec: u16, k1: BusClock, k2: BusClock) -> Outcome {
    let (c1, b1) = spec_push(c, b, c.regs.pc, k1, k2);
    (with_pc(c1, vec), b1, 4)
}

// ---------------------------------------------------------------- opcode blocks

/// `0x00..=0x3F` with `z == 0`: NOP, LD (a16),SP, STOP (a two-byte no-op), JR, JR cc.
pub open spec fn spec_z0(c: Cpu, b: BusView, x: u8, k1: BusClock, k2: BusClock) -> Outcome {
    if x == 0 {
        (c, b, 1)
    } else if x == 1 {
        let (c1, a) = spec_fetch16(c, b);
        let b1 = b.spec_write(a, lo_byte(c.regs.sp), k1);
        let b2 = b1.spec_write(wrap16(a + 1), hi_byte(c.regs.sp), k2);
        (c1, b2, 5)
    } else if x == 2 {
        let (c1, _) = spec_fetch(c, b);
        (c1, b, 1)
    } else if x == 3 {
        jr(c, b, true)
    } else {
        jr(c, b, cond(c.regs.f, (x - 4) as u8))
    }
}

/// `z == 1`: LD rr,d16 (`q == 0`) and ADD HL,rr (`q == 1`).
pub open spec fn spec_z1(c: Cpu, b: BusView, x: u8) -> Outcome {
    let p = x >> 1;
    if x & 1 == 0 {
        let (c1, v) = spec_fetch16(c, b);
        (with_regs(c1, set_rp(c1.regs, p, v)), b, 3)
    } else {
        let (r, f) = add16(c.regs.spec_hl(), rp(c.regs, p), c.regs.f);
        (with_regs(c, Registers { h: hi_byte(r), l: lo_byte(r), f, ..c.regs }), b, 2)
    }
}

/// Address of the indirect loads and stores: BC, DE, HL+ and HL-.
pub open spec fn ind_addr(regs: Registers, p: u8) -> u16 {
    if p == 0 { regs.spec_bc() } else if p == 1 { regs.spec_de() } else { regs.spec_hl() }
}

/// HL after an indirect access through HL+ or HL-.
pub open spec fn ind_post(regs: Registers, p: u8) -> Registers {
    if p == 2 {
        set_rp(regs, 2, wrap16(regs.spec_hl() + 1))
    } else if p == 3 {
        set_rp(regs, 2, wrap16(regs.spec_hl() - 1))
    } else {
        regs
    }
}

/// `z == 2`: LD (BC|DE|HL+|HL-),A (`q == 0`) and LD A,(BC|DE|HL+|HL-) (`q == 1`).
pub open spec fn spec_z2(c: Cpu, b: BusView, x: u8, k: BusClock) -> Outcome {
    let p = x >> 1;
    let addr = ind_addr(c.regs, p);
    if x & 1 == 0 {
        (with_regs(c, ind_post(c.regs, p)), b.spec_write(addr, c.regs.a, k), 2)
    } else {
        let v = b.spec_read(addr);
        (with_regs(c, ind_post(Registers { a: v, ..c.regs }, p)), b, 2)
    }
}

/// `z == 3`: INC rr (`q == 0`) and DEC rr (`q == 1`).
pub open spec fn spec_z3(c: Cpu, x: u8) -> Cpu {
    let p = x >> 1;
    let v = rp(c.regs, p);
    with_regs(c, set_rp(c.regs, p, if x & 1 == 0 { wrap16(v + 1) } else { wrap16(v - 1) }))
}

/// `z == 4` / `z == 5`: INC r / DEC r, read-modify-write through `(HL)` for 6.
pub open spec fn spec_incdec(c: Cpu, b: BusView, x: u8, dec: bool, k: BusClock) -> Outcome {
    let v = read_operand(c, b, x);
    let (r, f) = if dec { dec8(v, c.regs.f) } else { inc8(v, c.regs.f) };
    let (c1, b1) = write_operand(with_regs(c, Registers { f, ..c.regs }), b, x, r, k);
    (c1, b1, if x == 6 { 3 } else { 1 })
}

/// `z == 6`: LD r,d8.
pub open spec fn spec_ld_d8(c: Cpu, b: BusView, x: u8, k: BusClock) -> Outcome {
    let (c1, v) = spec_fetch(c, b);
    let (c2, b2) = write_operand(c1, b, x, v, k);
    (c2, b2, if x == 6 { 3 } else { 2 })
}

/// `0x00..=0x3F`.
pub open spec fn spec_block0(c: Cpu, b: BusView, op: u8, k1: BusClock, k2: BusClock) -> Outcome {
    let x = op >> 3;
    let z = op & 7;
    if z == 0 {
        spec_z0(c, b, x, k1, k2)
    } else if z == 1 {
        spec_z1(c, b, x)
    } else if z == 2 {
        spec_z2(c, b, x, k1)
    } else if z == 3 {
        (spec_z3(c, x), b, 2)
    } else if z == 4 {
        spec_incdec(c, b, x, false, k1)
    } else if z == 5 {
        spec_incdec(c, b, x, true, k1)
    } else if z == 6 {
        spec_ld_d8(c, b, x, k1)
    } else {
        let (a, f) = acc8(x, c.regs.a, c.regs.f);
        (with_regs(c, Registers { a, f, ..c.regs }), b, 1)
    }
}

/// HALT (`0x76`): with IME off and an interrupt already pending the CPU does not
/// halt; the HALT bug makes it read the next opcode twice.
pub open spec fn spec_halt(c: Cpu, b: BusView) -> Outcome {
    if !c.ime && b.pending() != 0 {
        (Cpu { halt_bug: true, ..c }, b, 1)
    } else {
        (Cpu { halted: true, ..c }, b, 1)
    }
}

/// LD r,r' (`0x40..=0x7F` but `0x76`).
pub open spec fn spec_ld_rr(c: Cpu, b: BusView, dst: u8, src: u8, k: BusClock) -> Outcome {
    let v = read_operand(c, b, src);
    let (c1, b1) = write_operand(c, b, dst, v, k);
    let cs = operand_cost(src);
    let cd = operand_cost(dst);
    (c1, b1, if cs >= cd { cs } else { cd })
}

/// ALU A,r (`0x80..=0xBF`).
pub open spec fn spec_alu_r(c: Cpu, b: BusView, x: u8, r: u8) -> Outcome {
    let v = read_operand(c, b, r);
    let (a, f) = alu8(x, c.regs.a, v, c.regs.f);
    (with_regs(c, Registers { a, f, ..c.regs }), b, operand_cost(r))
}

/// CB-prefixed: the rotates and shifts, BIT, RES and SET on operand `op & 7`.
pub open spec fn spec_cb(c: Cpu, b: BusView, k: BusClock) -> Outcome {
    let (c1, op) = spec_fetch(c, b);
    let r = op & 7;
    let n = (op >> 3) & 7;
    let g = op >> 6;
    let v = read_operand(c1, b, r);
    if g == 1 {
        let f = Flags {
            bits: update_flag(update_flag(update_flag(c1.regs.f.bits, FLAG_Z, (v >> n) & 1 == 0), FLAG_N, false), FLAG_H, true),
        };
        (with_regs(c1, Registers { f, ..c1.regs }), b, if r == 6 { 3 } else { 2 })
    } else {
        let (res, f) = if g == 0 {
            rot8(n, v, c1.regs.f)
        } else if g == 2 {
            (v & !(1u8 << n), c1.regs.f)
        } else {
            (v | (1u8 << n), c1.regs.f)
        };
        let (c2, b2) = write_operand(with_regs(c1, Registers { f, ..c1.regs }), b, r, res, k);
        (c2, b2, if r == 6 { 4 } else { 2 })
    }
}

/// `0xC0..=0xFF`, `z == 0`: RET cc, LDH (a8),A, ADD SP,e, LDH A,(a8), LD HL,SP+e.
pub open spec fn spec3_z0(c: Cpu, b: BusView, x: u8, k: BusClock) -> Outcome {
    if x < 4 {
        ret(c, b, cond(c.regs.f, x))
    } else {
        let (c1, o) = spec_fetch(c, b);
        if x == 4 {
            (c1, b.spec_write((0xFF00 + o) as u16, c.regs.a, k), 3)
        } else if x == 5 {
            let (r, f) = add_sp(c.regs.sp, o, c.regs.f);
            (with_regs(c1, Registers { sp: r, f, ..c1.regs }), b, 4)
        } else if x == 6 {
            (with_regs(c1, Registers { a: b.spec_read((0xFF00 + o) as u16), ..c1.regs }), b, 3)
        } else {
            let (r, f) = add_sp(c.regs.sp, o, c.regs.f);
            (with_regs(c1, Registers { h: hi_byte(r), l: lo_byte(r), f, ..c1.regs }), b, 3)
        }
    }
}

/// `z == 1`: POP rr (`q == 0`); RET, RETI, JP HL, LD SP,HL (`q == 1`).
pub open spec fn spec3_z1(c: Cpu, b: BusView, x: u8) -> Outcome {
    let p = x >> 1;
    if x & 1 == 0 {
        let (c1, v) = spec_pop(c, b);
        (with_regs(c1, set_rp2(c1.regs, p, v)), b, 3)
    } else if p == 0 {
        let (c1, v) = spec_pop(c, b);
        (with_pc(c1, v), b, 4)
    } else if p == 1 {
        let (c1, v) = spec_pop(c, b);
        (Cpu { ime: true, ime_pending: false, ..with_pc(c1, v) }, b, 4)
    } else if p == 2 {
        (with_pc(c, c.regs.spec_hl()), b, 1)
    } else {
        (with_sp(c, c.regs.spec_hl()), b, 2)
    }
}

/// `z == 2`: JP cc, LD (C),A, LD (a16),A, LD A,(C), LD A,(a16).
pub open spec fn spec3_z2(c: Cpu, b: BusView, x: u8, k: BusClock) -> Outcome {
    let io = (0xFF00 + c.regs.c) as u16;
    if x < 4 {
        jp(c, b, cond(c.regs.f, x))
    } else if x == 4 {
        (c, b.spec_write(io, c.regs.a, k), 2)
    } else if x == 5 {
        let (c1, a) = spec_fetch16(c, b);
        (c1, b.spec_write(a, c.regs.a, k), 4)
    } else if x == 6 {
        (with_regs(c, Registers { a: b.spec_read(io), ..c.regs }), b, 2)
    } else {
        let (c1, a) = spec_fetch16(c, b);
        (with_regs(c1, Registers { a: b.spec_read(a), ..c1.regs }), b, 4)
    }
}

/// `z == 3`: JP a16, DI, EI (CB and the undefined opcodes are elsewhere).
pub open spec fn spec3_z3(c: Cpu, b: BusView, x: u8) -> Outcome {
    if x == 0 {
        jp(c, b, true)
    } else if x == 6 {
        (Cpu { ime: false, ime_pending: false, ..c }, b, 1)
    } else {
        (Cpu { ime_pending: true, ..c }, b, 1)
    }
}

/// `0xC0..=0xFF` but CB.
pub open spec fn spec_block3(c: Cpu, b: BusView, op: u8, k1: BusClock, k2: BusClock) -> Outcome {
    let x = (op >> 3) & 7;
    let z = op & 7;
    if z == 0 {
        spec3_z0(c, b, x, k1)
    } else if z == 1 {
        spec3_z1(c, b, x)
    } else if z == 2 {
        spec3_z2(c, b, x, k1)
    } else if z == 3 {
        spec3_z3(c, b, x)
    } else if z == 4 {
        call(c, b, cond(c.regs.f, x), k1, k2)
    } else if z == 5 {
        if x & 1 == 0 {
            let (c1, b1) = spec_push(c, b, rp2(c.regs, x >> 1), k1, k2);
            (c1, b1, 4)
        } else {
            call(c, b, true, k1, k2)
        }
    } else if z == 6 {
        let (c1, v) = spec_fetch(c, b);
        let (a, f) = alu8(x, c.regs.a, v, c.regs.f);
        (with_regs(c1, Registers { a, f, ..c1.regs }), b, 2)
    } else {
        rst(c, b, (x as int * 8) as u16, k1, k2)
    }
}

/// One instruction with opcode `op`, already fetched.
pub open spec fn spec_exec(c: Cpu, b: BusView, op: u8, k1: BusClock, k2: BusClock) -> Outcome {
    if op < 0x40 {
        spec_block0(c, b, op, k1, k2)
    } else if op == 0x76 {
        spec_halt(c, b)
    } else if op < 0x80 {
        spec_ld_rr(c, b, (op >> 3) & 7, op & 7, k1)
    } else if op < 0xC0 {
        spec_alu_r(c, b, (op >> 3) & 7, op & 7)
    } else if op == 0xCB {
        spec_cb(c, b, k1)
    } else {
        spec_block3(c, b, op, k1, k2)
    }
}

/// Fetch, then execute.
pub open spec fn spec_fetch_exec(c: Cpu, b: BusView, k1: BusClock, k2: BusClock) -> Outcome {
    let (c1, op) = spec_fetch(c, b);
    spec_exec(c1, b, op, k1, k2)
}

} // verus!

verus! {

// ---------------------------------------------------------------- exec helpers

/// A bus write, with the clock readings it took.
pub(crate) fn write8(bus: &mut Bus, addr: u16, val: u8) -> (k: Ghost<BusClock>)
    requires old(bus).wf(),
    ensures final(bus).wf(), final(bus)@ == old(bus)@.spec_write(addr, val, k@),
{
    let ghost pre = bus@;
    bus.write(addr, val);
    Ghost(choose|k: BusClock| bus@ == pre.spec_write(addr, val, k))
}

fn get_reg(regs: &Registers, r: u8) -> (v: u8)
    ensures v == reg8(*regs, r),
{
    if r == 0 { regs.b }
    else if r == 1 { regs.c }
    else if r == 2 { regs.d }
    else if r == 3 { regs.e }
    else if r == 4 { regs.h }
    else if r == 5 { regs.l }
    else { regs.a }
}

fn set_reg(regs: &mut Registers, r: u8, v: u8)
    ensures *final(regs) == set_reg8(*old(regs), r, v),
{
    if r == 0 { regs.b = v; }
    else if r == 1 { regs.c = v; }
    else if r == 2 { regs.d = v; }
    else if r == 3 { regs.e = v; }
    else if r == 4 { regs.h = v; }
    else if r == 5 { regs.l = v; }
    else { regs.a = v; }
}

/// Operand `r` of the `B C D E H L (HL) A` encoding.
fn read_r(cpu: &Cpu, bus: &Bus, r: u8) -> (v: u8)
    requires bus.wf(),
    ensures v == read_operand(*cpu, bus@, r),
{
    if r == 6 { bus.read(cpu.regs.hl()) } else { get_reg(&cpu.regs, r) }
}

fn write_r(cpu: &mut Cpu, bus: &mut Bus, r: u8, v: u8) -> (k: Ghost<BusClock>)
    requires old(bus).wf(),
    ensures final(bus).wf(), (*final(cpu), final(bus)@) == write_operand(*old(cpu), old(bus)@, r, v, k@),
{
    if r == 6 {
        let hl = cpu.regs.hl();
        write8(bus, hl, v)
    } else {
        set_reg(&mut cpu.regs, r, v);
        Ghost(vstd::pervasive::arbitrary())
    }
}

fn get_rp(regs: &Registers, p: u8) -> (v: u16)
    ensures v == rp(*regs, p),
{
    if p == 0 { regs.bc() } else if p == 1 { regs.de() } else if p == 2 { regs.hl() } else { regs.sp }
}

fn put_rp(regs: &mut Registers, p: u8, v: u16)
    ensures *final(regs) == set_rp(*old(regs), p, v),
{
    if p == 0 { regs.set_bc(v); } else if p == 1 { regs.set_de(v); } else if p == 2 { regs.set_hl(v); } else { regs.sp = v; }
}

fn test_cond(f: &Flags, cc: u8) -> (r: bool)
    ensures r == cond(*f, cc),
{
    if cc == 0 {
        !f.contains(Flags::z())
    } else if cc == 1 {
        f.contains(Flags::z())
    } else if cc == 2 {
        !f.contains(Flags::c())
    } else {
        f.contains(Flags::c())
    }
}

fn alu_exec(op: u8, a: u8, v: u8, f: &mut Flags) -> (r: u8)
    ensures (r, *final(f)) == alu8(op, a, v, *old(f)),
{
    if op == 0 {
        alu::add(a, v, f)
    } else if op == 1 {
        alu::adc(a, v, f)
    } else if op == 2 {
        alu::sub(a, v, f)
    } else if op == 3 {
        alu::sbc(a, v, f)
    } else if op == 4 {
        alu::and(a, v, f)
    } else if op == 5 {
        alu::xor(a, v, f)
    } else if op == 6 {
        alu::or(a, v, f)
    } else {
        alu::cp(a, v, f);
        a
    }
}

fn rot_exec(op: u8, v: u8, f: &mut Flags) -> (r: u8)
    ensures (r, *final(f)) == rot8(op, v, *old(f)),
{
    if op == 0 {
        alu::rlc(v, f)
    } else if op == 1 {
        alu::rrc(v, f)
    } else if op == 2 {
        alu::rl(v, f)
    } else if op == 3 {
        alu::rr(v, f)
    } else if op == 4 {
        alu::sla(v, f)
    } else if op == 5 {
        alu::sra(v, f)
    } else if op == 6 {
        alu::swap(v, f)
    } else {
        alu::srl(v, f)
    }
}

fn acc_exec(x: u8, a: u8, f: &mut Flags) -> (r: u8)
    ensures (r, *final(f)) == acc8(x, a, *old(f)),
{
    if x < 4 {
        let r = rot_exec(x, a, f);
        f.remove(Flags::z());
        r
    } else if x == 4 {
        alu::daa(a, f)
    } else if x == 5 {
        f.insert(Flags::n().union(Flags::h()));
        !a
    } else if x == 6 {
        f.remove(Flags::n().union(Flags::h()));
        f.insert(Flags::c());
        a
    } else {
        f.remove(Flags::n().union(Flags::h()));
        f.toggle(Flags::c());
        a
    }
}

/// PC after a relative jump by the signed offset `off`.
fn jr_target(pc: u16, off: u8) -> (r: u16)
    ensures r == wrap16(pc + sext(off)),
{
    let d: u32 = if off >= 128 { off as u32 + 0xFF00 } else { off as u32 };
    ((pc as u32 + d) % 65536) as u16
}

fn exec_jr(cpu: &mut Cpu, bus: &Bus, take: bool) -> (r: u32)
    requires bus.wf(),
    ensures (*final(cpu), bus@, r) == jr(*old(cpu), bus@, take),
{
    let off = cpu.fetch8(bus);
    if take {
        cpu.regs.pc = jr_target(cpu.regs.pc, off);
        3
    } else {
        2
    }
}

fn exec_jp(cpu: &mut Cpu, bus: &Bus, take: bool) -> (r: u32)
    requires bus.wf(),
    ensures (*final(cpu), bus@, r) == jp(*old(cpu), bus@, take),
{
    let addr = cpu.fetch16(bus);
    if take {
        cpu.regs.pc = addr;
        4
    } else {
        3
    }
}

fn exec_call(cpu: &mut Cpu, bus: &mut Bus, take: bool) -> (r: (u32, Ghost<Clocks>))
    requires old(bus).wf(),
    ensures final(bus).wf(), (*final(cpu), final(bus)@, r.0) == call(*old(cpu), old(bus)@, take, r.1@.0, r.1@.1),
{
    let addr = cpu.fetch16(bus);
    if take {
        let pc = cpu.regs.pc;
        let k = cpu.push16(bus, pc);
        cpu.regs.pc = addr;
        (6, k)
    } else {
        (3, Ghost(vstd::pervasive::arbitrary()))
    }
}

fn exec_ret(cpu: &mut Cpu, bus: &Bus, take: bool) -> (r: u32)
    requires bus.wf(),
    ensures (*final(cpu), bus@, r) == ret(*old(cpu), bus@, take),
{
    if take {
        cpu.regs.pc = cpu.pop16(bus);
        5
    } else {
        2
    }
}

fn exec_rst(cpu: &mut Cpu, bus: &mut Bus, vec: u16) -> (r: (u32, Ghost<Clocks>))
    requires old(bus).wf(),
    ensures final(bus).wf(), (*final(cpu), final(bus)@, r.0) == rst(*old(cpu), old(bus)@, vec, r.1@.0, r.1@.1),
{
    let pc = cpu.regs.pc;
    let k = cpu.push16(bus, pc);
    cpu.regs.pc = vec;
    (4, k)
}

} // verus!

verus! {

// ---------------------------------------------------------------- opcode blocks

fn exec_z0(cpu: &mut Cpu, bus: &mut Bus, x: u8) -> (r: (u32, Ghost<Clocks>))
    requires old(bus).wf(),
    ensures final(bus).wf(), (*final(cpu), final(bus)@, r.0) == spec_z0(*old(cpu), old(bus)@, x, r.1@.0, r.1@.1),
{
    if x == 0 {
        (1, Ghost(vstd::pervasive::arbitrary()))
    } else if x == 1 {
        let a = cpu.fetch16(bus);
        let sp = cpu.regs.sp;
        let k1 = write8(bus, a, low(sp));
        let k2 = write8(bus, ((a as u32 + 1) % 65536) as u16, high(sp));
        (5, Ghost((k1@, k2@)))
    } else if x == 2 {
        let _ = cpu.fetch8(bus);
        (1, Ghost(vstd::pervasive::arbitrary()))
    } else if x == 3 {
        (exec_jr(cpu, bus, true), Ghost(vstd::pervasive::arbitrary()))
    } else {
        let t = test_cond(&cpu.regs.f, x - 4);
        (exec_jr(cpu, bus, t), Ghost(vstd::pervasive::arbitrary()))
    }
}

fn exec_z1(cpu: &mut Cpu, bus: &Bus, x: u8) -> (r: u32)
    requires bus.wf(),
    ensures (*final(cpu), bus@, r) == spec_z1(*old(cpu), bus@, x),
{
    let p = x >> 1;
    if x & 1 == 0 {
        let v = cpu.fetch16(bus);
        put_rp(&mut cpu.regs, p, v);
        3
    } else {
        let hl = cpu.regs.hl();
        let rr = get_rp(&cpu.regs, p);
        let r = alu::add16(hl, rr, &mut cpu.regs.f);
        cpu.regs.set_hl(r);
        2
    }
}

fn post_hl(regs: &mut Registers, p: u8)
    ensures *final(regs) == ind_post(*old(regs), p),
{
    if p == 2 {
        let hl = regs.hl();
        regs.set_hl(((hl as u32 + 1) % 65536) as u16);
    } else if p == 3 {
        let hl = regs.hl();
        regs.set_hl(((hl as u32 + 65535) % 65536) as u16);
    }
}

fn exec_z2(cpu: &mut Cpu, bus: &mut Bus, x: u8) -> (r: (u32, Ghost<BusClock>))
    requires old(bus).wf(),
    ensures final(bus).wf(), (*final(cpu), final(bus)@, r.0) == spec_z2(*old(cpu), old(bus)@, x, r.1@),
{
    let p = x >> 1;
    let addr = if p == 0 { cpu.regs.bc() } else if p == 1 { cpu.regs.de() } else { cpu.regs.hl() };
    if x & 1 == 0 {
        let a = cpu.regs.a;
        let k = write8(bus, addr, a);
        post_hl(&mut cpu.regs, p);
        (2, k)
    } else {
        cpu.regs.a = bus.read(addr);
        post_hl(&mut cpu.regs, p);
        (2, Ghost(vstd::pervasive::arbitrary()))
    }
}

fn exec_z3(cpu: &mut Cpu, x: u8)
    ensures *final(cpu) == spec_z3(*old(cpu), x),
{
    let p = x >> 1;
    let v = get_rp(&cpu.regs, p);
    let nv = if x & 1 == 0 { ((v as u32 + 1) % 65536) as u16 } else { ((v as u32 + 65535) % 65536) as u16 };
    put_rp(&mut cpu.regs, p, nv);
}

fn exec_incdec(cpu: &mut Cpu, bus: &mut Bus, x: u8, dec: bool) -> (r: (u32, Ghost<BusClock>))
    requires old(bus).wf(),
    ensures final(bus).wf(), (*final(cpu), final(bus)@, r.0) == spec_incdec(*old(cpu), old(bus)@, x, dec, r.1@),
{
    let v = read_r(cpu, bus, x);
    let r = if dec { alu::dec(v, &mut cpu.regs.f) } else { alu::inc(v, &mut cpu.regs.f) };
    let k = write_r(cpu, bus, x, r);
    (if x == 6 { 3 } else { 1 }, k)
}

fn exec_ld_d8(cpu: &mut Cpu, bus: &mut Bus, x: u8) -> (r: (u32, Ghost<BusClock>))
    requires old(bus).wf(),
    ensures final(bus).wf(), (*final(cpu), final(bus)@, r.0) == spec_ld_d8(*old(cpu), old(bus)@, x, r.1@),
{
    let v = cpu.fetch8(bus);
    let k = write_r(cpu, bus, x, v);
    (if x == 6 { 3 } else { 2 }, k)
}

fn block0(cpu: &mut Cpu, bus: &mut Bus, op: u8) -> (r: (u32, Ghost<Clocks>))
    requires old(bus).wf(),
    ensures final(bus).wf(), (*final(cpu), final(bus)@, r.0) == spec_block0(*old(cpu), old(bus)@, op, r.1@.0, r.1@.1),
{
    let x = op >> 3;
    let z = op & 7;
    if z == 0 {
        exec_z0(cpu, bus, x)
    } else if z == 1 {
        (exec_z1(cpu, bus, x), Ghost(vstd::pervasive::arbitrary()))
    } else if z == 2 {
        let (r, k) = exec_z2(cpu, bus, x);
        (r, Ghost((k@, k@)))
    } else if z == 3 {
        exec_z3(cpu, x);
        (2, Ghost(vstd::pervasive::arbitrary()))
    } else if z == 4 || z == 5 {
        let (r, k) = exec_incdec(cpu, bus, x, z == 5);
        (r, Ghost((k@, k@)))
    } else if z == 6 {
        let (r, k) = exec_ld_d8(cpu, bus, x);
        (r, Ghost((k@, k@)))
    } else {
        let a = cpu.regs.a;
        cpu.regs.a = acc_exec(x, a, &mut cpu.regs.f);
        (1, Ghost(vstd::pervasive::arbitrary()))
    }
}

fn halt(cpu: &mut Cpu, bus: &Bus) -> (r: u32)
    ensures (*final(cpu), bus@, r) == spec_halt(*old(cpu), bus@),
{
    let pending = bus.pending_interrupts().bits() != 0;
    if !cpu.ime && pending {
        cpu.halt_bug = true;
    } else {
        cpu.halted = true;
    }
    1
}

/// LD r,r' for `0x40..=0x7F` but `0x76`.
fn ld_r_r(cpu: &mut Cpu, bus: &mut Bus, op: u8) -> (r: (u32, Ghost<BusClock>))
    requires old(bus).wf(),
    ensures
        final(bus).wf(),
        (*final(cpu), final(bus)@, r.0) == spec_ld_rr(*old(cpu), old(bus)@, (op >> 3) & 7, op & 7, r.1@),
{
    let dst = (op >> 3) & 0x07;
    let src = op & 0x07;
    let v = read_r(cpu, bus, src);
    let k = write_r(cpu, bus, dst, v);
    let cs: u32 = if src == 6 { 2 } else { 1 };
    let cd: u32 = if dst == 6 { 2 } else { 1 };
    (if cs >= cd { cs } else { cd }, k)
}

fn alu_r(cpu: &mut Cpu, bus: &Bus, op: u8) -> (r: u32)
    requires bus.wf(),
    ensures (*final(cpu), bus@, r) == spec_alu_r(*old(cpu), bus@, (op >> 3) & 7, op & 7),
{
    let r = op & 0x07;
    let v = read_r(cpu, bus, r);
    let a = cpu.regs.a;
    cpu.regs.a = alu_exec((op >> 3) & 0x07, a, v, &mut cpu.regs.f);
    if r == 6 { 2 } else { 1 }
}

fn cb_dispatch(cpu: &mut Cpu, bus: &mut Bus) -> (r: (u32, Ghost<BusClock>))
    requires old(bus).wf(),
    ensures final(bus).wf(), (*final(cpu), final(bus)@, r.0) == spec_cb(*old(cpu), old(bus)@, r.1@),
{
    let op = cpu.fetch8(bus);
    let r = op & 0x07;
    let n = (op >> 3) & 0x07;
    let g = op >> 6;
    assert(n < 8) by (bit_vector)
        requires n == (op >> 3) & 0x07;
    let v = read_r(cpu, bus, r);
    if g == 1 {
        alu::bit(n, v, &mut cpu.regs.f);
        return (if r == 6 { 3 } else { 2 }, Ghost(vstd::pervasive::arbitrary()));
    }
    let res = if g == 0 {
        rot_exec(n, v, &mut cpu.regs.f)
    } else if g == 2 {
        alu::res(n, v)
    } else {
        alu::set(n, v)
    };
    let k = write_r(cpu, bus, r, res);
    (if r == 6 { 4 } else { 2 }, k)
}

fn exec3_z0(cpu: &mut Cpu, bus: &mut Bus, x: u8) -> (r: (u32, Ghost<BusClock>))
    requires old(bus).wf(),
    ensures final(bus).wf(), (*final(cpu), final(bus)@, r.0) == spec3_z0(*old(cpu), old(bus)@, x, r.1@),
{
    if x < 4 {
        let t = test_cond(&cpu.regs.f, x);
        return (exec_ret(cpu, bus, t), Ghost(vstd::pervasive::arbitrary()));
    }
    let o = cpu.fetch8(bus);
    if x == 4 {
        let a = cpu.regs.a;
        let k = write8(bus, 0xFF00 + o as u16, a);
        (3, k)
    } else if x == 5 {
        let sp = cpu.regs.sp;
        cpu.regs.sp = alu::add_sp_i8(sp, o as i8, &mut cpu.regs.f);
        (4, Ghost(vstd::pervasive::arbitrary()))
    } else if x == 6 {
        cpu.regs.a = bus.read(0xFF00 + o as u16);
        (3, Ghost(vstd::pervasive::arbitrary()))
    } else {
        let sp = cpu.regs.sp;
        let v = alu::add_sp_i8(sp, o as i8, &mut cpu.regs.f);
        cpu.regs.set_hl(v);
        (3, Ghost(vstd::pervasive::arbitrary()))
    }
}

fn exec3_z1(cpu: &mut Cpu, bus: &Bus, x: u8) -> (r: u32)
    requires bus.wf(),
    ensures (*final(cpu), bus@, r) == spec3_z1(*old(cpu), bus@, x),
{
    let p = x >> 1;
    if x & 1 == 0 {
        let v = cpu.pop16(bus);
        if p == 3 {
            cpu.regs.set_af(v);
        } else {
            put_rp(&mut cpu.regs, p, v);
        }
        3
    } else if p == 0 {
        cpu.regs.pc = cpu.pop16(bus);
        4
    } else if p == 1 {
        cpu.regs.pc = cpu.pop16(bus);
        cpu.ime = true;
        cpu.ime_pending = false;
        4
    } else if p == 2 {
        cpu.regs.pc = cpu.regs.hl();
        1
    } else {
        cpu.regs.sp = cpu.regs.hl();
        2
    }
}

fn exec3_z2(cpu: &mut Cpu, bus: &mut Bus, x: u8) -> (r: (u32, Ghost<BusClock>))
    requires old(bus).wf(),
    ensures final(bus).wf(), (*final(cpu), final(bus)@, r.0) == spec3_z2(*old(cpu), old(bus)@, x, r.1@),
{
    let io = 0xFF00 + cpu.regs.c as u16;
    if x < 4 {
        let t = test_cond(&cpu.regs.f, x);
        (exec_jp(cpu, bus, t), Ghost(vstd::pervasive::arbitrary()))
    } else if x == 4 {
        let a = cpu.regs.a;
        let k = write8(bus, io, a);
        (2, k)
    } else if x == 5 {
        let addr = cpu.fetch16(bus);
        let a = cpu.regs.a;
        let k = write8(bus, addr, a);
        (4, k)
    } else if x == 6 {
        cpu.regs.a = bus.read(io);
        (2, Ghost(vstd::pervasive::arbitrary()))
    } else {
        let addr = cpu.fetch16(bus);
        cpu.regs.a = bus.read(addr);
        (4, Ghost(vstd::pervasive::arbitrary()))
    }
}

fn block3(cpu: &mut Cpu, bus: &mut Bus, op: u8) -> (r: (u32, Ghost<Clocks>))
    requires old(bus).wf(), op >= 0xC0, op != 0xCB, legal(op),
    ensures final(bus).wf(), (*final(cpu), final(bus)@, r.0) == spec_block3(*old(cpu), old(bus)@, op, r.1@.0, r.1@.1),
{
    let x = (op >> 3) & 0x07;
    let z = op & 0x07;
    if z == 0 {
        let (r, k) = exec3_z0(cpu, bus, x);
        (r, Ghost((k@, k@)))
    } else if z == 1 {
        (exec3_z1(cpu, bus, x), Ghost(vstd::pervasive::arbitrary()))
    } else if z == 2 {
        let (r, k) = exec3_z2(cpu, bus, x);
        (r, Ghost((k@, k@)))
    } else if z == 3 {
        if x == 0 {
            (exec_jp(cpu, bus, true), Ghost(vstd::pervasive::arbitrary()))
        } else if x == 6 {
            cpu.ime = false;
            cpu.ime_pending = false;
            (1, Ghost(vstd::pervasive::arbitrary()))
        } else {
            cpu.ime_pending = true;
            (1, Ghost(vstd::pervasive::arbitrary()))
        }
    } else if z == 4 {
        let t = test_cond(&cpu.regs.f, x);
        exec_call(cpu, bus, t)
    } else if z == 5 {
        if x & 1 == 0 {
            let v = if (x >> 1) == 3 { cpu.regs.af() } else { get_rp(&cpu.regs, x >> 1) };
            let k = cpu.push16(bus, v);
            (4, k)
        } else {
            exec_call(cpu, bus, true)
        }
    } else if z == 6 {
        let v = cpu.fetch8(bus);
        let a = cpu.regs.a;
        cpu.regs.a = alu_exec(x, a, v, &mut cpu.regs.f);
        (2, Ghost(vstd::pervasive::arbitrary()))
    } else {
        exec_rst(cpu, bus, x as u16 * 8)
    }
}

/// Runs the instruction with opcode `op`, already fetched. The undefined opcodes
/// (which lock the SM83 up) are not run.
fn dispatch(cpu: &mut Cpu, bus: &mut Bus, op: u8) -> (r: (u32, Ghost<Clocks>))
    requires old(bus).wf(), legal(op),
    ensures final(bus).wf(), (*final(cpu), final(bus)@, r.0) == spec_exec(*old(cpu), old(bus)@, op, r.1@.0, r.1@.1),
{
    if op < 0x40 {
        block0(cpu, bus, op)
    } else if op == 0x76 {
        (halt(cpu, bus), Ghost(vstd::pervasive::arbitrary()))
    } else if op < 0x80 {
        let (r, k) = ld_r_r(cpu, bus, op);
        (r, Ghost((k@, k@)))
    } else if op < 0xC0 {
        (alu_r(cpu, bus, op), Ghost(vstd::pervasive::arbitrary()))
    } else if op == 0xCB {
        let (r, k) = cb_dispatch(cpu, bus);
        (r, Ghost((k@, k@)))
    } else {
        block3(cpu, bus, op)
    }
}

/// Fetches and runs one instruction. Returns the M-cycles it took.
pub fn step(cpu: &mut Cpu, bus: &mut Bus) -> (r: u32)
    requires old(bus).wf(), legal(old(bus)@.spec_read(old(cpu).regs.pc)),
    ensures
        final(bus).wf(),
        exists|k: Clocks| (*final(cpu), final(bus)@, r) == spec_fetch_exec(*old(cpu), old(bus)@, k.0, k.1),
{
    let op = cpu.fetch8(bus);
    let (r, k) = dispatch(cpu, bus, op);
    assert((*cpu, bus@, r) == spec_fetch_exec(*old(cpu), old(bus)@, k@.0, k@.1));
    r
}

} // verus!
