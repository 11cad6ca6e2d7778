//! CPU register file and the flag register F.

use vstd::prelude::*;

verus! {

pub const FLAG_Z: u8 = 0x80;
pub const FLAG_N: u8 = 0x40;
pub const FLAG_H: u8 = 0x20;
pub const FLAG_C: u8 = 0x10;

/// `bits` with the flag(s) in `mask` set when `on`, cleared otherwise.
pub open spec fn update_flag(bits: u8, mask: u8, on: bool) -> u8 {
    if on {
        bits | mask
    } else {
        bits & !mask
    }
}

/// The flag register: Z (bit 7), N (bit 6), H (bit 5), C (bit 4).
#[derive(Clone, Copy, PartialEq, Eq, Structural, Debug)]
pub struct Flags {
    pub bits: u8,
}

impl Flags {
    pub open spec fn z_set(self) -> bool {
        self.bits & FLAG_Z == FLAG_Z
    }

    pub open spec fn n_set(self) -> bool {
        self.bits & FLAG_N == FLAG_N
    }

    pub open spec fn h_set(self) -> bool {
        self.bits & FLAG_H == FLAG_H
    }

    pub open spec fn c_set(self) -> bool {
        self.bits & FLAG_C == FLAG_C
    }

    pub fn empty() -> (r: Flags)
        ensures r.bits == 0,
    {
        Flags { bits: 0 }
    }

    pub fn z() -> (r: Flags)
        ensures r.bits == FLAG_Z,
    {
        Flags { bits: FLAG_Z }
    }

    pub fn n() -> (r: Flags)
        ensures r.bits == FLAG_N,
    {
        Flags { bits: FLAG_N }
    }

    pub fn h() -> (r: Flags)
        ensures r.bits == FLAG_H,
    {
        Flags { bits: FLAG_H }
    }

    pub fn c() -> (r: Flags)
        ensures r.bits == FLAG_C,
    {
        Flags { bits: FLAG_C }
    }

    pub fn bits(&self) -> (r: u8)
        ensures r == self.bits,
    {
        self.bits
    }

    /// Keeps only the four defined flag bits (the low nibble of F reads as zero).
    pub fn from_bits_truncate(v: u8) -> (r: Flags)
        ensures r.bits == v & 0xF0,
    {
        Flags { bits: v & 0xF0 }
    }

    pub fn union(self, other: Flags) -> (r: Flags)
        ensures r.bits == self.bits | other.bits,
    {
        Flags { bits: self.bits | other.bits }
    }

    pub fn contains(&self, other: Flags) -> (r: bool)
        ensures r == (self.bits & other.bits == other.bits),
    {
        self.bits & other.bits == other.bits
    }

    pub fn insert(&mut self, other: Flags)
        ensures final(self).bits == old(self).bits | other.bits,
    {
        self.bits = self.bits | other.bits;
    }

    pub fn remove(&mut self, other: Flags)
        ensures final(self).bits == old(self).bits & !other.bits,
    {
        self.bits = self.bits & !other.bits;
    }

    pub fn toggle(&mut self, other: Flags)
        ensures final(self).bits == old(self).bits ^ other.bits,
    {
        self.bits = self.bits ^ other.bits;
    }

    /// Sets the flag(s) of `other` when `on`, clears them otherwise.
    pub fn set(&mut self, other: Flags, on: bool)
        ensures final(self).bits == update_flag(old(self).bits, other.bits, on),
    {
        if on {
            self.bits = self.bits | other.bits;
        } else {
            self.bits = self.bits & !other.bits;
        }
    }
}

#[derive(Clone, Copy, Debug)]
pub struct Registers {
    pub a: u8,
    pub f: Flags,
    pub b: u8,
    pub c: u8,
    pub d: u8,
    pub e: u8,
    pub h: u8,
    pub l: u8,
    pub sp: u16,
    pub pc: u16,
}

/// The 16-bit value of a register pair.
pub open spec fn pair(hi: u8, lo: u8) -> u16 {
    (hi as int * 256 + lo as int) as u16
}

/// High byte of a 16-bit value.
pub open spec fn hi_byte(v: u16) -> u8 {
    (v as int / 256) as u8
}

/// Low byte of a 16-bit value.
pub open spec fn lo_byte(v: u16) -> u8 {
    (v as int % 256) as u8
}

pub fn join(hi: u8, lo: u8) -> (r: u16)
    ensures r == pair(hi, lo),
{
    assert(((hi as u16) << 8) | (lo as u16) == hi as u16 * 256 + lo as u16) by (bit_vector);
    ((hi as u16) << 8) | (lo as u16)
}

pub fn high(v: u16) -> (r: u8)
    ensures r == hi_byte(v),
{
    assert(v >> 8 == v / 256) by (bit_vector);
    (v >> 8) as u8
}

pub fn low(v: u16) -> (r: u8)
    ensures r == lo_byte(v),
{
    assert(v & 0xFF == v % 256) by (bit_vector);
    (v & 0xFF) as u8
}

impl Registers {
    pub open spec fn spec_af(self) -> u16 {
        pair(self.a, self.f.bits)
    }

    pub open spec fn spec_bc(self) -> u16 {
        pair(self.b, self.c)
    }

    pub open spec fn spec_de(self) -> u16 {
        pair(self.d, self.e)
    }

    pub open spec fn spec_hl(self) -> u16 {
        pair(self.h, self.l)
    }

    pub open spec fn post_boot_values(self) -> bool {
        &&& self.a == 0x01 && self.f.bits == 0xB0
        &&& self.b == 0x00 && self.c == 0x13
        &&& self.d == 0x00 && self.e == 0xD8
        &&& self.h == 0x01 && self.l == 0x4D
        &&& self.sp == 0xFFFE && self.pc == 0x0100
    }

    pub open spec fn post_boot_cgb_values(self) -> bool {
        &&& self.a == 0x11 && self.f.bits == 0x80
        &&& self.b == 0x00 && self.c == 0x00
        &&& self.d == 0xFF && self.e == 0x56
        &&& self.h == 0x00 && self.l == 0x0D
        &&& self.sp == 0xFFFE && self.pc == 0x0100
    }

    pub fn zeroed() -> (r: Registers)
        ensures
            r.a == 0 && r.f.bits == 0 && r.b == 0 && r.c == 0 && r.d == 0 && r.e == 0,
            r.h == 0 && r.l == 0 && r.sp == 0 && r.pc == 0,
    {
        Registers { a: 0, f: Flags::empty(), b: 0, c: 0, d: 0, e: 0, h: 0, l: 0, sp: 0, pc: 0 }
    }

    /// Values the DMG boot ROM leaves in the registers (Pan Docs, Power Up Sequence).
    pub fn post_boot() -> (r: Registers)
        ensures r.post_boot_values(),
    {
        Registers {
            a: 0x01,
            f: Flags { bits: 0xB0 },
            b: 0x00,
            c: 0x13,
            d: 0x00,
            e: 0xD8,
            h: 0x01,
            l: 0x4D,
            sp: 0xFFFE,
            pc: 0x0100,
        }
    }

    /// Values the CGB boot ROM leaves in the registers when running a CGB cartridge.
    pub fn post_boot_cgb() -> (r: Registers)
        ensures r.post_boot_cgb_values(),
    {
        Registers {
            a: 0x11,
            f: Flags { bits: FLAG_Z },
            b: 0x00,
            c: 0x00,
            d: 0xFF,
            e: 0x56,
            h: 0x00,
            l: 0x0D,
            sp: 0xFFFE,
            pc: 0x0100,
        }
    }

    pub fn af(&self) -> (r: u16)
        ensures r == self.spec_af(),
    {
        join(self.a, self.f.bits)
    }

    pub fn bc(&self) -> (r: u16)
        ensures r == self.spec_bc(),
    {
        join(self.b, self.c)
    }

    pub fn de(&self) -> (r: u16)
        ensures r == self.spec_de(),
    {
        join(self.d, self.e)
    }

    pub fn hl(&self) -> (r: u16)
        ensures r == self.spec_hl(),
    {
        join(self.h, self.l)
    }

    /// Loads AF; the low nibble of F always reads zero on the hardware.
    pub fn set_af(&mut self, v: u16)
        ensures
            *final(self) == (Registers { a: hi_byte(v), f: Flags { bits: lo_byte(v) & 0xF0 }, ..*old(self) }),
    {
        self.a = high(v);
        self.f = Flags::from_bits_truncate(low(v));
    }

    pub fn set_bc(&mut self, v: u16)
        ensures
            *final(self) == (Registers { b: hi_byte(v), c: lo_byte(v), ..*old(self) }),
    {
        self.b = high(v);
        self.c = low(v);
    }

    pub fn set_de(&mut self, v: u16)
        ensures
            *final(self) == (Registers { d: hi_byte(v), e: lo_byte(v), ..*old(self) }),
    {
        self.d = high(v);
        self.e = low(v);
    }

    pub fn set_hl(&mut self, v: u16)
        ensures
            *final(self) == (Registers { h: hi_byte(v), l: lo_byte(v), ..*old(self) }),
    {
        self.h = high(v);
        self.l = low(v);
    }
}

impl Default for Registers {
    /// All registers zero.
    fn default() -> (r: Registers)
        ensures
            r.a == 0 && r.f.bits == 0 && r.b == 0 && r.c == 0 && r.d == 0 && r.e == 0,
            r.h == 0 && r.l == 0 && r.sp == 0 && r.pc == 0,
    {
        Registers::zeroed()
    }
}

/// Splitting a 16-bit value into its bytes and joining them gives it back.
pub proof fn lemma_pair_split(v: u16)
    ensures pair(hi_byte(v), lo_byte(v)) == v,
{
}

/// Joining two bytes and splitting the result gives the bytes back.
pub proof fn lemma_split_pair(hi: u8, lo: u8)
    ensures hi_byte(pair(hi, lo)) == hi, lo_byte(pair(hi, lo)) == lo,
{
}

/// Keeping only the high nibble of a byte leaves its low nibble zero.
pub proof fn lemma_high_nibble_only(x: u8)
    by (bit_vector)
    ensures
        (x & 0xF0) & 0x0F == 0,
        (x & 0xF0) % 16 == 0,
{
}

/// After `set_af` the low nibble of F, and so of AF, is zero.
pub proof fn lemma_set_af_low_nibble(r: Registers, v: u16)
    ensures
        ({
            let r2 = Registers { a: hi_byte(v), f: Flags { bits: lo_byte(v) & 0xF0 }, ..r };
            r2.spec_af() % 16 == 0 && r2.f.bits & 0x0F == 0
        }),
{
    lemma_high_nibble_only(lo_byte(v));
}

} // verus!
