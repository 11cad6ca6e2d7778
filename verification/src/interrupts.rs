//! Interrupt controller: the request register IF (`FF0F`) and the enable
//! register IE (`FFFF`).

use vstd::prelude::*;

verus! {

/// Mask of the five interrupt sources that exist on the hardware.
pub const INT_MASK: u8 = 0x1F;

/// A set of interrupt sources, one bit per source (bit 0 = VBlank ... bit 4 = Joypad).
#[derive(Clone, Copy, PartialEq, Eq, Structural, Debug)]
pub struct IntFlags {
    pub bits: u8,
}

/// Handler address of the highest-priority (lowest-numbered) source set in `bits`,
/// or 0 when no source bit is set.
pub open spec fn spec_vector(bits: u8) -> u16 {
    if bits & 0x01 != 0 {
        0x0040
    } else if bits & 0x02 != 0 {
        0x0048
    } else if bits & 0x04 != 0 {
        0x0050
    } else if bits & 0x08 != 0 {
        0x0058
    } else if bits & 0x10 != 0 {
        0x0060
    } else {
        0x0000
    }
}

/// Source `i` (0 = VBlank ... 4 = Joypad) has its handler at `0x0040 + 8 i`: when
/// bit `i` is the lowest source bit set, that is the vector.
pub proof fn lemma_vector_of_source(bits: u8, i: u8)
    by (bit_vector)
    requires
        i < 5,
        (bits >> i) & 1 == 1,
        bits & (((1u8 << i) - 1) as u8) == 0,
    ensures
        spec_vector(bits) == 0x0040 + 8 * (i as u16),
{
}

impl IntFlags {
    pub fn empty() -> (r: IntFlags)
        ensures r.bits == 0,
    {
        IntFlags { bits: 0 }
    }

    pub fn vblank() -> (r: IntFlags)
        ensures r.bits == 0x01,
    {
        IntFlags { bits: 0x01 }
    }

    pub fn stat() -> (r: IntFlags)
        ensures r.bits == 0x02,
    {
        IntFlags { bits: 0x02 }
    }

    pub fn timer() -> (r: IntFlags)
        ensures r.bits == 0x04,
    {
        IntFlags { bits: 0x04 }
    }

    pub fn serial() -> (r: IntFlags)
        ensures r.bits == 0x08,
    {
        IntFlags { bits: 0x08 }
    }

    pub fn joypad() -> (r: IntFlags)
        ensures r.bits == 0x10,
    {
        IntFlags { bits: 0x10 }
    }

    pub fn bits(&self) -> (r: u8)
        ensures r == self.bits,
    {
        self.bits
    }

    /// Keeps only the bits of the five defined sources.
    pub fn from_bits_truncate(v: u8) -> (r: IntFlags)
        ensures r.bits == v & INT_MASK,
    {
        IntFlags { bits: v & INT_MASK }
    }

    pub fn is_empty(&self) -> (r: bool)
        ensures r == (self.bits == 0),
    {
        self.bits == 0
    }

    pub fn contains(&self, other: IntFlags) -> (r: bool)
        ensures r == (self.bits & other.bits == other.bits),
    {
        self.bits & other.bits == other.bits
    }

    pub fn union(self, other: IntFlags) -> (r: IntFlags)
        ensures r.bits == self.bits | other.bits,
    {
        IntFlags { bits: self.bits | other.bits }
    }

    pub fn intersection(self, other: IntFlags) -> (r: IntFlags)
        ensures r.bits == self.bits & other.bits,
    {
        IntFlags { bits: self.bits & other.bits }
    }

    pub fn remove(&mut self, other: IntFlags)
        ensures final(self).bits == old(self).bits & !other.bits,
    {
        self.bits = self.bits & !other.bits;
    }

    /// Handler address of the highest-priority source in the set: the lowest set
    /// bit wins (VBlank `0x40`, STAT `0x48`, Timer `0x50`, Serial `0x58`,
    /// Joypad `0x60`); `0x0000` when no defined source is set.
    pub fn vector(self) -> (r: u16)
        ensures r == spec_vector(self.bits),
    {
        if self.bits & 0x01 != 0 {
            0x0040
        } else if self.bits & 0x02 != 0 {
            0x0048
        } else if self.bits & 0x04 != 0 {
            0x0050
        } else if self.bits & 0x08 != 0 {
            0x0058
        } else if self.bits & 0x10 != 0 {
            0x0060
        } else {
            0x0000
        }
    }
}

/// The interrupt enable (IE) and request (IF) registers.
#[derive(Debug)]
pub struct Interrupts {
    pub ie: IntFlags,
    pub iflag: IntFlags,
}

impl Interrupts {
    pub fn new() -> (r: Interrupts)
        ensures r.ie.bits == 0, r.iflag.bits == 0,
    {
        Interrupts { ie: IntFlags::empty(), iflag: IntFlags::empty() }
    }

    /// Sets the request bits of `src` in IF.
    pub fn request(&mut self, src: IntFlags)
        ensures
            final(self).iflag.bits == old(self).iflag.bits | src.bits,
            final(self).ie == old(self).ie,
    {
        self.iflag = self.iflag.union(src);
    }

    /// Sources that are both requested and enabled.
    pub fn pending(&self) -> (r: IntFlags)
        ensures r.bits == self.ie.bits & self.iflag.bits,
    {
        self.ie.intersection(self.iflag)
    }

    /// IF reads with its three unused upper bits set.
    pub fn read_if(&self) -> (r: u8)
        ensures r == 0xE0 | self.iflag.bits,
    {
        0xE0 | self.iflag.bits
    }

    pub fn write_if(&mut self, v: u8)
        ensures
            final(self).iflag.bits == v & INT_MASK,
            final(self).ie == old(self).ie,
    {
        self.iflag = IntFlags::from_bits_truncate(v);
    }

    pub fn read_ie(&self) -> (r: u8)
        ensures r == self.ie.bits,
    {
        self.ie.bits
    }

    pub fn write_ie(&mut self, v: u8)
        ensures
            final(self).ie.bits == v & INT_MASK,
            final(self).iflag == old(self).iflag,
    {
        self.ie = IntFlags::from_bits_truncate(v);
    }
}

} // verus!
