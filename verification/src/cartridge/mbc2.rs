//! MBC2: up to 256 KiB ROM and 512 four-bit cells of built-in RAM.
//!
//! * `0x0000-0x3FFF`: fixed ROM bank 0.
//! * `0x4000-0x7FFF`: ROM bank 1-15, as last written to `0x0000-0x3FFF` with
//!   address bit 8 set (low four bits of the value; writing 0 selects 1).

use vstd::prelude::*;
use super::{byte_at, byte_or_ff, zeroed};

verus! {

#[derive(Debug)]
pub struct Mbc2 {
    pub rom: Vec<u8>,
    /// 512 cells; only the low nibble of each is stored.
    pub ram: Vec<u8>,
    /// ROM bank mapped at `0x4000-0x7FFF` (1-15).
    pub rom_bank: u8,
}

pub struct Mbc2View {
    pub rom: Seq<u8>,
    pub ram: Seq<u8>,
    pub rom_bank: u8,
}

/// Cell index addressed by a RAM access: the low nine bits of the offset from `0xA000`.
pub open spec fn mbc2_cell(addr: u16) -> int {
    ((addr - 0xA000) % 65536) % 512
}

impl View for Mbc2 {
    type V = Mbc2View;

    open spec fn view(&self) -> Mbc2View {
        Mbc2View { rom: self.rom@, ram: self.ram@, rom_bank: self.rom_bank }
    }
}

impl Mbc2View {
    pub open spec fn wf(self) -> bool {
        self.ram.len() == 512
    }

    pub open spec fn read_rom(self, addr: u16) -> u8 {
        let bank = if addr < 0x4000 { 0 } else { self.rom_bank as int };
        byte_or_ff(self.rom, bank * 0x4000 + addr % 0x4000)
    }

    /// A register write: with address bit 8 set, a write below `0x4000` selects the
    /// ROM bank (low four bits, 0 counting as 1); other writes change nothing.
    pub open spec fn write_rom(self, addr: u16, val: u8) -> Mbc2View {
        if addr < 0x4000 && addr & 0x0100 != 0 {
            Mbc2View { rom_bank: if val & 0x0F == 0 { 1 } else { val & 0x0F }, ..self }
        } else {
            self
        }
    }

    /// The upper nibble reads as 1s.
    pub open spec fn read_ram(self, addr: u16) -> u8 {
        0xF0 | (self.ram[mbc2_cell(addr)] & 0x0F)
    }

    pub open spec fn write_ram(self, addr: u16, val: u8) -> Mbc2View {
        Mbc2View { ram: self.ram.update(mbc2_cell(addr), val & 0x0F), ..self }
    }

    /// Each of the first bytes of `data` is loaded, keeping only its low nibble.
    pub open spec fn load_ram(self, data: Seq<u8>) -> Mbc2View {
        Mbc2View {
            ram: Seq::new(self.ram.len(), |i: int| if i < data.len() { data[i] & 0x0F } else { self.ram[i] }),
            ..self
        }
    }
}

impl Mbc2 {
    pub fn new(rom: Vec<u8>) -> (r: Mbc2)
        ensures
            r@.wf(),
            r@.rom == rom@,
            r@.ram == Seq::new(512, |i: int| 0u8),
            r@.rom_bank == 1,
    {
        Mbc2 { rom, ram: zeroed(512), rom_bank: 1 }
    }

    pub fn read_rom(&self, addr: u16) -> (r: u8)
        ensures r == self@.read_rom(addr),
    {
        let bank: u8 = if addr < 0x4000 { 0 } else { self.rom_bank };
        let off = bank as u128 * 0x4000 + (addr % 0x4000) as u128;
        byte_at(&self.rom, off)
    }

    pub fn write_rom(&mut self, addr: u16, val: u8)
        ensures final(self)@ == old(self)@.write_rom(addr, val),
    {
        if addr < 0x4000 && addr & 0x0100 != 0 {
            let b = val & 0x0F;
            self.rom_bank = if b == 0 { 1 } else { b };
        }
    }

    fn cell(addr: u16) -> (r: usize)
        ensures r == mbc2_cell(addr), r < 512,
    {
        (((addr as u32 + 65536 - 0xA000) % 65536) % 512) as usize
    }

    pub fn read_ram(&self, addr: u16) -> (r: u8)
        requires self@.wf(),
        ensures r == self@.read_ram(addr),
    {
        0xF0 | (self.ram[Self::cell(addr)] & 0x0F)
    }

    pub fn write_ram(&mut self, addr: u16, val: u8)
        requires old(self)@.wf(),
        ensures final(self)@ == old(self)@.write_ram(addr, val),
    {
        let i = Self::cell(addr);
        self.ram.set(i, val & 0x0F);
    }

    pub fn load_ram(&mut self, data: &[u8])
        requires old(self)@.wf(),
        ensures final(self)@ == old(self)@.load_ram(data@),
    {
        let n = if data.len() < self.ram.len() { data.len() } else { self.ram.len() };
        let ghost r0 = self.ram@;
        let mut i: usize = 0;
        while i < n
            invariant
                n <= data@.len(),
                n <= r0.len(),
                i <= n,
                self.ram@.len() == r0.len(),
                self.rom@ == old(self).rom@,
                self.rom_bank == old(self).rom_bank,
                forall|j: int| 0 <= j < i ==> self.ram@[j] == data@[j] & 0x0F,
                forall|j: int| i <= j < r0.len() ==> self.ram@[j] == r0[j],
            decreases n - i,
        {
            self.ram.set(i, data[i] & 0x0F);
            i = i + 1;
        }
        assert(self.ram@ =~= old(self)@.load_ram(data@).ram);
    }
}

/// A write with address bit 8 set below `0x4000` maps the selected bank (low four
/// bits, 0 counting as 1) at `0x4000-0x7FFF`; bank 0 stays at `0x0000-0x3FFF`.
pub proof fn lemma_mbc2_rom_banking(m: Mbc2View, reg: u16, val: u8, addr: u16)
    requires
        reg < 0x4000,
        reg & 0x0100 != 0,
        addr < 0x8000,
    ensures
        ({
            let b: int = if val & 0x0F == 0 { 1 } else { (val & 0x0F) as int };
            let m2 = m.write_rom(reg, val);
            &&& addr >= 0x4000 ==> m2.read_rom(addr) == byte_or_ff(m.rom, b * 0x4000 + (addr - 0x4000))
            &&& addr < 0x4000 ==> m2.read_rom(addr) == byte_or_ff(m.rom, addr as int)
            &&& m2.ram == m.ram
        }),
{
}

/// A RAM write stores a nibble: it reads back as `0xF0` plus its low four bits.
pub proof fn lemma_mbc2_ram_roundtrip(m: Mbc2View, addr: u16, val: u8)
    requires
        m.wf(),
    ensures
        m.write_ram(addr, val).read_ram(addr) == 0xF0 | (val & 0x0F),
        m.write_ram(addr, val).wf(),
{
    let c = mbc2_cell(addr);
    assert(0 <= c < 512);
    let v = val & 0x0F;
    assert(v & 0x0F == v) by (bit_vector)
        requires v == val & 0x0F;
}

} // verus!
