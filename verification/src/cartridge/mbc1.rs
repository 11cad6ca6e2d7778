//! MBC1: up to 2 MiB ROM and 32 KiB RAM (Pan Docs, MBC1).
//!
//! * `0x0000-0x3FFF`: ROM bank 0, or `bank2 << 5` in mode 1.
//! * `0x4000-0x7FFF`: ROM bank `(bank2 << 5) | bank1`.
//! * `0xA000-0xBFFF`: RAM bank, gated by the RAM enable.
//!
//! Register writes: `0x0000-0x1FFF` RAM enable (low nibble `0xA`), `0x2000-0x3FFF`
//! `bank1` (5 bits, 0 selects 1), `0x4000-0x5FFF` `bank2` (2 bits), `0x6000-0x7FFF`
//! mode (1 bit).

use vstd::prelude::*;
use super::{byte_at, store_at, copy_prefix, byte_or_ff, stored, loaded, zeroed, lemma_and_le};

verus! {

#[derive(Debug)]
pub struct Mbc1 {
    pub rom: Vec<u8>,
    pub ram: Vec<u8>,
    /// Number of 16 KiB ROM banks (at least 1) minus one.
    pub rom_bank_mask: usize,
    pub ram_bank_count: usize,
    pub ram_enable: bool,
    pub bank1: u8,
    pub bank2: u8,
    pub mode: u8,
}

pub struct Mbc1View {
    pub rom: Seq<u8>,
    pub ram: Seq<u8>,
    pub rom_bank_mask: usize,
    pub ram_bank_count: usize,
    pub ram_enable: bool,
    pub bank1: u8,
    pub bank2: u8,
    pub mode: u8,
}

impl View for Mbc1 {
    type V = Mbc1View;

    open spec fn view(&self) -> Mbc1View {
        Mbc1View {
            rom: self.rom@,
            ram: self.ram@,
            rom_bank_mask: self.rom_bank_mask,
            ram_bank_count: self.ram_bank_count,
            ram_enable: self.ram_enable,
            bank1: self.bank1,
            bank2: self.bank2,
            mode: self.mode,
        }
    }
}

impl Mbc1View {
    /// Bank mapped at `0x0000-0x3FFF`.
    pub open spec fn low_bank(self) -> usize {
        if self.mode == 1 {
            ((self.bank2 as usize) << 5usize) & self.rom_bank_mask
        } else {
            0
        }
    }

    /// Bank mapped at `0x4000-0x7FFF`.
    pub open spec fn high_bank(self) -> usize {
        (((self.bank2 as usize) << 5usize) | (self.bank1 as usize)) & self.rom_bank_mask
    }

    /// RAM bank mapped at `0xA000-0xBFFF` (only selectable in mode 1).
    pub open spec fn ram_bank(self) -> usize {
        if self.mode == 1 && self.ram_bank_count > 1 {
            (self.bank2 as usize) & ((self.ram_bank_count - 1) as usize)
        } else {
            0
        }
    }

    pub open spec fn read_rom(self, addr: u16) -> u8 {
        let bank = if addr < 0x4000 { self.low_bank() } else { self.high_bank() };
        byte_or_ff(self.rom, bank * 0x4000 + addr % 0x4000)
    }

    pub open spec fn write_rom(self, addr: u16, val: u8) -> Mbc1View {
        if addr <= 0x1FFF {
            Mbc1View { ram_enable: val & 0x0F == 0x0A, ..self }
        } else if addr <= 0x3FFF {
            Mbc1View { bank1: if val & 0x1F == 0 { 1 } else { val & 0x1F }, ..self }
        } else if addr <= 0x5FFF {
            Mbc1View { bank2: val & 0x03, ..self }
        } else if addr <= 0x7FFF {
            Mbc1View { mode: val & 1, ..self }
        } else {
            self
        }
    }

    pub open spec fn ram_offset(self, addr: u16) -> int {
        self.ram_bank() * 0x2000 + (addr - 0xA000)
    }

    /// Disabled or absent RAM reads `0xFF`.
    pub open spec fn read_ram(self, addr: u16) -> u8 {
        if !self.ram_enable || self.ram.len() == 0 {
            0xFF
        } else {
            byte_or_ff(self.ram, self.ram_offset(addr))
        }
    }

    pub open spec fn write_ram(self, addr: u16, val: u8) -> Mbc1View {
        if !self.ram_enable || self.ram.len() == 0 {
            self
        } else {
            Mbc1View { ram: stored(self.ram, self.ram_offset(addr), val), ..self }
        }
    }

    pub open spec fn load_ram(self, data: Seq<u8>) -> Mbc1View {
        Mbc1View { ram: loaded(self.ram, data), ..self }
    }
}

impl Mbc1 {
    /// Power-on state: RAM disabled, `bank1 = 1`, `bank2 = 0`, mode 0.
    pub fn new(rom: Vec<u8>, ram_size: usize) -> (r: Mbc1)
        ensures
            r@.rom == rom@,
            r@.ram == Seq::new(ram_size as nat, |i: int| 0u8),
            r@.rom_bank_mask + 1 == (if rom@.len() / 0x4000 >= 1 { rom@.len() / 0x4000 } else { 1 }),
            r@.ram_bank_count == ram_size / 0x2000,
            !r@.ram_enable && r@.bank1 == 1 && r@.bank2 == 0 && r@.mode == 0,
    {
        let count = rom.len() / 0x4000;
        let rom_bank_count = if count >= 1 { count } else { 1 };
        Mbc1 {
            rom,
            ram: zeroed(ram_size),
            rom_bank_mask: rom_bank_count - 1,
            ram_bank_count: ram_size / 0x2000,
            ram_enable: false,
            bank1: 1,
            bank2: 0,
            mode: 0,
        }
    }

    fn low_bank(&self) -> (r: usize)
        ensures r == self@.low_bank(),
    {
        if self.mode == 1 {
            ((self.bank2 as usize) << 5usize) & self.rom_bank_mask
        } else {
            0
        }
    }

    fn high_bank(&self) -> (r: usize)
        ensures r == self@.high_bank(),
    {
        (((self.bank2 as usize) << 5usize) | (self.bank1 as usize)) & self.rom_bank_mask
    }

    fn ram_bank(&self) -> (r: usize)
        ensures r == self@.ram_bank(),
    {
        if self.mode == 1 && self.ram_bank_count > 1 {
            (self.bank2 as usize) & (self.ram_bank_count - 1)
        } else {
            0
        }
    }

    pub fn read_rom(&self, addr: u16) -> (r: u8)
        ensures r == self@.read_rom(addr),
    {
        let bank = if addr < 0x4000 { self.low_bank() } else { self.high_bank() };
        let off = bank as u128 * 0x4000 + (addr % 0x4000) as u128;
        byte_at(&self.rom, off)
    }

    pub fn write_rom(&mut self, addr: u16, val: u8)
        ensures final(self)@ == old(self)@.write_rom(addr, val),
    {
        if addr <= 0x1FFF {
            self.ram_enable = (val & 0x0F) == 0x0A;
        } else if addr <= 0x3FFF {
            let v = val & 0x1F;
            self.bank1 = if v == 0 { 1 } else { v };
        } else if addr <= 0x5FFF {
            self.bank2 = val & 0x03;
        } else if addr <= 0x7FFF {
            self.mode = val & 1;
        }
    }

    pub fn read_ram(&self, addr: u16) -> (r: u8)
        requires 0xA000 <= addr,
        ensures r == self@.read_ram(addr),
    {
        if !self.ram_enable || self.ram.len() == 0 {
            return 0xFF;
        }
        let off = self.ram_bank() as u128 * 0x2000 + (addr - 0xA000) as u128;
        byte_at(&self.ram, off)
    }

    pub fn write_ram(&mut self, addr: u16, val: u8)
        requires 0xA000 <= addr,
        ensures final(self)@ == old(self)@.write_ram(addr, val),
    {
        if !self.ram_enable || self.ram.len() == 0 {
            return;
        }
        let off = self.ram_bank() as u128 * 0x2000 + (addr - 0xA000) as u128;
        store_at(&mut self.ram, off, val);
    }

    pub fn load_ram(&mut self, data: &[u8])
        ensures final(self)@ == old(self)@.load_ram(data@),
    {
        copy_prefix(&mut self.ram, data);
    }
}

/// A write of 0 to the bank-1 register selects bank 1: the low five bits of the
/// bank number are never 0.
pub proof fn lemma_mbc1_bank1_zero_maps_to_one(m: Mbc1View, addr: u16, val: u8)
    requires
        0x2000 <= addr <= 0x3FFF,
        val & 0x1F == 0,
    ensures
        m.write_rom(addr, val).bank1 == 1,
{
}

/// With RAM enabled, a byte written to an existing RAM cell reads back.
pub proof fn lemma_mbc1_ram_roundtrip(m: Mbc1View, addr: u16, val: u8)
    requires
        m.ram_enable,
        0 <= m.ram_offset(addr) < m.ram.len(),
    ensures
        m.write_ram(addr, val).read_ram(addr) == val,
{
}

/// Disabled RAM reads `0xFF` and ignores writes.
pub proof fn lemma_mbc1_disabled_ram(m: Mbc1View, addr: u16, val: u8)
    requires
        !m.ram_enable,
    ensures
        m.read_ram(addr) == 0xFF,
        m.write_ram(addr, val) == m,
{
}

} // verus!
