//! MBC5: up to 8 MiB ROM and 128 KiB RAM (Pan Docs, MBC5).
//!
//! * `0x0000-0x3FFF`: fixed ROM bank 0.
//! * `0x4000-0x7FFF`: ROM bank 0-511 (9 bits; bank 0 is selectable).
//! * `0xA000-0xBFFF`: 8 KiB RAM bank 0-15.
//!
//! Register writes: `0x0000-0x1FFF` RAM enable, `0x2000-0x2FFF` ROM bank low 8 bits,
//! `0x3000-0x3FFF` ROM bank bit 8, `0x4000-0x5FFF` RAM bank (low 4 bits),
//! `0x6000-0x7FFF` ignored.

use vstd::prelude::*;
use super::{byte_at, store_at, copy_prefix, byte_or_ff, stored, loaded, zeroed};

verus! {

#[derive(Debug)]
pub struct Mbc5 {
    pub rom: Vec<u8>,
    pub ram: Vec<u8>,
    /// Number of 16 KiB ROM banks (at least 1) minus one.
    pub rom_bank_mask: usize,
    pub ram_bank_count: usize,
    pub ram_enable: bool,
    pub rom_bank_lo: u8,
    pub rom_bank_hi: u8,
    pub ram_bank: u8,
}

pub struct Mbc5View {
    pub rom: Seq<u8>,
    pub ram: Seq<u8>,
    pub rom_bank_mask: usize,
    pub ram_bank_count: usize,
    pub ram_enable: bool,
    pub rom_bank_lo: u8,
    pub rom_bank_hi: u8,
    pub ram_bank: u8,
}

impl View for Mbc5 {
    type V = Mbc5View;

    open spec fn view(&self) -> Mbc5View {
        Mbc5View {
            rom: self.rom@,
            ram: self.ram@,
            rom_bank_mask: self.rom_bank_mask,
            ram_bank_count: self.ram_bank_count,
            ram_enable: self.ram_enable,
            rom_bank_lo: self.rom_bank_lo,
            rom_bank_hi: self.rom_bank_hi,
            ram_bank: self.ram_bank,
        }
    }
}

impl Mbc5View {
    /// Bank mapped at `0x4000-0x7FFF`.
    pub open spec fn high_bank(self) -> usize {
        (((self.rom_bank_hi as usize) << 8usize) | (self.rom_bank_lo as usize)) & self.rom_bank_mask
    }

    pub open spec fn current_ram_bank(self) -> usize {
        if self.ram_bank_count == 0 {
            0
        } else {
            (self.ram_bank as usize) & ((self.ram_bank_count - 1) as usize)
        }
    }

    pub open spec fn read_rom(self, addr: u16) -> u8 {
        let bank = if addr < 0x4000 { 0 } else { self.high_bank() };
        byte_or_ff(self.rom, bank * 0x4000 + addr % 0x4000)
    }

    pub open spec fn write_rom(self, addr: u16, val: u8) -> Mbc5View {
        if addr <= 0x1FFF {
            Mbc5View { ram_enable: val & 0x0F == 0x0A, ..self }
        } else if addr <= 0x2FFF {
            Mbc5View { rom_bank_lo: val, ..self }
        } else if addr <= 0x3FFF {
            Mbc5View { rom_bank_hi: val & 0x01, ..self }
        } else if addr <= 0x5FFF {
            Mbc5View { ram_bank: val & 0x0F, ..self }
        } else {
            self
        }
    }

    pub open spec fn ram_offset(self, addr: u16) -> int {
        self.current_ram_bank() * 0x2000 + (addr - 0xA000)
    }

    pub open spec fn read_ram(self, addr: u16) -> u8 {
        if !self.ram_enable || self.ram.len() == 0 {
            0xFF
        } else {
            byte_or_ff(self.ram, self.ram_offset(addr))
        }
    }

    pub open spec fn write_ram(self, addr: u16, val: u8) -> Mbc5View {
        if !self.ram_enable || self.ram.len() == 0 {
            self
        } else {
            Mbc5View { ram: stored(self.ram, self.ram_offset(addr), val), ..self }
        }
    }

    pub open spec fn load_ram(self, data: Seq<u8>) -> Mbc5View {
        Mbc5View { ram: loaded(self.ram, data), ..self }
    }
}

impl Mbc5 {
    /// Power-on state: RAM disabled, ROM bank 1, RAM bank 0.
    pub fn new(rom: Vec<u8>, ram_size: usize) -> (r: Mbc5)
        ensures
            r@.rom == rom@,
            r@.ram == Seq::new(ram_size as nat, |i: int| 0u8),
            r@.rom_bank_mask + 1 == (if rom@.len() / 0x4000 >= 1 { rom@.len() / 0x4000 } else { 1 }),
            r@.ram_bank_count == ram_size / 0x2000,
            !r@.ram_enable && r@.rom_bank_lo == 1 && r@.rom_bank_hi == 0 && r@.ram_bank == 0,
    {
        let count = rom.len() / 0x4000;
        let rom_bank_count = if count >= 1 { count } else { 1 };
        Mbc5 {
            rom,
            ram: zeroed(ram_size),
            rom_bank_mask: rom_bank_count - 1,
            ram_bank_count: ram_size / 0x2000,
            ram_enable: false,
            rom_bank_lo: 1,
            rom_bank_hi: 0,
            ram_bank: 0,
        }
    }

    fn high_bank(&self) -> (r: usize)
        ensures r == self@.high_bank(),
    {
        (((self.rom_bank_hi as usize) << 8usize) | (self.rom_bank_lo as usize)) & self.rom_bank_mask
    }

    fn current_ram_bank(&self) -> (r: usize)
        ensures r == self@.current_ram_bank(),
    {
        if self.ram_bank_count == 0 {
            0
        } else {
            (self.ram_bank as usize) & (self.ram_bank_count - 1)
        }
    }

    pub fn read_rom(&self, addr: u16) -> (r: u8)
        ensures r == self@.read_rom(addr),
    {
        let bank = if addr < 0x4000 { 0 } else { self.high_bank() };
        let off = bank as u128 * 0x4000 + (addr % 0x4000) as u128;
        byte_at(&self.rom, off)
    }

    pub fn write_rom(&mut self, addr: u16, val: u8)
        ensures final(self)@ == old(self)@.write_rom(addr, val),
    {
        if addr <= 0x1FFF {
            self.ram_enable = (val & 0x0F) == 0x0A;
        } else if addr <= 0x2FFF {
            self.rom_bank_lo = val;
        } else if addr <= 0x3FFF {
            self.rom_bank_hi = val & 0x01;
        } else if addr <= 0x5FFF {
            self.ram_bank = val & 0x0F;
        }
    }

    pub fn read_ram(&self, addr: u16) -> (r: u8)
        requires 0xA000 <= addr,
        ensures r == self@.read_ram(addr),
    {
        if !self.ram_enable || self.ram.len() == 0 {
            return 0xFF;
        }
        let off = self.current_ram_bank() as u128 * 0x2000 + (addr - 0xA000) as u128;
        byte_at(&self.ram, off)
    }

    pub fn write_ram(&mut self, addr: u16, val: u8)
        requires 0xA000 <= addr,
        ensures final(self)@ == old(self)@.write_ram(addr, val),
    {
        if !self.ram_enable || self.ram.len() == 0 {
            return;
        }
        let off = self.current_ram_bank() as u128 * 0x2000 + (addr - 0xA000) as u128;
        store_at(&mut self.ram, off, val);
    }

    pub fn load_ram(&mut self, data: &[u8])
        ensures final(self)@ == old(self)@.load_ram(data@),
    {
        copy_prefix(&mut self.ram, data);
    }
}

/// With RAM enabled, a byte written to an existing RAM cell reads back.
pub proof fn lemma_mbc5_ram_roundtrip(m: Mbc5View, addr: u16, val: u8)
    requires
        m.ram_enable,
        0 <= m.ram_offset(addr) < m.ram.len(),
    ensures
        m.write_ram(addr, val).read_ram(addr) == val,
{
}

/// Disabled RAM reads `0xFF` and ignores writes.
pub proof fn lemma_mbc5_disabled_ram(m: Mbc5View, addr: u16, val: u8)
    requires
        !m.ram_enable,
    ensures
        m.read_ram(addr) == 0xFF,
        m.write_ram(addr, val) == m,
{
}

/// Unlike MBC1, bank 0 can be mapped at `0x4000`: the low bank register takes the
/// byte as written.
pub proof fn lemma_mbc5_bank_zero_selectable(m: Mbc5View, addr: u16)
    requires
        0x2000 <= addr <= 0x2FFF,
    ensures
        m.write_rom(addr, 0).rom_bank_lo == 0,
{
}

} // verus!
