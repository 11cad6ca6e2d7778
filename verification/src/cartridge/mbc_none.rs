//! Type 0x00: 32 KiB ROM, no banking, no RAM.

use vstd::prelude::*;
use super::{byte_at, byte_or_ff};

verus! {

#[derive(Debug)]
pub struct MbcNone {
    pub rom: Vec<u8>,
}

impl MbcNone {
    pub open spec fn spec_read_rom(&self, addr: u16) -> u8 {
        byte_or_ff(self.rom@, addr as int)
    }

    pub fn new(rom: Vec<u8>) -> (r: MbcNone)
        ensures r.rom@ == rom@,
    {
        MbcNone { rom }
    }

    pub fn read_rom(&self, addr: u16) -> (r: u8)
        ensures r == self.spec_read_rom(addr),
    {
        byte_at(&self.rom, addr as u128)
    }
}

} // verus!
