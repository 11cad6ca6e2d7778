//! CGB HDMA controller: registers `FF51..=FF55`.
//!
//! * General-purpose mode (FF55 bit 7 = 0): all `(len + 1) * 16` bytes are copied
//!   as soon as FF55 is written.
//! * HBlank mode (FF55 bit 7 = 1): 16 bytes are copied at each HBlank until the
//!   block count runs out.
//!
//! The copies themselves are done by the bus; this controller keeps the addresses,
//! the block count and the status read back from FF55.

use vstd::prelude::*;

verus! {

#[derive(Debug, Clone, Copy)]
pub struct Hdma {
    pub src_hi: u8,
    pub src_lo: u8,
    pub dst_hi: u8,
    pub dst_lo: u8,
    /// 16-byte blocks left in an HBlank transfer.
    pub blocks_remaining: u8,
    /// `true` while an HBlank transfer runs.
    pub hblank_active: bool,
    /// What FF55 reads: bit 7 = not active, bits 0..6 = blocks left minus one.
    pub last_status: u8,
}

/// What the bus must do after a write to FF55.
#[derive(Debug, Clone, Copy, PartialEq, Eq, Structural)]
pub enum HdmaWrite {
    /// Copy `len` 16-byte blocks at once.
    General { len: u8 },
    /// An HBlank transfer was set up.
    HBlankStart,
    /// The running HBlank transfer was stopped.
    HBlankCancel,
}

/// One 16-byte block to copy.
#[derive(Debug, Clone, Copy, PartialEq, Eq, Structural)]
pub struct HdmaBlock {
    pub src: u16,
    pub dst: u16,
}

impl Hdma {
    pub open spec fn spec_source(self) -> u16 {
        (self.src_hi as int * 256 + self.src_lo as int) as u16
    }

    /// The destination always lies in VRAM: bits 12..4 of the register pair, on top
    /// of `0x8000`.
    pub open spec fn spec_dest(self) -> u16 {
        (0x8000 + (self.dst_hi as int % 32) * 256 + (self.dst_lo as int / 16) * 16) as u16
    }

    pub open spec fn spec_read(self, addr: u16) -> u8 {
        if addr == 0xFF51 {
            self.src_hi
        } else if addr == 0xFF52 {
            self.src_lo
        } else if addr == 0xFF53 {
            self.dst_hi
        } else if addr == 0xFF54 {
            self.dst_lo
        } else if addr == 0xFF55 {
            self.last_status
        } else {
            0xFF
        }
    }

    /// Source low byte is 16-byte aligned; the destination always lies in VRAM.
    pub open spec fn spec_write(self, addr: u16, val: u8) -> Hdma {
        if addr == 0xFF51 {
            Hdma { src_hi: val, ..self }
        } else if addr == 0xFF52 {
            Hdma { src_lo: val & 0xF0, ..self }
        } else if addr == 0xFF53 {
            Hdma { dst_hi: (val & 0x1F) | 0x80, ..self }
        } else if addr == 0xFF54 {
            Hdma { dst_lo: val & 0xF0, ..self }
        } else {
            self
        }
    }

    /// FF55 write. Bit 7 clear: cancels a running HBlank transfer (status latches
    /// `0x80 | remaining - 1`) or else starts a general transfer of `(val & 0x7F) + 1`
    /// blocks. Bit 7 set: starts an HBlank transfer of that many blocks.
    pub open spec fn spec_write_ff55(self, val: u8) -> (Hdma, HdmaWrite) {
        let blocks = ((val & 0x7F) + 1) as u8;
        if val & 0x80 == 0 {
            if self.hblank_active {
                let remaining: u8 = if self.blocks_remaining > 0 { (self.blocks_remaining - 1) as u8 } else { 0 };
                (Hdma { hblank_active: false, last_status: 0x80 | (remaining & 0x7F), ..self }, HdmaWrite::HBlankCancel)
            } else {
                (Hdma { last_status: 0xFF, ..self }, HdmaWrite::General { len: blocks })
            }
        } else {
            (Hdma { hblank_active: true, blocks_remaining: blocks, last_status: ((blocks - 1) as u8) & 0x7F, ..self },
                HdmaWrite::HBlankStart)
        }
    }

    /// One HBlank step: the block to copy now, with both addresses moved on by 16
    /// (the destination wrapping inside VRAM); the transfer ends with its last block.
    pub open spec fn spec_step_hblank(self) -> (Hdma, Option<HdmaBlock>) {
        if !self.hblank_active {
            (self, None)
        } else {
            let src = self.spec_source();
            let dst = self.spec_dest();
            let new_src = ((src + 16) % 65536) as u16;
            let new_dst = ((dst + 16) % 65536) as u16;
            let left = (self.blocks_remaining - 1) as u8;
            let moved = Hdma {
                src_hi: (new_src / 256) as u8,
                src_lo: ((new_src % 256) as u8) & 0xF0,
                dst_hi: (((new_dst / 256) as u8) & 0x1F) | 0x80,
                dst_lo: ((new_dst % 256) as u8) & 0xF0,
                blocks_remaining: left,
                ..self
            };
            let done = if left == 0 {
                Hdma { hblank_active: false, last_status: 0xFF, ..moved }
            } else {
                Hdma { last_status: ((left - 1) as u8) & 0x7F, ..moved }
            };
            (done, Some(HdmaBlock { src, dst }))
        }
    }

    /// While a transfer runs its block count is not zero.
    pub open spec fn wf(self) -> bool {
        self.hblank_active ==> self.blocks_remaining > 0
    }

    pub fn new() -> (r: Hdma)
        ensures
            r.src_hi == 0 && r.src_lo == 0 && r.dst_hi == 0 && r.dst_lo == 0,
            r.blocks_remaining == 0 && !r.hblank_active && r.last_status == 0xFF,
    {
        Hdma { src_hi: 0, src_lo: 0, dst_hi: 0, dst_lo: 0, blocks_remaining: 0, hblank_active: false, last_status: 0xFF }
    }

    pub fn read(&self, addr: u16) -> (r: u8)
        ensures r == self.spec_read(addr),
    {
        if addr == 0xFF51 {
            self.src_hi
        } else if addr == 0xFF52 {
            self.src_lo
        } else if addr == 0xFF53 {
            self.dst_hi
        } else if addr == 0xFF54 {
            self.dst_lo
        } else if addr == 0xFF55 {
            self.last_status
        } else {
            0xFF
        }
    }

    pub fn write(&mut self, addr: u16, val: u8)
        ensures *final(self) == old(self).spec_write(addr, val),
    {
        if addr == 0xFF51 {
            self.src_hi = val;
        } else if addr == 0xFF52 {
            self.src_lo = val & 0xF0;
        } else if addr == 0xFF53 {
            self.dst_hi = (val & 0x1F) | 0x80;
        } else if addr == 0xFF54 {
            self.dst_lo = val & 0xF0;
        }
    }

    /// Source address (16-byte aligned).
    pub fn source(&self) -> (r: u16)
        ensures r == self.spec_source(),
    {
        self.src_hi as u16 * 256 + self.src_lo as u16
    }

    /// Destination address, always inside VRAM (`0x8000..=0x9FF0`, 16-byte aligned).
    pub fn dest(&self) -> (r: u16)
        ensures r == self.spec_dest(), 0x8000 <= r <= 0x9FF0, r % 16 == 0,
    {
        0x8000 + (self.dst_hi % 32) as u16 * 256 + (self.dst_lo / 16) as u16 * 16
    }

    pub fn write_ff55(&mut self, val: u8) -> (r: HdmaWrite)
        requires old(self).wf(),
        ensures (*final(self), r) == old(self).spec_write_ff55(val), final(self).wf(),
    {
        assert(val & 0x7F <= 0x7F) by (bit_vector);
        let blocks = (val & 0x7F) + 1;
        if (val & 0x80) == 0 {
            if self.hblank_active {
                self.hblank_active = false;
                let remaining: u8 = if self.blocks_remaining > 0 { self.blocks_remaining - 1 } else { 0 };
                self.last_status = 0x80 | (remaining & 0x7F);
                HdmaWrite::HBlankCancel
            } else {
                self.last_status = 0xFF;
                HdmaWrite::General { len: blocks }
            }
        } else {
            self.hblank_active = true;
            self.blocks_remaining = blocks;
            self.last_status = (blocks - 1) & 0x7F;
            HdmaWrite::HBlankStart
        }
    }

    /// Called at each HBlank entry; `None` when no transfer runs.
    pub fn step_hblank(&mut self) -> (r: Option<HdmaBlock>)
        requires old(self).wf(),
        ensures (*final(self), r) == old(self).spec_step_hblank(), final(self).wf(),
    {
        if !self.hblank_active {
            return None;
        }
        let src = self.source();
        let dst = self.dest();
        let new_src = ((src as u32 + 16) % 65536) as u16;
        self.src_hi = (new_src / 256) as u8;
        self.src_lo = ((new_src % 256) as u8) & 0xF0;
        let new_dst = ((dst as u32 + 16) % 65536) as u16;
        self.dst_hi = (((new_dst / 256) as u8) & 0x1F) | 0x80;
        self.dst_lo = ((new_dst % 256) as u8) & 0xF0;
        self.blocks_remaining = self.blocks_remaining - 1;
        if self.blocks_remaining == 0 {
            self.hblank_active = false;
            self.last_status = 0xFF;
        } else {
            self.last_status = (self.blocks_remaining - 1) & 0x7F;
        }
        Some(HdmaBlock { src, dst })
    }

    pub fn is_hblank_active(&self) -> (r: bool)
        ensures r == self.hblank_active,
    {
        self.hblank_active
    }
}

/// A general transfer completes at once: FF55 then reads `0xFF`.
pub proof fn lemma_general_transfer_done(h: Hdma, val: u8)
    requires
        val & 0x80 == 0,
        !h.hblank_active,
    ensures
        h.spec_write_ff55(val).1 == (HdmaWrite::General { len: ((val & 0x7F) + 1) as u8 }),
        h.spec_write_ff55(val).0.spec_read(0xFF55) == 0xFF,
{
}

/// Each HBlank step of a running transfer hands out one block and counts down; the
/// transfer stops when the count reaches zero.
pub proof fn lemma_hblank_counts_down(h: Hdma)
    requires
        h.wf(),
        h.hblank_active,
    ensures
        h.spec_step_hblank().1 is Some,
        h.spec_step_hblank().0.blocks_remaining == h.blocks_remaining - 1,
        h.spec_step_hblank().0.hblank_active <==> h.blocks_remaining > 1,
        h.spec_step_hblank().0.wf(),
{
}

} // verus!
