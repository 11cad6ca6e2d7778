//! Memory bus: routes CPU accesses to the subsystems by the DMG/CGB memory map
//! and advances the subsystems other than the CPU.

use vstd::prelude::*;
use crate::apu::{Apu, ApuView, MixInput};
use crate::cartridge::{Cartridge, CartridgeView, byte_or_ff, byte_at};
use crate::cartridge::mbc3::ClockReads;
use crate::hdma::{Hdma, HdmaWrite};
use crate::interrupts::{IntFlags, Interrupts, INT_MASK};
use crate::joypad::{Joypad, JoypadState, spec_joypad_read};
use crate::ppu::{Ppu, PpuView};
use crate::serial::{Serial, SerialView};
use crate::timer::Timer;

verus! {

/// The clock readings one bus write may take: the reading an MBC3 latch takes, and
/// the readings an MBC3 RTC register write takes. Other writes ignore them.
pub type BusClock = (u128, ClockReads);

pub struct Bus {
    pub cart: Cartridge,
    pub ppu: Ppu,
    pub apu: Apu,
    pub timer: Timer,
    pub joypad: Joypad,
    pub serial: Serial,
    pub interrupts: Interrupts,
    pub hdma: Hdma,
    /// 32 KiB of work RAM: `0xC000..=0xCFFF` is bank 0; `0xD000..=0xDFFF` shows bank
    /// 1 on DMG and the SVBK-selected bank (1..7) on CGB.
    pub wram: [u8; 0x8000],
    pub hram: [u8; 0x7F],
    pub cgb_mode: bool,
    /// FF70: WRAM bank select (CGB).
    pub svbk: u8,
    /// FF4D: CPU speed switch (CGB).
    pub key1: u8,
    /// CGB undocumented registers FF72..FF75.
    pub undoc_ff72: u8,
    pub undoc_ff73: u8,
    pub undoc_ff74: u8,
    pub undoc_ff75: u8,
    pub boot_rom: Option<Vec<u8>>,
    pub boot_rom_enabled: bool,
}

pub struct BusView {
    pub cart: CartridgeView,
    pub ppu: PpuView,
    pub apu: ApuView,
    pub timer: Timer,
    pub joypad: Joypad,
    pub serial: SerialView,
    pub interrupts: Interrupts,
    pub hdma: Hdma,
    pub wram: Seq<u8>,
    pub hram: Seq<u8>,
    pub cgb_mode: bool,
    pub svbk: u8,
    pub key1: u8,
    pub undoc_ff72: u8,
    pub undoc_ff73: u8,
    pub undoc_ff74: u8,
    pub undoc_ff75: u8,
    pub boot_rom: Option<Seq<u8>>,
    pub boot_rom_enabled: bool,
}

pub open spec fn opt_view(v: Option<Vec<u8>>) -> Option<Seq<u8>> {
    match v {
        Some(b) => Some(b@),
        None => None,
    }
}

impl View for Bus {
    type V = BusView;

    open spec fn view(&self) -> BusView {
        BusView {
            cart: self.cart@,
            ppu: self.ppu@,
            apu: self.apu@,
            timer: self.timer,
            joypad: self.joypad,
            serial: self.serial@,
            interrupts: self.interrupts,
            hdma: self.hdma,
            wram: self.wram@,
            hram: self.hram@,
            cgb_mode: self.cgb_mode,
            svbk: self.svbk,
            key1: self.key1,
            undoc_ff72: self.undoc_ff72,
            undoc_ff73: self.undoc_ff73,
            undoc_ff74: self.undoc_ff74,
            undoc_ff75: self.undoc_ff75,
            boot_rom: opt_view(self.boot_rom),
            boot_rom_enabled: self.boot_rom_enabled,
        }
    }
}

/// Position in the 16 KiB of VRAM (bank 0, then bank 1) that HDMA byte `i` of a
/// transfer to `dst` lands on: the VRAM offset of `dst + i` in the bank VBK selects.
/// A general transfer that runs past `0x9FFF` with bank 0 selected goes on into
/// bank 1. With bank 1 selected it would run off the end of VRAM; there the position
/// wraps to the start of VRAM.
pub open spec fn hdma_index(bank_base: int, dst: u16, i: nat) -> int {
    (bank_base + (dst - 0x8000) + i) % 0x4000
}

impl BusView {
    pub open spec fn wf(self) -> bool {
        &&& self.cart.wf() && self.ppu.wf() && self.apu.wf() && self.hdma.wf()
        &&& self.wram.len() == 0x8000 && self.hram.len() == 0x7F
    }

    /// Offset in WRAM of the switchable bank shown at `0xD000`.
    pub open spec fn bank_base(self) -> int {
        if self.cgb_mode {
            let b = self.svbk & 0x07;
            (if b == 0 { 1int } else { b as int }) * 0x1000
        } else {
            0x1000
        }
    }

    pub open spec fn read_io(self, addr: u16) -> u8 {
        if addr == 0xFF00 {
            spec_joypad_read(self.joypad.state.bits, self.joypad.select_buttons, self.joypad.select_dpad)
        } else if 0xFF01 <= addr <= 0xFF02 {
            self.serial.spec_read(addr)
        } else if 0xFF04 <= addr <= 0xFF07 {
            self.timer.spec_read(addr)
        } else if addr == 0xFF0F {
            0xE0 | self.interrupts.iflag.bits
        } else if 0xFF10 <= addr <= 0xFF3F {
            self.apu.spec_read(addr)
        } else if 0xFF40 <= addr <= 0xFF4B {
            self.ppu.read_reg(addr)
        } else if addr == 0xFF4D {
            if self.cgb_mode { 0x7E | (self.key1 & 0x81) } else { 0xFF }
        } else if addr == 0xFF4F {
            self.ppu.read_reg(addr)
        } else if addr == 0xFF50 {
            0xFF
        } else if 0xFF51 <= addr <= 0xFF55 {
            if self.cgb_mode { self.hdma.spec_read(addr) } else { 0xFF }
        } else if 0xFF68 <= addr <= 0xFF6C {
            self.ppu.read_reg(addr)
        } else if addr == 0xFF70 {
            if self.cgb_mode { 0xF8 | (self.svbk & 0x07) } else { 0xFF }
        } else if addr == 0xFF72 {
            self.undoc_ff72
        } else if addr == 0xFF73 {
            self.undoc_ff73
        } else if addr == 0xFF74 {
            if self.cgb_mode { self.undoc_ff74 } else { 0xFF }
        } else if addr == 0xFF75 {
            0x8F | (self.undoc_ff75 & 0x70)
        } else {
            0xFF
        }
    }

    /// CPU read, by the memory map. While enabled, the boot ROM overlays
    /// `0x0000..=0x00FF` (and `0x0200..=0x08FF` on CGB).
    #[verifier::opaque]
    pub open spec fn spec_read(self, addr: u16) -> u8 {
        if addr <= 0x00FF && self.boot_rom_enabled {
            match self.boot_rom {
                Some(b) => byte_or_ff(b, addr as int),
                None => 0xFF,
            }
        } else if 0x0200 <= addr <= 0x08FF && self.boot_rom_enabled && self.cgb_mode {
            match self.boot_rom {
                Some(b) => if (addr as int) < b.len() { b[addr as int] } else { self.cart.read_rom(addr) },
                None => self.cart.read_rom(addr),
            }
        } else if addr <= 0x7FFF {
            self.cart.read_rom(addr)
        } else if addr <= 0x9FFF {
            self.ppu.read_vram(addr)
        } else if addr <= 0xBFFF {
            self.cart.read_ram(addr)
        } else if addr <= 0xCFFF {
            self.wram[addr - 0xC000]
        } else if addr <= 0xDFFF {
            self.wram[self.bank_base() + (addr - 0xD000)]
        } else if addr <= 0xEFFF {
            self.wram[addr - 0xE000]
        } else if addr <= 0xFDFF {
            self.wram[self.bank_base() + (addr - 0xF000)]
        } else if addr <= 0xFE9F {
            self.ppu.read_oam(addr)
        } else if addr <= 0xFEFF {
            0xFF
        } else if addr <= 0xFF7F {
            self.read_io(addr)
        } else if addr <= 0xFFFE {
            self.hram[addr - 0xFF80]
        } else {
            self.interrupts.ie.bits
        }
    }

    /// Bytes `i..0xA0` of an OAM DMA from `base`, each read through the bus.
    #[verifier::opaque]
    pub open spec fn oam_copy(self, base: u16, i: nat) -> BusView
        decreases 0xA0 - i,
    {
        if i >= 0xA0 {
            self
        } else {
            let b = self.spec_read((base + i) as u16);
            BusView { ppu: self.ppu.oam_dma_write(i as u8, b), ..self }.oam_copy(base, i + 1)
        }
    }

    /// Bytes `i..n` of an HDMA copy from `src` to VRAM at `dst`.
    #[verifier::opaque]
    pub open spec fn hdma_copy(self, src: u16, dst: u16, i: nat, n: nat) -> BusView
        decreases n - i,
    {
        if i >= n {
            self
        } else {
            let b = self.spec_read(((src + i) % 0x10000) as u16);
            BusView { ppu: self.ppu.write_vram_index(hdma_index(self.ppu.vram_bank_base(), dst, i), b), ..self }.hdma_copy(src, dst, i + 1, n)
        }
    }

    pub open spec fn with_hblank_edge_cleared(self) -> BusView {
        BusView { ppu: PpuView { hblank_edge: false, ..self.ppu }, ..self }
    }

    /// FF55 on CGB: a general transfer copies at once; starting an HBlank transfer
    /// drops any HBlank edge already seen, so the first block waits for the next one.
    pub open spec fn write_ff55(self, val: u8) -> BusView {
        let (h, w) = self.hdma.spec_write_ff55(val);
        let s = BusView { hdma: h, ..self };
        match w {
            HdmaWrite::General { len } => s.hdma_copy(h.spec_source(), h.spec_dest(), 0, len as nat * 16),
            HdmaWrite::HBlankStart => s.with_hblank_edge_cleared(),
            HdmaWrite::HBlankCancel => s,
        }
    }

    #[verifier::opaque]
    pub open spec fn write_io(self, addr: u16, val: u8) -> BusView {
        if addr == 0xFF00 {
            BusView { joypad: Joypad { select_dpad: val & 0x10 == 0, select_buttons: val & 0x20 == 0, ..self.joypad }, ..self }
        } else if 0xFF01 <= addr <= 0xFF02 {
            BusView { serial: self.serial.spec_write(addr, val), ..self }
        } else if 0xFF04 <= addr <= 0xFF07 {
            BusView { timer: self.timer.spec_write(addr, val), ..self }
        } else if addr == 0xFF0F {
            BusView { interrupts: Interrupts { iflag: IntFlags { bits: val & INT_MASK }, ..self.interrupts }, ..self }
        } else if 0xFF10 <= addr <= 0xFF3F {
            BusView { apu: self.apu.spec_write(addr, val), ..self }
        } else if addr == 0xFF46 {
            self.oam_copy((val as int * 256) as u16, 0)
        } else if 0xFF40 <= addr <= 0xFF4B {
            BusView { ppu: self.ppu.write_reg(addr, val), ..self }
        } else if addr == 0xFF4D {
            if self.cgb_mode { BusView { key1: (self.key1 & 0x80) | (val & 0x01), ..self } } else { self }
        } else if addr == 0xFF4F {
            BusView { ppu: self.ppu.write_reg(addr, val), ..self }
        } else if addr == 0xFF50 {
            if val != 0 { BusView { boot_rom_enabled: false, ..self } } else { self }
        } else if 0xFF51 <= addr <= 0xFF54 {
            if self.cgb_mode { BusView { hdma: self.hdma.spec_write(addr, val), ..self } } else { self }
        } else if addr == 0xFF55 {
            if self.cgb_mode { self.write_ff55(val) } else { self }
        } else if 0xFF68 <= addr <= 0xFF6C {
            BusView { ppu: self.ppu.write_reg(addr, val), ..self }
        } else if addr == 0xFF70 {
            if self.cgb_mode { BusView { svbk: val & 0x07, ..self } } else { self }
        } else if addr == 0xFF72 {
            BusView { undoc_ff72: val, ..self }
        } else if addr == 0xFF73 {
            BusView { undoc_ff73: val, ..self }
        } else if addr == 0xFF74 {
            if self.cgb_mode { BusView { undoc_ff74: val, ..self } } else { self }
        } else if addr == 0xFF75 {
            BusView { undoc_ff75: val & 0x70, ..self }
        } else {
            self
        }
    }

    /// CPU write, by the memory map. `k` are the clock readings an MBC3 takes.
    #[verifier::opaque]
    pub open spec fn spec_write(self, addr: u16, val: u8, k: BusClock) -> BusView {
        if addr <= 0x7FFF {
            BusView { cart: self.cart.write_rom(addr, val, k.0), ..self }
        } else if addr <= 0x9FFF {
            BusView { ppu: self.ppu.write_vram(addr, val), ..self }
        } else if addr <= 0xBFFF {
            BusView { cart: self.cart.write_ram(addr, val, k.1), ..self }
        } else if addr <= 0xCFFF {
            BusView { wram: self.wram.update(addr - 0xC000, val), ..self }
        } else if addr <= 0xDFFF {
            BusView { wram: self.wram.update(self.bank_base() + (addr - 0xD000), val), ..self }
        } else if addr <= 0xEFFF {
            BusView { wram: self.wram.update(addr - 0xE000, val), ..self }
        } else if addr <= 0xFDFF {
            BusView { wram: self.wram.update(self.bank_base() + (addr - 0xF000), val), ..self }
        } else if addr <= 0xFE9F {
            BusView { ppu: self.ppu.write_oam(addr, val), ..self }
        } else if addr <= 0xFEFF {
            self
        } else if addr <= 0xFF7F {
            self.write_io(addr, val)
        } else if addr <= 0xFFFE {
            BusView { hram: self.hram.update(addr - 0xFF80, val), ..self }
        } else {
            BusView { interrupts: Interrupts { ie: IntFlags { bits: val & INT_MASK }, ..self.interrupts }, ..self }
        }
    }

    /// CGB HBlank DMA after the subsystems ran: on an HBlank edge one 16-byte block
    /// is copied. Without an active transfer the edge is dropped.
    pub open spec fn hblank_dma(self) -> BusView {
        if self.cgb_mode && self.hdma.hblank_active {
            if self.ppu.hblank_edge {
                let s = self.with_hblank_edge_cleared();
                let (h, blk) = self.hdma.spec_step_hblank();
                let s2 = BusView { hdma: h, ..s };
                match blk {
                    Some(b) => s2.hdma_copy(b.src, b.dst, 0, 16),
                    None => s2,
                }
            } else {
                self
            }
        } else {
            self.with_hblank_edge_cleared()
        }
    }

    /// `t` T-cycles of the timer, the PPU and the APU, with the interrupts they
    /// request, then the HBlank DMA.
    pub open spec fn spec_tick(self, t: u32) -> BusView {
        let (tm, tirq) = self.timer.spec_run(t as nat);
        let if1: u8 = if tirq { self.interrupts.iflag.bits | 0x04 } else { self.interrupts.iflag.bits };
        let (p, pbits) = self.ppu.tick(t);
        BusView {
            timer: tm,
            ppu: p,
            apu: self.apu.spec_tick(t),
            interrupts: Interrupts { iflag: IntFlags { bits: if1 | pbits }, ..self.interrupts },
            ..self
        }.hblank_dma()
    }

    pub open spec fn pending(self) -> u8 {
        self.interrupts.ie.bits & self.interrupts.iflag.bits
    }
}

/// Addresses backed by plain RAM: work RAM `0xC000..=0xDFFF` and high RAM
/// `0xFF80..=0xFFFE`.
pub open spec fn plain_ram(a: int) -> bool {
    (0xC000 <= a <= 0xDFFF) || (0xFF80 <= a <= 0xFFFE)
}

proof fn lemma_bank_base_bounds(b: BusView)
    ensures 0x1000 <= b.bank_base() <= 0x7000,
{
    let sv = b.svbk;
    let v = sv & 0x07;
    assert(v <= 7) by (bit_vector)
        requires v == sv & 0x07;
}

/// A byte written to work RAM (or its echo) or to high RAM reads back.
pub proof fn lemma_ram_roundtrip(b: BusView, addr: u16, val: u8, k: BusClock)
    requires
        b.wf(),
        (0xC000 <= addr <= 0xFDFF) || (0xFF80 <= addr <= 0xFFFE),
    ensures
        b.spec_write(addr, val, k).spec_read(addr) == val,
        b.spec_write(addr, val, k).wf(),
{
    reveal(BusView::spec_read);
    reveal(BusView::spec_write);
    lemma_bank_base_bounds(b);
}

/// A write to one plain-RAM address leaves every other plain-RAM address as it was.
pub proof fn lemma_ram_frame(b: BusView, a1: u16, a2: u16, val: u8, k: BusClock)
    requires
        b.wf(),
        plain_ram(a1 as int),
        plain_ram(a2 as int),
        a1 != a2,
    ensures
        b.spec_write(a1, val, k).spec_read(a2) == b.spec_read(a2),
{
    reveal(BusView::spec_read);
    reveal(BusView::spec_write);
    lemma_bank_base_bounds(b);
}

/// A byte written to VRAM (in the selected bank) reads back.
pub proof fn lemma_vram_roundtrip(b: BusView, addr: u16, val: u8, k: BusClock)
    requires
        b.wf(),
        0x8000 <= addr <= 0x9FFF,
    ensures
        b.spec_write(addr, val, k).spec_read(addr) == val,
{
    reveal(BusView::spec_read);
    reveal(BusView::spec_write);
}

/// Echo RAM: `0xE000..=0xFDFF` reads what `0xC000..=0xDDFF` holds, and a write
/// through either address reads back through the other.
pub proof fn lemma_echo_ram(b: BusView, off: u16, v: u8, k: BusClock)
    requires
        b.wf(),
        off < 0x1E00,
    ensures
        b.spec_read((0xE000 + off) as u16) == b.spec_read((0xC000 + off) as u16),
        b.spec_write((0xE000 + off) as u16, v, k).spec_read((0xC000 + off) as u16) == v,
        b.spec_write((0xC000 + off) as u16, v, k).spec_read((0xE000 + off) as u16) == v,
{
    reveal(BusView::spec_read);
    reveal(BusView::spec_write);
    lemma_bank_base_bounds(b);
}

/// The prohibited area `0xFEA0..=0xFEFF` reads `0xFF` and ignores writes.
pub proof fn lemma_prohibited_area(b: BusView, addr: u16, val: u8, k: BusClock)
    requires
        0xFEA0 <= addr <= 0xFEFF,
    ensures
        b.spec_read(addr) == 0xFF,
        b.spec_write(addr, val, k) == b,
{
    reveal(BusView::spec_read);
    reveal(BusView::spec_write);
}

/// IE keeps the five interrupt sources of what is written.
pub proof fn lemma_ie_roundtrip(b: BusView, val: u8, k: BusClock)
    ensures
        b.spec_write(0xFFFF, val, k).spec_read(0xFFFF) == val & INT_MASK,
{
    reveal(BusView::spec_read);
    reveal(BusView::spec_write);
}

proof fn lemma_oam_copy_keeps_boot_flag(b: BusView, base: u16, i: nat)
    ensures
        b.oam_copy(base, i).boot_rom_enabled == b.boot_rom_enabled,
        b.oam_copy(base, i).ppu.frame_ready == b.ppu.frame_ready,
        b.oam_copy(base, i).ppu.lcdc == b.ppu.lcdc,
    decreases 0xA0 - i,
{
    reveal(BusView::oam_copy);
    if i < 0xA0 {
        let v = b.spec_read((base + i) as u16);
        lemma_oam_copy_keeps_boot_flag(BusView { ppu: b.ppu.oam_dma_write(i as u8, v), ..b }, base, i + 1);
    }
}

proof fn lemma_hdma_copy_keeps_boot_flag(b: BusView, src: u16, dst: u16, i: nat, n: nat)
    ensures
        b.hdma_copy(src, dst, i, n).boot_rom_enabled == b.boot_rom_enabled,
        b.hdma_copy(src, dst, i, n).ppu.frame_ready == b.ppu.frame_ready,
        b.hdma_copy(src, dst, i, n).ppu.lcdc == b.ppu.lcdc,
    decreases n - i,
{
    reveal(BusView::hdma_copy);
    if i < n {
        let v = b.spec_read(((src + i) % 0x10000) as u16);
        lemma_hdma_copy_keeps_boot_flag(
            BusView { ppu: b.ppu.write_vram_index(hdma_index(b.ppu.vram_bank_base(), dst, i), v), ..b }, src, dst, i + 1, n);
    }
}

/// No CPU write completes a frame: the PPU's frame-ready flag is left as it was.
pub broadcast proof fn lemma_write_keeps_frame_ready(b: BusView, addr: u16, val: u8, k: BusClock)
    ensures
        #[trigger] b.spec_write(addr, val, k).ppu.frame_ready == b.ppu.frame_ready,
{
    reveal(BusView::spec_write);
    reveal(BusView::write_io);
    if addr == 0xFF46 {
        lemma_oam_copy_keeps_boot_flag(b, (val as int * 256) as u16, 0);
    } else if addr == 0xFF55 && b.cgb_mode {
        let (h, w) = b.hdma.spec_write_ff55(val);
        let s = BusView { hdma: h, ..b };
        match w {
            HdmaWrite::General { len } => {
                lemma_hdma_copy_keeps_boot_flag(s, h.spec_source(), h.spec_dest(), 0, len as nat * 16);
            },
            _ => {},
        }
    }
}

/// Running the machine never changes LCDC, and with the LCD off it completes no
/// frame: the frame-ready flag is left as it was.
pub proof fn lemma_tick_lcd_off(b: BusView, t: u32)
    ensures
        b.spec_tick(t).ppu.lcdc == b.ppu.lcdc,
        b.ppu.lcdc & 0x80 == 0 ==> b.spec_tick(t).ppu.frame_ready == b.ppu.frame_ready,
{
    let (p, pbits) = b.ppu.tick(t);
    if b.ppu.lcdc & 0x80 != 0 {
        b.ppu.lemma_run_keeps_lcdc(t as nat);
    }
    let (tm, tirq) = b.timer.spec_run(t as nat);
    let if1: u8 = if tirq { b.interrupts.iflag.bits | 0x04 } else { b.interrupts.iflag.bits };
    let s = BusView {
        timer: tm,
        ppu: p,
        apu: b.apu.spec_tick(t),
        interrupts: Interrupts { iflag: IntFlags { bits: if1 | pbits }, ..b.interrupts },
        ..b
    };
    if s.cgb_mode && s.hdma.hblank_active && s.ppu.hblank_edge {
        let s1 = s.with_hblank_edge_cleared();
        let (h, blk) = s.hdma.spec_step_hblank();
        let s2 = BusView { hdma: h, ..s1 };
        match blk {
            Some(bk) => { lemma_hdma_copy_keeps_boot_flag(s2, bk.src, bk.dst, 0, 16); },
            None => {},
        }
    }
}

/// A non-zero write to `FF50` unmaps the boot ROM: `0x0000..=0x00FF` then reads the
/// cartridge. A write of 0 there changes nothing.
pub proof fn lemma_boot_rom_unmap(b: BusView, v: u8, k: BusClock, a: u16)
    requires
        a <= 0x00FF,
    ensures
        v != 0 ==> !b.spec_write(0xFF50, v, k).boot_rom_enabled
            && b.spec_write(0xFF50, v, k).spec_read(a) == b.cart.read_rom(a),
        v == 0 ==> b.spec_write(0xFF50, v, k) == b,
{
    reveal(BusView::spec_read);
    reveal(BusView::spec_write);
    reveal(BusView::write_io);
}

/// Once unmapped, the boot ROM stays unmapped: no write maps it back.
pub proof fn lemma_boot_rom_stays_unmapped(b: BusView, addr: u16, val: u8, k: BusClock)
    requires
        !b.boot_rom_enabled,
    ensures
        !b.spec_write(addr, val, k).boot_rom_enabled,
{
    reveal(BusView::spec_write);
    reveal(BusView::write_io);
    if addr == 0xFF46 {
        lemma_oam_copy_keeps_boot_flag(b, (val as int * 256) as u16, 0);
    } else if addr == 0xFF55 && b.cgb_mode {
        let (h, w) = b.hdma.spec_write_ff55(val);
        let s = BusView { hdma: h, ..b };
        match w {
            HdmaWrite::General { len } => {
                lemma_hdma_copy_keeps_boot_flag(s, h.spec_source(), h.spec_dest(), 0, len as nat * 16);
            },
            _ => {},
        }
    }
}

proof fn lemma_oam_copy_step(s: BusView, b: BusView, base: u16, i: nat)
    requires
        b.wf(),
        i < 0xA0,
        base as int % 256 == 0,
        s == (BusView { ppu: PpuView { oam: s.ppu.oam, ..b.ppu }, ..b }),
        s.ppu.oam.len() == 0xA0,
        s.ppu.oam[i as int] == b.ppu.oam[i as int],
    ensures
        s.spec_read((base + i) as u16) == b.spec_read((base + i) as u16),
{
    reveal(BusView::spec_read);
}

proof fn lemma_oam_copy_from(s: BusView, b: BusView, base: u16, i: nat)
    requires
        b.wf(),
        i <= 0xA0,
        base as int % 256 == 0,
        s == (BusView { ppu: PpuView { oam: s.ppu.oam, ..b.ppu }, ..b }),
        s.ppu.oam.len() == 0xA0,
        forall|j: int| 0 <= j < i ==> s.ppu.oam[j] == b.spec_read((base + j) as u16),
        forall|j: int| i <= j < 0xA0 ==> s.ppu.oam[j] == b.ppu.oam[j],
    ensures
        s.oam_copy(base, i) == (BusView {
            ppu: PpuView { oam: Seq::new(0xA0, |j: int| b.spec_read((base + j) as u16)), ..b.ppu },
            ..b
        }),
    decreases 0xA0 - i,
{
    reveal(BusView::oam_copy);
    if i < 0xA0 {
        lemma_oam_copy_step(s, b, base, i);
        let v = s.spec_read((base + i) as u16);
        let s2 = BusView { ppu: s.ppu.oam_dma_write(i as u8, v), ..s };
        lemma_oam_copy_from(s2, b, base, i + 1);
    } else {
        assert(s.ppu.oam =~= Seq::new(0xA0, |j: int| b.spec_read((base + j) as u16)));
    }
}

/// OAM DMA (`FF46`) copies the 160 bytes at `src << 8`, as the bus read them before
/// the transfer, into OAM, and changes nothing else.
pub proof fn lemma_oam_dma(b: BusView, src: u8, k: BusClock)
    requires
        b.wf(),
    ensures
        b.spec_write(0xFF46, src, k) == (BusView {
            ppu: PpuView { oam: Seq::new(0xA0, |j: int| b.spec_read((src as int * 256 + j) as u16)), ..b.ppu },
            ..b
        }),
{
    reveal(BusView::spec_write);
    reveal(BusView::write_io);
    let base = (src as int * 256) as u16;
    assert(base as int == src as int * 256);
    lemma_oam_copy_from(b, b, base, 0);
    assert(Seq::new(0xA0, |j: int| b.spec_read((base + j) as u16))
        =~= Seq::new(0xA0, |j: int| b.spec_read((src as int * 256 + j) as u16)));
}

impl Bus {
    pub open spec fn wf(&self) -> bool {
        self@.wf()
    }

    /// Machine after power-on with the given cartridge and optional boot ROM, in DMG
    /// mode.
    pub fn new(cart: Cartridge, boot_rom: Option<Vec<u8>>) -> (r: Bus)
        requires cart@.wf(),
        ensures r.wf(), r@ == Self::power_on(cart@, opt_view(boot_rom), false),
    {
        Self::new_with_mode(cart, boot_rom, false)
    }

    /// The bus at power-on: every subsystem in its power-on state, WRAM and HRAM
    /// zero, WRAM bank 1 selected, the boot ROM mapped when there is one.
    pub open spec fn power_on(cart: CartridgeView, boot_rom: Option<Seq<u8>>, cgb_mode: bool) -> BusView {
        BusView {
            cart,
            ppu: PpuView::power_on(cgb_mode),
            apu: Apu::spec_post_boot(),
            timer: Timer { counter: 0, tima: 0, tma: 0, tac: 0, overflow_pending: 0, last_and_result: false },
            joypad: Joypad { state: JoypadState { bits: 0 }, select_buttons: false, select_dpad: false },
            serial: SerialView { sb: 0, sc: 0, output_log: Seq::empty() },
            interrupts: Interrupts { ie: IntFlags { bits: 0 }, iflag: IntFlags { bits: 0 } },
            hdma: Hdma {
                src_hi: 0, src_lo: 0, dst_hi: 0, dst_lo: 0, blocks_remaining: 0, hblank_active: false,
                last_status: 0xFF,
            },
            wram: Seq::new(0x8000, |i: int| 0u8),
            hram: Seq::new(0x7F, |i: int| 0u8),
            cgb_mode,
            svbk: 1,
            key1: 0,
            undoc_ff72: 0,
            undoc_ff73: 0,
            undoc_ff74: 0,
            undoc_ff75: 0,
            boot_rom,
            boot_rom_enabled: boot_rom is Some,
        }
    }

    pub fn new_with_mode(cart: Cartridge, boot_rom: Option<Vec<u8>>, cgb_mode: bool) -> (r: Bus)
        requires cart@.wf(),
        ensures r.wf(), r@ == Self::power_on(cart@, opt_view(boot_rom), cgb_mode),
    {
        let boot_rom_enabled = boot_rom.is_some();
        let r = Bus {
            cart,
            ppu: Ppu::with_mode(cgb_mode),
            apu: Apu::new(),
            timer: Timer::new(),
            joypad: Joypad::new(),
            serial: Serial::new(),
            interrupts: Interrupts::new(),
            hdma: Hdma::new(),
            wram: [0u8; 0x8000],
            hram: [0u8; 0x7F],
            cgb_mode,
            svbk: 1,
            key1: 0,
            undoc_ff72: 0,
            undoc_ff73: 0,
            undoc_ff74: 0,
            undoc_ff75: 0,
            boot_rom,
            boot_rom_enabled,
        };
        assert(r.wram@ =~= Seq::new(0x8000, |i: int| 0u8));
        assert(r.hram@ =~= Seq::new(0x7F, |i: int| 0u8));
        assert(r.serial@.output_log =~= Seq::<u8>::empty());
        r
    }

    pub fn ppu(&self) -> (r: &Ppu)
        ensures *r == self.ppu,
    {
        &self.ppu
    }

    pub fn ppu_mut(&mut self) -> (r: &mut Ppu)
        ensures
            *r == old(self).ppu,
            final(self)@ == (BusView { ppu: (*final(r))@, ..old(self)@ }),
    {
        &mut self.ppu
    }

    pub fn cgb_mode(&self) -> (r: bool)
        ensures r == self.cgb_mode,
    {
        self.cgb_mode
    }

    /// Battery-backed cartridge RAM (for save files).
    pub fn cart_ram(&self) -> (r: Option<&[u8]>)
        ensures
            r is Some <==> self@.cart.ram() is Some,
            r matches Some(s) ==> s@ == self@.cart.ram().unwrap(),
    {
        self.cart.ram()
    }

    /// Whether the cartridge has battery-backed RAM worth saving.
    pub fn cart_has_battery(&self) -> (r: bool)
        ensures r == crate::cartridge::header::battery_type(self.cart.header.cart_type),
    {
        self.cart.has_battery()
    }

    /// Restores battery RAM from a save.
    pub fn load_cart_ram(&mut self, data: &[u8])
        requires old(self).wf(),
        ensures final(self).wf(), final(self)@ == (BusView { cart: old(self)@.cart.load_ram(data@), ..old(self)@ }),
    {
        self.cart.load_ram(data);
    }

    /// The mixer inputs the APU recorded since the last call.
    pub fn take_audio_samples(&mut self) -> (r: Vec<MixInput>)
        ensures
            r@ == old(self)@.apu.samples,
            final(self)@ == (BusView { apu: ApuView { samples: Seq::empty(), ..old(self)@.apu }, ..old(self)@ }),
    {
        self.apu.drain_samples()
    }

    /// Bytes sent over the serial port so far.
    pub fn serial_output(&self) -> (r: &[u8])
        ensures r@ == self@.serial.output_log,
    {
        self.serial.output_log.as_slice()
    }

    /// Interrupt-enable register (`FFFF`).
    pub fn ie(&self) -> (r: IntFlags)
        ensures r == self.interrupts.ie,
    {
        self.interrupts.ie
    }

    /// Interrupt-flag register (`FF0F`).
    pub fn iflag(&self) -> (r: IntFlags)
        ensures r == self.interrupts.iflag,
    {
        self.interrupts.iflag
    }

    /// Clears the given request bits in IF.
    pub fn clear_if(&mut self, flag: IntFlags)
        ensures
            final(self)@ == (BusView {
                interrupts: Interrupts { iflag: IntFlags { bits: old(self).interrupts.iflag.bits & !flag.bits }, ..old(self).interrupts },
                ..old(self)@
            }),
    {
        self.interrupts.iflag.remove(flag);
    }

    /// Interrupts both requested and enabled.
    pub fn pending_interrupts(&self) -> (r: IntFlags)
        ensures r.bits == self@.pending(),
    {
        self.interrupts.pending()
    }

    /// New host input state; a button going from released to pressed requests the
    /// joypad interrupt.
    pub fn set_joypad(&mut self, state: JoypadState)
        ensures
            final(self)@ == (BusView {
                joypad: Joypad { state, ..old(self).joypad },
                interrupts: Interrupts {
                    iflag: IntFlags {
                        bits: if state.bits & !old(self).joypad.state.bits != 0 {
                            old(self).interrupts.iflag.bits | 0x10
                        } else {
                            old(self).interrupts.iflag.bits
                        },
                    },
                    ..old(self).interrupts
                },
                ..old(self)@
            }),
    {
        if self.joypad.set_state(state) {
            self.interrupts.request(IntFlags::joypad());
        }
    }

    /// Current KEY1 (speed switch) register.
    pub fn key1(&self) -> (r: u8)
        ensures r == self.key1,
    {
        self.key1
    }

    /// `STOP` on CGB with a speed switch requested (KEY1 bit 0): toggles the speed
    /// bit (bit 7) and clears the request.
    pub fn handle_stop(&mut self)
        ensures
            final(self)@ == (BusView {
                key1: if old(self).cgb_mode && old(self).key1 & 0x01 != 0 {
                    (old(self).key1 ^ 0x80) & !0x01u8
                } else {
                    old(self).key1
                },
                ..old(self)@
            }),
    {
        if self.cgb_mode && (self.key1 & 0x01) != 0 {
            self.key1 = self.key1 ^ 0x80;
            self.key1 = self.key1 & !0x01;
        }
    }

    fn wram_bank_base(&self) -> (r: usize)
        ensures r == self@.bank_base(), 0x1000 <= r <= 0x7000,
    {
        if self.cgb_mode {
            let b = self.svbk & 0x07;
            proof {
                lemma_bank_base_bounds(self@);
            }
            let b2: u8 = if b == 0 { 1 } else { b };
            b2 as usize * 0x1000
        } else {
            0x1000
        }
    }

    fn read_io(&self, addr: u16) -> (r: u8)
        requires self.wf(),
        ensures r == self@.read_io(addr),
    {
        if addr == 0xFF00 {
            self.joypad.read()
        } else if 0xFF01 <= addr && addr <= 0xFF02 {
            self.serial.read(addr)
        } else if 0xFF04 <= addr && addr <= 0xFF07 {
            self.timer.read(addr)
        } else if addr == 0xFF0F {
            self.interrupts.read_if()
        } else if 0xFF10 <= addr && addr <= 0xFF3F {
            self.apu.read(addr)
        } else if 0xFF40 <= addr && addr <= 0xFF4B {
            self.ppu.read_reg(addr)
        } else if addr == 0xFF4D {
            if self.cgb_mode { 0x7E | (self.key1 & 0x81) } else { 0xFF }
        } else if addr == 0xFF4F {
            self.ppu.read_reg(addr)
        } else if addr == 0xFF50 {
            0xFF
        } else if 0xFF51 <= addr && addr <= 0xFF55 {
            if self.cgb_mode { self.hdma.read(addr) } else { 0xFF }
        } else if 0xFF68 <= addr && addr <= 0xFF6C {
            self.ppu.read_reg(addr)
        } else if addr == 0xFF70 {
            if self.cgb_mode { 0xF8 | (self.svbk & 0x07) } else { 0xFF }
        } else if addr == 0xFF72 {
            self.undoc_ff72
        } else if addr == 0xFF73 {
            self.undoc_ff73
        } else if addr == 0xFF74 {
            if self.cgb_mode { self.undoc_ff74 } else { 0xFF }
        } else if addr == 0xFF75 {
            0x8F | (self.undoc_ff75 & 0x70)
        } else {
            0xFF
        }
    }

    /// 8-bit read from the CPU.
    pub fn read(&self, addr: u16) -> (r: u8)
        requires self.wf(),
        ensures r == self@.spec_read(addr),
    {
        reveal(BusView::spec_read);
        if addr <= 0x00FF && self.boot_rom_enabled {
            match &self.boot_rom {
                Some(b) => byte_at(b, addr as u128),
                None => 0xFF,
            }
        } else if 0x0200 <= addr && addr <= 0x08FF && self.boot_rom_enabled && self.cgb_mode {
            match &self.boot_rom {
                Some(b) => if (addr as usize) < b.len() { b[addr as usize] } else { self.cart.read_rom(addr) },
                None => self.cart.read_rom(addr),
            }
        } else if addr <= 0x7FFF {
            self.cart.read_rom(addr)
        } else if addr <= 0x9FFF {
            self.ppu.read_vram(addr)
        } else if addr <= 0xBFFF {
            self.cart.read_ram(addr)
        } else if addr <= 0xCFFF {
            self.wram[(addr - 0xC000) as usize]
        } else if addr <= 0xDFFF {
            self.wram[self.wram_bank_base() + (addr - 0xD000) as usize]
        } else if addr <= 0xEFFF {
            self.wram[(addr - 0xE000) as usize]
        } else if addr <= 0xFDFF {
            self.wram[self.wram_bank_base() + (addr - 0xF000) as usize]
        } else if addr <= 0xFE9F {
            self.ppu.read_oam(addr)
        } else if addr <= 0xFEFF {
            0xFF
        } else if addr <= 0xFF7F {
            self.read_io(addr)
        } else if addr <= 0xFFFE {
            self.hram[(addr - 0xFF80) as usize]
        } else {
            self.interrupts.read_ie()
        }
    }

    /// OAM DMA (`FF46`): 160 bytes from `src << 8`, each read through the bus.
    fn do_oam_dma(&mut self, src: u8)
        requires old(self).wf(),
        ensures final(self).wf(), final(self)@ == old(self)@.oam_copy((src as int * 256) as u16, 0),
    {
        let base: u16 = src as u16 * 256;
        let mut i: u16 = 0;
        while i < 0xA0
            invariant
                self.wf(),
                i <= 0xA0,
                base == (src as int * 256) as u16,
                self@.oam_copy(base, i as nat) == old(self)@.oam_copy(base, 0),
            decreases 0xA0 - i,
        {
            proof {
                reveal(BusView::oam_copy);
            }
            let byte = self.read(base + i);
            self.ppu.oam_dma_write(i as u8, byte);
            i = i + 1;
        }
        proof {
            reveal(BusView::oam_copy);
        }
    }

    /// HDMA copy of `n` bytes from `src` to VRAM at `dst`.
    fn hdma_copy(&mut self, src: u16, dst: u16, n: u16)
        requires old(self).wf(), 0x8000 <= dst,
        ensures final(self).wf(), final(self)@ == old(self)@.hdma_copy(src, dst, 0, n as nat),
    {
        let mut i: u16 = 0;
        while i < n
            invariant
                self.wf(),
                i <= n,
                0x8000 <= dst,
                self@.hdma_copy(src, dst, i as nat, n as nat) == old(self)@.hdma_copy(src, dst, 0, n as nat),
            decreases n - i,
        {
            proof {
                reveal(BusView::hdma_copy);
            }
            let b = self.read(((src as u32 + i as u32) % 0x10000) as u16);
            let idx = (self.ppu.vram_bank_base() + (dst - 0x8000) as usize + i as usize) % 0x4000;
            self.ppu.write_vram_index(idx, b);
            i = i + 1;
        }
        proof {
            reveal(BusView::hdma_copy);
        }
    }

    #[verifier::rlimit(60)]
    fn write_io(&mut self, addr: u16, val: u8)
        requires old(self).wf(),
        ensures final(self).wf(), final(self)@ == old(self)@.write_io(addr, val),
    {
        reveal(BusView::write_io);
        if addr == 0xFF00 {
            self.joypad.write(val);
        } else if 0xFF01 <= addr && addr <= 0xFF02 {
            self.serial.write(addr, val);
        } else if 0xFF04 <= addr && addr <= 0xFF07 {
            self.timer.write(addr, val);
        } else if addr == 0xFF0F {
            self.interrupts.write_if(val);
        } else if 0xFF10 <= addr && addr <= 0xFF3F {
            self.apu.write(addr, val);
        } else if addr == 0xFF46 {
            self.do_oam_dma(val);
        } else if 0xFF40 <= addr && addr <= 0xFF4B {
            self.ppu.write_reg(addr, val);
        } else if addr == 0xFF4D {
            if self.cgb_mode {
                self.key1 = (self.key1 & 0x80) | (val & 0x01);
            }
        } else if addr == 0xFF4F {
            self.ppu.write_reg(addr, val);
        } else if addr == 0xFF50 {
            if val != 0 {
                self.boot_rom_enabled = false;
            }
        } else if 0xFF51 <= addr && addr <= 0xFF54 {
            if self.cgb_mode {
                self.hdma.write(addr, val);
            }
        } else if addr == 0xFF55 {
            if self.cgb_mode {
                match self.hdma.write_ff55(val) {
                    HdmaWrite::General { len } => {
                        let src = self.hdma.source();
                        let dst = self.hdma.dest();
                        self.hdma_copy(src, dst, len as u16 * 16);
                    },
                    HdmaWrite::HBlankStart => {
                        let _ = self.ppu.take_hblank_edge();
                    },
                    HdmaWrite::HBlankCancel => {},
                }
            }
        } else if 0xFF68 <= addr && addr <= 0xFF6C {
            self.ppu.write_reg(addr, val);
        } else if addr == 0xFF70 {
            if self.cgb_mode {
                self.svbk = val & 0x07;
            }
        } else if addr == 0xFF72 {
            self.undoc_ff72 = val;
        } else if addr == 0xFF73 {
            self.undoc_ff73 = val;
        } else if addr == 0xFF74 {
            if self.cgb_mode {
                self.undoc_ff74 = val;
            }
        } else if addr == 0xFF75 {
            self.undoc_ff75 = val & 0x70;
        }
    }

    /// A write to work RAM or its echo.
    fn write_wram(&mut self, addr: u16, val: u8)
        requires old(self).wf(), 0xC000 <= addr <= 0xFDFF,
        ensures final(self).wf(), final(self)@ == old(self)@.spec_write(addr, val, (0, (0, 0, 0))),
    {
        reveal(BusView::spec_write);
        if addr <= 0xCFFF {
            self.wram[(addr - 0xC000) as usize] = val;
        } else if addr <= 0xDFFF {
            let base = self.wram_bank_base();
            self.wram[base + (addr - 0xD000) as usize] = val;
        } else if addr <= 0xEFFF {
            self.wram[(addr - 0xE000) as usize] = val;
        } else {
            let base = self.wram_bank_base();
            self.wram[base + (addr - 0xF000) as usize] = val;
        }
    }

    /// A write to OAM, the I/O registers, HRAM or IE.
    fn write_high(&mut self, addr: u16, val: u8)
        requires old(self).wf(), 0xFE00 <= addr,
        ensures final(self).wf(), final(self)@ == old(self)@.spec_write(addr, val, (0, (0, 0, 0))),
    {
        reveal(BusView::spec_write);
        if addr <= 0xFE9F {
            self.ppu.write_oam(addr, val);
        } else if addr <= 0xFEFF {
        } else if addr <= 0xFF7F {
            self.write_io(addr, val);
        } else if addr <= 0xFFFE {
            self.hram[(addr - 0xFF80) as usize] = val;
        } else {
            self.interrupts.write_ie(val);
        }
    }

    /// A write outside the cartridge, which takes no clock reading.
    fn write_internal(&mut self, addr: u16, val: u8)
        requires old(self).wf(), 0x8000 <= addr, !(0xA000 <= addr <= 0xBFFF),
        ensures final(self).wf(), final(self)@ == old(self)@.spec_write(addr, val, (0, (0, 0, 0))),
    {
        if addr <= 0x9FFF {
            reveal(BusView::spec_write);
            self.ppu.write_vram(addr, val);
        } else if addr <= 0xFDFF {
            self.write_wram(addr, val);
        } else {
            self.write_high(addr, val);
        }
    }

    /// 8-bit write from the CPU.
    pub fn write(&mut self, addr: u16, val: u8)
        requires old(self).wf(),
        ensures
            final(self).wf(),
            exists|k: BusClock| final(self)@ == old(self)@.spec_write(addr, val, k),
    {
        reveal(BusView::spec_write);
        let ghost z: ClockReads = (0, 0, 0);
        if addr <= 0x7FFF {
            let ghost c0 = self@.cart;
            self.cart.write_rom(addr, val);
            proof {
                let now = choose|now: u128| self@.cart == c0.write_rom(addr, val, now);
                assert(self@ == old(self)@.spec_write(addr, val, (now, z)));
            }
        } else if 0xA000 <= addr && addr <= 0xBFFF {
            let ghost c0 = self@.cart;
            self.cart.write_ram(addr, val);
            proof {
                let t = choose|t: ClockReads| self@.cart == c0.write_ram(addr, val, t);
                assert(self@ == old(self)@.spec_write(addr, val, (0, t)));
            }
        } else {
            self.write_internal(addr, val);
        }
    }

    /// Advances the timer, PPU and APU by `t_cycles` T-cycles, then runs the CGB
    /// HBlank DMA.
    pub fn tick(&mut self, t_cycles: u32)
        requires old(self).wf(),
        ensures final(self).wf(), final(self)@ == old(self)@.spec_tick(t_cycles),
    {
        self.timer.tick(t_cycles, &mut self.interrupts);
        self.ppu.tick(t_cycles, &mut self.interrupts);
        self.apu.tick(t_cycles);
        let ghost mid = self@;
        if self.cgb_mode && self.hdma.is_hblank_active() {
            if self.ppu.take_hblank_edge() {
                match self.hdma.step_hblank() {
                    Some(block) => {
                        self.hdma_copy(block.src, block.dst, 16);
                    },
                    None => {},
                }
            }
        } else {
            let _ = self.ppu.take_hblank_edge();
        }
        assert(self@ == mid.hblank_dma());
    }
}

} // verus!
