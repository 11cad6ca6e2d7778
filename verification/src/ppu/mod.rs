//! Picture Processing Unit: a per-scanline DMG/CGB renderer.
//!
//! The line is drawn at the end of mode 3 from the registers as they stand then;
//! mid-line register writes are not modelled. The framebuffer is 15-bit RGB555 packed
//! into a `u16` (`0 BBBBB GGGGG RRRRR`): DMG mode maps shades to a fixed grey
//! palette, CGB mode reads the colour RAM.

use vstd::prelude::*;
use crate::interrupts::{IntFlags, Interrupts};
use regs::Stat;

pub mod regs;
pub mod render;

verus! {

pub const SCREEN_WIDTH: usize = 160;
pub const SCREEN_HEIGHT: usize = 144;
pub const FRAME_PIXELS: usize = 23040;

/// 160x144 RGB555 framebuffer, row-major.
pub type FrameBuffer = [u16; 23040];

pub const DOTS_PER_LINE: u32 = 456;
pub const MODE2_DOTS: u32 = 80;
pub const MODE3_DOTS: u32 = 172;
pub const LINES_PER_FRAME: u8 = 154;

/// Packs 5-bit red, green and blue into RGB555.
pub open spec fn spec_rgb555(r: u8, g: u8, b: u8) -> u16 {
    (b as int * 1024 + g as int * 32 + r as int) as u16
}

pub fn rgb555(r: u8, g: u8, b: u8) -> (c: u16)
    requires r < 32, g < 32, b < 32,
    ensures c == spec_rgb555(r, g, b),
{
    b as u16 * 1024 + g as u16 * 32 + r as u16
}

/// Fixed DMG grey for shade 0 (white) .. 3 (black).
pub open spec fn spec_dmg_shade(s: u8) -> u16 {
    if s == 0 {
        spec_rgb555(31, 31, 31)
    } else if s == 1 {
        spec_rgb555(21, 21, 21)
    } else if s == 2 {
        spec_rgb555(10, 10, 10)
    } else {
        spec_rgb555(0, 0, 0)
    }
}

pub fn dmg_shade(s: u8) -> (c: u16)
    ensures c == spec_dmg_shade(s),
{
    if s == 0 {
        rgb555(31, 31, 31)
    } else if s == 1 {
        rgb555(21, 21, 21)
    } else if s == 2 {
        rgb555(10, 10, 10)
    } else {
        rgb555(0, 0, 0)
    }
}

/// Low six bits (a colour RAM index).
pub fn low6(v: u8) -> (r: u8)
    ensures r == v & 0x3F, r < 64,
{
    assert(v & 0x3F < 64) by (bit_vector);
    v & 0x3F
}

/// Low three bits (a palette number).
pub fn low3(v: u8) -> (r: u8)
    ensures r == v & 0x07, r < 8,
{
    assert(v & 0x07 < 8) by (bit_vector);
    v & 0x07
}

#[derive(Debug, Clone, Copy, PartialEq, Eq, Structural)]
pub enum Mode {
    HBlank,
    VBlank,
    OamScan,
    Drawing,
}

/// Mode number as read from STAT bits 0..1.
pub open spec fn mode_num(m: Mode) -> u8 {
    match m {
        Mode::HBlank => 0,
        Mode::VBlank => 1,
        Mode::OamScan => 2,
        Mode::Drawing => 3,
    }
}

pub fn mode_bits(m: Mode) -> (r: u8)
    ensures r == mode_num(m),
{
    match m {
        Mode::HBlank => 0,
        Mode::VBlank => 1,
        Mode::OamScan => 2,
        Mode::Drawing => 3,
    }
}

#[derive(Debug)]
pub struct Ppu {
    /// CGB mode, fixed at power-on.
    pub cgb_mode: bool,
    /// Two 8 KiB VRAM banks (bank 1 at `0x2000`); DMG mode uses bank 0 only.
    pub vram: [u8; 0x4000],
    /// FF4F: bit 0 selects the CPU-visible VRAM bank.
    pub vbk: u8,
    pub oam: [u8; 0xA0],
    pub frame: FrameBuffer,
    pub lcdc: u8,
    /// STAT bits 3..6 (interrupt selects); mode and coincidence are computed.
    pub stat: u8,
    pub scy: u8,
    pub scx: u8,
    pub ly: u8,
    pub lyc: u8,
    pub bgp: u8,
    pub obp0: u8,
    pub obp1: u8,
    pub wy: u8,
    pub wx: u8,
    pub bg_cram: [u8; 64],
    pub obj_cram: [u8; 64],
    /// FF68: BG palette index (bit 7 = auto-increment).
    pub bcps: u8,
    /// FF6A: OBJ palette index (bit 7 = auto-increment).
    pub ocps: u8,
    /// FF6C: OBJ priority mode; bit 0 clear = by OAM index (CGB), set = by X (DMG).
    pub opri: u8,
    pub mode: Mode,
    /// Dot within the current line (0..456).
    pub line_dot: u32,
    /// Window's own line counter; advances only on lines where the window shows.
    pub window_line_counter: u8,
    /// Level of the combined STAT interrupt line.
    pub stat_line: bool,
    /// Set when VBlank starts (a frame is complete); cleared by `take_frame_ready`.
    pub frame_ready: bool,
    /// Set when HBlank starts on a visible line; cleared by `take_hblank_edge`.
    pub hblank_edge: bool,
}

pub struct PpuView {
    pub cgb_mode: bool,
    pub vram: Seq<u8>,
    pub vbk: u8,
    pub oam: Seq<u8>,
    pub frame: Seq<u16>,
    pub lcdc: u8,
    pub stat: u8,
    pub scy: u8,
    pub scx: u8,
    pub ly: u8,
    pub lyc: u8,
    pub bgp: u8,
    pub obp0: u8,
    pub obp1: u8,
    pub wy: u8,
    pub wx: u8,
    pub bg_cram: Seq<u8>,
    pub obj_cram: Seq<u8>,
    pub bcps: u8,
    pub ocps: u8,
    pub opri: u8,
    pub mode: Mode,
    pub line_dot: u32,
    pub window_line_counter: u8,
    pub stat_line: bool,
    pub frame_ready: bool,
    pub hblank_edge: bool,
}

impl View for Ppu {
    type V = PpuView;

    open spec fn view(&self) -> PpuView {
        PpuView {
            cgb_mode: self.cgb_mode,
            vram: self.vram@,
            vbk: self.vbk,
            oam: self.oam@,
            frame: self.frame@,
            lcdc: self.lcdc,
            stat: self.stat,
            scy: self.scy,
            scx: self.scx,
            ly: self.ly,
            lyc: self.lyc,
            bgp: self.bgp,
            obp0: self.obp0,
            obp1: self.obp1,
            wy: self.wy,
            wx: self.wx,
            bg_cram: self.bg_cram@,
            obj_cram: self.obj_cram@,
            bcps: self.bcps,
            ocps: self.ocps,
            opri: self.opri,
            mode: self.mode,
            line_dot: self.line_dot,
            window_line_counter: self.window_line_counter,
            stat_line: self.stat_line,
            frame_ready: self.frame_ready,
            hblank_edge: self.hblank_edge,
        }
    }
}

impl PpuView {
    /// Memory sizes.
    pub open spec fn arrays_ok(self) -> bool {
        &&& self.vram.len() == 0x4000 && self.oam.len() == 0xA0 && self.frame.len() == FRAME_PIXELS
        &&& self.bg_cram.len() == 64 && self.obj_cram.len() == 64
    }

    /// Memory sizes, and the line timing each mode allows.
    pub open spec fn wf(self) -> bool {
        &&& self.arrays_ok()
        &&& (self.mode == Mode::OamScan ==> self.line_dot < MODE2_DOTS && self.ly < 144)
        &&& (self.mode == Mode::Drawing ==> MODE2_DOTS <= self.line_dot < MODE2_DOTS + MODE3_DOTS && self.ly < 144)
        &&& (self.mode == Mode::HBlank ==> self.line_dot < DOTS_PER_LINE && self.ly < 144)
        &&& (self.mode == Mode::VBlank ==> self.line_dot < DOTS_PER_LINE && 144 <= self.ly < LINES_PER_FRAME)
    }

    pub open spec fn vram_bank_base(self) -> int {
        if self.cgb_mode && self.vbk & 1 != 0 { 0x2000 } else { 0 }
    }

    pub open spec fn read_vram(self, addr: u16) -> u8 {
        self.vram[self.vram_bank_base() + (addr - 0x8000)]
    }

    pub open spec fn write_vram(self, addr: u16, val: u8) -> PpuView {
        PpuView { vram: self.vram.update(self.vram_bank_base() + (addr - 0x8000), val), ..self }
    }

    /// A write at a position of the whole 16 KiB of VRAM (bank 0, then bank 1).
    pub open spec fn write_vram_index(self, idx: int, val: u8) -> PpuView {
        PpuView { vram: self.vram.update(idx, val), ..self }
    }

    /// VRAM byte at `addr` in an explicit bank (bit 0 of `bank`).
    pub open spec fn vram_at(self, bank: u8, addr: int) -> u8 {
        self.vram[(if bank & 1 != 0 { 0x2000int } else { 0 }) + (addr - 0x8000)]
    }

    pub open spec fn read_oam(self, addr: u16) -> u8 {
        self.oam[addr - 0xFE00]
    }

    pub open spec fn write_oam(self, addr: u16, val: u8) -> PpuView {
        PpuView { oam: self.oam.update(addr - 0xFE00, val), ..self }
    }

    pub open spec fn oam_dma_write(self, offset: u8, val: u8) -> PpuView {
        PpuView { oam: self.oam.update(offset as int, val), ..self }
    }

    pub open spec fn read_reg(self, addr: u16) -> u8 {
        if addr == 0xFF40 {
            self.lcdc
        } else if addr == 0xFF41 {
            0x80 | (self.stat & 0x78) | (if self.ly == self.lyc { 0x04u8 } else { 0 }) | mode_num(self.mode)
        } else if addr == 0xFF42 {
            self.scy
        } else if addr == 0xFF43 {
            self.scx
        } else if addr == 0xFF44 {
            self.ly
        } else if addr == 0xFF45 {
            self.lyc
        } else if addr == 0xFF47 {
            self.bgp
        } else if addr == 0xFF48 {
            self.obp0
        } else if addr == 0xFF49 {
            self.obp1
        } else if addr == 0xFF4A {
            self.wy
        } else if addr == 0xFF4B {
            self.wx
        } else if !self.cgb_mode {
            0xFF
        } else if addr == 0xFF4F {
            0xFE | (self.vbk & 1)
        } else if addr == 0xFF68 {
            self.bcps | 0x40
        } else if addr == 0xFF69 {
            self.bg_cram[(self.bcps & 0x3F) as int]
        } else if addr == 0xFF6A {
            self.ocps | 0x40
        } else if addr == 0xFF6B {
            self.obj_cram[(self.ocps & 0x3F) as int]
        } else if addr == 0xFF6C {
            0xFE | (self.opri & 1)
        } else {
            0xFF
        }
    }

    /// Palette index after a data write: the low six bits advance (mod 64) when bit 7
    /// (auto-increment) is set.
    pub open spec fn next_index(ps: u8) -> u8 {
        if ps & 0x80 != 0 { (ps & 0x80) | (((ps + 1) % 256) as u8 & 0x3F) } else { ps }
    }

    pub open spec fn write_reg(self, addr: u16, val: u8) -> PpuView {
        if addr == 0xFF40 {
            let was_on = self.lcdc & 0x80 != 0;
            let now_on = val & 0x80 != 0;
            if was_on && !now_on {
                PpuView { lcdc: val, mode: Mode::HBlank, ly: 0, line_dot: 0, stat_line: false, window_line_counter: 0, ..self }
            } else if !was_on && now_on {
                PpuView { lcdc: val, mode: Mode::OamScan, ly: 0, line_dot: 0, window_line_counter: 0, ..self }
            } else {
                PpuView { lcdc: val, ..self }
            }
        } else if addr == 0xFF41 {
            PpuView { stat: (self.stat & 0x07) | (val & 0x78), ..self }
        } else if addr == 0xFF42 {
            PpuView { scy: val, ..self }
        } else if addr == 0xFF43 {
            PpuView { scx: val, ..self }
        } else if addr == 0xFF45 {
            PpuView { lyc: val, ..self }
        } else if addr == 0xFF47 {
            PpuView { bgp: val, ..self }
        } else if addr == 0xFF48 {
            PpuView { obp0: val, ..self }
        } else if addr == 0xFF49 {
            PpuView { obp1: val, ..self }
        } else if addr == 0xFF4A {
            PpuView { wy: val, ..self }
        } else if addr == 0xFF4B {
            PpuView { wx: val, ..self }
        } else if !self.cgb_mode {
            self
        } else if addr == 0xFF4F {
            PpuView { vbk: val & 1, ..self }
        } else if addr == 0xFF68 {
            PpuView { bcps: val & 0xBF, ..self }
        } else if addr == 0xFF69 {
            PpuView {
                bg_cram: self.bg_cram.update((self.bcps & 0x3F) as int, val),
                bcps: Self::next_index(self.bcps),
                ..self
            }
        } else if addr == 0xFF6A {
            PpuView { ocps: val & 0xBF, ..self }
        } else if addr == 0xFF6B {
            PpuView {
                obj_cram: self.obj_cram.update((self.ocps & 0x3F) as int, val),
                ocps: Self::next_index(self.ocps),
                ..self
            }
        } else if addr == 0xFF6C {
            PpuView { opri: val & 1, ..self }
        } else {
            self
        }
    }

    /// Level of the STAT interrupt line: some enabled source is active.
    pub open spec fn stat_condition(self) -> bool {
        ||| (self.stat & 0x40 != 0 && self.ly == self.lyc)
        ||| (self.stat & 0x08 != 0 && self.mode == Mode::HBlank)
        ||| (self.stat & 0x10 != 0 && self.mode == Mode::VBlank)
        ||| (self.stat & 0x20 != 0 && self.mode == Mode::OamScan)
    }

    /// Mode and line bookkeeping of one dot (before the STAT line update), and whether
    /// VBlank was entered.
    pub open spec fn advance(self) -> (PpuView, bool) {
        let d = (self.line_dot + 1) as u32;
        let p = PpuView { line_dot: d, ..self };
        if self.mode == Mode::OamScan && d == MODE2_DOTS {
            (PpuView { mode: Mode::Drawing, ..p }, false)
        } else if self.mode == Mode::Drawing && d == MODE2_DOTS + MODE3_DOTS {
            (PpuView { mode: Mode::HBlank, hblank_edge: true, ..p.render_line() }, false)
        } else if self.mode == Mode::HBlank && d == DOTS_PER_LINE {
            let ly = (self.ly + 1) as u8;
            if ly == 144 {
                (PpuView { line_dot: 0, ly: ly, mode: Mode::VBlank, frame_ready: true, ..p }, true)
            } else {
                (PpuView { line_dot: 0, ly: ly, mode: Mode::OamScan, ..p }, false)
            }
        } else if self.mode == Mode::VBlank && d == DOTS_PER_LINE {
            let ly = (self.ly + 1) as u8;
            if ly >= LINES_PER_FRAME {
                (PpuView { line_dot: 0, ly: 0, mode: Mode::OamScan, window_line_counter: 0, ..p }, false)
            } else {
                (PpuView { line_dot: 0, ly: ly, ..p }, false)
            }
        } else {
            (p, false)
        }
    }

    /// One dot: the PPU after it and the interrupt bits it requested (VBlank on entering
    /// line 144, STAT on a rising edge of the STAT line).
    pub open spec fn dot(self) -> (PpuView, u8) {
        let (p, vblank) = self.advance();
        let line = p.stat_condition();
        let stat_irq = line && !p.stat_line;
        (PpuView { stat_line: line, ..p }, (if vblank { 0x01u8 } else { 0 }) | (if stat_irq { 0x02u8 } else { 0 }))
    }

    /// `n` dots with the LCD on: the PPU after them and the union of requested bits.
    pub open spec fn run(self, n: nat) -> (PpuView, u8)
        decreases n,
    {
        if n == 0 {
            (self, 0)
        } else {
            let (p, i) = self.run((n - 1) as nat);
            let (p2, i2) = p.dot();
            (p2, i | i2)
        }
    }

    /// Dots never change LCDC.
    pub proof fn lemma_run_keeps_lcdc(self, n: nat)
        ensures
            self.run(n).0.lcdc == self.lcdc,
        decreases n,
    {
        if n > 0 {
            self.lemma_run_keeps_lcdc((n - 1) as nat);
        }
    }

    /// `t` T-cycles: nothing happens while the LCD is off (LCDC bit 7 clear).
    pub open spec fn tick(self, t: u32) -> (PpuView, u8) {
        if self.lcdc & 0x80 == 0 { (self, 0) } else { self.run(t as nat) }
    }

    /// Power-on state (Pan Docs, Power Up Sequence): LCDC `0x91`, BGP `0xFC`,
    /// OBP0/OBP1 `0xFF`, colour RAM all `0xFF`, everything else zero, mode 2.
    pub open spec fn power_on(cgb_mode: bool) -> PpuView {
        PpuView {
            cgb_mode,
            vram: Seq::new(0x4000, |i: int| 0u8),
            vbk: 0,
            oam: Seq::new(0xA0, |i: int| 0u8),
            frame: Seq::new(23040, |i: int| 0u16),
            lcdc: 0x91,
            stat: 0,
            scy: 0,
            scx: 0,
            ly: 0,
            lyc: 0,
            bgp: 0xFC,
            obp0: 0xFF,
            obp1: 0xFF,
            wy: 0,
            wx: 0,
            bg_cram: Seq::new(64, |i: int| 0xFFu8),
            obj_cram: Seq::new(64, |i: int| 0xFFu8),
            bcps: 0,
            ocps: 0,
            opri: 0,
            mode: Mode::OamScan,
            line_dot: 0,
            window_line_counter: 0,
            stat_line: false,
            frame_ready: false,
            hblank_edge: false,
        }
    }
}

impl Ppu {
    pub fn new() -> (r: Ppu)
        ensures r@.wf(), r@ == PpuView::power_on(false),
    {
        Self::with_mode(false)
    }

    pub fn with_mode(cgb_mode: bool) -> (r: Ppu)
        ensures r@.wf(), r@ == PpuView::power_on(cgb_mode),
    {
        let r = Ppu {
            cgb_mode,
            vram: [0u8; 0x4000],
            vbk: 0,
            oam: [0u8; 0xA0],
            frame: [0u16; 23040],
            lcdc: 0x91,
            stat: 0x00,
            scy: 0,
            scx: 0,
            ly: 0,
            lyc: 0,
            bgp: 0xFC,
            obp0: 0xFF,
            obp1: 0xFF,
            wy: 0,
            wx: 0,
            bg_cram: [0xFFu8; 64],
            obj_cram: [0xFFu8; 64],
            bcps: 0,
            ocps: 0,
            opri: 0,
            mode: Mode::OamScan,
            line_dot: 0,
            window_line_counter: 0,
            stat_line: false,
            frame_ready: false,
            hblank_edge: false,
        };
        assert(r.vram@ =~= Seq::new(0x4000, |i: int| 0u8));
        assert(r.oam@ =~= Seq::new(0xA0, |i: int| 0u8));
        assert(r.frame@ =~= Seq::new(23040, |i: int| 0u16));
        assert(r.bg_cram@ =~= Seq::new(64, |i: int| 0xFFu8));
        assert(r.obj_cram@ =~= Seq::new(64, |i: int| 0xFFu8));
        r
    }

    pub fn frame_buffer(&self) -> (r: &FrameBuffer)
        ensures r@ == self@.frame,
    {
        &self.frame
    }

    pub fn cgb_mode(&self) -> (r: bool)
        ensures r == self.cgb_mode,
    {
        self.cgb_mode
    }

    /// `true` once after a frame completes; reading clears it.
    pub fn take_frame_ready(&mut self) -> (r: bool)
        ensures
            r == old(self)@.frame_ready,
            final(self)@ == (PpuView { frame_ready: false, ..old(self)@ }),
    {
        let v = self.frame_ready;
        self.frame_ready = false;
        v
    }

    /// `true` once after HBlank starts on a visible line; reading clears it.
    pub fn take_hblank_edge(&mut self) -> (r: bool)
        ensures
            r == old(self)@.hblank_edge,
            final(self)@ == (PpuView { hblank_edge: false, ..old(self)@ }),
    {
        let v = self.hblank_edge;
        self.hblank_edge = false;
        v
    }

    /// Advances the PPU by `t_cycles` dots, requesting VBlank and STAT interrupts.
    pub fn tick(&mut self, t_cycles: u32, ints: &mut Interrupts)
        requires old(self)@.wf(),
        ensures
            final(self)@.wf(),
            final(self)@ == old(self)@.tick(t_cycles).0,
            final(ints).ie == old(ints).ie,
            final(ints).iflag.bits == old(ints).iflag.bits | old(self)@.tick(t_cycles).1,
    {
        if (self.lcdc & 0x80) == 0 {
            let ghost b = ints.iflag.bits;
            assert(b | 0 == b) by (bit_vector);
            return;
        }
        let ghost p0 = self@;
        let ghost if0 = ints.iflag.bits;
        assert(if0 | 0 == if0) by (bit_vector);
        let mut i: u32 = 0;
        while i < t_cycles
            invariant
                i <= t_cycles,
                self@.wf(),
                self@ == p0.run(i as nat).0,
                ints.ie == old(ints).ie,
                ints.iflag.bits == if0 | p0.run(i as nat).1,
            decreases t_cycles - i,
        {
            let ghost before = p0.run(i as nat).1;
            let bits = self.tick_one_dot();
            ints.request(IntFlags { bits });
            proof {
                let b2 = bits;
                assert((if0 | before) | b2 == if0 | (before | b2)) by (bit_vector);
            }
            i = i + 1;
        }
    }

    /// One dot; returns the interrupt bits requested.
    fn tick_one_dot(&mut self) -> (bits: u8)
        requires old(self)@.wf(),
        ensures (final(self)@, bits) == old(self)@.dot(), final(self)@.wf(),
    {
        let mut vblank = false;
        self.line_dot = self.line_dot + 1;
        if self.mode == Mode::OamScan && self.line_dot == MODE2_DOTS {
            self.mode = Mode::Drawing;
        } else if self.mode == Mode::Drawing && self.line_dot == MODE2_DOTS + MODE3_DOTS {
            render::render_scanline(self);
            self.mode = Mode::HBlank;
            self.hblank_edge = true;
        } else if self.mode == Mode::HBlank && self.line_dot == DOTS_PER_LINE {
            self.line_dot = 0;
            self.ly = self.ly + 1;
            if self.ly == 144 {
                self.mode = Mode::VBlank;
                self.frame_ready = true;
                vblank = true;
            } else {
                self.mode = Mode::OamScan;
            }
        } else if self.mode == Mode::VBlank && self.line_dot == DOTS_PER_LINE {
            self.line_dot = 0;
            self.ly = self.ly + 1;
            if self.ly >= LINES_PER_FRAME {
                self.ly = 0;
                self.mode = Mode::OamScan;
                self.window_line_counter = 0;
            }
        }
        let stat_irq = self.update_stat_line();
        (if vblank { 0x01u8 } else { 0 }) | (if stat_irq { 0x02u8 } else { 0 })
    }

    /// Updates the STAT line level; returns `true` on a rising edge.
    fn update_stat_line(&mut self) -> (rise: bool)
        ensures
            final(self)@ == (PpuView { stat_line: old(self)@.stat_condition(), ..old(self)@ }),
            rise == (old(self)@.stat_condition() && !old(self)@.stat_line),
    {
        let s = Stat(self.stat);
        let coincidence = self.ly == self.lyc;
        let new_line = (s.lyc_irq() && coincidence)
            || (s.mode0_irq() && self.mode == Mode::HBlank)
            || (s.mode1_irq() && self.mode == Mode::VBlank)
            || (s.mode2_irq() && self.mode == Mode::OamScan);
        let rise = new_line && !self.stat_line;
        self.stat_line = new_line;
        rise
    }

    pub(crate) fn vram_bank_base(&self) -> (r: usize)
        ensures r == self@.vram_bank_base(),
    {
        if self.cgb_mode && (self.vbk & 1) != 0 { 0x2000 } else { 0 }
    }

    pub fn read_vram(&self, addr: u16) -> (r: u8)
        requires 0x8000 <= addr < 0xA000,
        ensures r == self@.read_vram(addr),
    {
        self.vram[self.vram_bank_base() + (addr - 0x8000) as usize]
    }

    pub fn write_vram(&mut self, addr: u16, val: u8)
        requires 0x8000 <= addr < 0xA000,
        ensures final(self)@ == old(self)@.write_vram(addr, val),
    {
        let i = self.vram_bank_base() + (addr - 0x8000) as usize;
        self.vram[i] = val;
    }

    /// Writes position `idx` of the whole 16 KiB of VRAM (bank 0, then bank 1).
    pub fn write_vram_index(&mut self, idx: usize, val: u8)
        requires old(self)@.arrays_ok(), idx < 0x4000,
        ensures final(self)@ == old(self)@.write_vram_index(idx as int, val),
    {
        self.vram[idx] = val;
    }

    /// VRAM at an explicit bank, whatever the CPU-visible bank select.
    pub fn read_vram_bank(&self, bank: u8, addr: u16) -> (r: u8)
        requires 0x8000 <= addr < 0xA000,
        ensures r == self@.vram_at(bank, addr as int),
    {
        let base: usize = if (bank & 1) != 0 { 0x2000 } else { 0 };
        self.vram[base + (addr - 0x8000) as usize]
    }

    pub fn read_oam(&self, addr: u16) -> (r: u8)
        requires 0xFE00 <= addr < 0xFEA0,
        ensures r == self@.read_oam(addr),
    {
        self.oam[(addr - 0xFE00) as usize]
    }

    pub fn write_oam(&mut self, addr: u16, val: u8)
        requires 0xFE00 <= addr < 0xFEA0,
        ensures final(self)@ == old(self)@.write_oam(addr, val),
    {
        self.oam[(addr - 0xFE00) as usize] = val;
    }

    /// OAM write by the bus during OAM DMA.
    pub fn oam_dma_write(&mut self, offset: u8, val: u8)
        requires offset < 0xA0,
        ensures final(self)@ == old(self)@.oam_dma_write(offset, val),
    {
        self.oam[offset as usize] = val;
    }

    pub fn read_reg(&self, addr: u16) -> (r: u8)
        ensures r == self@.read_reg(addr),
    {
        if addr == 0xFF40 {
            self.lcdc
        } else if addr == 0xFF41 {
            let coincidence: u8 = if self.ly == self.lyc { 0x04 } else { 0 };
            0x80 | (self.stat & 0x78) | coincidence | mode_bits(self.mode)
        } else if addr == 0xFF42 {
            self.scy
        } else if addr == 0xFF43 {
            self.scx
        } else if addr == 0xFF44 {
            self.ly
        } else if addr == 0xFF45 {
            self.lyc
        } else if addr == 0xFF47 {
            self.bgp
        } else if addr == 0xFF48 {
            self.obp0
        } else if addr == 0xFF49 {
            self.obp1
        } else if addr == 0xFF4A {
            self.wy
        } else if addr == 0xFF4B {
            self.wx
        } else if !self.cgb_mode {
            0xFF
        } else if addr == 0xFF4F {
            0xFE | (self.vbk & 1)
        } else if addr == 0xFF68 {
            self.bcps | 0x40
        } else if addr == 0xFF69 {
            self.bg_cram[low6(self.bcps) as usize]
        } else if addr == 0xFF6A {
            self.ocps | 0x40
        } else if addr == 0xFF6B {
            self.obj_cram[low6(self.ocps) as usize]
        } else if addr == 0xFF6C {
            0xFE | (self.opri & 1)
        } else {
            0xFF
        }
    }

    fn next_index(ps: u8) -> (r: u8)
        ensures r == PpuView::next_index(ps),
    {
        if ps & 0x80 != 0 {
            (ps & 0x80) | ((((ps as u16 + 1) % 256) as u8) & 0x3F)
        } else {
            ps
        }
    }

    pub fn write_reg(&mut self, addr: u16, val: u8)
        requires old(self)@.wf(),
        ensures final(self)@ == old(self)@.write_reg(addr, val), final(self)@.wf(),
    {
        if addr == 0xFF40 {
            let was_on = self.lcdc & 0x80 != 0;
            self.lcdc = val;
            let now_on = self.lcdc & 0x80 != 0;
            if was_on && !now_on {
                self.mode = Mode::HBlank;
                self.ly = 0;
                self.line_dot = 0;
                self.stat_line = false;
                self.window_line_counter = 0;
            } else if !was_on && now_on {
                self.mode = Mode::OamScan;
                self.ly = 0;
                self.line_dot = 0;
                self.window_line_counter = 0;
            }
        } else if addr == 0xFF41 {
            self.stat = (self.stat & 0x07) | (val & 0x78);
        } else if addr == 0xFF42 {
            self.scy = val;
        } else if addr == 0xFF43 {
            self.scx = val;
        } else if addr == 0xFF45 {
            self.lyc = val;
        } else if addr == 0xFF47 {
            self.bgp = val;
        } else if addr == 0xFF48 {
            self.obp0 = val;
        } else if addr == 0xFF49 {
            self.obp1 = val;
        } else if addr == 0xFF4A {
            self.wy = val;
        } else if addr == 0xFF4B {
            self.wx = val;
        } else if !self.cgb_mode {
        } else if addr == 0xFF4F {
            self.vbk = val & 1;
        } else if addr == 0xFF68 {
            self.bcps = val & 0xBF;
        } else if addr == 0xFF69 {
            let idx = low6(self.bcps) as usize;
            self.bg_cram[idx] = val;
            self.bcps = Self::next_index(self.bcps);
        } else if addr == 0xFF6A {
            self.ocps = val & 0xBF;
        } else if addr == 0xFF6B {
            let idx = low6(self.ocps) as usize;
            self.obj_cram[idx] = val;
            self.ocps = Self::next_index(self.ocps);
        } else if addr == 0xFF6C {
            self.opri = val & 1;
        }
    }
}

/// Position of the PPU within a frame, in dots: the line times 456 plus the dot.
pub open spec fn frame_pos(p: PpuView) -> int {
    p.ly as int * 456 + p.line_dot as int
}

/// Every dot moves the PPU one position on within the frame, wrapping to line 0
/// after the last dot of line 153, and keeps it well formed.
pub proof fn lemma_dot_advances(p: PpuView)
    requires
        p.wf(),
    ensures
        p.dot().0.wf(),
        frame_pos(p.dot().0) == (frame_pos(p) + 1) % 70224,
{
}

/// With the LCD on the PPU runs through frames of 154 lines of 456 dots
/// (`T_CYCLES_PER_FRAME`): after `n` dots it stands `n` positions on, modulo a frame,
/// so every 70224 dots it is back at the same line and dot.
pub proof fn lemma_frame_period(p: PpuView, n: nat)
    requires
        p.wf(),
    ensures
        p.run(n).0.wf(),
        frame_pos(p.run(n).0) == (frame_pos(p) + n) % 70224,
    decreases n,
{
    if n > 0 {
        lemma_frame_period(p, (n - 1) as nat);
        let q = p.run((n - 1) as nat).0;
        lemma_dot_advances(q);
        let x = frame_pos(p) + n - 1;
        assert(((x % 70224) + 1) % 70224 == (x + 1) % 70224) by (nonlinear_arith)
            requires x >= 0;
    }
}

} // verus!
