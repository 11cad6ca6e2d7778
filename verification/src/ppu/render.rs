//! Per-scanline renderer.
//!
//! Each pixel of the line is stated on its own: the background or window pixel, and
//! over it the colour of the highest-priority sprite that covers the pixel with a
//! non-transparent colour and is not hidden behind the background.

use vstd::prelude::*;
use super::{Ppu, PpuView, spec_dmg_shade, dmg_shade, low3, FRAME_PIXELS};

verus! {

/// 16-byte tile address of a BG/window tile id: unsigned from `0x8000` when LCDC bit 4
/// is set, else signed from `0x9000`.
pub open spec fn spec_bg_tile_addr(lcdc: u8, tile_id: u8) -> int {
    if lcdc & 0x10 != 0 {
        0x8000 + tile_id as int * 16
    } else {
        0x9000 + (if tile_id < 128 { tile_id as int } else { tile_id as int - 256 }) * 16
    }
}

proof fn lemma_flip_top_bit(t: u8)
    by (bit_vector)
    ensures
        (t ^ 0x80) == (if t < 128 { t + 128 } else { t - 128 }),
{
}

/// Tile data addressing: with LCDC bit 4 set, tile `t` is the 16 bytes at
/// `0x8000 + 16 t`. With it clear, tile ids count signed from `0x9000`: tile `t`
/// sits where tile `t ^ 0x80` sits in the unsigned mode, 0x800 bytes higher, so tile
/// 0 is at `0x9000`, tile 0x7F at `0x97F0`, and the two modes share tiles
/// 0x80-0xFF at `0x8800-0x8FFF`.
pub proof fn lemma_bg_tile_addr(l_signed: u8, l_unsigned: u8, t: u8)
    requires
        l_signed & 0x10 == 0,
        l_unsigned & 0x10 != 0,
    ensures
        spec_bg_tile_addr(l_unsigned, t) == 0x8000 + 16 * t,
        spec_bg_tile_addr(l_signed, t) == spec_bg_tile_addr(l_unsigned, t ^ 0x80) + 0x800,
        t >= 0x80 ==> spec_bg_tile_addr(l_signed, t) == spec_bg_tile_addr(l_unsigned, t),
        t < 0x80 ==> spec_bg_tile_addr(l_signed, t) == spec_bg_tile_addr(l_unsigned, t) + 0x1000,
        0x8800 <= spec_bg_tile_addr(l_signed, t) <= 0x97F0,
{
    lemma_flip_top_bit(t);
}

/// Shade (0..3) that palette register `palette` gives colour index `color` (0..3).
pub open spec fn spec_apply_palette(palette: u8, color: u8) -> u8 {
    (palette >> (color * 2) as u8) & 0x03
}

/// Colour index of bit `bit` of a tile row given its two bit planes.
pub open spec fn plane_pixel(lo: u8, hi: u8, bit: u8) -> u8 {
    (((hi >> bit) & 1) << 1u8) | ((lo >> bit) & 1)
}

/// RGB555 colour `color` of palette `pal` in a colour RAM.
pub open spec fn cram_color(cram: Seq<u8>, pal: int, color: int) -> u16 {
    ((cram[pal * 8 + color * 2 + 1] as int * 256 + cram[pal * 8 + color * 2] as int) % 0x8000) as u16
}

impl PpuView {
    pub open spec fn tile_map_entry(self, bank: u8, tx: u8, ty: u8, map_hi: bool) -> u8 {
        let base: int = if map_hi { 0x9C00 } else { 0x9800 };
        self.vram_at(bank, base + (ty / 8) as int * 32 + (tx / 8) as int)
    }

    /// DMG background/window colour index at tile-map pixel (`tx`, `ty`): bank 0, no attributes.
    pub open spec fn fetch_dmg(self, tx: u8, ty: u8, map_hi: bool) -> u8 {
        let addr = spec_bg_tile_addr(self.lcdc, self.tile_map_entry(0, tx, ty, map_hi)) + (ty % 8) as int * 2;
        plane_pixel(self.vram_at(0, addr), self.vram_at(0, addr + 1), (7 - tx % 8) as u8)
    }

    /// CGB attribute byte (VRAM bank 1) of the tile at tile-map pixel (`tx`, `ty`).
    pub open spec fn fetch_attr(self, tx: u8, ty: u8, map_hi: bool) -> u8 {
        self.tile_map_entry(1, tx, ty, map_hi)
    }

    /// CGB background/window colour index: the attribute selects the tile bank and flips.
    pub open spec fn fetch_cgb(self, tx: u8, ty: u8, map_hi: bool) -> u8 {
        let attr = self.fetch_attr(tx, ty, map_hi);
        let line: int = if attr & 0x40 != 0 { 7 - (ty % 8) } else { (ty % 8) as int };
        let addr = spec_bg_tile_addr(self.lcdc, self.tile_map_entry(0, tx, ty, map_hi)) + line * 2;
        let bank = (attr >> 3u8) & 1;
        let bit: u8 = if attr & 0x20 != 0 { tx % 8 } else { (7 - tx % 8) as u8 };
        plane_pixel(self.vram_at(bank, addr), self.vram_at(bank, addr + 1), bit)
    }

    /// The window shows on this line (in DMG mode only while the BG is enabled too).
    pub open spec fn window_this_line(self) -> bool {
        let on = if self.cgb_mode { self.lcdc & 0x20 != 0 } else { self.lcdc & 0x20 != 0 && self.lcdc & 0x01 != 0 };
        on && self.ly >= self.wy && self.wx < 167
    }

    pub open spec fn use_window(self, x: u8) -> bool {
        self.window_this_line() && x + 7 >= self.wx
    }

    pub open spec fn win_x(self, x: u8) -> u8 {
        (x + 7 - self.wx) as u8
    }

    pub open spec fn scroll_x(self, x: u8) -> u8 {
        ((self.scx + x) % 256) as u8
    }

    pub open spec fn scroll_y(self) -> u8 {
        ((self.scy + self.ly) % 256) as u8
    }

    /// Background/window colour index (before the palette) at screen column `x`.
    pub open spec fn bg_index(self, x: u8) -> u8 {
        if self.cgb_mode {
            if self.use_window(x) {
                self.fetch_cgb(self.win_x(x), self.window_line_counter, self.lcdc & 0x40 != 0)
            } else {
                self.fetch_cgb(self.scroll_x(x), self.scroll_y(), self.lcdc & 0x08 != 0)
            }
        } else if self.use_window(x) {
            self.fetch_dmg(self.win_x(x), self.window_line_counter, self.lcdc & 0x40 != 0)
        } else if self.lcdc & 0x01 != 0 {
            self.fetch_dmg(self.scroll_x(x), self.scroll_y(), self.lcdc & 0x08 != 0)
        } else {
            0
        }
    }

    /// CGB tile attribute of the background/window pixel at column `x`.
    pub open spec fn bg_attr(self, x: u8) -> u8 {
        if self.use_window(x) {
            self.fetch_attr(self.win_x(x), self.window_line_counter, self.lcdc & 0x40 != 0)
        } else {
            self.fetch_attr(self.scroll_x(x), self.scroll_y(), self.lcdc & 0x08 != 0)
        }
    }

    /// Background/window colour at column `x`.
    pub open spec fn bg_value(self, x: u8) -> u16 {
        if self.cgb_mode {
            cram_color(self.bg_cram, (self.bg_attr(x) & 0x07) as int, self.bg_index(x) as int)
        } else {
            spec_dmg_shade(spec_apply_palette(self.bgp, self.bg_index(x)))
        }
    }

    pub open spec fn sprite_height(self) -> int {
        if self.lcdc & 0x04 != 0 { 16 } else { 8 }
    }

    /// OAM entry `i` covers the current line.
    pub open spec fn on_line(self, i: int) -> bool {
        let top = self.oam[4 * i] as int - 16;
        top <= self.ly < top + self.sprite_height()
    }

    /// The first ten OAM entries among `0..n` that cover the current line, in OAM order.
    pub open spec fn line_sprites(self, n: int) -> Seq<u8>
        decreases n,
    {
        if n <= 0 {
            Seq::empty()
        } else {
            let s = self.line_sprites(n - 1);
            if self.on_line(n - 1) && s.len() < 10 { s.push((n - 1) as u8) } else { s }
        }
    }

    /// Sprite `i` spans column `x`.
    pub open spec fn spans(self, i: int, x: u8) -> bool {
        let left = self.oam[4 * i + 1] as int - 8;
        left <= x < left + 8
    }

    /// Colour index of sprite `i` at column `x` (0 is transparent).
    pub open spec fn sprite_index(self, i: int, x: u8) -> u8 {
        let attr = self.oam[4 * i + 3];
        let h = self.sprite_height();
        let row0 = self.ly - (self.oam[4 * i] as int - 16);
        let row1: int = if attr & 0x40 != 0 { h - 1 - row0 } else { row0 };
        let tile0 = self.oam[4 * i + 2];
        let tile: u8 = if h == 16 { if row1 >= 8 { (tile0 & 0xFE) | 1 } else { tile0 & 0xFE } } else { tile0 };
        let row: int = if h == 16 && row1 >= 8 { row1 - 8 } else { row1 };
        let px = x - (self.oam[4 * i + 1] as int - 8);
        let bit: u8 = if attr & 0x20 != 0 { px as u8 } else { (7 - px) as u8 };
        let bank: u8 = if self.cgb_mode { (attr >> 3u8) & 1 } else { 0 };
        let addr = 0x8000 + tile as int * 16 + row * 2;
        plane_pixel(self.vram_at(bank, addr), self.vram_at(bank, addr + 1), bit)
    }

    /// Sprite `i` shows at column `x`: it spans it, its colour is not transparent and the
    /// background does not cover it. DMG: OAM bit 7 hides the sprite behind background
    /// colours 1..3. CGB: with LCDC bit 0 set, background colours 1..3 cover the sprite
    /// when the BG attribute or the OAM entry has bit 7 set.
    pub open spec fn paints(self, i: int, x: u8) -> bool {
        let attr = self.oam[4 * i + 3];
        &&& self.spans(i, x)
        &&& self.sprite_index(i, x) != 0
        &&& if self.cgb_mode {
            !(self.lcdc & 0x01 != 0 && self.bg_index(x) != 0 && (self.bg_attr(x) & 0x80 != 0 || attr & 0x80 != 0))
        } else {
            !(attr & 0x80 != 0 && self.bg_index(x) != 0)
        }
    }

    /// Sprite `i` has priority over sprite `j` (with `j` earlier in OAM): by X coordinate
    /// on DMG and with CGB OPRI bit 0 set, by OAM index otherwise.
    pub open spec fn beats(self, i: int, j: int) -> bool {
        if !self.cgb_mode || self.opri & 1 != 0 {
            self.oam[4 * i + 1] < self.oam[4 * j + 1]
        } else {
            false
        }
    }

    /// The highest-priority sprite among the first `k` of `vis` that shows at column `x`.
    pub open spec fn winner(self, vis: Seq<u8>, x: u8, k: int) -> Option<u8>
        decreases k,
    {
        if k <= 0 {
            None
        } else {
            let w = self.winner(vis, x, k - 1);
            let i = vis[k - 1];
            if self.paints(i as int, x) && (w is None || self.beats(i as int, w.unwrap() as int)) {
                Some(i)
            } else {
                w
            }
        }
    }

    pub open spec fn sprite_value(self, i: int, x: u8) -> u16 {
        let attr = self.oam[4 * i + 3];
        if self.cgb_mode {
            cram_color(self.obj_cram, (attr & 0x07) as int, self.sprite_index(i, x) as int)
        } else {
            spec_dmg_shade(spec_apply_palette(if attr & 0x10 != 0 { self.obp1 } else { self.obp0 }, self.sprite_index(i, x)))
        }
    }

    /// Colour of column `x` of the current line.
    pub open spec fn pixel(self, x: u8) -> u16 {
        if self.lcdc & 0x02 != 0 {
            match self.winner(self.line_sprites(40), x, self.line_sprites(40).len() as int) {
                Some(i) => self.sprite_value(i as int, x),
                None => self.bg_value(x),
            }
        } else {
            self.bg_value(x)
        }
    }

    /// The PPU after drawing line `ly` (when visible): the row holds `pixel(x)` for every
    /// column and the window line counter advances when the window showed.
    pub open spec fn render_line(self) -> PpuView {
        if self.ly >= 144 {
            self
        } else {
            let row = self.ly as int * 160;
            PpuView {
                frame: Seq::new(self.frame.len(), |i: int| if row <= i < row + 160 { self.pixel((i - row) as u8) } else { self.frame[i] }),
                window_line_counter: if self.window_this_line() { ((self.window_line_counter + 1) % 256) as u8 } else { self.window_line_counter },
                ..self
            }
        }
    }
}

fn bg_tile_addr(lcdc: u8, tile_id: u8) -> (r: u16)
    ensures r == spec_bg_tile_addr(lcdc, tile_id),
{
    if lcdc & 0x10 != 0 {
        0x8000 + tile_id as u16 * 16
    } else if tile_id < 128 {
        0x9000 + tile_id as u16 * 16
    } else {
        0x9000 - (256 - tile_id as u16) * 16
    }
}

fn apply_palette(palette: u8, color: u8) -> (r: u8)
    requires color < 4,
    ensures r == spec_apply_palette(palette, color),
{
    (palette >> (color * 2)) & 0x03
}

fn bits_pixel(lo: u8, hi: u8, bit: u8) -> (r: u8)
    requires bit < 8,
    ensures r == plane_pixel(lo, hi, bit), r < 4,
{
    assert(((((hi >> bit) & 1) << 1u8) | ((lo >> bit) & 1)) < 4) by (bit_vector);
    (((hi >> bit) & 1) << 1) | ((lo >> bit) & 1)
}

fn cram_lookup(cram: &[u8; 64], pal: u8, color: u8) -> (r: u16)
    requires pal < 8, color < 4,
    ensures r == cram_color(cram@, pal as int, color as int),
{
    let off = pal as usize * 8 + color as usize * 2;
    let lo = cram[off] as u16;
    let hi = cram[off + 1] as u16;
    (hi * 256 + lo) % 0x8000
}

/// DMG background/window fetch: bank 0, no per-tile attributes.
fn fetch_bg_tile_color_dmg(ppu: &Ppu, tx: u8, ty: u8, map_hi: bool) -> (r: u8)
    requires ppu@.arrays_ok(),
    ensures r == ppu@.fetch_dmg(tx, ty, map_hi), r < 4,
{
    let map_base: u16 = if map_hi { 0x9C00 } else { 0x9800 };
    let tile_id = ppu.read_vram_bank(0, map_base + (ty / 8) as u16 * 32 + (tx / 8) as u16);
    let tile_addr = bg_tile_addr(ppu.lcdc, tile_id);
    let line = (ty % 8) as u16;
    let lo = ppu.read_vram_bank(0, tile_addr + line * 2);
    let hi = ppu.read_vram_bank(0, tile_addr + line * 2 + 1);
    bits_pixel(lo, hi, 7 - (tx % 8))
}

/// CGB background/window fetch; returns the colour index and the attribute byte.
fn fetch_bg_tile_color_cgb(ppu: &Ppu, tx: u8, ty: u8, map_hi: bool) -> (r: (u8, u8))
    requires ppu@.arrays_ok(),
    ensures r.0 == ppu@.fetch_cgb(tx, ty, map_hi), r.1 == ppu@.fetch_attr(tx, ty, map_hi), r.0 < 4,
{
    let map_base: u16 = if map_hi { 0x9C00 } else { 0x9800 };
    let map_off = (ty / 8) as u16 * 32 + (tx / 8) as u16;
    let tile_id = ppu.read_vram_bank(0, map_base + map_off);
    let attr = ppu.read_vram_bank(1, map_base + map_off);
    let tile_bank = (attr >> 3) & 1;
    let tile_addr = bg_tile_addr(ppu.lcdc, tile_id);
    let line: u16 = if attr & 0x40 != 0 { 7 - (ty % 8) as u16 } else { (ty % 8) as u16 };
    let lo = ppu.read_vram_bank(tile_bank, tile_addr + line * 2);
    let hi = ppu.read_vram_bank(tile_bank, tile_addr + line * 2 + 1);
    let bit: u8 = if attr & 0x20 != 0 { tx % 8 } else { 7 - (tx % 8) };
    (bits_pixel(lo, hi, bit), attr)
}

fn window_this_line(ppu: &Ppu) -> (r: bool)
    ensures r == ppu@.window_this_line(),
{
    let on = if ppu.cgb_mode { ppu.lcdc & 0x20 != 0 } else { ppu.lcdc & 0x20 != 0 && ppu.lcdc & 0x01 != 0 };
    on && ppu.ly >= ppu.wy && ppu.wx < 167
}

/// Background/window colour indices, CGB attributes and colours of the current line.
fn render_bg_and_window(ppu: &Ppu) -> (r: (Vec<u8>, Vec<u8>, Vec<u16>))
    requires ppu@.arrays_ok(),
    ensures
        r.0@.len() == 160 && r.1@.len() == 160 && r.2@.len() == 160,
        forall|x: int| 0 <= x < 160 ==> r.0@[x] == ppu@.bg_index(x as u8),
        forall|x: int| 0 <= x < 160 ==> (ppu@.cgb_mode ==> r.1@[x] == ppu@.bg_attr(x as u8)),
        forall|x: int| 0 <= x < 160 ==> r.2@[x] == ppu@.bg_value(x as u8),
{
    if ppu.cgb_mode {
        render_bg_and_window_cgb(ppu)
    } else {
        render_bg_and_window_dmg(ppu)
    }
}

fn render_bg_and_window_dmg(ppu: &Ppu) -> (r: (Vec<u8>, Vec<u8>, Vec<u16>))
    requires ppu@.arrays_ok(), !ppu@.cgb_mode,
    ensures
        r.0@.len() == 160 && r.1@.len() == 160 && r.2@.len() == 160,
        forall|x: int| 0 <= x < 160 ==> r.0@[x] == ppu@.bg_index(x as u8),
        forall|x: int| 0 <= x < 160 ==> r.2@[x] == ppu@.bg_value(x as u8),
{
    let window_visible = window_this_line(ppu);
    let bg_on = ppu.lcdc & 0x01 != 0;
    let mut idx: Vec<u8> = Vec::new();
    let mut attrs: Vec<u8> = Vec::new();
    let mut colors: Vec<u16> = Vec::new();
    let mut x: u8 = 0;
    while x < 160
        invariant
            ppu@.arrays_ok(), !ppu@.cgb_mode,
            window_visible == ppu@.window_this_line(),
            bg_on == (ppu@.lcdc & 0x01 != 0),
            x <= 160,
            idx@.len() == x && attrs@.len() == x && colors@.len() == x,
            forall|k: int| 0 <= k < x ==> idx@[k] == ppu@.bg_index(k as u8),
            forall|k: int| 0 <= k < x ==> colors@[k] == ppu@.bg_value(k as u8),
        decreases 160 - x,
    {
        let use_window = window_visible && (x + 7) >= ppu.wx;
        let c: u8 = if use_window {
            fetch_bg_tile_color_dmg(ppu, (x + 7) - ppu.wx, ppu.window_line_counter, ppu.lcdc & 0x40 != 0)
        } else if bg_on {
            let bgx = ((ppu.scx as u16 + x as u16) % 256) as u8;
            let bgy = ((ppu.scy as u16 + ppu.ly as u16) % 256) as u8;
            fetch_bg_tile_color_dmg(ppu, bgx, bgy, ppu.lcdc & 0x08 != 0)
        } else {
            0
        };
        idx.push(c);
        attrs.push(0);
        colors.push(dmg_shade(apply_palette(ppu.bgp, c)));
        x = x + 1;
    }
    (idx, attrs, colors)
}

fn render_bg_and_window_cgb(ppu: &Ppu) -> (r: (Vec<u8>, Vec<u8>, Vec<u16>))
    requires ppu@.arrays_ok(), ppu@.cgb_mode,
    ensures
        r.0@.len() == 160 && r.1@.len() == 160 && r.2@.len() == 160,
        forall|x: int| 0 <= x < 160 ==> r.0@[x] == ppu@.bg_index(x as u8),
        forall|x: int| 0 <= x < 160 ==> r.1@[x] == ppu@.bg_attr(x as u8),
        forall|x: int| 0 <= x < 160 ==> r.2@[x] == ppu@.bg_value(x as u8),
{
    let window_visible = window_this_line(ppu);
    let mut idx: Vec<u8> = Vec::new();
    let mut attrs: Vec<u8> = Vec::new();
    let mut colors: Vec<u16> = Vec::new();
    let mut x: u8 = 0;
    while x < 160
        invariant
            ppu@.arrays_ok(), ppu@.cgb_mode,
            window_visible == ppu@.window_this_line(),
            x <= 160,
            idx@.len() == x && attrs@.len() == x && colors@.len() == x,
            forall|k: int| 0 <= k < x ==> idx@[k] == ppu@.bg_index(k as u8),
            forall|k: int| 0 <= k < x ==> attrs@[k] == ppu@.bg_attr(k as u8),
            forall|k: int| 0 <= k < x ==> colors@[k] == ppu@.bg_value(k as u8),
        decreases 160 - x,
    {
        let use_window = window_visible && (x + 7) >= ppu.wx;
        let (c, attr) = if use_window {
            fetch_bg_tile_color_cgb(ppu, (x + 7) - ppu.wx, ppu.window_line_counter, ppu.lcdc & 0x40 != 0)
        } else {
            let bgx = ((ppu.scx as u16 + x as u16) % 256) as u8;
            let bgy = ((ppu.scy as u16 + ppu.ly as u16) % 256) as u8;
            fetch_bg_tile_color_cgb(ppu, bgx, bgy, ppu.lcdc & 0x08 != 0)
        };
        idx.push(c);
        attrs.push(attr);
        colors.push(cram_lookup(&ppu.bg_cram, low3(attr), c));
        x = x + 1;
    }
    (idx, attrs, colors)
}

/// OAM indices of the first ten sprites on the current line, in OAM order.
fn scan_oam(ppu: &Ppu) -> (r: Vec<u8>)
    requires ppu@.arrays_ok(),
    ensures r@ == ppu@.line_sprites(40), r@.len() <= 10,
        forall|k: int| 0 <= k < r@.len() ==> r@[k] < 40,
{
    let sprite_h: i16 = if ppu.lcdc & 0x04 != 0 { 16 } else { 8 };
    let mut vis: Vec<u8> = Vec::new();
    let mut i: u8 = 0;
    while i < 40
        invariant
            ppu@.arrays_ok(),
            sprite_h == ppu@.sprite_height(),
            i <= 40,
            vis@ == ppu@.line_sprites(i as int),
            vis@.len() <= 10,
            forall|k: int| 0 <= k < vis@.len() ==> vis@[k] < i,
        decreases 40 - i,
    {
        let y = ppu.oam[i as usize * 4];
        let top = y as i16 - 16;
        let ly_i = ppu.ly as i16;
        if ly_i >= top && ly_i < top + sprite_h && vis.len() < 10 {
            vis.push(i);
        }
        i = i + 1;
    }
    vis
}

/// Colour index of sprite `i` at column `x` (which it spans).
fn sprite_pixel(ppu: &Ppu, i: u8, x: u8) -> (r: u8)
    requires ppu@.arrays_ok(), i < 40, ppu@.on_line(i as int), ppu@.spans(i as int, x),
    ensures r == ppu@.sprite_index(i as int, x), r < 4,
{
    let base = i as usize * 4;
    let y = ppu.oam[base];
    let sx = ppu.oam[base + 1];
    let mut tile = ppu.oam[base + 2];
    let attr = ppu.oam[base + 3];
    let sprite_h: u8 = if ppu.lcdc & 0x04 != 0 { 16 } else { 8 };
    let mut row = (ppu.ly as i16 - (y as i16 - 16)) as u8;
    if attr & 0x40 != 0 {
        row = sprite_h - 1 - row;
    }
    if sprite_h == 16 {
        tile = tile & 0xFE;
        if row >= 8 {
            tile = tile | 0x01;
            row = row - 8;
        }
    }
    let px = (x as i16 - (sx as i16 - 8)) as u8;
    let bit: u8 = if attr & 0x20 != 0 { px } else { 7 - px };
    let bank: u8 = if ppu.cgb_mode { (attr >> 3) & 1 } else { 0 };
    let tile_addr = 0x8000u16 + tile as u16 * 16;
    let lo = ppu.read_vram_bank(bank, tile_addr + row as u16 * 2);
    let hi = ppu.read_vram_bank(bank, tile_addr + row as u16 * 2 + 1);
    bits_pixel(lo, hi, bit)
}

fn sprite_spans(ppu: &Ppu, i: u8, x: u8) -> (r: bool)
    requires ppu@.arrays_ok(), i < 40,
    ensures r == ppu@.spans(i as int, x),
{
    let left = ppu.oam[i as usize * 4 + 1] as i16 - 8;
    left <= x as i16 && (x as i16) < left + 8
}

/// Sprites over the background line: each column takes the colour of the
/// highest-priority sprite that shows there.
fn render_sprites(ppu: &Ppu, vis: &Vec<u8>, bg_idx: &Vec<u8>, bg_attr: &Vec<u8>, line: &mut Vec<u16>)
    requires
        ppu@.arrays_ok(),
        vis@ == ppu@.line_sprites(40),
        forall|k: int| 0 <= k < vis@.len() ==> vis@[k] < 40,
        bg_idx@.len() == 160 && bg_attr@.len() == 160 && old(line)@.len() == 160,
        forall|x: int| 0 <= x < 160 ==> bg_idx@[x] == ppu@.bg_index(x as u8),
        forall|x: int| 0 <= x < 160 ==> (ppu@.cgb_mode ==> bg_attr@[x] == ppu@.bg_attr(x as u8)),
        forall|x: int| 0 <= x < 160 ==> old(line)@[x] == ppu@.bg_value(x as u8),
    ensures
        final(line)@.len() == 160,
        forall|x: int| 0 <= x < 160 ==> final(line)@[x] == match ppu@.winner(vis@, x as u8, vis@.len() as int) {
            Some(i) => ppu@.sprite_value(i as int, x as u8),
            None => ppu@.bg_value(x as u8),
        },
{
    if ppu.cgb_mode {
        render_sprites_cgb(ppu, vis, bg_idx, bg_attr, line)
    } else {
        render_sprites_dmg(ppu, vis, bg_idx, line)
    }
}

proof fn lemma_line_sprites_on_line(p: PpuView, n: int)
    requires n <= 40,
    ensures forall|k: int| 0 <= k < p.line_sprites(n).len() ==> p.on_line(p.line_sprites(n)[k] as int),
    decreases n,
{
    if n > 0 {
        lemma_line_sprites_on_line(p, n - 1);
        let s = p.line_sprites(n - 1);
        if p.on_line(n - 1) && s.len() < 10 {
            assert(((n - 1) as u8) as int == n - 1);
            assert forall|k: int| 0 <= k < p.line_sprites(n).len() implies p.on_line(p.line_sprites(n)[k] as int) by {
                if k < s.len() {
                    assert(p.line_sprites(n)[k] == s[k]);
                }
            }
        }
    }
}

fn render_sprites_dmg(ppu: &Ppu, vis: &Vec<u8>, bg_idx: &Vec<u8>, line: &mut Vec<u16>)
    requires
        ppu@.arrays_ok(), !ppu@.cgb_mode,
        vis@ == ppu@.line_sprites(40),
        forall|k: int| 0 <= k < vis@.len() ==> vis@[k] < 40,
        bg_idx@.len() == 160 && old(line)@.len() == 160,
        forall|x: int| 0 <= x < 160 ==> bg_idx@[x] == ppu@.bg_index(x as u8),
        forall|x: int| 0 <= x < 160 ==> old(line)@[x] == ppu@.bg_value(x as u8),
    ensures
        final(line)@.len() == 160,
        forall|x: int| 0 <= x < 160 ==> final(line)@[x] == match ppu@.winner(vis@, x as u8, vis@.len() as int) {
            Some(i) => ppu@.sprite_value(i as int, x as u8),
            None => ppu@.bg_value(x as u8),
        },
{
    proof { lemma_line_sprites_on_line(ppu@, 40); }
    let mut x: u8 = 0;
    while x < 160
        invariant
            ppu@.arrays_ok(), !ppu@.cgb_mode,
            vis@ == ppu@.line_sprites(40),
            forall|k: int| 0 <= k < vis@.len() ==> vis@[k] < 40,
            forall|k: int| 0 <= k < vis@.len() ==> ppu@.on_line(vis@[k] as int),
            bg_idx@.len() == 160 && line@.len() == 160,
            forall|k: int| 0 <= k < 160 ==> bg_idx@[k] == ppu@.bg_index(k as u8),
            x <= 160,
            forall|k: int| x <= k < 160 ==> line@[k] == ppu@.bg_value(k as u8),
            forall|k: int| 0 <= k < x ==> line@[k] == match ppu@.winner(vis@, k as u8, vis@.len() as int) {
                Some(i) => ppu@.sprite_value(i as int, k as u8),
                None => ppu@.bg_value(k as u8),
            },
        decreases 160 - x,
    {
        let mut best: Option<u8> = None;
        let mut j: usize = 0;
        while j < vis.len()
            invariant
                ppu@.arrays_ok(), !ppu@.cgb_mode,
                forall|k: int| 0 <= k < vis@.len() ==> vis@[k] < 40,
                forall|k: int| 0 <= k < vis@.len() ==> ppu@.on_line(vis@[k] as int),
                bg_idx@.len() == 160,
                x < 160,
                bg_idx@[x as int] == ppu@.bg_index(x),
                j <= vis@.len(),
                best == ppu@.winner(vis@, x, j as int),
                best matches Some(b) ==> b < 40 && ppu@.on_line(b as int) && ppu@.spans(b as int, x),
            decreases vis@.len() - j,
        {
            let i = vis[j];
            let base = i as usize * 4;
            let attr = ppu.oam[base + 3];
            let mut shows = false;
            if sprite_spans(ppu, i, x) {
                let c = sprite_pixel(ppu, i, x);
                shows = c != 0 && !(attr & 0x80 != 0 && bg_idx[x as usize] != 0);
            }
            let better = match best {
                None => true,
                Some(b) => ppu.oam[base + 1] < ppu.oam[b as usize * 4 + 1],
            };
            if shows && better {
                best = Some(i);
            }
            j = j + 1;
        }
        if let Some(i) = best {
            let attr = ppu.oam[i as usize * 4 + 3];
            let palette = if attr & 0x10 != 0 { ppu.obp1 } else { ppu.obp0 };
            proof { reveal_with_fuel(PpuView::winner, 1); }
            let c = sprite_pixel(ppu, i, x);
            line.set(x as usize, dmg_shade(apply_palette(palette, c)));
        }
        x = x + 1;
    }
}

fn render_sprites_cgb(ppu: &Ppu, vis: &Vec<u8>, bg_idx: &Vec<u8>, bg_attr: &Vec<u8>, line: &mut Vec<u16>)
    requires
        ppu@.arrays_ok(), ppu@.cgb_mode,
        vis@ == ppu@.line_sprites(40),
        forall|k: int| 0 <= k < vis@.len() ==> vis@[k] < 40,
        bg_idx@.len() == 160 && bg_attr@.len() == 160 && old(line)@.len() == 160,
        forall|x: int| 0 <= x < 160 ==> bg_idx@[x] == ppu@.bg_index(x as u8),
        forall|x: int| 0 <= x < 160 ==> bg_attr@[x] == ppu@.bg_attr(x as u8),
        forall|x: int| 0 <= x < 160 ==> old(line)@[x] == ppu@.bg_value(x as u8),
    ensures
        final(line)@.len() == 160,
        forall|x: int| 0 <= x < 160 ==> final(line)@[x] == match ppu@.winner(vis@, x as u8, vis@.len() as int) {
            Some(i) => ppu@.sprite_value(i as int, x as u8),
            None => ppu@.bg_value(x as u8),
        },
{
    proof { lemma_line_sprites_on_line(ppu@, 40); }
    let master_priority = (ppu.lcdc & 0x01) != 0;
    let by_x = (ppu.opri & 1) != 0;
    let mut x: u8 = 0;
    while x < 160
        invariant
            ppu@.arrays_ok(), ppu@.cgb_mode,
            master_priority == (ppu@.lcdc & 0x01 != 0),
            by_x == (ppu@.opri & 1 != 0),
            vis@ == ppu@.line_sprites(40),
            forall|k: int| 0 <= k < vis@.len() ==> vis@[k] < 40,
            forall|k: int| 0 <= k < vis@.len() ==> ppu@.on_line(vis@[k] as int),
            bg_idx@.len() == 160 && bg_attr@.len() == 160 && line@.len() == 160,
            forall|k: int| 0 <= k < 160 ==> bg_idx@[k] == ppu@.bg_index(k as u8),
            forall|k: int| 0 <= k < 160 ==> bg_attr@[k] == ppu@.bg_attr(k as u8),
            x <= 160,
            forall|k: int| x <= k < 160 ==> line@[k] == ppu@.bg_value(k as u8),
            forall|k: int| 0 <= k < x ==> line@[k] == match ppu@.winner(vis@, k as u8, vis@.len() as int) {
                Some(i) => ppu@.sprite_value(i as int, k as u8),
                None => ppu@.bg_value(k as u8),
            },
        decreases 160 - x,
    {
        let mut best: Option<u8> = None;
        let mut j: usize = 0;
        while j < vis.len()
            invariant
                ppu@.arrays_ok(), ppu@.cgb_mode,
                master_priority == (ppu@.lcdc & 0x01 != 0),
                by_x == (ppu@.opri & 1 != 0),
                forall|k: int| 0 <= k < vis@.len() ==> vis@[k] < 40,
                forall|k: int| 0 <= k < vis@.len() ==> ppu@.on_line(vis@[k] as int),
                bg_idx@.len() == 160 && bg_attr@.len() == 160,
                x < 160,
                bg_idx@[x as int] == ppu@.bg_index(x),
                bg_attr@[x as int] == ppu@.bg_attr(x),
                j <= vis@.len(),
                best == ppu@.winner(vis@, x, j as int),
                best matches Some(b) ==> b < 40 && ppu@.on_line(b as int) && ppu@.spans(b as int, x),
            decreases vis@.len() - j,
        {
            let i = vis[j];
            let base = i as usize * 4;
            let attr = ppu.oam[base + 3];
            let mut shows = false;
            if sprite_spans(ppu, i, x) {
                let c = sprite_pixel(ppu, i, x);
                let bgc = bg_idx[x as usize];
                let bga = bg_attr[x as usize];
                shows = c != 0 && !(master_priority && bgc != 0 && (bga & 0x80 != 0 || attr & 0x80 != 0));
            }
            let better = match best {
                None => true,
                Some(b) => by_x && ppu.oam[base + 1] < ppu.oam[b as usize * 4 + 1],
            };
            if shows && better {
                best = Some(i);
            }
            j = j + 1;
        }
        if let Some(i) = best {
            let attr = ppu.oam[i as usize * 4 + 3];
            let c = sprite_pixel(ppu, i, x);
            line.set(x as usize, cram_lookup(&ppu.obj_cram, low3(attr), c));
        }
        x = x + 1;
    }
}

/// Draws line `ly` into the framebuffer (nothing when `ly >= 144`).
pub fn render_scanline(ppu: &mut Ppu)
    requires old(ppu)@.arrays_ok(),
    ensures final(ppu)@ == old(ppu)@.render_line(), final(ppu)@.arrays_ok(),
{
    let ly = ppu.ly;
    if ly >= 144 {
        return;
    }
    let (bg_idx, bg_attr, mut line) = render_bg_and_window(ppu);
    if ppu.lcdc & 0x02 != 0 {
        let vis = scan_oam(ppu);
        render_sprites(ppu, &vis, &bg_idx, &bg_attr, &mut line);
    }
    let ghost p0 = ppu@;
    let row = ly as usize * 160;
    let mut x: usize = 0;
    while x < 160
        invariant
            ppu@ == (PpuView { frame: ppu@.frame, ..p0 }),
            p0.arrays_ok(), p0.ly == ly, ly < 144, row == ly as int * 160,
            line@.len() == 160,
            forall|k: int| 0 <= k < 160 ==> line@[k] == p0.pixel(k as u8),
            ppu@.frame.len() == FRAME_PIXELS,
            x <= 160,
            forall|i: int| 0 <= i < FRAME_PIXELS ==> ppu@.frame[i] == (if row <= i < row + x { p0.pixel((i - row) as u8) } else { p0.frame[i] }),
        decreases 160 - x,
    {
        ppu.frame[row + x] = line[x];
        x = x + 1;
    }
    if window_this_line(ppu) {
        ppu.window_line_counter = ((ppu.window_line_counter as u16 + 1) % 256) as u8;
    }
    assert(ppu@.frame =~= p0.render_line().frame);
}

} // verus!
