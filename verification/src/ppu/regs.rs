//! PPU register bit decoders (names as in the Pan Docs PPU chapter).

use vstd::prelude::*;

verus! {

/// LCDC (`FF40`): LCD control.
#[derive(Debug, Clone, Copy)]
pub struct Lcdc(pub u8);

impl Lcdc {
    /// Window tile map area: false selects `0x9800`, true `0x9C00`.
    pub fn win_map_hi(self) -> (r: bool)
        ensures r == (self.0 & 0x40 != 0),
    {
        self.0 & 0x40 != 0
    }

    pub fn window_enabled(self) -> (r: bool)
        ensures r == (self.0 & 0x20 != 0),
    {
        self.0 & 0x20 != 0
    }

    /// BG/window tile data: true selects `0x8000` (unsigned ids), false `0x8800` (signed).
    pub fn bg_data_8000(self) -> (r: bool)
        ensures r == (self.0 & 0x10 != 0),
    {
        self.0 & 0x10 != 0
    }

    /// BG tile map area: false selects `0x9800`, true `0x9C00`.
    pub fn bg_map_hi(self) -> (r: bool)
        ensures r == (self.0 & 0x08 != 0),
    {
        self.0 & 0x08 != 0
    }

    /// Sprite size: false 8x8, true 8x16.
    pub fn obj_8x16(self) -> (r: bool)
        ensures r == (self.0 & 0x04 != 0),
    {
        self.0 & 0x04 != 0
    }

    pub fn obj_enabled(self) -> (r: bool)
        ensures r == (self.0 & 0x02 != 0),
    {
        self.0 & 0x02 != 0
    }

    /// BG/window display enable (DMG); BG-over-sprite master priority (CGB).
    pub fn bg_enabled(self) -> (r: bool)
        ensures r == (self.0 & 0x01 != 0),
    {
        self.0 & 0x01 != 0
    }
}

/// STAT (`FF41`): the upper bits select the STAT interrupt sources.
#[derive(Debug, Clone, Copy)]
pub struct Stat(pub u8);

impl Stat {
    pub fn lyc_irq(self) -> (r: bool)
        ensures r == (self.0 & 0x40 != 0),
    {
        self.0 & 0x40 != 0
    }

    pub fn mode2_irq(self) -> (r: bool)
        ensures r == (self.0 & 0x20 != 0),
    {
        self.0 & 0x20 != 0
    }

    pub fn mode1_irq(self) -> (r: bool)
        ensures r == (self.0 & 0x10 != 0),
    {
        self.0 & 0x10 != 0
    }

    pub fn mode0_irq(self) -> (r: bool)
        ensures r == (self.0 & 0x08 != 0),
    {
        self.0 & 0x08 != 0
    }
}

} // verus!
