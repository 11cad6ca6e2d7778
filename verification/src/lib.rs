//! Game Boy (DMG/CGB) emulator core. The library performs no I/O: hosts drive a
//! [`Gameboy`] and exchange plain values with it.

use vstd::prelude::*;

pub mod interrupts;
pub mod joypad;
pub mod serial;
pub mod cpu;
pub mod timer;
pub mod cartridge;
pub mod hdma;
pub mod ppu;
pub mod apu;
pub mod bus;
pub mod frontend;

mod gameboy;

pub use gameboy::{Gameboy, GameboyOptions};
pub use interrupts::IntFlags;
pub use joypad::{Button, JoypadState};
pub use ppu::{FrameBuffer, SCREEN_HEIGHT, SCREEN_WIDTH};

verus! {

/// Master clock frequency in Hz (T-cycles per second).
pub const CLOCK_HZ: u32 = 4_194_304;

/// T-cycles in a single PPU frame (154 scanlines of 456 cycles).
pub const T_CYCLES_PER_FRAME: u32 = 70_224;

} // verus!

verus! {

/// Errors reported to hosts when a ROM cannot be loaded.
#[derive(Debug, Clone)]
pub enum Error {
    /// The ROM is malformed; the text says how.
    InvalidRom(&'static str),
    /// The cartridge type byte names a controller this core does not implement.
    UnsupportedCartridge(u8),
}

} // verus!
