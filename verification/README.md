# gb-core

A Game Boy (DMG/CGB) emulator core written in Verus. The library performs no I/O:
hosts drive a `Gameboy`, hand it plain values (ROM bytes, held buttons) and take
plain values back (frame buffer, serial output, audio mixer inputs, battery RAM).

Layout:

- `src/cpu`: SM83 registers, ALU and the full opcode semantics as spec functions,
  with the executable interpreter proved against them.
- `src/bus.rs`, `src/timer.rs`, `src/interrupts.rs`, `src/joypad.rs`,
  `src/serial.rs`, `src/hdma.rs`: the memory map and the I/O blocks.
- `src/ppu`: LCD registers, the dot-driven mode machine and the scanline renderer.
- `src/apu`: the four sound channels, frame sequencer and sample timing.
- `src/cartridge`: header parsing and the MBC1/2/3/5 mappers (MBC3 with its RTC).
- `src/frontend.rs`: the decisions of an interactive host loop (key mapping, event
  handling, frame pacing, audio back-pressure, pixel conversion).
- `app/`: the command-line host (SDL2 window, files, floating-point audio mixing).
- `tests/`: unit and scenario tests.
