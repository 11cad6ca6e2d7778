//! The whole machine: CPU and bus, advanced one instruction or one frame at a time.

use vstd::prelude::*;
use crate::apu::{ApuView, MixInput};
use crate::bus::{Bus, BusView, opt_view};
use crate::cartridge::{Cartridge, supported_type, initial_mapper};
use crate::cartridge::header::{header_fields_of, battery_type};
use crate::cpu::{Cpu, Clocks, spec_step, can_step, lemma_step_cycles, lemma_step_keeps_frame_ready};
use crate::bus::lemma_tick_lcd_off;
use crate::joypad::JoypadState;
use crate::ppu::{FrameBuffer, PpuView};
use crate::interrupts::{IntFlags, Interrupts};
use crate::{Error, T_CYCLES_PER_FRAME};

verus! {

/// Construction-time options.
#[derive(Debug, Default, Clone)]
pub struct GameboyOptions {
    /// DMG or CGB boot ROM (256 or 2304 bytes); without one the machine starts in
    /// the state the boot ROM leaves.
    pub boot_rom: Option<Vec<u8>>,
    /// Run a CGB-compatible cartridge (header flag `0x80`) as DMG. CGB-only
    /// cartridges (`0xC0`) ignore it.
    pub force_dmg: bool,
}

/// Whether a cartridge with CGB flag `flag` runs in CGB mode.
pub open spec fn cgb_mode_for(flag: u8, force_dmg: bool) -> bool {
    flag == 0xC0 || (flag & 0x80 != 0 && !force_dmg)
}

/// Upper bound, in T-cycles, on one `run_frame`: two frames.
pub open spec fn frame_cap() -> u32 {
    140448
}

/// One machine step: a CPU step, then the rest of the machine for its T-cycles.
#[verifier::opaque]
pub open spec fn machine_step(c: Cpu, b: BusView, k: Clocks) -> (Cpu, BusView, u32) {
    let (c1, b1, m) = spec_step(c, b, k.0, k.1);
    let t = (m * 4) as u32;
    (c1, b1.spec_tick(t), t)
}

/// A machine step takes between 4 and 24 T-cycles, a whole number of M-cycles.
pub proof fn lemma_machine_step_cycles(c: Cpu, b: BusView, k: Clocks)
    ensures
        4 <= machine_step(c, b, k).2 <= 24,
        machine_step(c, b, k).2 % 4 == 0,
{
    reveal(machine_step);
    lemma_step_cycles(c, b, k.0, k.1);
}

pub open spec fn clear_frame_ready(b: BusView) -> BusView {
    BusView { ppu: PpuView { frame_ready: false, ..b.ppu }, ..b }
}

/// The frame loop from `elapsed` T-cycles on, the steps' bus writes taking the clock
/// readings `ks` in order: steps run while fewer than `frame_cap()` T-cycles have
/// passed and the next step runs a defined opcode; the loop ends after the step that
/// completes a frame (whose ready flag it consumes). The flag is `false` when `ks`
/// ran out first.
pub open spec fn frame_loop(c: Cpu, b: BusView, elapsed: u32, ks: Seq<Clocks>) -> (Cpu, BusView, u32, bool)
    decreases ks.len(),
{
    if elapsed >= frame_cap() || !can_step(c, b) {
        (c, b, elapsed, true)
    } else if ks.len() == 0 {
        (c, b, elapsed, false)
    } else {
        let (c1, b1, t) = machine_step(c, b, ks[0]);
        let e1 = (elapsed + t) as u32;
        if b1.ppu.frame_ready {
            (c1, clear_frame_ready(b1), e1, true)
        } else {
            frame_loop(c1, b1, e1, ks.drop_first())
        }
    }
}

/// Whether the frame loop of `frame_loop(c, b, elapsed, ks)` ends on a step whose
/// PPU completed a frame (the VBlank edge that raises the frame-ready flag).
pub open spec fn frame_completes(c: Cpu, b: BusView, elapsed: u32, ks: Seq<Clocks>) -> bool
    decreases ks.len(),
{
    if elapsed >= frame_cap() || !can_step(c, b) {
        false
    } else if ks.len() == 0 {
        false
    } else {
        let (c1, b1, t) = machine_step(c, b, ks[0]);
        let e1 = (elapsed + t) as u32;
        if b1.ppu.frame_ready {
            true
        } else {
            frame_completes(c1, b1, e1, ks.drop_first())
        }
    }
}

/// Each step of the frame loop takes a whole number of M-cycles, so the T-cycles it
/// returns stay a multiple of 4; it overshoots two frames by less than one step; and
/// when it stops before two frames' worth of T-cycles, the PPU completed a frame or
/// the next opcode is undefined.
pub proof fn lemma_frame_loop_result(c: Cpu, b: BusView, elapsed: u32, ks: Seq<Clocks>)
    requires
        elapsed % 4 == 0,
        elapsed < frame_cap() + 24,
    ensures
        ({
            let (c2, b2, e2, done) = frame_loop(c, b, elapsed, ks);
            &&& e2 % 4 == 0
            &&& elapsed <= e2 < frame_cap() + 24
            &&& (done && e2 < frame_cap()) ==> frame_completes(c, b, elapsed, ks) || !can_step(c2, b2)
            &&& (done && elapsed < frame_cap() && can_step(c, b)) ==> e2 >= elapsed + 4
        }),
    decreases ks.len(),
{
    if !(elapsed >= frame_cap() || !can_step(c, b)) && ks.len() > 0 {
        lemma_machine_step_cycles(c, b, ks[0]);
        let (c1, b1, t) = machine_step(c, b, ks[0]);
        if !b1.ppu.frame_ready {
            lemma_frame_loop_result(c1, b1, (elapsed + t) as u32, ks.drop_first());
        }
    }
}

/// A machine step that leaves the LCD off completes no frame.
pub proof fn lemma_machine_step_lcd_off(c: Cpu, b: BusView, k: Clocks)
    requires
        machine_step(c, b, k).1.ppu.lcdc & 0x80 == 0,
    ensures
        machine_step(c, b, k).1.ppu.frame_ready == b.ppu.frame_ready,
{
    reveal(machine_step);
    let (c1, b1, m) = spec_step(c, b, k.0, k.1);
    lemma_step_keeps_frame_ready(c, b, k.0, k.1);
    lemma_tick_lcd_off(b1, (m * 4) as u32);
}

/// Whether LCDC bit 7 is clear after every step of the frame loop
/// `frame_loop(c, b, elapsed, ks)`.
pub open spec fn lcd_stays_off(c: Cpu, b: BusView, elapsed: u32, ks: Seq<Clocks>) -> bool
    decreases ks.len(),
{
    if elapsed >= frame_cap() || !can_step(c, b) || ks.len() == 0 {
        true
    } else {
        let (c1, b1, t) = machine_step(c, b, ks[0]);
        b1.ppu.lcdc & 0x80 == 0 && lcd_stays_off(c1, b1, (elapsed + t) as u32, ks.drop_first())
    }
}

/// With the LCD off throughout, no frame completes.
pub proof fn lemma_lcd_off_no_frame(c: Cpu, b: BusView, elapsed: u32, ks: Seq<Clocks>)
    requires
        !b.ppu.frame_ready,
        lcd_stays_off(c, b, elapsed, ks),
    ensures
        !frame_completes(c, b, elapsed, ks),
    decreases ks.len(),
{
    if !(elapsed >= frame_cap() || !can_step(c, b)) && ks.len() > 0 {
        lemma_machine_step_lcd_off(c, b, ks[0]);
        let (c1, b1, t) = machine_step(c, b, ks[0]);
        lemma_lcd_off_no_frame(c1, b1, (elapsed + t) as u32, ks.drop_first());
    }
}

/// The frame loop never reports a pending frame: the step that completes a frame
/// consumes its flag, and every other step leaves it clear.
pub proof fn lemma_frame_loop_consumes_ready(c: Cpu, b: BusView, elapsed: u32, ks: Seq<Clocks>)
    requires
        !b.ppu.frame_ready,
    ensures
        !frame_loop(c, b, elapsed, ks).1.ppu.frame_ready,
    decreases ks.len(),
{
    if !(elapsed >= frame_cap() || !can_step(c, b)) && ks.len() > 0 {
        let (c1, b1, t) = machine_step(c, b, ks[0]);
        if !b1.ppu.frame_ready {
            lemma_frame_loop_consumes_ready(c1, b1, (elapsed + t) as u32, ks.drop_first());
        }
    }
}

/// The frame loop runs at most `frame_cap()` T-cycles plus one step: it stops even
/// when the LCD is off and no frame ever completes.
pub proof fn lemma_frame_loop_bounded(c: Cpu, b: BusView, elapsed: u32, ks: Seq<Clocks>)
    requires
        elapsed < frame_cap() + 25,
    ensures
        frame_loop(c, b, elapsed, ks).2 < frame_cap() + 25,
        frame_loop(c, b, elapsed, ks).2 >= elapsed,
    decreases ks.len(),
{
    if !(elapsed >= frame_cap() || !can_step(c, b)) && ks.len() > 0 {
        lemma_machine_step_cycles(c, b, ks[0]);
        let (c1, b1, t) = machine_step(c, b, ks[0]);
        if !b1.ppu.frame_ready {
            lemma_frame_loop_bounded(c1, b1, (elapsed + t) as u32, ks.drop_first());
        }
    }
}

/// A machine booted from a ROM and options is determined by them: two such machines
/// (one just built by `new`, one just `reset`) have the same CPU, the same mode and
/// the same bus apart from the cartridge, whose header fields agree and whose
/// controller is the same, but for the clock reading an MBC3 started its RTC at.
/// They read the same at every address and hold the same cartridge RAM, frame and
/// serial output.
pub proof fn lemma_booted_unique(g1: Gameboy, g2: Gameboy, rom: Seq<u8>, opts: GameboyOptions)
    requires
        Gameboy::booted(g1, rom, opts),
        Gameboy::booted(g2, rom, opts),
    ensures
        g1.cpu == g2.cpu,
        g1.cgb_mode == g2.cgb_mode,
        (BusView { cart: g2.bus@.cart, ..g1.bus@ }) == g2.bus@,
        g1.bus.cart.header.ram_size_bytes == g2.bus.cart.header.ram_size_bytes,
        !(0x0F <= rom[0x147] <= 0x13) ==> g1.bus@.cart.mapper == g2.bus@.cart.mapper,
        forall|a: u16| #[trigger] g1.bus@.spec_read(a) == g2.bus@.spec_read(a),
        g1.bus@.cart.ram() == g2.bus@.cart.ram(),
        g1.bus@.ppu.frame == g2.bus@.ppu.frame,
        g1.bus@.serial.output_log == g2.bus@.serial.output_log,
{
    assert forall|a: u16| #[trigger] g1.bus@.spec_read(a) == g2.bus@.spec_read(a) by {
        reveal(BusView::spec_read);
    }
}

/// The machine.
pub struct Gameboy {
    pub cpu: Cpu,
    pub bus: Bus,
    pub rom: Vec<u8>,
    pub opts: GameboyOptions,
    pub cgb_mode: bool,
}

fn clone_bytes(v: &Vec<u8>) -> (r: Vec<u8>)
    ensures r@ == v@,
{
    let r = v.clone();
    assert(r@ =~= v@);
    r
}

fn clone_boot_rom(o: &Option<Vec<u8>>) -> (r: Option<Vec<u8>>)
    ensures opt_view(r) == opt_view(*o),
{
    match o {
        Some(v) => Some(clone_bytes(v)),
        None => None,
    }
}

impl Gameboy {
    pub open spec fn wf(&self) -> bool {
        &&& self.bus.wf()
        &&& self.rom@.len() >= 0x150 && supported_type(self.rom@[0x147]) && self.rom@[0x148] < 64
    }

    /// Power-on state for `rom` and `opts`: the cartridge as loaded from the ROM, the
    /// bus at power-on in the mode the header and options select, and the CPU as the
    /// boot ROM leaves it.
    pub open spec fn booted(g: Gameboy, rom: Seq<u8>, opts: GameboyOptions) -> bool {
        let cgb = cgb_mode_for(rom[0x143], opts.force_dmg);
        &&& g.rom@ == rom && g.cgb_mode == cgb
        &&& g.opts.force_dmg == opts.force_dmg && opt_view(g.opts.boot_rom) == opt_view(opts.boot_rom)
        &&& header_fields_of(g.bus.cart.header, rom)
        &&& exists|now: u128| g.bus@.cart.mapper == initial_mapper(rom[0x147], rom, g.bus.cart.header.ram_size_bytes, now)
        &&& g.bus@ == Bus::power_on(g.bus@.cart, opt_view(opts.boot_rom), cgb)
        &&& (if cgb { g.cpu.regs.post_boot_cgb_values() } else { g.cpu.regs.post_boot_values() })
        &&& !g.cpu.ime && !g.cpu.ime_pending && !g.cpu.halted && !g.cpu.halt_bug
    }

    /// Builds the machine for a cartridge ROM.
    pub fn new(rom: Vec<u8>, opts: GameboyOptions) -> (r: Result<Gameboy, Error>)
        requires rom@.len() >= 0x150 ==> rom@[0x148] < 64,
        ensures
            r is Ok <==> rom@.len() >= 0x150 && supported_type(rom@[0x147]),
            rom@.len() < 0x150 ==> (r matches Err(Error::InvalidRom(msg)) && msg == "ROM too small to contain header"),
            rom@.len() >= 0x150 && !supported_type(rom@[0x147])
                ==> (r matches Err(Error::UnsupportedCartridge(t)) && t == rom@[0x147]),
            r matches Ok(g) ==> g.wf() && Self::booted(g, rom@, opts),
    {
        let cart = match Cartridge::from_rom(clone_bytes(&rom)) {
            Ok(c) => c,
            Err(e) => return Err(e),
        };
        let cgb_mode = cart.header.is_cgb_only() || (cart.header.is_cgb() && !opts.force_dmg);
        let bus = Bus::new_with_mode(cart, clone_boot_rom(&opts.boot_rom), cgb_mode);
        let cpu = if cgb_mode { Cpu::post_boot_cgb() } else { Cpu::post_boot() };
        Ok(Gameboy { cpu, bus, rom, opts, cgb_mode })
    }

    /// Soft reset: the machine rebuilt from the same ROM and options.
    pub fn reset(&mut self)
        requires old(self).wf(),
        ensures
            final(self).wf(),
            Self::booted(*final(self), old(self).rom@, old(self).opts),
            final(self).opts == old(self).opts,
    {
        let cart = match Cartridge::from_rom(clone_bytes(&self.rom)) {
            Ok(c) => c,
            Err(_) => return,
        };
        self.cgb_mode = cart.header.is_cgb_only() || (cart.header.is_cgb() && !self.opts.force_dmg);
        self.bus = Bus::new_with_mode(cart, clone_boot_rom(&self.opts.boot_rom), self.cgb_mode);
        self.cpu = if self.cgb_mode { Cpu::post_boot_cgb() } else { Cpu::post_boot() };
    }

    /// Whether the machine runs in CGB mode.
    pub fn cgb_mode(&self) -> (r: bool)
        ensures r == self.cgb_mode,
    {
        self.cgb_mode
    }

    /// Host input for the joypad; call once per frame before `run_frame`.
    pub fn set_buttons(&mut self, state: JoypadState)
        ensures
            final(self).cpu == old(self).cpu && final(self).rom@ == old(self).rom@,
            final(self).opts == old(self).opts && final(self).cgb_mode == old(self).cgb_mode,
            final(self).bus@ == (BusView {
                joypad: crate::joypad::Joypad { state, ..old(self).bus.joypad },
                interrupts: Interrupts {
                    iflag: IntFlags {
                        bits: if state.bits & !old(self).bus.joypad.state.bits != 0 {
                            old(self).bus.interrupts.iflag.bits | 0x10
                        } else {
                            old(self).bus.interrupts.iflag.bits
                        },
                    },
                    ..old(self).bus.interrupts
                },
                ..old(self).bus@
            }),
    {
        self.bus.set_joypad(state);
    }

    /// Whether the next step runs a defined opcode. The SM83 locks up on the others;
    /// this core does not run them.
    pub fn can_step(&self) -> (r: bool)
        requires self.wf(),
        ensures r == can_step(self.cpu, self.bus@),
    {
        self.cpu.can_step(&self.bus)
    }

    /// One CPU instruction (or interrupt dispatch, or halted cycle), then the rest of
    /// the machine for as long. Returns the T-cycles taken.
    pub fn step(&mut self) -> (r: u32)
        requires old(self).wf(), can_step(old(self).cpu, old(self).bus@),
        ensures
            final(self).wf(),
            final(self).rom@ == old(self).rom@ && final(self).opts == old(self).opts,
            final(self).cgb_mode == old(self).cgb_mode,
            exists|k: Clocks| (final(self).cpu, final(self).bus@, r) == machine_step(old(self).cpu, old(self).bus@, k),
    {
        let ghost c0 = self.cpu;
        let ghost b0 = self.bus@;
        let m = self.cpu.step(&mut self.bus);
        let ghost k = choose|k: Clocks| (self.cpu, self.bus@, m) == spec_step(c0, b0, k.0, k.1);
        proof {
            lemma_step_cycles(c0, b0, k.0, k.1);
        }
        let t = m * 4;
        self.bus.tick(t);
        proof {
            reveal(machine_step);
        }
        assert((self.cpu, self.bus@, t) == machine_step(c0, b0, k));
        t
    }

    /// Runs until the PPU completes a frame, or two frames' worth of T-cycles pass, or
    /// the next opcode is undefined (`can_step` then reads `false`). Returns the
    /// T-cycles run: a multiple of 4, less than two frames plus one step, at least one
    /// step when a step can run, and the whole two frames when the LCD stays off.
    pub fn run_frame(&mut self) -> (r: u32)
        requires old(self).wf(),
        ensures
            final(self).wf(),
            final(self).rom@ == old(self).rom@ && final(self).opts == old(self).opts,
            final(self).cgb_mode == old(self).cgb_mode,
            r % 4 == 0,
            r < frame_cap() + 24,
            can_step(old(self).cpu, old(self).bus@) ==> r >= 4,
            exists|ks: Seq<Clocks>|
                frame_loop(old(self).cpu, clear_frame_ready(old(self).bus@), 0, ks) == (final(self).cpu, final(self).bus@, r, true)
                && (r < frame_cap() ==> frame_completes(old(self).cpu, clear_frame_ready(old(self).bus@), 0, ks)
                    || !can_step(final(self).cpu, final(self).bus@))
                && (lcd_stays_off(old(self).cpu, clear_frame_ready(old(self).bus@), 0, ks)
                    ==> r >= frame_cap() || !can_step(final(self).cpu, final(self).bus@)),
    {
        let _ = self.bus.ppu.take_frame_ready();
        let ghost c0 = self.cpu;
        let ghost b0 = self.bus@;
        assert(b0 == clear_frame_ready(old(self).bus@));
        let ghost mut done: Seq<Clocks> = Seq::empty();
        let cap: u32 = T_CYCLES_PER_FRAME * 2;
        let mut elapsed: u32 = 0;
        proof {
            assert forall|ks2: Seq<Clocks>| #[trigger] frame_loop(c0, b0, 0, done + ks2) == frame_loop(self.cpu, self.bus@, elapsed, ks2) by {
                assert(done + ks2 =~= ks2);
            }
        }
        loop
            invariant_except_break
                self.wf(),
                self.rom@ == old(self).rom@ && self.opts == old(self).opts && self.cgb_mode == old(self).cgb_mode,
                cap == frame_cap(),
                elapsed < frame_cap() + 25,
                forall|ks2: Seq<Clocks>| #[trigger] frame_loop(c0, b0, 0, done + ks2) == frame_loop(self.cpu, self.bus@, elapsed, ks2),
            ensures
                self.wf(),
                self.rom@ == old(self).rom@ && self.opts == old(self).opts && self.cgb_mode == old(self).cgb_mode,
                frame_loop(c0, b0, 0, done) == (self.cpu, self.bus@, elapsed, true),
            decreases frame_cap() + 25 - elapsed,
        {
            if elapsed >= cap || !self.cpu.can_step(&self.bus) {
                proof {
                    assert(done + Seq::<Clocks>::empty() =~= done);
                    assert(frame_loop(c0, b0, 0, done + Seq::<Clocks>::empty()) == frame_loop(self.cpu, self.bus@, elapsed, Seq::<Clocks>::empty()));
                }
                break;
            }
            let ghost pc = self.cpu;
            let ghost pb = self.bus@;
            let ghost pe = elapsed;
            let t = self.step();
            let ghost k = choose|k: Clocks| (self.cpu, self.bus@, t) == machine_step(pc, pb, k);
            proof {
                lemma_machine_step_cycles(pc, pb, k);
            }
            elapsed = elapsed + t;
            let ready = self.bus.ppu.take_frame_ready();
            proof {
                assert forall|ks2: Seq<Clocks>| #[trigger] frame_loop(c0, b0, 0, done.push(k) + ks2)
                    == frame_loop(pc, pb, pe, seq![k] + ks2) by {
                    assert(done.push(k) + ks2 =~= done + (seq![k] + ks2));
                }
                assert forall|ks2: Seq<Clocks>| #[trigger] frame_loop(pc, pb, pe, seq![k] + ks2)
                    == (if ready { (self.cpu, self.bus@, elapsed, true) } else { frame_loop(self.cpu, self.bus@, elapsed, ks2) }) by {
                    assert((seq![k] + ks2).drop_first() =~= ks2);
                    assert((seq![k] + ks2)[0] == k);
                }
                done = done.push(k);
                if ready {
                    assert(done + Seq::<Clocks>::empty() =~= done);
                }
            }
            if ready {
                break;
            }
        }
        proof {
            lemma_frame_loop_result(c0, b0, 0, done);
            if lcd_stays_off(c0, b0, 0, done) {
                lemma_lcd_off_no_frame(c0, b0, 0, done);
            }
            reveal(BusView::spec_read);
            assert(old(self).bus@.spec_read(old(self).cpu.regs.pc) == b0.spec_read(old(self).cpu.regs.pc));
        }
        elapsed
    }

    /// The most recently completed frame (160x144 RGB555).
    pub fn frame_buffer(&self) -> (r: &FrameBuffer)
        ensures r@ == self.bus@.ppu.frame,
    {
        self.bus.ppu().frame_buffer()
    }

    /// Bytes sent over the serial port (test ROMs report there).
    pub fn serial_output(&self) -> (r: &[u8])
        ensures r@ == self.bus@.serial.output_log,
    {
        self.bus.serial_output()
    }

    /// The mixer inputs the APU recorded since the last call, one per output sample at
    /// `SAMPLE_RATE_HZ`.
    pub fn take_audio_samples(&mut self) -> (r: Vec<MixInput>)
        ensures
            r@ == old(self).bus@.apu.samples,
            final(self).bus@ == (BusView { apu: ApuView { samples: Seq::empty(), ..old(self).bus@.apu }, ..old(self).bus@ }),
            final(self).cpu == old(self).cpu && final(self).rom@ == old(self).rom@,
            final(self).opts == old(self).opts && final(self).cgb_mode == old(self).cgb_mode,
    {
        self.bus.take_audio_samples()
    }

    /// A byte of the CPU address space, read through the bus as the CPU reads it.
    pub fn peek_byte(&self, addr: u16) -> (r: u8)
        requires self.wf(),
        ensures r == self.bus@.spec_read(addr),
    {
        self.bus.read(addr)
    }

    /// Whether the cartridge has battery-backed RAM worth saving.
    pub fn cart_has_battery(&self) -> (r: bool)
        ensures r == battery_type(self.bus.cart.header.cart_type),
    {
        self.bus.cart_has_battery()
    }

    /// Battery RAM contents for a save file; `None` without external RAM.
    pub fn cart_ram(&self) -> (r: Option<&[u8]>)
        ensures
            r is Some <==> self.bus@.cart.ram() is Some,
            r matches Some(s) ==> s@ == self.bus@.cart.ram().unwrap(),
    {
        self.bus.cart_ram()
    }

    /// Restores battery RAM from a save file; sizes that differ are clamped.
    pub fn load_cart_ram(&mut self, data: &[u8])
        requires old(self).wf(),
        ensures
            final(self).wf(),
            final(self).bus@ == (BusView { cart: old(self).bus@.cart.load_ram(data@), ..old(self).bus@ }),
            final(self).cpu == old(self).cpu && final(self).rom@ == old(self).rom@,
            final(self).opts == old(self).opts && final(self).cgb_mode == old(self).cgb_mode,
    {
        self.bus.load_cart_ram(data);
    }
}

} // verus!
