//! Sharp SM83 CPU core.
//!
//! An instruction runs against the bus without ticking it; the caller advances
//! the rest of the machine by the M-cycles it returns. The state after a step is
//! `spec_step` of the state before it, for the clock readings its bus writes took.

use vstd::prelude::*;

pub mod alu;
pub mod exec;
pub mod registers;

use crate::bus::{Bus, BusView, BusClock, plain_ram, lemma_ram_roundtrip, lemma_ram_frame};
use crate::interrupts::{IntFlags, spec_vector};
use registers::{Registers, Flags, pair, hi_byte, lo_byte, join, high, low, lemma_pair_split, lemma_high_nibble_only};
use alu::wrap16;

verus! {

/// Clock readings of the (at most two) bus writes of one step, in order.
pub type Clocks = (BusClock, BusClock);

#[derive(Debug, Clone, Copy)]
pub struct Cpu {
    pub regs: Registers,
    /// Interrupt master enable.
    pub ime: bool,
    /// Set by `EI`: IME turns on after the next instruction.
    pub ime_pending: bool,
    /// `HALT`: the CPU sleeps until an interrupt is pending.
    pub halted: bool,
    /// HALT bug: `HALT` with IME off and an interrupt pending makes the next opcode
    /// fetch leave PC where it is.
    pub halt_bug: bool,
}

pub open spec fn with_regs(c: Cpu, regs: Registers) -> Cpu {
    Cpu { regs, ..c }
}

pub open spec fn with_pc(c: Cpu, pc: u16) -> Cpu {
    Cpu { regs: Registers { pc, ..c.regs }, ..c }
}

pub open spec fn with_sp(c: Cpu, sp: u16) -> Cpu {
    Cpu { regs: Registers { sp, ..c.regs }, ..c }
}

/// Opcode fetch: the byte at PC; PC moves on unless the HALT bug holds it (once).
pub open spec fn spec_fetch(c: Cpu, b: BusView) -> (Cpu, u8) {
    let v = b.spec_read(c.regs.pc);
    if c.halt_bug {
        (Cpu { halt_bug: false, ..c }, v)
    } else {
        (with_pc(c, wrap16(c.regs.pc + 1)), v)
    }
}

/// Little-endian 16-bit immediate.
pub open spec fn spec_fetch16(c: Cpu, b: BusView) -> (Cpu, u16) {
    let (c1, lo) = spec_fetch(c, b);
    let (c2, hi) = spec_fetch(c1, b);
    (c2, pair(hi, lo))
}

/// Push: high byte at SP-1, then low byte at SP-2.
pub open spec fn spec_push(c: Cpu, b: BusView, v: u16, k1: BusClock, k2: BusClock) -> (Cpu, BusView) {
    let sp1 = wrap16(c.regs.sp - 1);
    let b1 = b.spec_write(sp1, hi_byte(v), k1);
    let sp2 = wrap16(sp1 - 1);
    let b2 = b1.spec_write(sp2, lo_byte(v), k2);
    (with_sp(c, sp2), b2)
}

/// Pop: low byte at SP, high byte at SP+1; SP moves up by two.
pub open spec fn spec_pop(c: Cpu, b: BusView) -> (Cpu, u16) {
    let lo = b.spec_read(c.regs.sp);
    let sp1 = wrap16(c.regs.sp + 1);
    let hi = b.spec_read(sp1);
    (with_sp(c, wrap16(sp1 + 1)), pair(hi, lo))
}

/// The source serviced first: the lowest pending bit among the five sources.
pub open spec fn lowest_flag(p: u8) -> u8 {
    if p & 0x01 != 0 {
        0x01
    } else if p & 0x02 != 0 {
        0x02
    } else if p & 0x04 != 0 {
        0x04
    } else if p & 0x08 != 0 {
        0x08
    } else if p & 0x10 != 0 {
        0x10
    } else {
        0
    }
}

/// Interrupt dispatch: IME off, the serviced request bit cleared in IF, PC pushed,
/// PC set to the handler; 5 M-cycles.
pub open spec fn spec_service(c: Cpu, b: BusView, k1: BusClock, k2: BusClock) -> (Cpu, BusView, u32) {
    let p = b.pending();
    let flag = lowest_flag(p);
    let b1 = BusView {
        interrupts: crate::interrupts::Interrupts {
            iflag: IntFlags { bits: b.interrupts.iflag.bits & !flag },
            ..b.interrupts
        },
        ..b
    };
    let (c1, b2) = spec_push(Cpu { ime: false, ..c }, b1, c.regs.pc, k1, k2);
    (with_pc(c1, spec_vector(p)), b2, 5)
}

/// Whether a step from this state fetches and runs an opcode (rather than servicing
/// an interrupt or sleeping).
pub open spec fn fetches(c: Cpu, b: BusView) -> bool {
    !(c.ime && b.pending() != 0) && !(c.halted && b.pending() == 0)
}

/// One step: an enabled pending interrupt is serviced first; a halted CPU sleeps
/// one M-cycle unless an interrupt is pending (which wakes it whatever IME); else
/// one instruction runs, and an `EI` of the previous instruction takes effect after
/// it (even when that instruction is `DI`).
pub open spec fn spec_step(c: Cpu, b: BusView, k1: BusClock, k2: BusClock) -> (Cpu, BusView, u32) {
    if c.ime && b.pending() != 0 {
        spec_service(Cpu { halted: false, ..c }, b, k1, k2)
    } else if c.halted && b.pending() == 0 {
        (c, b, 1)
    } else {
        let c0 = Cpu { halted: false, ..c };
        let (c1, op) = spec_fetch(c0, b);
        let (c2, b2, r) = exec::spec_exec(c1, b, op, k1, k2);
        let c3 = if c.ime_pending { Cpu { ime: true, ime_pending: false, ..c2 } } else { c2 };
        (c3, b2, r)
    }
}

/// A step from this state runs no opcode the SM83 leaves undefined.
pub open spec fn can_step(c: Cpu, b: BusView) -> bool {
    fetches(c, b) ==> exec::legal(b.spec_read(c.regs.pc))
}

/// Every instruction takes between 1 and 6 M-cycles.
pub proof fn lemma_exec_cycles(c: Cpu, b: BusView, op: u8, k1: BusClock, k2: BusClock)
    ensures
        1 <= exec::spec_exec(c, b, op, k1, k2).2 <= 6,
{
}

/// Every step (an instruction, an interrupt dispatch or a halted cycle) takes
/// between 1 and 6 M-cycles.
pub proof fn lemma_step_cycles(c: Cpu, b: BusView, k1: BusClock, k2: BusClock)
    ensures
        1 <= spec_step(c, b, k1, k2).2 <= 6,
{
    if !(c.ime && b.pending() != 0) && !(c.halted && b.pending() == 0) {
        let (c1, op) = spec_fetch(Cpu { halted: false, ..c }, b);
        lemma_exec_cycles(c1, b, op, k1, k2);
    }
}

/// The two bytes below SP lie in plain RAM (work RAM or high RAM).
pub open spec fn stack_in_ram(sp: u16) -> bool {
    plain_ram(sp - 1) && plain_ram(sp - 2)
}

/// PUSH then POP gives the value back and leaves the CPU as it was, when the two
/// stack bytes lie in plain RAM.
pub proof fn lemma_push_pop(c: Cpu, b: BusView, v: u16, k1: BusClock, k2: BusClock)
    requires
        b.wf(),
        stack_in_ram(c.regs.sp),
    ensures
        ({
            let (c1, b1) = spec_push(c, b, v, k1, k2);
            spec_pop(c1, b1) == (c, v)
        }),
{
    let sp1 = wrap16(c.regs.sp - 1);
    let sp2 = wrap16(sp1 - 1);
    let b1 = b.spec_write(sp1, hi_byte(v), k1);
    lemma_ram_roundtrip(b, sp1, hi_byte(v), k1);
    lemma_ram_roundtrip(b1, sp2, lo_byte(v), k2);
    lemma_ram_frame(b1, sp2, sp1, lo_byte(v), k2);
    lemma_pair_split(v);
}

/// CALL then RET comes back to the instruction after the CALL (its two operand
/// bytes past the opcode) with SP restored, when the stack lies in plain RAM.
pub proof fn lemma_call_ret(c: Cpu, b: BusView, k1: BusClock, k2: BusClock)
    requires
        b.wf(),
        stack_in_ram(c.regs.sp),
        !c.halt_bug,
    ensures
        ({
            let (c1, b1, _) = exec::call(c, b, true, k1, k2);
            let (c2, _, _) = exec::ret(c1, b1, true);
            c2.regs.pc == wrap16(c.regs.pc + 2) && c2.regs.sp == c.regs.sp
        }),
{
    let (cf, a) = spec_fetch16(c, b);
    lemma_push_pop(cf, b, cf.regs.pc, k1, k2);
}

proof fn lemma_decode_f1(op: u8)
    by (bit_vector)
    requires
        op == 0xF1,
    ensures
        (op >> 3) & 7 == 6,
        op & 7 == 1,
        ((op >> 3) & 7) >> 1 == 3,
        ((op >> 3) & 7) & 1 == 0,
{
}

/// POP AF leaves the low nibble of F zero.
pub proof fn lemma_pop_af_low_nibble(c: Cpu, b: BusView, k1: BusClock, k2: BusClock)
    ensures
        exec::spec_exec(c, b, 0xF1, k1, k2).0.regs.f.bits & 0x0F == 0,
{
    lemma_decode_f1(0xF1);
    let (c1, v) = spec_pop(c, b);
    lemma_high_nibble_only(lo_byte(v));
}

proof fn lemma_decode_fb(op: u8)
    by (bit_vector)
    requires
        op == 0xFB,
    ensures
        (op >> 3) & 7 == 7,
        op & 7 == 3,
{
}

/// A CPU step (instruction or interrupt dispatch) completes no frame: its bus writes
/// leave the PPU's frame-ready flag as it was.
pub proof fn lemma_step_keeps_frame_ready(c: Cpu, b: BusView, k1: BusClock, k2: BusClock)
    ensures
        spec_step(c, b, k1, k2).1.ppu.frame_ready == b.ppu.frame_ready,
{
    broadcast use crate::bus::lemma_write_keeps_frame_ready;
    if c.ime && b.pending() != 0 {
    } else if c.halted && b.pending() == 0 {
    } else {
        let (c1, op) = spec_fetch(Cpu { halted: false, ..c }, b);
        if op < 0x40 {
            assert(exec::spec_block0(c1, b, op, k1, k2).1.ppu.frame_ready == b.ppu.frame_ready);
        } else if op == 0x76 {
        } else if op < 0x80 {
        } else if op < 0xC0 {
        } else if op == 0xCB {
        } else {
            assert(exec::spec_block3(c1, b, op, k1, k2).1.ppu.frame_ready == b.ppu.frame_ready);
        }
    }
}

/// `EI` does not enable interrupts at once: after it IME is still off, with the
/// enable pending.
pub proof fn lemma_ei_delayed(c: Cpu, b: BusView, k1: BusClock, k2: BusClock)
    requires
        !c.ime,
        !c.ime_pending,
        !c.halted,
        b.spec_read(c.regs.pc) == 0xFB,
    ensures
        !spec_step(c, b, k1, k2).0.ime,
        spec_step(c, b, k1, k2).0.ime_pending,
{
    lemma_decode_fb(0xFB);
}

/// A pending enable takes effect at the end of the next instruction, whatever it is
/// (a `DI` there included: the enable was taken before it ran).
pub proof fn lemma_pending_ime_activates(c: Cpu, b: BusView, k1: BusClock, k2: BusClock)
    requires
        c.ime_pending,
        !c.ime,
        !c.halted,
    ensures
        spec_step(c, b, k1, k2).0.ime,
        !spec_step(c, b, k1, k2).0.ime_pending,
{
}

/// HALT with IME off and an interrupt already pending does not halt; the next
/// opcode fetch then leaves PC where it was, so that byte is read twice.
pub proof fn lemma_halt_bug(c: Cpu, b: BusView)
    requires
        !c.ime,
        !c.halted,
        b.pending() != 0,
    ensures
        ({
            let (c1, _, _) = exec::spec_halt(c, b);
            &&& !c1.halted && c1.halt_bug
            &&& spec_fetch(c1, b).0.regs.pc == c.regs.pc
            &&& !spec_fetch(c1, b).0.halt_bug
        }),
{
}

/// A halted CPU with no pending interrupt sleeps: the step changes nothing and takes
/// one M-cycle. Any pending interrupt, enabled or not, wakes it.
pub proof fn lemma_halt_sleeps(c: Cpu, b: BusView, k1: BusClock, k2: BusClock)
    requires
        c.halted,
    ensures
        b.pending() == 0 ==> spec_step(c, b, k1, k2) == (c, b, 1u32),
        b.pending() != 0 ==> spec_step(c, b, k1, k2).2 >= 1 && (c.ime ==> !spec_step(c, b, k1, k2).0.halted),
{
    lemma_step_cycles(c, b, k1, k2);
}

/// Interrupt dispatch turns IME off and jumps to the handler of the lowest pending
/// enabled source; with the stack in plain RAM, that source's request bit is the
/// only one cleared in IF.
pub proof fn lemma_service(c: Cpu, b: BusView, k1: BusClock, k2: BusClock)
    requires
        b.wf(),
        stack_in_ram(c.regs.sp),
    ensures
        !spec_service(c, b, k1, k2).0.ime,
        spec_service(c, b, k1, k2).0.regs.pc == spec_vector(b.pending()),
        spec_service(c, b, k1, k2).1.interrupts.iflag.bits == b.interrupts.iflag.bits & !lowest_flag(b.pending()),
        spec_service(c, b, k1, k2).2 == 5,
{
    reveal(BusView::spec_write);
    let p = b.pending();
    let flag = lowest_flag(p);
    let b1 = BusView {
        interrupts: crate::interrupts::Interrupts {
            iflag: IntFlags { bits: b.interrupts.iflag.bits & !flag },
            ..b.interrupts
        },
        ..b
    };
    let sp1 = wrap16(c.regs.sp - 1);
    let sp2 = wrap16(sp1 - 1);
    let b2 = b1.spec_write(sp1, hi_byte(c.regs.pc), k1);
    assert(b2.interrupts == b1.interrupts);
    assert(b2.spec_write(sp2, lo_byte(c.regs.pc), k2).interrupts == b1.interrupts);
}

proof fn lemma_lowest_flag_is_source(p: u8, i: u8)
    by (bit_vector)
    requires
        i < 5,
        (p >> i) & 1 == 1,
        p & (((1u8 << i) - 1) as u8) == 0,
    ensures
        lowest_flag(p) == 1u8 << i,
{
}

/// Dispatch serves the lowest-numbered source `i` that is both requested and
/// enabled: it jumps to `0x0040 + 8 i` and clears bit `i` of IF alone (with the
/// stack in plain RAM).
pub proof fn lemma_service_source(c: Cpu, b: BusView, k1: BusClock, k2: BusClock, i: u8)
    requires
        b.wf(),
        stack_in_ram(c.regs.sp),
        i < 5,
        (b.pending() >> i) & 1 == 1,
        b.pending() & (((1u8 << i) - 1) as u8) == 0,
    ensures
        spec_service(c, b, k1, k2).0.regs.pc == 0x0040 + 8 * (i as u16),
        spec_service(c, b, k1, k2).1.interrupts.iflag.bits == b.interrupts.iflag.bits & !(1u8 << i),
{
    lemma_service(c, b, k1, k2);
    crate::interrupts::lemma_vector_of_source(b.pending(), i);
    lemma_lowest_flag_is_source(b.pending(), i);
}

impl Cpu {
    /// CPU state after the DMG boot ROM hands over (IME off, not halted).
    pub fn post_boot() -> (r: Cpu)
        ensures r.regs.post_boot_values(), !r.ime && !r.ime_pending && !r.halted && !r.halt_bug,
    {
        Cpu { regs: Registers::post_boot(), ime: false, ime_pending: false, halted: false, halt_bug: false }
    }

    /// CPU state after the CGB boot ROM hands over to a CGB cartridge.
    pub fn post_boot_cgb() -> (r: Cpu)
        ensures r.regs.post_boot_cgb_values(), !r.ime && !r.ime_pending && !r.halted && !r.halt_bug,
    {
        Cpu { regs: Registers::post_boot_cgb(), ime: false, ime_pending: false, halted: false, halt_bug: false }
    }

    /// Whether the next step runs a defined opcode (the only steps this core takes).
    pub fn can_step(&self, bus: &Bus) -> (r: bool)
        requires bus.wf(),
        ensures r == can_step(*self, bus@),
    {
        let p = bus.pending_interrupts().bits() != 0;
        if (self.ime && p) || (self.halted && !p) {
            true
        } else {
            exec::is_legal(bus.read(self.regs.pc))
        }
    }

    /// Runs the next instruction, or services an interrupt, or sleeps one M-cycle
    /// while halted. Returns the M-cycles taken.
    pub fn step(&mut self, bus: &mut Bus) -> (r: u32)
        requires old(bus).wf(), can_step(*old(self), old(bus)@),
        ensures
            final(bus).wf(),
            exists|k: Clocks| (*final(self), final(bus)@, r) == spec_step(*old(self), old(bus)@, k.0, k.1),
    {
        let activate_ime = self.ime_pending;
        let pending = bus.pending_interrupts().bits() != 0;
        if self.ime && pending {
            self.halted = false;
            let (r, k) = self.service_interrupt(bus);
            assert((*self, bus@, r) == spec_step(*old(self), old(bus)@, k@.0, k@.1));
            return r;
        }
        if self.halted {
            if pending {
                self.halted = false;
            } else {
                let ghost k: Clocks = vstd::pervasive::arbitrary();
                assert((*self, bus@, 1u32) == spec_step(*old(self), old(bus)@, k.0, k.1));
                return 1;
            }
        }
        let ghost c0 = *self;
        let ghost b0 = bus@;
        let cycles = exec::step(self, bus);
        let ghost k = choose|k: Clocks| (*self, bus@, cycles) == exec::spec_fetch_exec(c0, b0, k.0, k.1);
        if activate_ime {
            self.ime = true;
            self.ime_pending = false;
        }
        assert((*self, bus@, cycles) == spec_step(*old(self), old(bus)@, k.0, k.1));
        cycles
    }

    /// Opcode or operand fetch at PC.
    pub(crate) fn fetch8(&mut self, bus: &Bus) -> (v: u8)
        requires bus.wf(),
        ensures (*final(self), v) == spec_fetch(*old(self), bus@),
    {
        let v = bus.read(self.regs.pc);
        if self.halt_bug {
            self.halt_bug = false;
        } else {
            self.regs.pc = ((self.regs.pc as u32 + 1) % 65536) as u16;
        }
        v
    }

    pub(crate) fn fetch16(&mut self, bus: &Bus) -> (v: u16)
        requires bus.wf(),
        ensures (*final(self), v) == spec_fetch16(*old(self), bus@),
    {
        let lo = self.fetch8(bus);
        let hi = self.fetch8(bus);
        join(hi, lo)
    }

    pub(crate) fn push16(&mut self, bus: &mut Bus, v: u16) -> (k: Ghost<Clocks>)
        requires old(bus).wf(),
        ensures
            final(bus).wf(),
            (*final(self), final(bus)@) == spec_push(*old(self), old(bus)@, v, k@.0, k@.1),
    {
        self.regs.sp = ((self.regs.sp as u32 + 65535) % 65536) as u16;
        let k1 = exec::write8(bus, self.regs.sp, high(v));
        self.regs.sp = ((self.regs.sp as u32 + 65535) % 65536) as u16;
        let k2 = exec::write8(bus, self.regs.sp, low(v));
        Ghost((k1@, k2@))
    }

    pub(crate) fn pop16(&mut self, bus: &Bus) -> (v: u16)
        requires bus.wf(),
        ensures (*final(self), v) == spec_pop(*old(self), bus@),
    {
        let lo = bus.read(self.regs.sp);
        self.regs.sp = ((self.regs.sp as u32 + 1) % 65536) as u16;
        let hi = bus.read(self.regs.sp);
        self.regs.sp = ((self.regs.sp as u32 + 1) % 65536) as u16;
        join(hi, lo)
    }

    fn service_interrupt(&mut self, bus: &mut Bus) -> (r: (u32, Ghost<Clocks>))
        requires old(bus).wf(),
        ensures
            final(bus).wf(),
            (*final(self), final(bus)@, r.0) == spec_service(*old(self), old(bus)@, r.1@.0, r.1@.1),
    {
        let pending = bus.pending_interrupts();
        let p = pending.bits();
        let f: u8 = if p & 0x01 != 0 {
            0x01
        } else if p & 0x02 != 0 {
            0x02
        } else if p & 0x04 != 0 {
            0x04
        } else if p & 0x08 != 0 {
            0x08
        } else if p & 0x10 != 0 {
            0x10
        } else {
            0
        };
        let vector = pending.vector();
        self.ime = false;
        bus.clear_if(IntFlags { bits: f });
        let pc = self.regs.pc;
        let k = self.push16(bus, pc);
        self.regs.pc = vector;
        (5, k)
    }
}

} // verus!
