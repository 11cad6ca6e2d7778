//! DIV / TIMA / TMA / TAC, following the "internal 16-bit counter with
//! falling-edge detection" model (TCAGBD 2.1, Pan Docs Timer section).
//!
//! * `DIV` (`FF04`) is the upper byte of `counter`; writing it resets the counter.
//! * `TIMA` (`FF05`) ticks on the falling edge of `(selected counter bit AND enable)`,
//!   the bit chosen by `TAC[1:0]`: 00 bit 9, 01 bit 3, 10 bit 5, 11 bit 7.
//! * After a `TIMA` overflow it reads 0 for 4 T-cycles, then is reloaded from `TMA`
//!   and the timer interrupt is requested.

use vstd::prelude::*;
use crate::interrupts::{IntFlags, Interrupts};

verus! {

#[derive(Debug)]
pub struct Timer {
    /// Internal 16-bit counter; DIV is its upper byte.
    pub counter: u16,
    pub tima: u8,
    pub tma: u8,
    pub tac: u8,
    /// T-cycles left in the reload window after a TIMA overflow (0 when none).
    pub overflow_pending: u8,
    /// The edge detector's input at the previous cycle.
    pub last_and_result: bool,
}

/// Counter bit watched by the edge detector for the given `TAC`.
pub open spec fn selected_bit(tac: u8) -> u16 {
    if tac & 3 == 0 {
        9
    } else if tac & 3 == 1 {
        3
    } else if tac & 3 == 2 {
        5
    } else {
        7
    }
}

/// Edge-detector input: timer enabled (`TAC` bit 2) and the selected counter bit set.
pub open spec fn spec_and_result(counter: u16, tac: u8) -> bool {
    tac & 4 != 0 && (counter >> selected_bit(tac)) & 1 != 0
}

impl Timer {
    pub open spec fn spec_increment_tima(self) -> Timer {
        if self.tima == 255 {
            Timer { tima: 0, overflow_pending: 4, ..self }
        } else {
            Timer { tima: (self.tima + 1) as u8, ..self }
        }
    }

    /// Applies the falling-edge detector after the counter or `TAC` changed.
    pub open spec fn spec_edge(self) -> Timer {
        let new_and = spec_and_result(self.counter, self.tac);
        let t = if self.last_and_result && !new_and { self.spec_increment_tima() } else { self };
        Timer { last_and_result: new_and, ..t }
    }

    /// One T-cycle: the timer after it, and whether it requested the timer interrupt.
    pub open spec fn spec_step(self) -> (Timer, bool) {
        let (t1, irq) = if self.overflow_pending > 0 {
            if self.overflow_pending == 1 {
                (Timer { overflow_pending: 0, tima: self.tma, ..self }, true)
            } else {
                (Timer { overflow_pending: (self.overflow_pending - 1) as u8, ..self }, false)
            }
        } else {
            (self, false)
        };
        let t2 = Timer { counter: ((t1.counter + 1) % 65536) as u16, ..t1 };
        (t2.spec_edge(), irq)
    }

    /// `n` T-cycles: the timer after them, and whether any of them requested the interrupt.
    pub open spec fn spec_run(self, n: nat) -> (Timer, bool)
        decreases n,
    {
        if n == 0 {
            (self, false)
        } else {
            let (t, i) = self.spec_run((n - 1) as nat);
            let (t2, i2) = t.spec_step();
            (t2, i || i2)
        }
    }

    pub open spec fn spec_read(self, addr: u16) -> u8 {
        if addr == 0xFF04 {
            (self.counter / 256) as u8
        } else if addr == 0xFF05 {
            self.tima
        } else if addr == 0xFF06 {
            self.tma
        } else if addr == 0xFF07 {
            0xF8 | self.tac
        } else {
            0xFF
        }
    }

    pub open spec fn spec_write(self, addr: u16, val: u8) -> Timer {
        if addr == 0xFF04 {
            Timer { counter: 0, ..self }.spec_edge()
        } else if addr == 0xFF05 {
            Timer { tima: val, ..self }
        } else if addr == 0xFF06 {
            Timer { tma: val, ..self }
        } else if addr == 0xFF07 {
            Timer { tac: val & 0x07, ..self }.spec_edge()
        } else {
            self
        }
    }

    pub open spec fn fresh(self) -> bool {
        &&& self.counter == 0 && self.tima == 0 && self.tma == 0 && self.tac == 0
        &&& self.overflow_pending == 0 && !self.last_and_result
    }

    pub fn new() -> (r: Timer)
        ensures r.fresh(),
    {
        Timer { counter: 0, tima: 0, tma: 0, tac: 0, overflow_pending: 0, last_and_result: false }
    }

    /// Advances the timer by `t_cycles` T-cycles, requesting the timer interrupt
    /// whenever a TIMA reload completes.
    pub fn tick(&mut self, t_cycles: u32, ints: &mut Interrupts)
        ensures
            *final(self) == old(self).spec_run(t_cycles as nat).0,
            final(ints).ie == old(ints).ie,
            final(ints).iflag.bits == (if old(self).spec_run(t_cycles as nat).1 {
                old(ints).iflag.bits | 0x04
            } else {
                old(ints).iflag.bits
            }),
    {
        let ghost t0 = *self;
        let ghost if0 = ints.iflag.bits;
        let mut i: u32 = 0;
        while i < t_cycles
            invariant
                i <= t_cycles,
                *self == t0.spec_run(i as nat).0,
                ints.ie == old(ints).ie,
                ints.iflag.bits == (if t0.spec_run(i as nat).1 { if0 | 0x04 } else { if0 }),
            decreases t_cycles - i,
        {
            let irq = self.tick_one();
            if irq {
                ints.request(IntFlags::timer());
                assert((if0 | 0x04) | 0x04 == if0 | 0x04) by (bit_vector);
            }
            i = i + 1;
        }
    }

    /// One T-cycle; returns whether the timer interrupt is requested.
    fn tick_one(&mut self) -> (irq: bool)
        ensures (*final(self), irq) == old(self).spec_step(),
    {
        let mut irq = false;
        if self.overflow_pending > 0 {
            self.overflow_pending = self.overflow_pending - 1;
            if self.overflow_pending == 0 {
                self.tima = self.tma;
                irq = true;
            }
        }
        self.counter = ((self.counter as u32 + 1) % 65536) as u16;
        self.edge();
        irq
    }

    fn edge(&mut self)
        ensures *final(self) == old(self).spec_edge(),
    {
        let new_and = self.and_result();
        if self.last_and_result && !new_and {
            self.increment_tima();
        }
        self.last_and_result = new_and;
    }

    fn increment_tima(&mut self)
        ensures *final(self) == old(self).spec_increment_tima(),
    {
        if self.tima == 255 {
            self.tima = 0;
            self.overflow_pending = 4;
        } else {
            self.tima = self.tima + 1;
        }
    }

    fn and_result(&self) -> (r: bool)
        ensures r == spec_and_result(self.counter, self.tac),
    {
        let bit: u16 = if self.tac & 3 == 0 {
            9
        } else if self.tac & 3 == 1 {
            3
        } else if self.tac & 3 == 2 {
            5
        } else {
            7
        };
        (self.tac & 4) != 0 && (self.counter >> bit) & 1 != 0
    }

    pub fn read(&self, addr: u16) -> (r: u8)
        ensures r == self.spec_read(addr),
    {
        if addr == 0xFF04 {
            (self.counter / 256) as u8
        } else if addr == 0xFF05 {
            self.tima
        } else if addr == 0xFF06 {
            self.tma
        } else if addr == 0xFF07 {
            0xF8 | self.tac
        } else {
            0xFF
        }
    }

    /// Register write. Writing DIV resets the whole counter and changing TAC may
    /// move the edge-detector input; either can produce a TIMA tick.
    pub fn write(&mut self, addr: u16, val: u8)
        ensures *final(self) == old(self).spec_write(addr, val),
    {
        if addr == 0xFF04 {
            self.counter = 0;
            self.edge();
        } else if addr == 0xFF05 {
            self.tima = val;
        } else if addr == 0xFF06 {
            self.tma = val;
        } else if addr == 0xFF07 {
            self.tac = val & 0x07;
            self.edge();
        }
    }
}

/// Writing DIV resets the whole internal counter, so DIV then reads 0.
pub proof fn lemma_div_write_resets(t: Timer, val: u8)
    ensures
        t.spec_write(0xFF04, val).counter == 0,
        t.spec_write(0xFF04, val).spec_read(0xFF04) == 0,
{
}

/// The internal counter counts T-cycles modulo 2^16 whatever TAC says, and no
/// T-cycle changes TAC or TMA.
pub proof fn lemma_counter_counts_cycles(t: Timer, n: nat)
    ensures
        t.spec_run(n).0.counter == (t.counter + n) % 65536,
        t.spec_run(n).0.tac == t.tac,
        t.spec_run(n).0.tma == t.tma,
    decreases n,
{
    if n > 0 {
        lemma_counter_counts_cycles(t, (n - 1) as nat);
        let c = t.counter + n - 1;
        assert(((c % 65536) + 1) % 65536 == (c + 1) % 65536) by (nonlinear_arith)
            requires c >= 0;
    }
}

/// DIV, the upper byte of the counter, goes up by one (modulo 256) every 256 T-cycles.
pub proof fn lemma_div_ticks_every_256(t: Timer)
    ensures
        t.spec_run(256).0.spec_read(0xFF04) == (t.spec_read(0xFF04) + 1) % 256,
{
    lemma_counter_counts_cycles(t, 256);
    let c = t.counter as int;
    assert(((c + 256) % 65536) / 256 == (c / 256 + 1) % 256) by (nonlinear_arith)
        requires 0 <= c < 65536;
}

/// With the timer disabled (TAC bit 2 clear), no reload pending and the edge
/// detector low, TIMA never moves and no timer interrupt is requested.
pub proof fn lemma_disabled_timer_keeps_tima(t: Timer, n: nat)
    requires
        t.tac & 4 == 0,
        t.overflow_pending == 0,
        !t.last_and_result,
    ensures
        t.spec_run(n).0.tima == t.tima,
        !t.spec_run(n).1,
        t.spec_run(n).0.tac == t.tac,
        t.spec_run(n).0.overflow_pending == 0,
        !t.spec_run(n).0.last_and_result,
    decreases n,
{
    if n > 0 {
        lemma_disabled_timer_keeps_tima(t, (n - 1) as nat);
    }
}

/// T-cycles between TIMA increments for the clock select in TAC bits 1-0
/// (4096, 262144, 65536 and 16384 Hz).
pub open spec fn timer_period(tac: u8) -> int {
    if tac & 3 == 0 {
        1024
    } else if tac & 3 == 1 {
        16
    } else if tac & 3 == 2 {
        64
    } else {
        256
    }
}

proof fn lemma_counter_bits(c: u16)
    by (bit_vector)
    ensures
        ((c >> 3u16) & 1 != 0) == (c % 16 >= 8),
        ((c >> 5u16) & 1 != 0) == (c % 64 >= 32),
        ((c >> 7u16) & 1 != 0) == (c % 256 >= 128),
        ((c >> 9u16) & 1 != 0) == (c % 1024 >= 512),
{
}

/// The edge detector's input is high exactly in the second half of each period of
/// the selected rate, while the timer is enabled.
proof fn lemma_and_result_half(c: u16, tac: u8)
    ensures
        spec_and_result(c, tac) == (tac & 4 != 0 && c as int % timer_period(tac) >= timer_period(tac) / 2),
{
    lemma_counter_bits(c);
}

proof fn lemma_aligned_offset(c0: int, k: int, p: int)
    by (nonlinear_arith)
    requires
        p > 0,
        c0 >= 0,
        c0 % p == 0,
        0 <= k < p,
        65536int % p == 0,
        c0 < 65536,
    ensures
        (c0 + k) % p == k,
        c0 + p <= 65536,
{
    let q = c0 / p;
    assert(c0 == q * p);
    let r = 65536int / p;
    assert(65536int == r * p);
    assert(q < r);
    assert(q + 1 <= r);
    assert(c0 + p == (q + 1) * p);
}

proof fn lemma_timer_phase(t: Timer, k: nat)
    requires
        t.tac & 4 != 0,
        t.counter as int % timer_period(t.tac) == 0,
        t.overflow_pending == 0,
        t.last_and_result == spec_and_result(t.counter, t.tac),
        k < timer_period(t.tac),
    ensures
        t.spec_run(k).0 == (Timer {
            counter: (t.counter + k) as u16,
            last_and_result: k >= timer_period(t.tac) / 2,
            ..t
        }),
        !t.spec_run(k).1,
    decreases k,
{
    let p = timer_period(t.tac);
    lemma_aligned_offset(t.counter as int, k as int, p);
    if k == 0 {
        lemma_and_result_half(t.counter, t.tac);
    } else {
        lemma_timer_phase(t, (k - 1) as nat);
        lemma_aligned_offset(t.counter as int, k - 1, p);
        lemma_and_result_half((t.counter + k) as u16, t.tac);
    }
}

/// With the timer enabled, TIMA goes up by exactly one per period of the selected
/// rate: 1024, 16, 64 or 256 T-cycles for TAC clock select 00, 01, 10, 11. Counted
/// from a counter value that starts such a period (edge detector settled, no reload
/// pending, TIMA below 255), TIMA stays put for the period's first `p - 1` cycles
/// and is one higher after `p`, with no interrupt.
pub proof fn lemma_tima_rate(t: Timer, k: nat)
    requires
        t.tac & 4 != 0,
        t.counter as int % timer_period(t.tac) == 0,
        t.overflow_pending == 0,
        t.last_and_result == spec_and_result(t.counter, t.tac),
        t.tima < 255,
        k < timer_period(t.tac),
    ensures
        t.spec_run(k).0.tima == t.tima,
        t.spec_run(timer_period(t.tac) as nat).0.tima == t.tima + 1,
        !t.spec_run(timer_period(t.tac) as nat).1,
{
    let p = timer_period(t.tac);
    lemma_timer_phase(t, k);
    lemma_timer_phase(t, (p - 1) as nat);
    lemma_aligned_offset(t.counter as int, p - 1, p);
    let c = ((t.counter + p) % 65536) as u16;
    lemma_and_result_half(c, t.tac);
    assert(c as int % p == 0) by (nonlinear_arith)
        requires
            c == (t.counter + p) % 65536,
            t.counter as int % p == 0,
            t.counter + p <= 65536,
            p > 0,
            65536int % p == 0;
}

/// After a TIMA overflow the reload, and the timer interrupt with it, comes exactly
/// four T-cycles later.
pub proof fn lemma_reload_after_four_cycles(t: Timer)
    requires
        t.overflow_pending == 4,
        t.tima == 0,
    ensures
        !t.spec_run(3).1,
        t.spec_run(3).0.overflow_pending == 1,
        t.spec_run(4).1,
{
    reveal_with_fuel(Timer::spec_run, 5);
    let (t1, i1) = t.spec_step();
    let (t2, i2) = t1.spec_step();
    let (t3, i3) = t2.spec_step();
    assert(t1.overflow_pending == 3 && t1.tima <= 1 && !i1);
    assert(t2.overflow_pending == 2 && t2.tima <= 2 && !i2);
    assert(t3.overflow_pending == 1 && t3.tima <= 3 && !i3);
}

} // verus!
