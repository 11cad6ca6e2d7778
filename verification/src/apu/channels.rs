//! The four sound channels: two square waves (the first with a frequency sweep), the
//! wave channel and the noise channel, with their length counters and envelopes.

use vstd::prelude::*;

verus! {

/// Whether the frame-sequencer step after `fs_step` clocks the length counters.
pub open spec fn next_step_clocks_length(fs_step: u8) -> bool {
    let n = (fs_step + 1) % 8;
    n == 0 || n == 2 || n == 4 || n == 6
}

fn next_clocks_length(fs_step: u8) -> (r: bool)
    ensures r == next_step_clocks_length(fs_step),
{
    let n = ((fs_step as u16 + 1) % 8) as u8;
    n == 0 || n == 2 || n == 4 || n == 6
}

/// Output bit of each duty pattern (12.5 %, 25 %, 50 %, 75 %) at each of its 8 steps.
pub open spec fn duty_bit(duty: u8, index: u8) -> u8 {
    let pattern: u8 = if duty == 0 { 0x01 } else if duty == 1 { 0x81 } else if duty == 2 { 0x87 } else { 0x7E };
    (pattern >> (7 - index) as u8) & 1
}

fn duty_table(duty: u8, index: u8) -> (r: u8)
    requires index < 8,
    ensures r == duty_bit(duty, index),
{
    let pattern: u8 = if duty == 0 { 0x01 } else if duty == 1 { 0x81 } else if duty == 2 { 0x87 } else { 0x7E };
    (pattern >> (7 - index)) & 1
}

#[derive(Debug, Clone, Copy)]
pub struct Envelope {
    /// Initial volume (0..15).
    pub initial: u8,
    pub increase: bool,
    /// Steps between volume changes (0 disables).
    pub period: u8,
    pub volume: u8,
    pub timer: u8,
    pub enabled: bool,
}

impl Envelope {
    pub open spec fn spec_write_nrx2(self, val: u8) -> Envelope {
        Envelope { initial: val >> 4u8, increase: val & 0x08 != 0, period: val & 0x07, ..self }
    }

    pub open spec fn spec_nrx2(self) -> u8 {
        ((self.initial as int * 16 + (if self.increase { 8int } else { 0 }) + self.period as int) % 256) as u8
    }

    pub open spec fn spec_trigger(self) -> Envelope {
        Envelope { timer: if self.period == 0 { 8 } else { self.period }, volume: self.initial, enabled: true, ..self }
    }

    /// One envelope clock: every `period` clocks the volume moves one step in its
    /// direction; at the end of the range the envelope stops.
    pub open spec fn spec_tick(self) -> Envelope {
        if !self.enabled || self.period == 0 {
            self
        } else {
            let t: u8 = if self.timer > 0 { (self.timer - 1) as u8 } else { 0 };
            if t == 0 {
                if self.increase && self.volume < 15 {
                    Envelope { timer: self.period, volume: (self.volume + 1) as u8, ..self }
                } else if !self.increase && self.volume > 0 {
                    Envelope { timer: self.period, volume: (self.volume - 1) as u8, ..self }
                } else {
                    Envelope { timer: self.period, enabled: false, ..self }
                }
            } else {
                Envelope { timer: t, ..self }
            }
        }
    }

    /// The DAC is on unless NRx2 bits 7..3 are all zero.
    pub open spec fn spec_dac_enabled(self) -> bool {
        self.initial != 0 || self.increase
    }

    pub fn zero() -> (r: Envelope)
        ensures r.initial == 0 && !r.increase && r.period == 0 && r.volume == 0 && r.timer == 0 && !r.enabled,
    {
        Envelope { initial: 0, increase: false, period: 0, volume: 0, timer: 0, enabled: false }
    }

    pub fn write_nrx2(&mut self, val: u8)
        ensures *final(self) == old(self).spec_write_nrx2(val),
    {
        self.initial = val >> 4;
        self.increase = val & 0x08 != 0;
        self.period = val & 0x07;
    }

    pub fn nrx2(&self) -> (r: u8)
        ensures r == self.spec_nrx2(),
    {
        ((self.initial as u16 * 16 + (if self.increase { 8u16 } else { 0 }) + self.period as u16) % 256) as u8
    }

    pub fn trigger(&mut self)
        ensures *final(self) == old(self).spec_trigger(),
    {
        self.timer = if self.period == 0 { 8 } else { self.period };
        self.volume = self.initial;
        self.enabled = true;
    }

    pub fn tick(&mut self)
        ensures *final(self) == old(self).spec_tick(),
    {
        if !self.enabled || self.period == 0 {
            return;
        }
        self.timer = if self.timer > 0 { self.timer - 1 } else { 0 };
        if self.timer == 0 {
            self.timer = self.period;
            if self.increase && self.volume < 15 {
                self.volume = self.volume + 1;
            } else if !self.increase && self.volume > 0 {
                self.volume = self.volume - 1;
            } else {
                self.enabled = false;
            }
        }
    }

    pub fn dac_enabled(&self) -> (r: bool)
        ensures r == self.spec_dac_enabled(),
    {
        self.initial != 0 || self.increase
    }
}

/// The envelope after `n` envelope clocks.
pub open spec fn envelope_after(e: Envelope, n: nat) -> Envelope
    decreases n,
{
    if n == 0 { e } else { envelope_after(e, (n - 1) as nat).spec_tick() }
}

proof fn lemma_envelope_waits(e: Envelope, k: nat)
    requires
        e.enabled,
        e.period > 0,
        k < e.timer,
    ensures
        envelope_after(e, k) == (Envelope { timer: (e.timer - k) as u8, ..e }),
    decreases k,
{
    if k > 0 {
        lemma_envelope_waits(e, (k - 1) as nat);
    }
}

/// After NRx2 is written with a non-zero period `p` and the channel is triggered,
/// the volume holds at the initial volume (NRx2 bits 7-4) for `p - 1` envelope
/// clocks; the `p`-th clock moves it one step up when NRx2 bit 3 is set and one step
/// down when it is clear, unless it already stands at 15 (up) or 0 (down).
pub proof fn lemma_envelope_steps(e: Envelope, val: u8, k: nat)
    requires
        val & 0x07 != 0,
        k < val & 0x07,
    ensures
        ({
            let e1 = e.spec_write_nrx2(val).spec_trigger();
            let v0 = (val >> 4u8) as int;
            &&& envelope_after(e1, k).volume == v0
            &&& envelope_after(e1, (val & 0x07) as nat).volume
                == (if val & 0x08 != 0 { if v0 < 15 { v0 + 1 } else { v0 } } else { if v0 > 0 { v0 - 1 } else { v0 } })
        }),
{
    let e1 = e.spec_write_nrx2(val).spec_trigger();
    let p = (val & 0x07) as nat;
    lemma_envelope_waits(e1, k);
    lemma_envelope_waits(e1, (p - 1) as nat);
}

/// Square channel; channel 1 has the sweep unit, channel 2 leaves it inert.
#[derive(Debug, Clone, Copy)]
pub struct SquareChannel {
    pub has_sweep: bool,
    /// NR52 status bit.
    pub enabled: bool,
    /// Length counter (0..64).
    pub length: u16,
    pub length_enable: bool,
    pub duty: u8,
    /// Step within the duty pattern (0..7).
    pub duty_index: u8,
    /// 11-bit period value.
    pub freq: u16,
    /// T-cycles until the next duty step.
    pub freq_timer: u32,
    pub env: Envelope,
    pub sweep_period: u8,
    pub sweep_negate: bool,
    pub sweep_shift: u8,
    pub sweep_timer: u8,
    pub sweep_enabled: bool,
    pub sweep_shadow_freq: u16,
    /// A sweep calculation in negate mode happened since the last trigger.
    pub sweep_negate_calculated: bool,
    /// Raw NR10 byte.
    pub nrx0_raw: u8,
    /// Raw NRx1 byte.
    pub nrx1_raw: u8,
}

impl SquareChannel {
    pub open spec fn wf(self) -> bool {
        self.freq <= 2047 && self.duty_index < 8 && self.duty < 4 && self.sweep_shift < 8
    }

    pub open spec fn spec_new(has_sweep: bool) -> SquareChannel {
        SquareChannel {
            has_sweep, enabled: false, length: 0, length_enable: false, duty: 0, duty_index: 0, freq: 0,
            freq_timer: 0,
            env: Envelope { initial: 0, increase: false, period: 0, volume: 0, timer: 0, enabled: false },
            sweep_period: 0, sweep_negate: false, sweep_shift: 0, sweep_timer: 0, sweep_enabled: false,
            sweep_shadow_freq: 0, sweep_negate_calculated: false, nrx0_raw: 0, nrx1_raw: 0,
        }
    }

    pub open spec fn spec_period(self) -> u32 {
        ((2048 - self.freq) * 4) as u32
    }

    /// NR10: sweep period, direction and shift. Clearing the negate bit after a
    /// calculation in negate mode disables the channel.
    pub open spec fn spec_write_nrx0(self, val: u8) -> SquareChannel {
        if self.has_sweep {
            let new_negate = val & 0x08 != 0;
            SquareChannel {
                nrx0_raw: val,
                sweep_period: (val >> 4u8) & 0x07,
                enabled: if self.sweep_negate && !new_negate && self.sweep_negate_calculated { false } else { self.enabled },
                sweep_negate: new_negate,
                sweep_shift: val & 0x07,
                ..self
            }
        } else {
            SquareChannel { nrx0_raw: val, ..self }
        }
    }

    /// NRx1: the length load is always written; duty only while the APU is powered.
    pub open spec fn spec_write_nrx1(self, val: u8, power_on: bool) -> SquareChannel {
        let s = SquareChannel { length: (64 - (val & 0x3F)) as u16, ..self };
        if power_on { SquareChannel { duty: (val >> 6u8) & 0x03, nrx1_raw: val, ..s } } else { s }
    }

    pub open spec fn spec_write_nrx2(self, val: u8) -> SquareChannel {
        let e = self.env.spec_write_nrx2(val);
        SquareChannel { env: e, enabled: if !e.spec_dac_enabled() { false } else { self.enabled }, ..self }
    }

    pub open spec fn spec_write_nrx3(self, val: u8) -> SquareChannel {
        SquareChannel { freq: ((self.freq / 256) * 256 + val) as u16, ..self }
    }

    /// One sweep calculation from the shadow frequency; a result above 2047 disables
    /// the channel.
    pub open spec fn spec_sweep_calculate(self) -> (SquareChannel, u16) {
        let delta = self.sweep_shadow_freq >> (self.sweep_shift as u16);
        let (s, nf) = if self.sweep_negate {
            (SquareChannel { sweep_negate_calculated: true, ..self }, ((self.sweep_shadow_freq - delta + 65536) % 65536) as u16)
        } else {
            (self, ((self.sweep_shadow_freq + delta) % 65536) as u16)
        };
        (if nf > 2047 { SquareChannel { enabled: false, ..s } } else { s }, nf)
    }

    pub open spec fn spec_trigger(self, fs_step: u8) -> SquareChannel {
        let s1 = if self.length == 0 {
            SquareChannel { length: if self.length_enable && !next_step_clocks_length(fs_step) { 63 } else { 64 }, ..self }
        } else {
            self
        };
        let s2 = SquareChannel { enabled: true, freq_timer: self.spec_period(), env: self.env.spec_trigger(), ..s1 };
        let s3 = if self.has_sweep {
            let s = SquareChannel {
                sweep_shadow_freq: self.freq,
                sweep_timer: if self.sweep_period == 0 { 8 } else { self.sweep_period },
                sweep_enabled: self.sweep_period != 0 || self.sweep_shift != 0,
                sweep_negate_calculated: false,
                ..s2
            };
            if self.sweep_shift != 0 { s.spec_sweep_calculate().0 } else { s }
        } else {
            s2
        };
        if !s3.env.spec_dac_enabled() { SquareChannel { enabled: false, ..s3 } } else { s3 }
    }

    /// NRx4: period high bits, length enable (with the extra length clock when enabled
    /// in the half of the sequence whose next step does not clock length) and trigger.
    pub open spec fn spec_write_nrx4(self, val: u8, fs_step: u8) -> SquareChannel {
        let s1 = SquareChannel {
            freq: ((self.freq % 256) + (val & 0x07) as int * 256) as u16,
            length_enable: val & 0x40 != 0,
            ..self
        };
        let s2 = if !self.length_enable && val & 0x40 != 0 && !next_step_clocks_length(fs_step) && self.length > 0 {
            let l = (self.length - 1) as u16;
            SquareChannel { length: l, enabled: if l == 0 && val & 0x80 == 0 { false } else { s1.enabled }, ..s1 }
        } else {
            s1
        };
        if val & 0x80 != 0 { s2.spec_trigger(fs_step) } else { s2 }
    }

    /// `t` T-cycles of the duty sequencer.
    pub open spec fn spec_run(self, t: u32) -> SquareChannel
        decreases t,
    {
        if t == 0 {
            self
        } else {
            let timer = if self.freq_timer == 0 { self.spec_period() } else { self.freq_timer };
            if timer == 0 {
                self
            } else {
                let step = if t < timer { t } else { timer };
                let nt = (timer - step) as u32;
                let s = SquareChannel {
                    freq_timer: nt,
                    duty_index: if nt == 0 { ((self.duty_index + 1) % 8) as u8 } else { self.duty_index },
                    ..self
                };
                s.spec_run((t - step) as u32)
            }
        }
    }

    pub open spec fn spec_tick_t(self, t: u32) -> SquareChannel {
        if !self.enabled { self } else { self.spec_run(t) }
    }

    pub open spec fn spec_clock_length(self) -> SquareChannel {
        if self.length_enable && self.length > 0 {
            let l = (self.length - 1) as u16;
            SquareChannel { length: l, enabled: if l == 0 { false } else { self.enabled }, ..self }
        } else {
            self
        }
    }

    pub open spec fn spec_clock_sweep(self) -> SquareChannel {
        if !self.has_sweep {
            self
        } else {
            let t: u8 = if self.sweep_timer > 0 { (self.sweep_timer - 1) as u8 } else { 0 };
            if t == 0 {
                let s = SquareChannel { sweep_timer: if self.sweep_period == 0 { 8 } else { self.sweep_period }, ..self };
                if s.sweep_enabled && s.sweep_period != 0 {
                    let (s1, nf) = s.spec_sweep_calculate();
                    if nf <= 2047 && s1.sweep_shift != 0 {
                        SquareChannel { freq: nf, sweep_shadow_freq: nf, ..s1 }.spec_sweep_calculate().0
                    } else {
                        s1
                    }
                } else {
                    s
                }
            } else {
                SquareChannel { sweep_timer: t, ..self }
            }
        }
    }

    /// Current 4-bit output: the envelope volume while the duty bit is high.
    pub open spec fn spec_sample(self) -> u8 {
        if !self.enabled || !self.env.spec_dac_enabled() {
            0
        } else if duty_bit(self.duty, self.duty_index) == 1 {
            self.env.volume
        } else {
            0
        }
    }

    /// Power-off: everything is cleared except the length counter (DMG keeps it).
    pub open spec fn spec_power_off(self) -> SquareChannel {
        SquareChannel { length: self.length, ..Self::spec_new(self.has_sweep) }
    }

    pub fn new(has_sweep: bool) -> (r: SquareChannel)
        ensures r == Self::spec_new(has_sweep),
    {
        SquareChannel {
            has_sweep, enabled: false, length: 0, length_enable: false, duty: 0, duty_index: 0, freq: 0,
            freq_timer: 0, env: Envelope::zero(), sweep_period: 0, sweep_negate: false, sweep_shift: 0,
            sweep_timer: 0, sweep_enabled: false, sweep_shadow_freq: 0, sweep_negate_calculated: false,
            nrx0_raw: 0, nrx1_raw: 0,
        }
    }

    fn period_t_cycles(&self) -> (r: u32)
        requires self.wf(),
        ensures r == self.spec_period(), r >= 4,
    {
        (2048u32 - self.freq as u32) * 4
    }

    pub fn write_nrx0(&mut self, val: u8)
        requires old(self).wf(),
        ensures *final(self) == old(self).spec_write_nrx0(val), final(self).wf(),
    {
        assert(val & 0x07 < 8) by (bit_vector);
        self.nrx0_raw = val;
        if self.has_sweep {
            self.sweep_period = (val >> 4) & 0x07;
            let new_negate = val & 0x08 != 0;
            if self.sweep_negate && !new_negate && self.sweep_negate_calculated {
                self.enabled = false;
            }
            self.sweep_negate = new_negate;
            self.sweep_shift = val & 0x07;
        }
    }

    pub fn read_nrx0(&self) -> (r: u8)
        ensures r == self.nrx0_raw,
    {
        self.nrx0_raw
    }

    pub fn write_nrx1(&mut self, val: u8, power_on: bool)
        requires old(self).wf(),
        ensures *final(self) == old(self).spec_write_nrx1(val, power_on), final(self).wf(),
    {
        assert(val & 0x3F <= 0x3F && (val >> 6u8) & 0x03 < 4) by (bit_vector);
        self.length = 64 - (val & 0x3F) as u16;
        if power_on {
            self.duty = (val >> 6) & 0x03;
            self.nrx1_raw = val;
        }
    }

    pub fn read_nrx1(&self) -> (r: u8)
        ensures r == self.nrx1_raw & 0xC0,
    {
        self.nrx1_raw & 0xC0
    }

    pub fn write_nrx2(&mut self, val: u8)
        requires old(self).wf(),
        ensures *final(self) == old(self).spec_write_nrx2(val), final(self).wf(),
    {
        self.env.write_nrx2(val);
        if !self.env.dac_enabled() {
            self.enabled = false;
        }
    }

    pub fn read_nrx2(&self) -> (r: u8)
        ensures r == self.env.spec_nrx2(),
    {
        self.env.nrx2()
    }

    pub fn write_nrx3(&mut self, val: u8)
        requires old(self).wf(),
        ensures *final(self) == old(self).spec_write_nrx3(val), final(self).wf(),
    {
        self.freq = (self.freq / 256) * 256 + val as u16;
    }

    fn sweep_calculate(&mut self) -> (r: u16)
        requires old(self).wf(),
        ensures (*final(self), r) == old(self).spec_sweep_calculate(), final(self).wf(),
    {
        let sf = self.sweep_shadow_freq;
        let sh = self.sweep_shift as u16;
        let delta = sf >> sh;
        assert(delta <= sf) by (bit_vector)
            requires delta == sf >> sh;
        let new_freq = if self.sweep_negate {
            self.sweep_negate_calculated = true;
            self.sweep_shadow_freq - delta
        } else {
            ((self.sweep_shadow_freq as u32 + delta as u32) % 65536) as u16
        };
        if new_freq > 2047 {
            self.enabled = false;
        }
        new_freq
    }

    fn trigger(&mut self, fs_step: u8)
        requires old(self).wf(),
        ensures *final(self) == old(self).spec_trigger(fs_step), final(self).wf(),
    {
        let ghost s0 = *self;
        if self.length == 0 {
            self.length = if self.length_enable && !next_clocks_length(fs_step) { 63 } else { 64 };
        }
        self.enabled = true;
        self.freq_timer = (2048u32 - self.freq as u32) * 4;
        self.env.trigger();
        if self.has_sweep {
            self.sweep_shadow_freq = self.freq;
            self.sweep_timer = if self.sweep_period == 0 { 8 } else { self.sweep_period };
            self.sweep_enabled = self.sweep_period != 0 || self.sweep_shift != 0;
            self.sweep_negate_calculated = false;
            if self.sweep_shift != 0 {
                let _ = self.sweep_calculate();
            }
        }
        if !self.env.dac_enabled() {
            self.enabled = false;
        }
    }

    pub fn write_nrx4(&mut self, val: u8, fs_step: u8)
        requires old(self).wf(),
        ensures *final(self) == old(self).spec_write_nrx4(val, fs_step), final(self).wf(),
    {
        assert((val & 0x07) as u16 * 256 + 255 <= 2047) by (bit_vector);
        self.freq = (self.freq % 256) + (val & 0x07) as u16 * 256;
        let prev_le = self.length_enable;
        self.length_enable = val & 0x40 != 0;
        if !prev_le && self.length_enable && !next_clocks_length(fs_step) && self.length > 0 {
            self.length = self.length - 1;
            if self.length == 0 && val & 0x80 == 0 {
                self.enabled = false;
            }
        }
        if val & 0x80 != 0 {
            self.trigger(fs_step);
        }
    }

    pub fn tick_t(&mut self, t: u32)
        requires old(self).wf(),
        ensures
            *final(self) == old(self).spec_tick_t(t),
            final(self).wf(),
            final(self).has_sweep == old(self).has_sweep,
    {
        if !self.enabled {
            return;
        }
        let mut remaining = t;
        while remaining > 0
            invariant
                self.wf(),
                self.has_sweep == old(self).has_sweep,
                self.spec_run(remaining) == old(self).spec_run(t),
            decreases remaining,
        {
            if self.freq_timer == 0 {
                self.freq_timer = self.period_t_cycles();
            }
            let step = if remaining < self.freq_timer { remaining } else { self.freq_timer };
            self.freq_timer = self.freq_timer - step;
            remaining = remaining - step;
            if self.freq_timer == 0 {
                self.duty_index = (self.duty_index + 1) % 8;
            }
        }
    }

    pub fn clock_length(&mut self)
        requires old(self).wf(),
        ensures *final(self) == old(self).spec_clock_length(), final(self).wf(),
    {
        if self.length_enable && self.length > 0 {
            self.length = self.length - 1;
            if self.length == 0 {
                self.enabled = false;
            }
        }
    }

    pub fn clock_sweep(&mut self)
        requires old(self).wf(),
        ensures *final(self) == old(self).spec_clock_sweep(), final(self).wf(),
    {
        if !self.has_sweep {
            return;
        }
        self.sweep_timer = if self.sweep_timer > 0 { self.sweep_timer - 1 } else { 0 };
        if self.sweep_timer == 0 {
            self.sweep_timer = if self.sweep_period == 0 { 8 } else { self.sweep_period };
            if self.sweep_enabled && self.sweep_period != 0 {
                let new_freq = self.sweep_calculate();
                if new_freq <= 2047 && self.sweep_shift != 0 {
                    self.freq = new_freq;
                    self.sweep_shadow_freq = new_freq;
                    let _ = self.sweep_calculate();
                }
            }
        }
    }

    pub fn sample(&self) -> (r: u8)
        requires self.wf(),
        ensures r == self.spec_sample(),
    {
        if !self.enabled || !self.env.dac_enabled() {
            return 0;
        }
        if duty_table(self.duty, self.duty_index) == 1 { self.env.volume } else { 0 }
    }

    pub fn power_off_reset(&mut self)
        ensures *final(self) == old(self).spec_power_off(), final(self).wf(),
    {
        let length = self.length;
        *self = Self::new(self.has_sweep);
        self.length = length;
    }
}

/// Wave channel (CH3). Its 16 bytes of wave RAM belong to the APU.
#[derive(Debug, Clone, Copy)]
pub struct WaveChannel {
    pub enabled: bool,
    pub dac_enabled: bool,
    /// Length counter (0..256).
    pub length: u16,
    pub length_enable: bool,
    /// Output level code (0..3).
    pub volume_code: u8,
    pub freq: u16,
    pub freq_timer: u32,
    /// Position in the 32-sample wave (0..31).
    pub sample_index: u8,
    pub nr31_raw: u8,
}

impl WaveChannel {
    pub open spec fn wf(self) -> bool {
        self.freq <= 2047 && self.sample_index < 32
    }

    pub open spec fn spec_new() -> WaveChannel {
        WaveChannel {
            enabled: false, dac_enabled: false, length: 0, length_enable: false, volume_code: 0,
            freq: 0, freq_timer: 0, sample_index: 0, nr31_raw: 0,
        }
    }

    pub open spec fn spec_period(self) -> u32 {
        ((2048 - self.freq) * 2) as u32
    }

    pub open spec fn spec_write_nr30(self, val: u8) -> WaveChannel {
        let d = val & 0x80 != 0;
        WaveChannel { dac_enabled: d, enabled: if !d { false } else { self.enabled }, ..self }
    }

    pub open spec fn spec_write_nr31(self, val: u8) -> WaveChannel {
        WaveChannel { length: (256 - val) as u16, nr31_raw: val, ..self }
    }

    pub open spec fn spec_write_nr32(self, val: u8) -> WaveChannel {
        WaveChannel { volume_code: (val >> 5u8) & 0x03, ..self }
    }

    pub open spec fn spec_write_nr33(self, val: u8) -> WaveChannel {
        WaveChannel { freq: ((self.freq / 256) * 256 + val) as u16, ..self }
    }

    pub open spec fn spec_trigger(self, fs_step: u8) -> WaveChannel {
        let s1 = if self.length == 0 {
            WaveChannel { length: if self.length_enable && !next_step_clocks_length(fs_step) { 255 } else { 256 }, ..self }
        } else {
            self
        };
        WaveChannel { enabled: self.dac_enabled, freq_timer: self.spec_period(), sample_index: 0, ..s1 }
    }

    pub open spec fn spec_write_nr34(self, val: u8, fs_step: u8) -> WaveChannel {
        let s1 = WaveChannel {
            freq: ((self.freq % 256) + (val & 0x07) as int * 256) as u16,
            length_enable: val & 0x40 != 0,
            ..self
        };
        let s2 = if !self.length_enable && val & 0x40 != 0 && !next_step_clocks_length(fs_step) && self.length > 0 {
            let l = (self.length - 1) as u16;
            WaveChannel { length: l, enabled: if l == 0 && val & 0x80 == 0 { false } else { s1.enabled }, ..s1 }
        } else {
            s1
        };
        if val & 0x80 != 0 { s2.spec_trigger(fs_step) } else { s2 }
    }

    pub open spec fn spec_run(self, t: u32) -> WaveChannel
        decreases t,
    {
        if t == 0 {
            self
        } else {
            let timer = if self.freq_timer == 0 { self.spec_period() } else { self.freq_timer };
            if timer == 0 {
                self
            } else {
                let step = if t < timer { t } else { timer };
                let nt = (timer - step) as u32;
                let s = WaveChannel {
                    freq_timer: nt,
                    sample_index: if nt == 0 { ((self.sample_index + 1) % 32) as u8 } else { self.sample_index },
                    ..self
                };
                s.spec_run((t - step) as u32)
            }
        }
    }

    pub open spec fn spec_tick_t(self, t: u32) -> WaveChannel {
        if !self.enabled { self } else { self.spec_run(t) }
    }

    pub open spec fn spec_clock_length(self) -> WaveChannel {
        if self.length_enable && self.length > 0 {
            let l = (self.length - 1) as u16;
            WaveChannel { length: l, enabled: if l == 0 { false } else { self.enabled }, ..self }
        } else {
            self
        }
    }

    /// Current 4-bit output: the nibble at the sample position, shifted by the level code.
    pub open spec fn spec_sample(self, ram: Seq<u8>) -> u8 {
        if !self.enabled || !self.dac_enabled {
            0
        } else {
            let byte = ram[(self.sample_index / 2) as int];
            let nibble: u8 = if self.sample_index % 2 == 0 { byte >> 4u8 } else { byte & 0x0F };
            if self.volume_code == 0 {
                0
            } else if self.volume_code == 1 {
                nibble
            } else if self.volume_code == 2 {
                nibble >> 1u8
            } else {
                nibble >> 2u8
            }
        }
    }

    pub open spec fn spec_power_off(self) -> WaveChannel {
        WaveChannel { length: self.length, ..Self::spec_new() }
    }

    pub fn new() -> (r: WaveChannel)
        ensures r == Self::spec_new(),
    {
        WaveChannel {
            enabled: false, dac_enabled: false, length: 0, length_enable: false, volume_code: 0,
            freq: 0, freq_timer: 0, sample_index: 0, nr31_raw: 0,
        }
    }

    fn period_t_cycles(&self) -> (r: u32)
        requires self.wf(),
        ensures r == self.spec_period(), r >= 2,
    {
        (2048u32 - self.freq as u32) * 2
    }

    pub fn write_nr30(&mut self, val: u8)
        ensures *final(self) == old(self).spec_write_nr30(val),
    {
        self.dac_enabled = val & 0x80 != 0;
        if !self.dac_enabled {
            self.enabled = false;
        }
    }

    pub fn read_nr30(&self) -> (r: u8)
        ensures r == (if self.dac_enabled { 0x80u8 } else { 0 }),
    {
        if self.dac_enabled { 0x80 } else { 0 }
    }

    pub fn write_nr31(&mut self, val: u8)
        ensures *final(self) == old(self).spec_write_nr31(val),
    {
        self.length = 256 - val as u16;
        self.nr31_raw = val;
    }

    pub fn write_nr32(&mut self, val: u8)
        ensures *final(self) == old(self).spec_write_nr32(val),
    {
        self.volume_code = (val >> 5) & 0x03;
    }

    pub fn read_nr32(&self) -> (r: u8)
        ensures r == ((self.volume_code as int * 32) % 256) as u8,
    {
        ((self.volume_code as u16 * 32) % 256) as u8
    }

    pub fn write_nr33(&mut self, val: u8)
        requires old(self).wf(),
        ensures *final(self) == old(self).spec_write_nr33(val), final(self).wf(),
    {
        self.freq = (self.freq / 256) * 256 + val as u16;
    }

    fn trigger(&mut self, fs_step: u8)
        requires old(self).wf(),
        ensures *final(self) == old(self).spec_trigger(fs_step), final(self).wf(),
    {
        if self.length == 0 {
            self.length = if self.length_enable && !next_clocks_length(fs_step) { 255 } else { 256 };
        }
        self.enabled = true;
        self.freq_timer = (2048u32 - self.freq as u32) * 2;
        self.sample_index = 0;
        if !self.dac_enabled {
            self.enabled = false;
        }
    }

    pub fn write_nr34(&mut self, val: u8, fs_step: u8)
        requires old(self).wf(),
        ensures *final(self) == old(self).spec_write_nr34(val, fs_step), final(self).wf(),
    {
        assert((val & 0x07) as u16 * 256 + 255 <= 2047) by (bit_vector);
        self.freq = (self.freq % 256) + (val & 0x07) as u16 * 256;
        let prev_le = self.length_enable;
        self.length_enable = val & 0x40 != 0;
        if !prev_le && self.length_enable && !next_clocks_length(fs_step) && self.length > 0 {
            self.length = self.length - 1;
            if self.length == 0 && val & 0x80 == 0 {
                self.enabled = false;
            }
        }
        if val & 0x80 != 0 {
            self.trigger(fs_step);
        }
    }

    pub fn tick_t(&mut self, t: u32)
        requires old(self).wf(),
        ensures *final(self) == old(self).spec_tick_t(t), final(self).wf(),
    {
        if !self.enabled {
            return;
        }
        let mut remaining = t;
        while remaining > 0
            invariant
                self.wf(),
                self.spec_run(remaining) == old(self).spec_run(t),
            decreases remaining,
        {
            if self.freq_timer == 0 {
                self.freq_timer = self.period_t_cycles();
            }
            let step = if remaining < self.freq_timer { remaining } else { self.freq_timer };
            self.freq_timer = self.freq_timer - step;
            remaining = remaining - step;
            if self.freq_timer == 0 {
                self.sample_index = (self.sample_index + 1) % 32;
            }
        }
    }

    pub fn clock_length(&mut self)
        ensures *final(self) == old(self).spec_clock_length(),
    {
        if self.length_enable && self.length > 0 {
            self.length = self.length - 1;
            if self.length == 0 {
                self.enabled = false;
            }
        }
    }

    pub fn sample(&self, ram: &[u8; 16]) -> (r: u8)
        requires self.wf(),
        ensures r == self.spec_sample(ram@),
    {
        if !self.enabled || !self.dac_enabled {
            return 0;
        }
        let byte = ram[(self.sample_index / 2) as usize];
        let nibble = if self.sample_index % 2 == 0 { byte >> 4 } else { byte & 0x0F };
        if self.volume_code == 0 {
            0
        } else if self.volume_code == 1 {
            nibble
        } else if self.volume_code == 2 {
            nibble >> 1
        } else {
            nibble >> 2
        }
    }

    pub fn power_off_reset(&mut self)
        ensures *final(self) == old(self).spec_power_off(),
    {
        let length = self.length;
        *self = Self::new();
        self.length = length;
    }
}

/// Noise channel (CH4): a 15-bit (or 7-bit) linear-feedback shift register.
#[derive(Debug, Clone, Copy)]
pub struct NoiseChannel {
    pub enabled: bool,
    /// Length counter (0..64).
    pub length: u16,
    pub length_enable: bool,
    pub env: Envelope,
    pub clock_shift: u8,
    pub width_mode_7bit: bool,
    pub divisor_code: u8,
    pub timer: u32,
    pub lfsr: u16,
    pub nr43_raw: u8,
}

/// The LFSR after one shift: bit 0 XOR bit 1 is fed back into bit 14 (and into bit 6
/// in 7-bit mode).
pub open spec fn lfsr_step(lfsr: u16, seven: bool) -> u16 {
    let bit = (lfsr & 1) ^ ((lfsr >> 1u16) & 1);
    let l = (lfsr >> 1u16) | (bit << 14u16);
    if seven { (l & !(1u16 << 6u16)) | (bit << 6u16) } else { l }
}

impl NoiseChannel {
    pub open spec fn wf(self) -> bool {
        self.clock_shift < 16 && self.divisor_code < 8
    }

    pub open spec fn spec_new() -> NoiseChannel {
        NoiseChannel {
            enabled: false, length: 0, length_enable: false,
            env: Envelope { initial: 0, increase: false, period: 0, volume: 0, timer: 0, enabled: false },
            clock_shift: 0, width_mode_7bit: false, divisor_code: 0, timer: 0, lfsr: 0, nr43_raw: 0,
        }
    }

    /// Shift period in T-cycles: divisor (8, or 16 * code) shifted left by the clock shift.
    pub open spec fn spec_period(self) -> u32 {
        let divisor: u32 = if self.divisor_code == 0 { 8 } else { (self.divisor_code as u32 * 16) as u32 };
        divisor << (self.clock_shift as u32)
    }

    pub open spec fn spec_write_nr41(self, val: u8) -> NoiseChannel {
        NoiseChannel { length: (64 - (val & 0x3F)) as u16, ..self }
    }

    pub open spec fn spec_write_nr42(self, val: u8) -> NoiseChannel {
        let e = self.env.spec_write_nrx2(val);
        NoiseChannel { env: e, enabled: if !e.spec_dac_enabled() { false } else { self.enabled }, ..self }
    }

    pub open spec fn spec_write_nr43(self, val: u8) -> NoiseChannel {
        NoiseChannel { nr43_raw: val, clock_shift: val >> 4u8, width_mode_7bit: val & 0x08 != 0, divisor_code: val & 0x07, ..self }
    }

    pub open spec fn spec_trigger(self, fs_step: u8) -> NoiseChannel {
        let s1 = if self.length == 0 {
            NoiseChannel { length: if self.length_enable && !next_step_clocks_length(fs_step) { 63 } else { 64 }, ..self }
        } else {
            self
        };
        let p = self.spec_period();
        let e = self.env.spec_trigger();
        NoiseChannel {
            enabled: e.spec_dac_enabled(),
            timer: if p >= 1 { p } else { 1 },
            lfsr: 0x7FFF,
            env: e,
            ..s1
        }
    }

    pub open spec fn spec_write_nr44(self, val: u8, fs_step: u8) -> NoiseChannel {
        let s1 = NoiseChannel { length_enable: val & 0x40 != 0, ..self };
        let s2 = if !self.length_enable && val & 0x40 != 0 && !next_step_clocks_length(fs_step) && self.length > 0 {
            let l = (self.length - 1) as u16;
            NoiseChannel { length: l, enabled: if l == 0 && val & 0x80 == 0 { false } else { s1.enabled }, ..s1 }
        } else {
            s1
        };
        if val & 0x80 != 0 { s2.spec_trigger(fs_step) } else { s2 }
    }

    pub open spec fn spec_run(self, t: u32) -> NoiseChannel
        decreases t,
    {
        if t == 0 {
            self
        } else {
            let p = self.spec_period();
            let timer = if self.timer == 0 { if p >= 1 { p } else { 1 } } else { self.timer };
            let step = if t < timer { t } else { timer };
            let nt = (timer - step) as u32;
            let s = NoiseChannel {
                timer: nt,
                lfsr: if nt == 0 { lfsr_step(self.lfsr, self.width_mode_7bit) } else { self.lfsr },
                ..self
            };
            s.spec_run((t - step) as u32)
        }
    }

    pub open spec fn spec_tick_t(self, t: u32) -> NoiseChannel {
        if !self.enabled { self } else { self.spec_run(t) }
    }

    pub open spec fn spec_clock_length(self) -> NoiseChannel {
        if self.length_enable && self.length > 0 {
            let l = (self.length - 1) as u16;
            NoiseChannel { length: l, enabled: if l == 0 { false } else { self.enabled }, ..self }
        } else {
            self
        }
    }

    /// Current 4-bit output: the envelope volume while LFSR bit 0 is clear.
    pub open spec fn spec_sample(self) -> u8 {
        if !self.enabled || !self.env.spec_dac_enabled() {
            0
        } else if self.lfsr & 1 == 0 {
            self.env.volume
        } else {
            0
        }
    }

    pub open spec fn spec_power_off(self) -> NoiseChannel {
        NoiseChannel { length: self.length, ..Self::spec_new() }
    }

    pub fn new() -> (r: NoiseChannel)
        ensures r == Self::spec_new(),
    {
        NoiseChannel {
            enabled: false, length: 0, length_enable: false, env: Envelope::zero(), clock_shift: 0,
            width_mode_7bit: false, divisor_code: 0, timer: 0, lfsr: 0, nr43_raw: 0,
        }
    }

    fn period_t_cycles(&self) -> (r: u32)
        requires self.wf(),
        ensures r == self.spec_period(),
    {
        let divisor: u32 = if self.divisor_code == 0 { 8 } else { self.divisor_code as u32 * 16 };
        assert(divisor <= 112 && (self.clock_shift as u32) < 16);
        divisor << (self.clock_shift as u32)
    }

    pub fn write_nr41(&mut self, val: u8)
        ensures *final(self) == old(self).spec_write_nr41(val),
    {
        assert(val & 0x3F <= 0x3F) by (bit_vector);
        self.length = 64 - (val & 0x3F) as u16;
    }

    pub fn write_nr42(&mut self, val: u8)
        ensures *final(self) == old(self).spec_write_nr42(val),
    {
        self.env.write_nrx2(val);
        if !self.env.dac_enabled() {
            self.enabled = false;
        }
    }

    pub fn read_nr42(&self) -> (r: u8)
        ensures r == self.env.spec_nrx2(),
    {
        self.env.nrx2()
    }

    pub fn write_nr43(&mut self, val: u8)
        ensures *final(self) == old(self).spec_write_nr43(val), final(self).wf(),
    {
        assert(val >> 4u8 < 16 && val & 0x07 < 8) by (bit_vector);
        self.nr43_raw = val;
        self.clock_shift = val >> 4;
        self.width_mode_7bit = val & 0x08 != 0;
        self.divisor_code = val & 0x07;
    }

    pub fn read_nr43(&self) -> (r: u8)
        ensures r == self.nr43_raw,
    {
        self.nr43_raw
    }

    fn trigger(&mut self, fs_step: u8)
        requires old(self).wf(),
        ensures *final(self) == old(self).spec_trigger(fs_step), final(self).wf(),
    {
        if self.length == 0 {
            self.length = if self.length_enable && !next_clocks_length(fs_step) { 63 } else { 64 };
        }
        self.enabled = true;
        let p = self.period_t_cycles();
        self.timer = if p >= 1 { p } else { 1 };
        self.lfsr = 0x7FFF;
        self.env.trigger();
        if !self.env.dac_enabled() {
            self.enabled = false;
        }
    }

    pub fn write_nr44(&mut self, val: u8, fs_step: u8)
        requires old(self).wf(),
        ensures *final(self) == old(self).spec_write_nr44(val, fs_step), final(self).wf(),
    {
        let prev_le = self.length_enable;
        self.length_enable = val & 0x40 != 0;
        if !prev_le && self.length_enable && !next_clocks_length(fs_step) && self.length > 0 {
            self.length = self.length - 1;
            if self.length == 0 && val & 0x80 == 0 {
                self.enabled = false;
            }
        }
        if val & 0x80 != 0 {
            self.trigger(fs_step);
        }
    }

    fn shift(lfsr: u16, seven: bool) -> (r: u16)
        ensures r == lfsr_step(lfsr, seven),
    {
        let bit = (lfsr & 1) ^ ((lfsr >> 1) & 1);
        let l = (lfsr >> 1) | (bit << 14);
        if seven { (l & !(1u16 << 6)) | (bit << 6) } else { l }
    }

    pub fn tick_t(&mut self, t: u32)
        requires old(self).wf(),
        ensures *final(self) == old(self).spec_tick_t(t), final(self).wf(),
    {
        if !self.enabled {
            return;
        }
        let mut remaining = t;
        while remaining > 0
            invariant
                self.wf(),
                self.spec_run(remaining) == old(self).spec_run(t),
            decreases remaining,
        {
            if self.timer == 0 {
                let p = self.period_t_cycles();
                self.timer = if p >= 1 { p } else { 1 };
            }
            let step = if remaining < self.timer { remaining } else { self.timer };
            self.timer = self.timer - step;
            remaining = remaining - step;
            if self.timer == 0 {
                self.lfsr = Self::shift(self.lfsr, self.width_mode_7bit);
            }
        }
    }

    pub fn clock_length(&mut self)
        ensures *final(self) == old(self).spec_clock_length(),
    {
        if self.length_enable && self.length > 0 {
            self.length = self.length - 1;
            if self.length == 0 {
                self.enabled = false;
            }
        }
    }

    pub fn sample(&self) -> (r: u8)
        ensures r == self.spec_sample(),
    {
        if !self.enabled || !self.env.dac_enabled() {
            return 0;
        }
        if self.lfsr & 1 == 0 { self.env.volume } else { 0 }
    }

    pub fn power_off_reset(&mut self)
        ensures *final(self) == old(self).spec_power_off(),
    {
        let length = self.length;
        *self = Self::new();
        self.length = length;
    }
}

} // verus!
