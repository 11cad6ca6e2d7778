//! Audio Processing Unit: the DMG four-channel sound chip.
//!
//! The four channels, the 512 Hz frame sequencer, the register file with its
//! read-back masks and power-off semantics, and a fractional down-sampler that
//! records, at the host rate, the integer inputs of the stereo mixer. Turning those
//! inputs into PCM is floating-point work left to the host.

use vstd::prelude::*;

pub mod channels;

use channels::{SquareChannel, WaveChannel, NoiseChannel};

verus! {

/// Host output sample rate.
pub const SAMPLE_RATE_HZ: u32 = 48_000;

/// Master clock in T-cycles per second.
pub const CPU_HZ: u32 = 4_194_304;

/// Frame-sequencer period in T-cycles (512 Hz).
pub const FS_PERIOD_T: u32 = 8_192;

/// What the mixer reads at one output sample: each channel's 4-bit level and
/// whether its DAC is on, with the master volume (NR50) and panning (NR51).
#[derive(Debug, Clone, Copy, PartialEq, Eq, Structural)]
pub struct MixInput {
    pub s1: u8,
    pub s2: u8,
    pub s3: u8,
    pub s4: u8,
    pub dac1: bool,
    pub dac2: bool,
    pub dac3: bool,
    pub dac4: bool,
    pub nr50: u8,
    pub nr51: u8,
}

/// Bits of each register in `0xFF10..=0xFF2F` that always read back as 1.
pub open spec fn read_mask(addr: u16) -> u8 {
    if addr == 0xFF10 { 0x80 }
    else if addr == 0xFF11 { 0x3F }
    else if addr == 0xFF12 { 0x00 }
    else if addr == 0xFF14 { 0xBF }
    else if addr == 0xFF16 { 0x3F }
    else if addr == 0xFF17 { 0x00 }
    else if addr == 0xFF19 { 0xBF }
    else if addr == 0xFF1A { 0x7F }
    else if addr == 0xFF1C { 0x9F }
    else if addr == 0xFF1E { 0xBF }
    else if addr == 0xFF21 { 0x00 }
    else if addr == 0xFF22 { 0x00 }
    else if addr == 0xFF23 { 0xBF }
    else if addr == 0xFF24 { 0x00 }
    else if addr == 0xFF25 { 0x00 }
    else if addr == 0xFF26 { 0x70 }
    else { 0xFF }
}

fn read_mask_of(addr: u16) -> (r: u8)
    ensures r == read_mask(addr),
{
    match addr {
        0xFF10 => 0x80,
        0xFF11 => 0x3F,
        0xFF12 => 0x00,
        0xFF14 => 0xBF,
        0xFF16 => 0x3F,
        0xFF17 => 0x00,
        0xFF19 => 0xBF,
        0xFF1A => 0x7F,
        0xFF1C => 0x9F,
        0xFF1E => 0xBF,
        0xFF21 => 0x00,
        0xFF22 => 0x00,
        0xFF23 => 0xBF,
        0xFF24 => 0x00,
        0xFF25 => 0x00,
        0xFF26 => 0x70,
        _ => 0xFF,
    }
}

/// Read-back of a length-enable bit (bit 6).
pub open spec fn length_bit(enabled: bool) -> u8 {
    if enabled { 0x40 } else { 0 }
}

#[derive(Debug)]
pub struct Apu {
    /// NR52 bit 7.
    pub powered_on: bool,
    pub nr50: u8,
    pub nr51: u8,
    pub ch1: SquareChannel,
    pub ch2: SquareChannel,
    pub ch3: WaveChannel,
    pub ch4: NoiseChannel,
    /// Wave pattern RAM (`0xFF30..=0xFF3F`): 32 four-bit samples.
    pub wave_ram: [u8; 16],
    /// T-cycles until the next frame-sequencer step.
    pub fs_counter: u32,
    /// Frame-sequencer step (0..7).
    pub fs_step: u8,
    /// Down-sampler phase: grows by `SAMPLE_RATE_HZ` per T-cycle, one sample per
    /// `CPU_HZ`.
    pub sample_accum: u32,
    /// Mixer inputs recorded since the last drain.
    pub samples: Vec<MixInput>,
}

pub struct ApuView {
    pub powered_on: bool,
    pub nr50: u8,
    pub nr51: u8,
    pub ch1: SquareChannel,
    pub ch2: SquareChannel,
    pub ch3: WaveChannel,
    pub ch4: NoiseChannel,
    pub wave_ram: Seq<u8>,
    pub fs_counter: u32,
    pub fs_step: u8,
    pub sample_accum: u32,
    pub samples: Seq<MixInput>,
}

impl View for Apu {
    type V = ApuView;

    open spec fn view(&self) -> ApuView {
        ApuView {
            powered_on: self.powered_on,
            nr50: self.nr50,
            nr51: self.nr51,
            ch1: self.ch1,
            ch2: self.ch2,
            ch3: self.ch3,
            ch4: self.ch4,
            wave_ram: self.wave_ram@,
            fs_counter: self.fs_counter,
            fs_step: self.fs_step,
            sample_accum: self.sample_accum,
            samples: self.samples@,
        }
    }
}

impl ApuView {
    pub open spec fn wf(self) -> bool {
        &&& self.ch1.wf() && self.ch2.wf() && self.ch3.wf() && self.ch4.wf()
        &&& self.ch1.has_sweep && !self.ch2.has_sweep
        &&& self.wave_ram.len() == 16
        &&& 1 <= self.fs_counter <= FS_PERIOD_T
        &&& self.fs_step < 8
        &&& self.sample_accum < CPU_HZ
    }

    /// NR52 read: power bit and the four channel-status bits.
    pub open spec fn spec_nr52(self) -> u8 {
        ((if self.powered_on { 0x80int } else { 0 }) + (if self.ch1.enabled { 1int } else { 0 })
            + (if self.ch2.enabled { 2int } else { 0 }) + (if self.ch3.enabled { 4int } else { 0 })
            + (if self.ch4.enabled { 8int } else { 0 })) as u8
    }

    /// The stored bits of a register in `0xFF10..=0xFF2F`, before the read mask.
    pub open spec fn spec_register(self, addr: u16) -> u8 {
        if addr == 0xFF10 { self.ch1.nrx0_raw }
        else if addr == 0xFF11 { self.ch1.nrx1_raw & 0xC0 }
        else if addr == 0xFF12 { self.ch1.env.spec_nrx2() }
        else if addr == 0xFF14 { length_bit(self.ch1.length_enable) }
        else if addr == 0xFF16 { self.ch2.nrx1_raw & 0xC0 }
        else if addr == 0xFF17 { self.ch2.env.spec_nrx2() }
        else if addr == 0xFF19 { length_bit(self.ch2.length_enable) }
        else if addr == 0xFF1A { if self.ch3.dac_enabled { 0x80 } else { 0 } }
        else if addr == 0xFF1C { ((self.ch3.volume_code as int * 32) % 256) as u8 }
        else if addr == 0xFF1E { length_bit(self.ch3.length_enable) }
        else if addr == 0xFF21 { self.ch4.env.spec_nrx2() }
        else if addr == 0xFF22 { self.ch4.nr43_raw }
        else if addr == 0xFF23 { length_bit(self.ch4.length_enable) }
        else if addr == 0xFF24 { self.nr50 }
        else if addr == 0xFF25 { self.nr51 }
        else if addr == 0xFF26 { self.spec_nr52() }
        else { 0 }
    }

    /// CPU read: registers with their read masks, wave RAM as stored, `0xFF` elsewhere.
    pub open spec fn spec_read(self, addr: u16) -> u8 {
        if 0xFF10 <= addr <= 0xFF2F {
            self.spec_register(addr) | read_mask(addr)
        } else if 0xFF30 <= addr <= 0xFF3F {
            self.wave_ram[addr - 0xFF30]
        } else {
            0xFF
        }
    }

    /// Register write while powered.
    pub open spec fn spec_write_register(self, addr: u16, val: u8) -> ApuView {
        let fs = self.fs_step;
        if addr == 0xFF10 { ApuView { ch1: self.ch1.spec_write_nrx0(val), ..self } }
        else if addr == 0xFF11 { ApuView { ch1: self.ch1.spec_write_nrx1(val, true), ..self } }
        else if addr == 0xFF12 { ApuView { ch1: self.ch1.spec_write_nrx2(val), ..self } }
        else if addr == 0xFF13 { ApuView { ch1: self.ch1.spec_write_nrx3(val), ..self } }
        else if addr == 0xFF14 { ApuView { ch1: self.ch1.spec_write_nrx4(val, fs), ..self } }
        else if addr == 0xFF16 { ApuView { ch2: self.ch2.spec_write_nrx1(val, true), ..self } }
        else if addr == 0xFF17 { ApuView { ch2: self.ch2.spec_write_nrx2(val), ..self } }
        else if addr == 0xFF18 { ApuView { ch2: self.ch2.spec_write_nrx3(val), ..self } }
        else if addr == 0xFF19 { ApuView { ch2: self.ch2.spec_write_nrx4(val, fs), ..self } }
        else if addr == 0xFF1A { ApuView { ch3: self.ch3.spec_write_nr30(val), ..self } }
        else if addr == 0xFF1B { ApuView { ch3: self.ch3.spec_write_nr31(val), ..self } }
        else if addr == 0xFF1C { ApuView { ch3: self.ch3.spec_write_nr32(val), ..self } }
        else if addr == 0xFF1D { ApuView { ch3: self.ch3.spec_write_nr33(val), ..self } }
        else if addr == 0xFF1E { ApuView { ch3: self.ch3.spec_write_nr34(val, fs), ..self } }
        else if addr == 0xFF20 { ApuView { ch4: self.ch4.spec_write_nr41(val), ..self } }
        else if addr == 0xFF21 { ApuView { ch4: self.ch4.spec_write_nr42(val), ..self } }
        else if addr == 0xFF22 { ApuView { ch4: self.ch4.spec_write_nr43(val), ..self } }
        else if addr == 0xFF23 { ApuView { ch4: self.ch4.spec_write_nr44(val, fs), ..self } }
        else if addr == 0xFF24 { ApuView { nr50: val, ..self } }
        else if addr == 0xFF25 { ApuView { nr51: val, ..self } }
        else { self }
    }

    /// NR52 write: only bit 7 is writable. Powering off clears every channel
    /// (length counters excepted) and NR50/NR51; powering on restarts the frame
    /// sequencer and the waveform positions.
    pub open spec fn spec_write_nr52(self, val: u8) -> ApuView {
        let want_on = val & 0x80 != 0;
        if !want_on && self.powered_on {
            ApuView {
                nr50: 0,
                nr51: 0,
                ch1: self.ch1.spec_power_off(),
                ch2: self.ch2.spec_power_off(),
                ch3: self.ch3.spec_power_off(),
                ch4: self.ch4.spec_power_off(),
                powered_on: false,
                ..self
            }
        } else if want_on && !self.powered_on {
            ApuView {
                powered_on: true,
                fs_step: 0,
                fs_counter: FS_PERIOD_T,
                ch1: SquareChannel { duty_index: 0, ..self.ch1 },
                ch2: SquareChannel { duty_index: 0, ..self.ch2 },
                ch3: WaveChannel { sample_index: 0, ..self.ch3 },
                ..self
            }
        } else {
            self
        }
    }

    /// CPU write. Wave RAM and NR52 are always writable; while powered off only
    /// the length loads of NR11/NR21/NR31/NR41 land.
    pub open spec fn spec_write(self, addr: u16, val: u8) -> ApuView {
        if 0xFF30 <= addr <= 0xFF3F {
            ApuView { wave_ram: self.wave_ram.update(addr - 0xFF30, val), ..self }
        } else if addr == 0xFF26 {
            self.spec_write_nr52(val)
        } else if !self.powered_on {
            if addr == 0xFF11 { ApuView { ch1: self.ch1.spec_write_nrx1(val, false), ..self } }
            else if addr == 0xFF16 { ApuView { ch2: self.ch2.spec_write_nrx1(val, false), ..self } }
            else if addr == 0xFF1B { ApuView { ch3: self.ch3.spec_write_nr31(val), ..self } }
            else if addr == 0xFF20 { ApuView { ch4: self.ch4.spec_write_nr41(val), ..self } }
            else { self }
        } else {
            self.spec_write_register(addr, val)
        }
    }

    pub open spec fn spec_clock_length(self) -> ApuView {
        ApuView {
            ch1: self.ch1.spec_clock_length(),
            ch2: self.ch2.spec_clock_length(),
            ch3: self.ch3.spec_clock_length(),
            ch4: self.ch4.spec_clock_length(),
            ..self
        }
    }

    /// Length clock followed by the sweep clock.
    #[verifier::opaque]
    pub open spec fn spec_length_and_sweep(self) -> ApuView {
        let c = self.spec_clock_length();
        ApuView { ch1: c.ch1.spec_clock_sweep(), ..c }
    }

    /// Envelope clock of the three channels that have one.
    #[verifier::opaque]
    pub open spec fn spec_envelopes(self) -> ApuView {
        ApuView {
            ch1: SquareChannel { env: self.ch1.env.spec_tick(), ..self.ch1 },
            ch2: SquareChannel { env: self.ch2.env.spec_tick(), ..self.ch2 },
            ch4: NoiseChannel { env: self.ch4.env.spec_tick(), ..self.ch4 },
            ..self
        }
    }

    /// One 512 Hz step: length on steps 0, 2, 4, 6; sweep on 2 and 6; envelopes on 7.
    pub open spec fn spec_fs_tick(self) -> ApuView {
        let s = if self.fs_step == 0 || self.fs_step == 4 {
            self.spec_clock_length()
        } else if self.fs_step == 2 || self.fs_step == 6 {
            self.spec_length_and_sweep()
        } else if self.fs_step == 7 {
            self.spec_envelopes()
        } else {
            self
        };
        ApuView { fs_step: ((s.fs_step + 1) % 8) as u8, ..s }
    }

    /// `t` T-cycles of the channels and the frame sequencer.
    pub open spec fn spec_sequencer(self, t: u32) -> ApuView
        decreases t,
    {
        if t == 0 || self.fs_counter == 0 {
            self
        } else {
            let step = if t < self.fs_counter { t } else { self.fs_counter };
            let s1 = ApuView {
                ch1: self.ch1.spec_tick_t(step),
                ch2: self.ch2.spec_tick_t(step),
                ch3: self.ch3.spec_tick_t(step),
                ch4: self.ch4.spec_tick_t(step),
                fs_counter: (self.fs_counter - step) as u32,
                ..self
            };
            let s2 = if s1.fs_counter == 0 { ApuView { fs_counter: FS_PERIOD_T, ..s1 }.spec_fs_tick() } else { s1 };
            s2.spec_sequencer((t - step) as u32)
        }
    }

    /// The mixer inputs of the current state.
    pub open spec fn mix_input(self) -> MixInput {
        MixInput {
            s1: self.ch1.spec_sample(),
            s2: self.ch2.spec_sample(),
            s3: self.ch3.spec_sample(self.wave_ram),
            s4: self.ch4.spec_sample(),
            dac1: self.ch1.env.spec_dac_enabled(),
            dac2: self.ch2.env.spec_dac_enabled(),
            dac3: self.ch3.dac_enabled,
            dac4: self.ch4.env.spec_dac_enabled(),
            nr50: self.nr50,
            nr51: self.nr51,
        }
    }

    /// `n` T-cycles of the down-sampler: each adds `SAMPLE_RATE_HZ` to the phase,
    /// and each time the phase reaches `CPU_HZ` one sample is recorded.
    pub open spec fn spec_downsample(self, n: nat) -> ApuView
        decreases n,
    {
        if n == 0 {
            self
        } else {
            let acc = self.sample_accum + SAMPLE_RATE_HZ;
            let s = if acc >= CPU_HZ {
                ApuView { sample_accum: (acc - CPU_HZ) as u32, samples: self.samples.push(self.mix_input()), ..self }
            } else {
                ApuView { sample_accum: acc as u32, ..self }
            };
            s.spec_downsample((n - 1) as nat)
        }
    }

    /// `t` T-cycles: the sequencer runs only while powered; the down-sampler always.
    pub open spec fn spec_tick(self, t: u32) -> ApuView {
        (if self.powered_on { self.spec_sequencer(t) } else { self }).spec_downsample(t as nat)
    }
}

/// The down-sampler after `n` cycles: the phase is `(a + n * rate) mod CPU_HZ` and
/// one sample was recorded for each whole `CPU_HZ` that `a + n * rate` contains.
pub proof fn lemma_downsample_count(s: ApuView, n: nat)
    requires
        s.sample_accum < CPU_HZ,
    ensures
        s.spec_downsample(n).samples.len() == s.samples.len() + (s.sample_accum + n * SAMPLE_RATE_HZ) / (CPU_HZ as int),
        s.spec_downsample(n).sample_accum == (s.sample_accum + n * SAMPLE_RATE_HZ) % (CPU_HZ as int),
        s.spec_downsample(n).samples.subrange(0, s.samples.len() as int) == s.samples,
    decreases n,
{
    let c = CPU_HZ as int;
    let a = s.sample_accum as int;
    if n == 0 {
        assert(a / c == 0 && a % c == a) by (nonlinear_arith)
            requires 0 <= a < c, c == 4194304;
        assert(s.samples.subrange(0, s.samples.len() as int) =~= s.samples);
    } else {
        let acc = a + SAMPLE_RATE_HZ;
        let next = if acc >= c {
            ApuView { sample_accum: (acc - c) as u32, samples: s.samples.push(s.mix_input()), ..s }
        } else {
            ApuView { sample_accum: acc as u32, ..s }
        };
        let k: int = if acc >= c { 1 } else { 0 };
        assert(next.sample_accum == acc - k * c);
        lemma_downsample_count(next, (n - 1) as nat);
        let m = (n - 1) as int;
        let x = next.sample_accum as int + m * SAMPLE_RATE_HZ;
        assert(a + n * SAMPLE_RATE_HZ == k * c + x) by (nonlinear_arith)
            requires acc == a + 48000, next.sample_accum == acc - k * c, x == next.sample_accum + m * 48000,
                m == n - 1;
        assert((k * c + x) / c == k + x / c && (k * c + x) % c == x % c) by (nonlinear_arith)
            requires c == 4194304, x >= 0, 0 <= k <= 1;
        let fin = next.spec_downsample((n - 1) as nat);
        assert(fin.samples.subrange(0, s.samples.len() as int) =~= s.samples) by {
            assert(fin.samples.subrange(0, next.samples.len() as int) == next.samples);
            assert forall|i: int| 0 <= i < s.samples.len() implies fin.samples[i] == s.samples[i] by {
                assert(fin.samples.subrange(0, next.samples.len() as int)[i] == next.samples[i]);
            }
        }
    }
}

/// Running the channels and the frame sequencer leaves the down-sampler untouched.
pub proof fn lemma_sequencer_keeps_samples(s: ApuView, t: u32)
    ensures
        s.spec_sequencer(t).samples == s.samples,
        s.spec_sequencer(t).sample_accum == s.sample_accum,
        s.spec_sequencer(t).wave_ram == s.wave_ram,
    decreases t,
{
    reveal(ApuView::spec_length_and_sweep);
    reveal(ApuView::spec_envelopes);
    if t != 0 && s.fs_counter != 0 {
        let step = if t < s.fs_counter { t } else { s.fs_counter };
        let s1 = ApuView {
            ch1: s.ch1.spec_tick_t(step),
            ch2: s.ch2.spec_tick_t(step),
            ch3: s.ch3.spec_tick_t(step),
            ch4: s.ch4.spec_tick_t(step),
            fs_counter: (s.fs_counter - step) as u32,
            ..s
        };
        let s2 = if s1.fs_counter == 0 { ApuView { fs_counter: FS_PERIOD_T, ..s1 }.spec_fs_tick() } else { s1 };
        lemma_sequencer_keeps_samples(s2, (t - step) as u32);
    }
}

proof fn lemma_downsample_keeps_wave_ram(s: ApuView, n: nat)
    ensures
        s.spec_downsample(n).wave_ram == s.wave_ram,
    decreases n,
{
    if n != 0 {
        let acc = s.sample_accum + SAMPLE_RATE_HZ;
        let s1 = if acc >= CPU_HZ {
            ApuView { sample_accum: (acc - CPU_HZ) as u32, samples: s.samples.push(s.mix_input()), ..s }
        } else {
            ApuView { sample_accum: acc as u32, ..s }
        };
        lemma_downsample_keeps_wave_ram(s1, (n - 1) as nat);
    }
}

/// Register reads OR in the read mask, so the masked bits always read 1. Wave RAM
/// reads back the last byte written to it: a write elsewhere (NR52 power-off
/// included) and running the APU leave it alone.
pub proof fn lemma_apu_reads(s: ApuView, a: u16, addr: u16, val: u8, t: u32)
    requires
        s.wave_ram.len() == 16,
    ensures
        0xFF10 <= a <= 0xFF2F ==> s.spec_read(a) & read_mask(a) == read_mask(a),
        0xFF30 <= a <= 0xFF3F ==> s.spec_write(a, val).spec_read(a) == val,
        0xFF30 <= a <= 0xFF3F && addr != a ==> s.spec_write(addr, val).spec_read(a) == s.spec_read(a),
        s.spec_tick(t).wave_ram == s.wave_ram,
{
    if 0xFF10 <= a <= 0xFF2F {
        let r = s.spec_register(a);
        let m = read_mask(a);
        assert(s.spec_read(a) == r | m);
        assert((r | m) & m == m) by (bit_vector);
    }
    let s1 = if s.powered_on { s.spec_sequencer(t) } else { s };
    lemma_sequencer_keeps_samples(s, t);
    lemma_downsample_keeps_wave_ram(s1, t as nat);
}

/// A call a host makes on the APU: a register write or `t` T-cycles of running.
pub enum ApuOp {
    Write(u16, u8),
    Tick(u32),
}

/// The APU after the calls `ops`, in order.
pub open spec fn run_ops(s: ApuView, ops: Seq<ApuOp>) -> ApuView
    decreases ops.len(),
{
    if ops.len() == 0 {
        s
    } else {
        let s1 = run_ops(s, ops.drop_last());
        match ops.last() {
            ApuOp::Write(a, v) => s1.spec_write(a, v),
            ApuOp::Tick(t) => s1.spec_tick(t),
        }
    }
}

/// The last byte `ops` writes to `a`, or `none` when it writes none there.
pub open spec fn last_write(ops: Seq<ApuOp>, a: u16, none: u8) -> u8
    decreases ops.len(),
{
    if ops.len() == 0 {
        none
    } else {
        match ops.last() {
            ApuOp::Write(x, v) => if x == a { v } else { last_write(ops.drop_last(), a, none) },
            ApuOp::Tick(_) => last_write(ops.drop_last(), a, none),
        }
    }
}

/// Wave RAM holds the last byte written to it, whatever writes elsewhere (NR52
/// power-off included) and running came between; a cell never written reads as it
/// did at the start (0 on a new APU).
pub proof fn lemma_wave_ram_keeps_last_write(s: ApuView, ops: Seq<ApuOp>, a: u16)
    requires
        s.wave_ram.len() == 16,
        0xFF30 <= a <= 0xFF3F,
    ensures
        run_ops(s, ops).wave_ram.len() == 16,
        run_ops(s, ops).spec_read(a) == last_write(ops, a, s.spec_read(a)),
    decreases ops.len(),
{
    if ops.len() > 0 {
        lemma_wave_ram_keeps_last_write(s, ops.drop_last(), a);
        let s1 = run_ops(s, ops.drop_last());
        match ops.last() {
            ApuOp::Write(x, v) => {
                lemma_apu_reads(s1, a, x, v, 0);
            },
            ApuOp::Tick(t) => {
                lemma_apu_reads(s1, a, a, 0, t);
            },
        }
    }
}

/// Audio is produced at the host rate whether or not the APU is powered: `t`
/// T-cycles starting at down-sampler phase `a` record exactly
/// `(a + t * SAMPLE_RATE_HZ) / CPU_HZ` new samples, appended after the pending
/// ones, and leave the phase at the remainder.
pub proof fn lemma_tick_sample_rate(s: ApuView, t: u32)
    requires
        s.wf(),
    ensures
        s.spec_tick(t).samples.len() == s.samples.len() + (s.sample_accum + t * SAMPLE_RATE_HZ) / (CPU_HZ as int),
        s.spec_tick(t).sample_accum == (s.sample_accum + t * SAMPLE_RATE_HZ) % (CPU_HZ as int),
        s.spec_tick(t).samples.subrange(0, s.samples.len() as int) == s.samples,
{
    let mid = if s.powered_on { s.spec_sequencer(t) } else { s };
    lemma_sequencer_keeps_samples(s, t);
    lemma_downsample_count(mid, t as nat);
}

/// Powering off clears every register of `0xFF10..=0xFF25`: each then reads back
/// as its read mask alone.
pub proof fn lemma_power_off_clears_registers(s: ApuView, val: u8, addr: u16)
    requires
        s.wf(),
        s.powered_on,
        val & 0x80 == 0,
        0xFF10 <= addr <= 0xFF25,
    ensures
        s.spec_write(0xFF26, val).spec_read(addr) == read_mask(addr),
{
    let p = s.spec_write(0xFF26, val);
    let m = read_mask(addr);
    let z: u8 = 0;
    assert(z & 0xC0 == 0 && z | m == m) by (bit_vector)
        requires z == 0;
    assert(p.spec_register(addr) == 0);
}

/// Powering off keeps the wave RAM.
pub proof fn lemma_power_off_keeps_wave_ram(s: ApuView, val: u8)
    ensures
        s.spec_write(0xFF26, val).wave_ram == s.wave_ram,
{
}

/// Only bit 7 of NR52 is writable, and it reads back as written.
pub proof fn lemma_nr52_power_bit(s: ApuView, val: u8)
    requires
        s.wf(),
    ensures
        s.spec_write(0xFF26, val).powered_on == (val & 0x80 != 0),
        (s.spec_write(0xFF26, val).spec_read(0xFF26) & 0x80) == (val & 0x80),
{
    let p = s.spec_write(0xFF26, val);
    let r = p.spec_nr52();
    let low: u8 = ((if p.ch1.enabled { 1int } else { 0 }) + (if p.ch2.enabled { 2int } else { 0 })
        + (if p.ch3.enabled { 4int } else { 0 }) + (if p.ch4.enabled { 8int } else { 0 })) as u8;
    assert(low < 16);
    if p.powered_on {
        assert(r == 0x80 + low);
        assert(((0x80 + low) as u8 | 0x70u8) & 0x80 == 0x80) by (bit_vector)
            requires low < 16;
        assert(val & 0x80 != 0 ==> val & 0x80 == 0x80) by (bit_vector);
    } else {
        assert(r == low);
        assert((low | 0x70u8) & 0x80 == 0) by (bit_vector)
            requires low < 16;
    }
}

/// While powered off, writes other than the length loads (NR11, NR21, NR31, NR41),
/// NR52 and wave RAM change nothing.
pub proof fn lemma_powered_off_ignores_writes(s: ApuView, addr: u16, val: u8)
    requires
        !s.powered_on,
        addr != 0xFF11 && addr != 0xFF16 && addr != 0xFF1B && addr != 0xFF20 && addr != 0xFF26,
        !(0xFF30 <= addr <= 0xFF3F),
    ensures
        s.spec_write(addr, val) == s,
{
}

impl Apu {
    pub open spec fn wf(&self) -> bool {
        self@.wf()
    }

    /// The register state the DMG boot ROM leaves behind.
    pub open spec fn spec_post_boot() -> ApuView {
        let c1 = SquareChannel::spec_new(true).spec_write_nrx0(0x80).spec_write_nrx1(0xBF, true).spec_write_nrx2(0xF3);
        let c2 = SquareChannel::spec_new(false).spec_write_nrx1(0x3F, true);
        let c3 = WaveChannel::spec_new().spec_write_nr30(0x7F).spec_write_nr32(0x9F);
        ApuView {
            powered_on: true,
            nr50: 0x77,
            nr51: 0xF3,
            ch1: SquareChannel { length_enable: true, ..c1 },
            ch2: SquareChannel { length_enable: true, ..c2 },
            ch3: WaveChannel { length_enable: true, ..c3 },
            ch4: NoiseChannel { length_enable: true, ..NoiseChannel::spec_new() },
            wave_ram: Seq::new(16, |i: int| 0u8),
            fs_counter: FS_PERIOD_T,
            fs_step: 0,
            sample_accum: 0,
            samples: Seq::empty(),
        }
    }

    /// Post-boot APU: powered, NR50 `0x77`, NR51 `0xF3`, channel registers as the
    /// boot ROM leaves them, no channel playing.
    pub fn new() -> (r: Apu)
        ensures r.wf(), r@ == Self::spec_post_boot(),
    {
        let mut apu = Apu {
            powered_on: true,
            nr50: 0x77,
            nr51: 0xF3,
            ch1: SquareChannel::new(true),
            ch2: SquareChannel::new(false),
            ch3: WaveChannel::new(),
            ch4: NoiseChannel::new(),
            wave_ram: [0u8; 16],
            fs_counter: FS_PERIOD_T,
            fs_step: 0,
            sample_accum: 0,
            samples: Vec::new(),
        };
        apu.init_post_boot();
        assert(apu.wave_ram@ =~= Seq::new(16, |i: int| 0u8));
        assert(apu.samples@ =~= Seq::<MixInput>::empty());
        apu
    }

    fn init_post_boot(&mut self)
        requires old(self).ch1.wf() && old(self).ch2.wf(),
        ensures
            final(self).ch1 == (SquareChannel { length_enable: true, ..old(self).ch1.spec_write_nrx0(0x80).spec_write_nrx1(0xBF, true).spec_write_nrx2(0xF3) }),
            final(self).ch2 == (SquareChannel { length_enable: true, ..old(self).ch2.spec_write_nrx1(0x3F, true) }),
            final(self).ch3 == (WaveChannel { length_enable: true, ..old(self).ch3.spec_write_nr30(0x7F).spec_write_nr32(0x9F) }),
            final(self).ch4 == (NoiseChannel { length_enable: true, ..old(self).ch4 }),
            final(self).ch1.wf() && final(self).ch2.wf(),
            final(self).powered_on == old(self).powered_on && final(self).nr50 == old(self).nr50,
            final(self).nr51 == old(self).nr51 && final(self).wave_ram == old(self).wave_ram,
            final(self).fs_counter == old(self).fs_counter && final(self).fs_step == old(self).fs_step,
            final(self).sample_accum == old(self).sample_accum && final(self).samples == old(self).samples,
    {
        self.ch1.write_nrx0(0x80);
        self.ch1.write_nrx1(0xBF, true);
        self.ch1.write_nrx2(0xF3);
        self.ch1.length_enable = true;
        self.ch2.write_nrx1(0x3F, true);
        self.ch2.length_enable = true;
        self.ch3.write_nr30(0x7F);
        self.ch3.write_nr32(0x9F);
        self.ch3.length_enable = true;
        self.ch4.length_enable = true;
    }

    fn clock_length(&mut self)
        requires old(self).wf(),
        ensures final(self)@ == old(self)@.spec_clock_length(), final(self).wf(),
    {
        self.ch1.clock_length();
        self.ch2.clock_length();
        self.ch3.clock_length();
        self.ch4.clock_length();
    }

    fn clock_length_and_sweep(&mut self)
        requires old(self).wf(),
        ensures
            final(self)@ == old(self)@.spec_length_and_sweep(),
            final(self).wf(),
            final(self).fs_step == old(self).fs_step,
    {
        self.clock_length();
        self.ch1.clock_sweep();
        proof {
            reveal(ApuView::spec_length_and_sweep);
        }
    }

    fn tick_envelopes(&mut self)
        requires old(self).wf(),
        ensures
            final(self)@ == old(self)@.spec_envelopes(),
            final(self).wf(),
            final(self).fs_step == old(self).fs_step,
    {
        self.ch1.env.tick();
        self.ch2.env.tick();
        self.ch4.env.tick();
        proof {
            reveal(ApuView::spec_envelopes);
        }
    }

    fn fs_tick(&mut self)
        requires old(self).wf(),
        ensures final(self)@ == old(self)@.spec_fs_tick(), final(self).wf(),
    {
        if self.fs_step == 0 || self.fs_step == 4 {
            self.clock_length();
        } else if self.fs_step == 2 || self.fs_step == 6 {
            self.clock_length_and_sweep();
        } else if self.fs_step == 7 {
            self.tick_envelopes();
        }
        self.fs_step = (self.fs_step + 1) % 8;
    }

    fn mix_input(&self) -> (r: MixInput)
        requires self.wf(),
        ensures r == self@.mix_input(),
    {
        MixInput {
            s1: self.ch1.sample(),
            s2: self.ch2.sample(),
            s3: self.ch3.sample(&self.wave_ram),
            s4: self.ch4.sample(),
            dac1: self.ch1.env.dac_enabled(),
            dac2: self.ch2.env.dac_enabled(),
            dac3: self.ch3.dac_enabled,
            dac4: self.ch4.env.dac_enabled(),
            nr50: self.nr50,
            nr51: self.nr51,
        }
    }

    /// Advance by `t_cycles` T-cycles.
    pub fn tick(&mut self, t_cycles: u32)
        requires old(self).wf(),
        ensures final(self).wf(), final(self)@ == old(self)@.spec_tick(t_cycles),
    {
        if self.powered_on {
            let mut remaining = t_cycles;
            while remaining > 0
                invariant
                    self.wf(),
                    self@.spec_sequencer(remaining) == old(self)@.spec_sequencer(t_cycles),
                decreases remaining,
            {
                let step = if remaining < self.fs_counter { remaining } else { self.fs_counter };
                self.ch1.tick_t(step);
                self.ch2.tick_t(step);
                self.ch3.tick_t(step);
                self.ch4.tick_t(step);
                self.fs_counter = self.fs_counter - step;
                remaining = remaining - step;
                if self.fs_counter == 0 {
                    self.fs_counter = FS_PERIOD_T;
                    self.fs_tick();
                }
            }
        }
        let ghost mid = self@;
        let mut i: u32 = 0;
        while i < t_cycles
            invariant
                self.wf(),
                i <= t_cycles,
                self@.spec_downsample((t_cycles - i) as nat) == mid.spec_downsample(t_cycles as nat),
            decreases t_cycles - i,
        {
            let ghost before = self@;
            self.sample_accum = self.sample_accum + SAMPLE_RATE_HZ;
            if self.sample_accum >= CPU_HZ {
                self.sample_accum = self.sample_accum - CPU_HZ;
                let m = self.mix_input();
                self.samples.push(m);
            }
            i = i + 1;
            assert(self@ =~= {
                let acc = before.sample_accum + SAMPLE_RATE_HZ;
                if acc >= CPU_HZ {
                    ApuView { sample_accum: (acc - CPU_HZ) as u32, samples: before.samples.push(before.mix_input()), ..before }
                } else {
                    ApuView { sample_accum: acc as u32, ..before }
                }
            });
        }
    }

    /// Take the mixer inputs recorded since the last call.
    pub fn drain_samples(&mut self) -> (r: Vec<MixInput>)
        ensures
            r@ == old(self)@.samples,
            final(self)@ == (ApuView { samples: Seq::empty(), ..old(self)@ }),
    {
        let mut out: Vec<MixInput> = Vec::new();
        std::mem::swap(&mut out, &mut self.samples);
        out
    }

    fn read_nr52(&self) -> (r: u8)
        ensures r == self@.spec_nr52(),
    {
        let mut v: u8 = if self.powered_on { 0x80 } else { 0 };
        if self.ch1.enabled {
            v = v + 1;
        }
        if self.ch2.enabled {
            v = v + 2;
        }
        if self.ch3.enabled {
            v = v + 4;
        }
        if self.ch4.enabled {
            v = v + 8;
        }
        v
    }

    fn read_register(&self, addr: u16) -> (r: u8)
        ensures r == self@.spec_register(addr),
    {
        match addr {
            0xFF10 => self.ch1.read_nrx0(),
            0xFF11 => self.ch1.read_nrx1(),
            0xFF12 => self.ch1.read_nrx2(),
            0xFF14 => if self.ch1.length_enable { 0x40 } else { 0 },
            0xFF16 => self.ch2.read_nrx1(),
            0xFF17 => self.ch2.read_nrx2(),
            0xFF19 => if self.ch2.length_enable { 0x40 } else { 0 },
            0xFF1A => self.ch3.read_nr30(),
            0xFF1C => self.ch3.read_nr32(),
            0xFF1E => if self.ch3.length_enable { 0x40 } else { 0 },
            0xFF21 => self.ch4.read_nr42(),
            0xFF22 => self.ch4.read_nr43(),
            0xFF23 => if self.ch4.length_enable { 0x40 } else { 0 },
            0xFF24 => self.nr50,
            0xFF25 => self.nr51,
            0xFF26 => self.read_nr52(),
            _ => 0x00,
        }
    }

    /// CPU read of an APU register or wave-RAM byte.
    pub fn read(&self, addr: u16) -> (r: u8)
        requires self.wf(),
        ensures r == self@.spec_read(addr),
    {
        if 0xFF10 <= addr && addr <= 0xFF2F {
            self.read_register(addr) | read_mask_of(addr)
        } else if 0xFF30 <= addr && addr <= 0xFF3F {
            self.wave_ram[(addr - 0xFF30) as usize]
        } else {
            0xFF
        }
    }

    fn write_register(&mut self, addr: u16, val: u8)
        requires old(self).wf(),
        ensures final(self)@ == old(self)@.spec_write_register(addr, val), final(self).wf(),
    {
        let fs = self.fs_step;
        match addr {
            0xFF10 => self.ch1.write_nrx0(val),
            0xFF11 => self.ch1.write_nrx1(val, true),
            0xFF12 => self.ch1.write_nrx2(val),
            0xFF13 => self.ch1.write_nrx3(val),
            0xFF14 => self.ch1.write_nrx4(val, fs),
            0xFF16 => self.ch2.write_nrx1(val, true),
            0xFF17 => self.ch2.write_nrx2(val),
            0xFF18 => self.ch2.write_nrx3(val),
            0xFF19 => self.ch2.write_nrx4(val, fs),
            0xFF1A => self.ch3.write_nr30(val),
            0xFF1B => self.ch3.write_nr31(val),
            0xFF1C => self.ch3.write_nr32(val),
            0xFF1D => self.ch3.write_nr33(val),
            0xFF1E => self.ch3.write_nr34(val, fs),
            0xFF20 => self.ch4.write_nr41(val),
            0xFF21 => self.ch4.write_nr42(val),
            0xFF22 => self.ch4.write_nr43(val),
            0xFF23 => self.ch4.write_nr44(val, fs),
            0xFF24 => self.nr50 = val,
            0xFF25 => self.nr51 = val,
            _ => {},
        }
    }

    fn write_nr52(&mut self, val: u8)
        requires old(self).wf(),
        ensures final(self)@ == old(self)@.spec_write_nr52(val), final(self).wf(),
    {
        let want_on = val & 0x80 != 0;
        if !want_on && self.powered_on {
            self.nr50 = 0;
            self.nr51 = 0;
            self.ch1.power_off_reset();
            self.ch2.power_off_reset();
            self.ch3.power_off_reset();
            self.ch4.power_off_reset();
            self.powered_on = false;
        } else if want_on && !self.powered_on {
            self.powered_on = true;
            self.fs_step = 0;
            self.fs_counter = FS_PERIOD_T;
            self.ch1.duty_index = 0;
            self.ch2.duty_index = 0;
            self.ch3.sample_index = 0;
        }
    }

    /// CPU write to an APU register or wave-RAM byte.
    pub fn write(&mut self, addr: u16, val: u8)
        requires old(self).wf(),
        ensures final(self)@ == old(self)@.spec_write(addr, val), final(self).wf(),
    {
        if 0xFF30 <= addr && addr <= 0xFF3F {
            self.wave_ram[(addr - 0xFF30) as usize] = val;
            return;
        }
        if addr == 0xFF26 {
            self.write_nr52(val);
            return;
        }
        if !self.powered_on {
            match addr {
                0xFF11 => self.ch1.write_nrx1(val, false),
                0xFF16 => self.ch2.write_nrx1(val, false),
                0xFF1B => self.ch3.write_nr31(val),
                0xFF20 => self.ch4.write_nr41(val),
                _ => {},
            }
            return;
        }
        self.write_register(addr, val);
    }
}

impl Default for Apu {
    fn default() -> (r: Apu)
        ensures r.wf(), r@ == Apu::spec_post_boot(),
    {
        Apu::new()
    }
}

} // verus!
