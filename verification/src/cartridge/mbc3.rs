//! MBC3: up to 2 MiB ROM, 32 KiB RAM and an optional real-time clock (Pan Docs, MBC3).
//!
//! * `0x0000-0x3FFF`: fixed ROM bank 0.
//! * `0x4000-0x7FFF`: ROM bank 1-127 (writing 0 selects 1).
//! * `0xA000-0xBFFF`: an 8 KiB RAM bank (`0x00-0x03`) or a latched RTC register
//!   (`0x08-0x0C`), as last written to `0x4000-0x5FFF`.
//!
//! Register writes: `0x0000-0x1FFF` RAM/RTC enable (low nibble `0xA`),
//! `0x2000-0x3FFF` ROM bank (7 bits), `0x4000-0x5FFF` RAM bank or RTC register
//! select, `0x6000-0x7FFF` latch (writing `0x00` then `0x01` copies the live counter
//! into the readable registers).
//!
//! The live counter advances with the time of a clock the cartridge owns. Every
//! operation that needs the time reads the clock first and hands the reading to a
//! verified function that takes it as an argument; the contracts hold for every
//! reading.

use vstd::prelude::*;
use std::time::Duration;
use super::{byte_at, store_at, copy_prefix, byte_or_ff, stored, loaded, zeroed};

verus! {

pub const RTC_S: u8 = 0x08;
pub const RTC_M: u8 = 0x09;
pub const RTC_H: u8 = 0x0A;
pub const RTC_DL: u8 = 0x0B;
pub const RTC_DH: u8 = 0x0C;

pub const DH_DAY_HIGH: u8 = 0x01;
pub const DH_HALT: u8 = 0x40;
pub const DH_OVERFLOW: u8 = 0x80;

pub const SECS_PER_MIN: i64 = 60;
pub const SECS_PER_HOUR: i64 = 3600;
pub const SECS_PER_DAY: i64 = 86400;
pub const DAY_WRAP: i64 = 512;

/// Largest value a clock reading can take: the nanoseconds of the longest `Duration`.
pub const MAX_CLOCK_NANOS: u128 = 18_446_744_073_709_551_615_999_999_999;

/// A source of wall-clock time, in nanoseconds since an arbitrary fixed origin.
pub trait RtcClock {
    fn now_nanos(&self) -> (r: u128)
        ensures r <= MAX_CLOCK_NANOS;
}

/// The host's system clock (time since the Unix epoch).
pub struct SystemClock;

/// A clock given as a closure returning the time since some origin.
pub struct FnClock<F: Fn() -> Duration> {
    pub f: F,
}

#[verifier::external_type_specification]
#[verifier::external_body]
pub struct ExSystemTime(std::time::SystemTime);

/// Calls `SystemTime::now()`. Nothing is stated of the time it returns.
#[verifier::external_body]
fn system_now() -> (t: std::time::SystemTime) {
    std::time::SystemTime::now()
}

/// Calls `SystemTime::duration_since(UNIX_EPOCH)` on `t`: the time since the epoch,
/// `None` for a time before it. Nothing is stated of the duration.
#[verifier::external_body]
fn since_unix_epoch(t: &std::time::SystemTime) -> (d: Option<Duration>) {
    match t.duration_since(std::time::UNIX_EPOCH) {
        Ok(d) => Some(d),
        Err(_) => None,
    }
}

/// Calls `Duration::as_nanos`: the whole nanoseconds of the duration, which the
/// range of `Duration` bounds by `MAX_CLOCK_NANOS`.
#[verifier::external_body]
fn duration_nanos(d: &Duration) -> (r: u128)
    ensures r <= MAX_CLOCK_NANOS,
{
    d.as_nanos()
}

/// Calls the injected clock closure. Nothing is stated of the duration it returns.
#[verifier::external_body]
fn read_injected_clock<F: Fn() -> Duration>(f: &F) -> (d: Duration) {
    f()
}

/// Nanoseconds since the Unix epoch on the system clock; 0 when the clock is set
/// before the epoch.
fn system_time_nanos() -> (r: u128)
    ensures r <= MAX_CLOCK_NANOS,
{
    let t = system_now();
    match since_unix_epoch(&t) {
        Some(d) => duration_nanos(&d),
        None => 0,
    }
}

impl RtcClock for SystemClock {
    fn now_nanos(&self) -> (r: u128) {
        system_time_nanos()
    }
}

impl<F: Fn() -> Duration> RtcClock for FnClock<F> {
    fn now_nanos(&self) -> (r: u128) {
        let d = read_injected_clock(&self.f);
        duration_nanos(&d)
    }
}

/// Three successive clock readings, as an RTC register write may take them.
pub type ClockReads = (u128, u128, u128);

pub struct Mbc3 {
    pub rom: Vec<u8>,
    pub ram: Vec<u8>,
    /// Number of 16 KiB ROM banks (at least 1) minus one.
    pub rom_bank_mask: usize,
    pub ram_bank_count: usize,
    pub ram_rtc_enable: bool,
    /// ROM bank for `0x4000-0x7FFF` (7 bits; 0 is stored as 1).
    pub rom_bank: u8,
    /// Last value written to `0x4000-0x5FFF`.
    pub ram_bank_or_rtc: u8,
    /// Clock reading (nanoseconds) at which `base_counter_seconds` was sampled.
    pub base_time: u128,
    /// Live counter (seconds since day 0, 00:00:00) at `base_time`.
    pub base_counter_seconds: i64,
    pub halted: bool,
    /// Frozen counter while halted.
    pub halt_seconds: i64,
    /// Sticky day-counter overflow (bit 7 of DH).
    pub day_overflow: bool,
    pub latched_s: u8,
    pub latched_m: u8,
    pub latched_h: u8,
    pub latched_dl: u8,
    pub latched_dh: u8,
    /// Previous value written to `0x6000-0x7FFF`, to detect the 0 then 1 sequence.
    pub latch_prev: u8,
    pub clock: Box<dyn RtcClock>,
}

pub struct Mbc3View {
    pub rom: Seq<u8>,
    pub ram: Seq<u8>,
    pub rom_bank_mask: usize,
    pub ram_bank_count: usize,
    pub ram_rtc_enable: bool,
    pub rom_bank: u8,
    pub ram_bank_or_rtc: u8,
    pub base_time: u128,
    pub base_counter_seconds: i64,
    pub halted: bool,
    pub halt_seconds: i64,
    pub day_overflow: bool,
    pub latched_s: u8,
    pub latched_m: u8,
    pub latched_h: u8,
    pub latched_dl: u8,
    pub latched_dh: u8,
    pub latch_prev: u8,
}

impl View for Mbc3 {
    type V = Mbc3View;

    open spec fn view(&self) -> Mbc3View {
        Mbc3View {
            rom: self.rom@,
            ram: self.ram@,
            rom_bank_mask: self.rom_bank_mask,
            ram_bank_count: self.ram_bank_count,
            ram_rtc_enable: self.ram_rtc_enable,
            rom_bank: self.rom_bank,
            ram_bank_or_rtc: self.ram_bank_or_rtc,
            base_time: self.base_time,
            base_counter_seconds: self.base_counter_seconds,
            halted: self.halted,
            halt_seconds: self.halt_seconds,
            day_overflow: self.day_overflow,
            latched_s: self.latched_s,
            latched_m: self.latched_m,
            latched_h: self.latched_h,
            latched_dl: self.latched_dl,
            latched_dh: self.latched_dh,
            latch_prev: self.latch_prev,
        }
    }
}

/// `a + b`, clamped to the range of `i64`.
pub open spec fn sat_add_i64(a: i64, b: i64) -> i64 {
    if a + b > i64::MAX {
        i64::MAX
    } else if a + b < i64::MIN {
        i64::MIN
    } else {
        (a + b) as i64
    }
}

/// Whole seconds from clock reading `from` to `to` (zero when `to` is earlier).
pub open spec fn elapsed_secs(from: u128, to: u128) -> i64 {
    (((if to > from { to - from } else { 0 }) / 1_000_000_000) as u64) as i64
}

impl Mbc3View {
    /// The power-on state for the given ROM, RAM size and first clock reading.
    pub open spec fn initial(rom: Seq<u8>, ram_size: usize, now: u128) -> Mbc3View {
        Mbc3View {
            rom: rom,
            ram: Seq::new(ram_size as nat, |i: int| 0u8),
            rom_bank_mask: ((if rom.len() / 0x4000 >= 1 { rom.len() / 0x4000 } else { 1 }) - 1) as usize,
            ram_bank_count: ram_size / 0x2000,
            ram_rtc_enable: false,
            rom_bank: 1,
            ram_bank_or_rtc: 0,
            base_time: now,
            base_counter_seconds: 0,
            halted: false,
            halt_seconds: 0,
            day_overflow: false,
            latched_s: 0,
            latched_m: 0,
            latched_h: 0,
            latched_dl: 0,
            latched_dh: 0,
            latch_prev: 0xFF,
        }
    }

    pub open spec fn read_rom(self, addr: u16) -> u8 {
        let bank: int = if addr < 0x4000 { 0 } else { ((self.rom_bank as usize) & self.rom_bank_mask) as int };
        byte_or_ff(self.rom, bank * 0x4000 + addr % 0x4000)
    }

    /// Live counter value, in seconds, at clock reading `now`.
    pub open spec fn current_total(self, now: u128) -> i64 {
        if self.halted {
            self.halt_seconds
        } else {
            sat_add_i64(self.base_counter_seconds, elapsed_secs(self.base_time, now))
        }
    }

    /// Re-bases the live counter to `total` at clock reading `now`.
    pub open spec fn rebase(self, total: i64, now: u128) -> Mbc3View {
        if self.halted {
            Mbc3View { halt_seconds: total, ..self }
        } else {
            Mbc3View { base_time: now, base_counter_seconds: total, ..self }
        }
    }

    /// Copies the live counter into the latched registers. Past 511 days the overflow
    /// flag is set and the counter is folded back into `[0, 512)` days.
    pub open spec fn latch(self, now: u128) -> Mbc3View {
        let total0: int = self.current_total(now) as int;
        let days0 = total0 / 86400;
        let wrap = days0 >= 512;
        let adj: int = if wrap { (days0 / 512) * 512 * 86400 } else { 0 };
        let days: int = if wrap { days0 % 512 } else { days0 };
        let total: int = total0 - adj;
        let s1 = if !wrap {
            self
        } else if self.halted {
            Mbc3View { day_overflow: true, halt_seconds: vstd::wrapping::i64_specs::wrapping_sub(self.halt_seconds, adj as i64), ..self }
        } else {
            Mbc3View { day_overflow: true, base_counter_seconds: vstd::wrapping::i64_specs::wrapping_sub(self.base_counter_seconds, adj as i64), ..self }
        };
        Mbc3View {
            latched_s: (total % 60) as u8,
            latched_m: ((total / 60) % 60) as u8,
            latched_h: ((total / 3600) % 24) as u8,
            latched_dl: ((days as i64) & 0xFF) as u8,
            latched_dh: ((((days as i64) >> 8) & 1) as u8 & DH_DAY_HIGH)
                | (if s1.halted { DH_HALT } else { 0 })
                | (if s1.day_overflow { DH_OVERFLOW } else { 0 }),
            ..s1
        }
    }

    /// A CPU write of `val` to RTC register `reg`, editing the live counter. `t` are the
    /// clock readings taken for the counter value, a resume and the re-base.
    pub open spec fn write_rtc(self, reg: u8, val: u8, t: ClockReads) -> Mbc3View {
        let total: int = self.current_total(t.0) as int;
        let secs: int = total % 60;
        let mins: int = (total / 60) % 60;
        let hours: int = (total / 3600) % 24;
        let days0: i64 = (total / 86400) as i64;
        let days: int = (((days0 >> 8) & 1) << 8 | (days0 & 0xFF)) as int;
        if reg == RTC_S {
            self.rebase((days * 86400 + hours * 3600 + mins * 60 + (val & 0x3F)) as i64, t.2)
        } else if reg == RTC_M {
            self.rebase((days * 86400 + hours * 3600 + (val & 0x3F) * 60 + secs) as i64, t.2)
        } else if reg == RTC_H {
            self.rebase((days * 86400 + (val & 0x1F) * 3600 + mins * 60 + secs) as i64, t.2)
        } else if reg == RTC_DL {
            let d = ((days as i64) & 0x100) as int + val;
            self.rebase((d * 86400 + hours * 3600 + mins * 60 + secs) as i64, t.2)
        } else if reg == RTC_DH {
            let new_halt = val & DH_HALT != 0;
            let d = ((val & DH_DAY_HIGH) as int) * 256 + ((days as i64) & 0xFF) as int;
            let s1 = if new_halt && !self.halted {
                Mbc3View { halt_seconds: total as i64, ..self }
            } else if !new_halt && self.halted {
                Mbc3View { base_time: t.1, base_counter_seconds: self.halt_seconds, ..self }
            } else {
                self
            };
            let s2 = Mbc3View { halted: new_halt, day_overflow: val & DH_OVERFLOW != 0, ..s1 };
            s2.rebase((d * 86400 + hours * 3600 + mins * 60 + secs) as i64, t.2)
        } else {
            self
        }
    }

    pub open spec fn write_rom(self, addr: u16, val: u8, now: u128) -> Mbc3View {
        if addr <= 0x1FFF {
            Mbc3View { ram_rtc_enable: val & 0x0F == 0x0A, ..self }
        } else if addr <= 0x3FFF {
            Mbc3View { rom_bank: if val & 0x7F == 0 { 1 } else { val & 0x7F }, ..self }
        } else if addr <= 0x5FFF {
            Mbc3View { ram_bank_or_rtc: val, ..self }
        } else if addr <= 0x7FFF {
            let s1 = if self.latch_prev == 0 && val == 1 { self.latch(now) } else { self };
            Mbc3View { latch_prev: val, ..s1 }
        } else {
            self
        }
    }

    pub open spec fn ram_offset(self, addr: u16) -> int {
        (((self.ram_bank_or_rtc as usize) & ((self.ram_bank_count - 1) as usize)) as int) * 0x2000 + (addr - 0xA000)
    }

    pub open spec fn read_ram(self, addr: u16) -> u8 {
        if !self.ram_rtc_enable {
            0xFF
        } else if self.ram_bank_or_rtc <= 0x03 {
            if self.ram.len() == 0 || self.ram_bank_count == 0 {
                0xFF
            } else {
                byte_or_ff(self.ram, self.ram_offset(addr))
            }
        } else if self.ram_bank_or_rtc == RTC_S {
            self.latched_s
        } else if self.ram_bank_or_rtc == RTC_M {
            self.latched_m
        } else if self.ram_bank_or_rtc == RTC_H {
            self.latched_h
        } else if self.ram_bank_or_rtc == RTC_DL {
            self.latched_dl
        } else if self.ram_bank_or_rtc == RTC_DH {
            self.latched_dh
        } else {
            0xFF
        }
    }

    pub open spec fn write_ram(self, addr: u16, val: u8, t: ClockReads) -> Mbc3View {
        if !self.ram_rtc_enable {
            self
        } else if self.ram_bank_or_rtc <= 0x03 {
            if self.ram.len() == 0 || self.ram_bank_count == 0 {
                self
            } else {
                Mbc3View { ram: stored(self.ram, self.ram_offset(addr), val), ..self }
            }
        } else if RTC_S <= self.ram_bank_or_rtc <= RTC_DH {
            self.write_rtc(self.ram_bank_or_rtc, val, t)
        } else {
            self
        }
    }

    pub open spec fn load_ram(self, data: Seq<u8>) -> Mbc3View {
        Mbc3View { ram: loaded(self.ram, data), ..self }
    }
}

fn sat_add(a: i64, b: i64) -> (r: i64)
    ensures r == sat_add_i64(a, b),
{
    if b > 0 && a > i64::MAX - b {
        i64::MAX
    } else if b < 0 && a < i64::MIN - b {
        i64::MIN
    } else {
        a + b
    }
}

fn div_floor(a: i64, b: i64) -> (r: i64)
    requires b > 0,
    ensures r == a / b,
{
    proof {
        assert(i64::MIN <= a / b <= i64::MAX) by (nonlinear_arith)
            requires b > 0, i64::MIN <= a <= i64::MAX;
    }
    match a.checked_div_euclid(b) {
        Some(q) => q,
        None => 0,
    }
}

fn mod_floor(a: i64, b: i64) -> (r: i64)
    requires b > 0,
    ensures r == a % b, 0 <= r < b,
{
    match a.checked_rem_euclid(b) {
        Some(m) => m,
        None => 0,
    }
}

impl Mbc3 {
    /// A cartridge whose RTC counts with the host's system clock.
    pub fn new(rom: Vec<u8>, ram_size: usize) -> (r: Mbc3)
        ensures exists|now: u128| r@ == Mbc3View::initial(rom@, ram_size, now),
    {
        let clock = SystemClock;
        let now = clock.now_nanos();
        Self::new_at(rom, ram_size, now, Box::new(clock))
    }

    /// A cartridge whose RTC counts with the given clock closure.
    pub fn new_with_clock<F: Fn() -> Duration + 'static>(rom: Vec<u8>, ram_size: usize, clock: F) -> (r: Mbc3)
        ensures exists|now: u128| r@ == Mbc3View::initial(rom@, ram_size, now),
    {
        let clock = FnClock { f: clock };
        let now = clock.now_nanos();
        Self::new_at(rom, ram_size, now, Box::new(clock))
    }

    /// The power-on state with first clock reading `now`.
    pub fn new_at(rom: Vec<u8>, ram_size: usize, now: u128, clock: Box<dyn RtcClock>) -> (r: Mbc3)
        ensures r@ == Mbc3View::initial(rom@, ram_size, now),
    {
        let count = rom.len() / 0x4000;
        let rom_bank_count = if count >= 1 { count } else { 1 };
        Mbc3 {
            rom,
            ram: zeroed(ram_size),
            rom_bank_mask: rom_bank_count - 1,
            ram_bank_count: ram_size / 0x2000,
            ram_rtc_enable: false,
            rom_bank: 1,
            ram_bank_or_rtc: 0,
            base_time: now,
            base_counter_seconds: 0,
            halted: false,
            halt_seconds: 0,
            day_overflow: false,
            latched_s: 0,
            latched_m: 0,
            latched_h: 0,
            latched_dl: 0,
            latched_dh: 0,
            latch_prev: 0xFF,
            clock,
        }
    }

    fn now(&self) -> (r: u128)
        ensures r <= MAX_CLOCK_NANOS,
    {
        self.clock.now_nanos()
    }

    fn current_total_seconds(&self, now: u128) -> (r: i64)
        ensures r == self@.current_total(now),
    {
        if self.halted {
            self.halt_seconds
        } else {
            let diff: u128 = if now > self.base_time { now - self.base_time } else { 0 };
            let elapsed = ((diff / 1_000_000_000) as u64) as i64;
            sat_add(self.base_counter_seconds, elapsed)
        }
    }

    fn rebase_counter(&mut self, total: i64, now: u128)
        ensures final(self)@ == old(self)@.rebase(total, now),
    {
        if self.halted {
            self.halt_seconds = total;
        } else {
            self.base_time = now;
            self.base_counter_seconds = total;
        }
    }

    fn latch_now(&mut self, now: u128)
        ensures final(self)@ == old(self)@.latch(now),
    {
        let mut total = self.current_total_seconds(now);
        let mut days = div_floor(total, SECS_PER_DAY);
        if days >= DAY_WRAP {
            self.day_overflow = true;
            let wraps = div_floor(days, DAY_WRAP);
            proof {
                assert(wraps * DAY_WRAP * SECS_PER_DAY <= total) by (nonlinear_arith)
                    requires wraps == days / DAY_WRAP, days == total / SECS_PER_DAY, days >= DAY_WRAP;
                assert(wraps * DAY_WRAP * SECS_PER_DAY >= 0) by (nonlinear_arith)
                    requires wraps == days / DAY_WRAP, days >= DAY_WRAP;
                assert(days - wraps * DAY_WRAP == days % DAY_WRAP) by (nonlinear_arith)
                    requires wraps == days / DAY_WRAP;
            }
            let adj_secs = wraps * DAY_WRAP * SECS_PER_DAY;
            days = days - wraps * DAY_WRAP;
            total = total - adj_secs;
            if self.halted {
                self.halt_seconds = self.halt_seconds.wrapping_sub(adj_secs);
            } else {
                self.base_counter_seconds = self.base_counter_seconds.wrapping_sub(adj_secs);
            }
        }
        let secs = mod_floor(total, SECS_PER_MIN) as u8;
        let mins = mod_floor(div_floor(total, SECS_PER_MIN), 60) as u8;
        let hours = mod_floor(div_floor(total, SECS_PER_HOUR), 24) as u8;
        self.latched_s = secs;
        self.latched_m = mins;
        self.latched_h = hours;
        self.latched_dl = (days & 0xFF) as u8;
        let day_high = ((days >> 8) & 1) as u8;
        self.latched_dh = (day_high & DH_DAY_HIGH)
            | (if self.halted { DH_HALT } else { 0 })
            | (if self.day_overflow { DH_OVERFLOW } else { 0 });
    }

    /// Edits the live counter through RTC register `reg`.
    fn write_rtc_register(&mut self, reg: u8, val: u8, t: ClockReads)
        ensures final(self)@ == old(self)@.write_rtc(reg, val, t),
    {
        let total = self.current_total_seconds(t.0);
        let mut secs = mod_floor(total, SECS_PER_MIN);
        let mut mins = mod_floor(div_floor(total, SECS_PER_MIN), 60);
        let mut hours = mod_floor(div_floor(total, SECS_PER_HOUR), 24);
        let days0 = div_floor(total, SECS_PER_DAY);
        let day_high = (days0 >> 8) & 1;
        let day_low = days0 & 0xFF;
        let mut days = (day_high << 8) | day_low;
        proof {
            assert(0 <= (((days0 >> 8) & 1) << 8 | (days0 & 0xFF)) <= 511) by (bit_vector);
        }
        proof {
            assert(val & 0x3F <= 0x3F && val & 0x1F <= 0x1F && val & 1 <= 1) by (bit_vector);
        }
        if reg == RTC_S {
            secs = (val & 0x3F) as i64;
        } else if reg == RTC_M {
            mins = (val & 0x3F) as i64;
        } else if reg == RTC_H {
            hours = (val & 0x1F) as i64;
        } else if reg == RTC_DL {
            proof {
                assert((days & 0x100) | (val as i64) == (days & 0x100) + (val as i64)
                    && 0 <= (days & 0x100) + (val as i64) <= 511) by (bit_vector)
                    requires 0 <= days <= 511;
            }
            days = (days & 0x100) | (val as i64);
        } else if reg == RTC_DH {
            let new_day_high = (val & DH_DAY_HIGH) as i64;
            let new_halt = (val & DH_HALT) != 0;
            let new_overflow = (val & DH_OVERFLOW) != 0;
            proof {
                assert((new_day_high << 8) | (days & 0xFF) == new_day_high * 256 + (days & 0xFF)) by (bit_vector)
                    requires 0 <= new_day_high <= 1, 0 <= days <= 511;
                assert(0 <= days & 0xFF <= 255) by (bit_vector) requires 0 <= days <= 511;
            }
            days = (new_day_high << 8) | (days & 0xFF);
            if new_halt && !self.halted {
                self.halt_seconds = total;
            } else if !new_halt && self.halted {
                self.base_time = t.1;
                self.base_counter_seconds = self.halt_seconds;
            }
            self.halted = new_halt;
            self.day_overflow = new_overflow;
        } else {
            return;
        }
        assert(0 <= days <= 511 && 0 <= hours <= 31 && 0 <= mins <= 63 && 0 <= secs <= 63);
        let new_total = days * SECS_PER_DAY + hours * SECS_PER_HOUR + mins * SECS_PER_MIN + secs;
        self.rebase_counter(new_total, t.2);
    }

    pub fn read_rom(&self, addr: u16) -> (r: u8)
        ensures r == self@.read_rom(addr),
    {
        let bank: usize = if addr < 0x4000 { 0 } else { (self.rom_bank as usize) & self.rom_bank_mask };
        let off = bank as u128 * 0x4000 + (addr % 0x4000) as u128;
        byte_at(&self.rom, off)
    }

    /// ROM-region write with clock reading `now` (used only by a latch).
    pub fn write_rom_at(&mut self, addr: u16, val: u8, now: u128)
        ensures final(self)@ == old(self)@.write_rom(addr, val, now),
    {
        if addr <= 0x1FFF {
            self.ram_rtc_enable = (val & 0x0F) == 0x0A;
        } else if addr <= 0x3FFF {
            let v = val & 0x7F;
            self.rom_bank = if v == 0 { 1 } else { v };
        } else if addr <= 0x5FFF {
            self.ram_bank_or_rtc = val;
        } else if addr <= 0x7FFF {
            if self.latch_prev == 0x00 && val == 0x01 {
                self.latch_now(now);
            }
            self.latch_prev = val;
        }
    }

    /// ROM-region write; reads the clock for a possible latch.
    pub fn write_rom(&mut self, addr: u16, val: u8)
        ensures exists|now: u128| final(self)@ == old(self)@.write_rom(addr, val, now),
    {
        let now = self.now();
        self.write_rom_at(addr, val, now);
    }

    pub fn read_ram(&self, addr: u16) -> (r: u8)
        requires 0xA000 <= addr,
        ensures r == self@.read_ram(addr),
    {
        if !self.ram_rtc_enable {
            return 0xFF;
        }
        let sel = self.ram_bank_or_rtc;
        if sel <= 0x03 {
            if self.ram.len() == 0 || self.ram_bank_count == 0 {
                return 0xFF;
            }
            let bank = (sel as usize) & (self.ram_bank_count - 1);
            let off = bank as u128 * 0x2000 + (addr - 0xA000) as u128;
            byte_at(&self.ram, off)
        } else if sel == RTC_S {
            self.latched_s
        } else if sel == RTC_M {
            self.latched_m
        } else if sel == RTC_H {
            self.latched_h
        } else if sel == RTC_DL {
            self.latched_dl
        } else if sel == RTC_DH {
            self.latched_dh
        } else {
            0xFF
        }
    }

    /// RAM-region write with clock readings `t` (used only by an RTC register write).
    pub fn write_ram_at(&mut self, addr: u16, val: u8, t: ClockReads)
        requires 0xA000 <= addr,
        ensures final(self)@ == old(self)@.write_ram(addr, val, t),
    {
        if !self.ram_rtc_enable {
            return;
        }
        let sel = self.ram_bank_or_rtc;
        if sel <= 0x03 {
            if self.ram.len() == 0 || self.ram_bank_count == 0 {
                return;
            }
            let bank = (sel as usize) & (self.ram_bank_count - 1);
            let off = bank as u128 * 0x2000 + (addr - 0xA000) as u128;
            store_at(&mut self.ram, off, val);
        } else if RTC_S <= sel && sel <= RTC_DH {
            self.write_rtc_register(sel, val, t);
        }
    }

    /// RAM-region write; reads the clock for a possible RTC register write.
    pub fn write_ram(&mut self, addr: u16, val: u8)
        requires 0xA000 <= addr,
        ensures exists|t: ClockReads| final(self)@ == old(self)@.write_ram(addr, val, t),
    {
        let t0 = self.now();
        let t1 = self.now();
        let t2 = self.now();
        self.write_ram_at(addr, val, (t0, t1, t2));
    }

    pub fn load_ram(&mut self, data: &[u8])
        ensures final(self)@ == old(self)@.load_ram(data@),
    {
        copy_prefix(&mut self.ram, data);
    }
}

/// A write of 0 to the ROM bank register selects bank 1.
pub proof fn lemma_mbc3_bank_zero_maps_to_one(m: Mbc3View, addr: u16, val: u8, now: u128)
    requires
        0x2000 <= addr <= 0x3FFF,
        val & 0x7F == 0,
    ensures
        m.write_rom(addr, val, now).rom_bank == 1,
{
}

/// With RAM enabled and a RAM bank selected, a byte written to an existing RAM cell
/// reads back.
pub proof fn lemma_mbc3_ram_roundtrip(m: Mbc3View, addr: u16, val: u8, t: ClockReads)
    requires
        m.ram_rtc_enable,
        m.ram_bank_or_rtc <= 0x03,
        m.ram_bank_count > 0,
        0 <= m.ram_offset(addr) < m.ram.len(),
    ensures
        m.write_ram(addr, val, t).read_ram(addr) == val,
{
}

/// Disabled RAM and RTC read `0xFF` and ignore writes.
pub proof fn lemma_mbc3_disabled_ram(m: Mbc3View, addr: u16, val: u8, t: ClockReads)
    requires
        !m.ram_rtc_enable,
    ensures
        m.read_ram(addr) == 0xFF,
        m.write_ram(addr, val, t) == m,
{
}

/// While the RTC is halted its counter does not move, whatever the clock reads.
pub proof fn lemma_mbc3_halt_freezes_counter(m: Mbc3View, a: u128, b: u128)
    requires
        m.halted,
    ensures
        m.current_total(a) == m.current_total(b),
{
}

/// The latch takes the live counter only on a 0 then 1 write sequence to
/// `0x6000..=0x7FFF`; any other write there leaves the latched registers alone.
pub proof fn lemma_mbc3_latch_on_zero_then_one(m: Mbc3View, addr: u16, v0: u8, v1: u8, n0: u128, n1: u128)
    requires
        0x6000 <= addr <= 0x7FFF,
    ensures
        ({
            let m2 = m.write_rom(addr, v0, n0).write_rom(addr, v1, n1);
            let m1 = m.write_rom(addr, v0, n0);
            &&& (v0 == 0 && v1 == 1) ==> m2 == (Mbc3View { latch_prev: 1, ..m1.latch(n1) })
            &&& !(v0 == 0 && v1 == 1) ==> (m2.latched_s == m1.latched_s && m2.latched_m == m1.latched_m
                && m2.latched_h == m1.latched_h && m2.latched_dl == m1.latched_dl && m2.latched_dh == m1.latched_dh)
        }),
{
}

} // verus!
