use gb_core::cartridge::mbc3::{Mbc3, DH_HALT, RTC_DH, RTC_DL, RTC_H, RTC_M, RTC_S};
use std::sync::{Arc, Mutex};
use std::time::Duration;

fn rom_with_n_banks(n: usize) -> Vec<u8> {
    let mut rom = vec![0u8; n * 0x4000];
    for bank in 0..n {
        for i in 0..0x4000 {
            rom[bank * 0x4000 + i] = bank as u8;
        }
    }
    rom
}

/// A test-only clock backed by a shared `Duration` cell.
#[derive(Clone)]
struct TestClock(Arc<Mutex<Duration>>);

impl TestClock {
    fn new(start: Duration) -> Self {
        Self(Arc::new(Mutex::new(start)))
    }
    fn advance(&self, by: Duration) {
        let mut g = self.0.lock().unwrap();
        *g += by;
    }
    fn fn_clone(&self) -> impl Fn() -> Duration + Send + 'static {
        let inner = self.0.clone();
        move || *inner.lock().unwrap()
    }
}

fn make(rom_banks: usize, ram_size: usize) -> (Mbc3, TestClock) {
    let clk = TestClock::new(Duration::from_secs(1_000_000));
    let m = Mbc3::new_with_clock(rom_with_n_banks(rom_banks), ram_size, clk.fn_clone());
    (m, clk)
}

#[test]
fn mbc3_defaults_select_bank_0_and_bank_1() {
    let (m, _) = make(4, 0);
    assert_eq!(m.read_rom(0x0000), 0);
    assert_eq!(m.read_rom(0x4000), 1);
}

#[test]
fn bank_number_zero_maps_to_one() {
    let (mut m, _) = make(4, 0);
    m.write_rom(0x2000, 0x00);
    assert_eq!(m.read_rom(0x4000), 1);
}

#[test]
fn switching_rom_banks_up_to_127() {
    let (mut m, _) = make(128, 0);
    for bank in [1u8, 2, 5, 33, 64, 127] {
        m.write_rom(0x2000, bank);
        assert_eq!(m.read_rom(0x4000), bank, "bank {bank}");
        assert_eq!(m.read_rom(0x7FFF), bank, "bank {bank} (top)");
    }
    // Top bit of a write to 0x2000 is masked (MBC3 = 7 bits).
    m.write_rom(0x2000, 0x80);
    assert_eq!(m.read_rom(0x4000), 1, "0x80 → low 7 bits = 0 → remap to 1");
}

#[test]
fn mbc3_ram_writes_only_when_enabled() {
    let (mut m, _) = make(2, 0x2000);
    m.write_ram(0xA000, 0x42);
    assert_eq!(m.read_ram(0xA000), 0xFF);
    m.write_rom(0x0000, 0x0A); // enable
    m.write_ram(0xA000, 0x42);
    assert_eq!(m.read_ram(0xA000), 0x42);
    m.write_rom(0x0000, 0x00); // disable
    assert_eq!(m.read_ram(0xA000), 0xFF);
}

#[test]
fn ram_banking_4_banks() {
    let (mut m, _) = make(2, 0x8000); // 32 KiB = 4 banks
    m.write_rom(0x0000, 0x0A);
    for b in 0u8..4 {
        m.write_rom(0x4000, b);
        m.write_ram(0xA000, 0x10 + b);
    }
    for b in 0u8..4 {
        m.write_rom(0x4000, b);
        assert_eq!(m.read_ram(0xA000), 0x10 + b, "bank {b}");
    }
}

#[test]
fn rtc_register_select_overlays_ram_region() {
    let (mut m, _) = make(2, 0x2000);
    m.write_rom(0x0000, 0x0A); // enable
    // Write a known M value into the live counter, then latch.
    m.write_rom(0x4000, RTC_M);
    m.write_ram(0xA000, 42);
    // Latch the live counter into the readable registers.
    m.write_rom(0x6000, 0x00);
    m.write_rom(0x6000, 0x01);
    // Reading 0xA000 with RTC_M selected returns the latched M.
    assert_eq!(m.read_ram(0xA000), 42);
    // Selecting S returns S, not M.
    m.write_rom(0x4000, RTC_S);
    assert_ne!(m.read_ram(0xA000), 42);
}

#[test]
fn rtc_latches_on_0_then_1_write_to_6000() {
    let (mut m, clk) = make(2, 0x2000);
    m.write_rom(0x0000, 0x0A);
    // Latch initial value (S = 0).
    m.write_rom(0x6000, 0x00);
    m.write_rom(0x6000, 0x01);
    m.write_rom(0x4000, RTC_S);
    let s0 = m.read_ram(0xA000);
    assert_eq!(s0, 0);
    // Advance wall clock; latched value should NOT change.
    clk.advance(Duration::from_secs(5));
    assert_eq!(m.read_ram(0xA000), 0, "no re-latch yet");
    // 0 → 1 edge re-latches.
    m.write_rom(0x6000, 0x00);
    m.write_rom(0x6000, 0x01);
    assert_eq!(m.read_ram(0xA000), 5);
    // A write of 1 without an intervening 0 does NOT re-latch.
    clk.advance(Duration::from_secs(7));
    m.write_rom(0x6000, 0x01);
    assert_eq!(m.read_ram(0xA000), 5);
}

#[test]
fn rtc_halt_stops_counter() {
    let (mut m, clk) = make(2, 0x2000);
    m.write_rom(0x0000, 0x0A);
    // Run for 70 seconds; latch.
    clk.advance(Duration::from_secs(70));
    m.write_rom(0x6000, 0x00);
    m.write_rom(0x6000, 0x01);
    m.write_rom(0x4000, RTC_S);
    assert_eq!(m.read_ram(0xA000), 10);
    m.write_rom(0x4000, RTC_M);
    assert_eq!(m.read_ram(0xA000), 1);

    // Halt the RTC.
    m.write_rom(0x4000, RTC_DH);
    m.write_ram(0xA000, DH_HALT);
    // Re-latch immediately so the user-visible registers see "halt instant".
    m.write_rom(0x6000, 0x00);
    m.write_rom(0x6000, 0x01);
    m.write_rom(0x4000, RTC_S);
    let s_at_halt = m.read_ram(0xA000);

    // Advance a lot of wall time.
    clk.advance(Duration::from_secs(10_000));
    m.write_rom(0x6000, 0x00);
    m.write_rom(0x6000, 0x01);

    m.write_rom(0x4000, RTC_S);
    assert_eq!(m.read_ram(0xA000), s_at_halt, "S frozen while halted");
    m.write_rom(0x4000, RTC_M);
    assert_eq!(m.read_ram(0xA000), 1, "M frozen while halted");
    m.write_rom(0x4000, RTC_H);
    assert_eq!(m.read_ram(0xA000), 0, "H frozen while halted");
    m.write_rom(0x4000, RTC_DL);
    assert_eq!(m.read_ram(0xA000), 0, "DL frozen while halted");
    m.write_rom(0x4000, RTC_DH);
    assert_eq!(m.read_ram(0xA000) & DH_HALT, DH_HALT, "halt bit visible");
}

// Ensure the production (system-clock) constructor builds.
#[test]
fn production_constructor_compiles() {
    let _ = Mbc3::new(rom_with_n_banks(1), 0);
}

#[test]
fn rtc_counts_minutes_hours_and_days() {
    let (mut m, clk) = make(2, 0x2000);
    m.write_rom(0x0000, 0x0A);
    clk.advance(Duration::from_secs(86_400 * 3 + 3_600 * 5 + 60 * 7 + 9));
    m.write_rom(0x6000, 0x00);
    m.write_rom(0x6000, 0x01);
    m.write_rom(0x4000, RTC_S);
    assert_eq!(m.read_ram(0xA000), 9);
    m.write_rom(0x4000, RTC_M);
    assert_eq!(m.read_ram(0xA000), 7);
    m.write_rom(0x4000, RTC_H);
    assert_eq!(m.read_ram(0xA000), 5);
    m.write_rom(0x4000, RTC_DL);
    assert_eq!(m.read_ram(0xA000), 3);
}

#[test]
fn system_clock_rtc_reads_a_sane_counter() {
    // With the system clock, a freshly built RTC latches a counter below a minute.
    let mut m = Mbc3::new(rom_with_n_banks(2), 0x2000);
    m.write_rom(0x0000, 0x0A);
    m.write_rom(0x6000, 0x00);
    m.write_rom(0x6000, 0x01);
    m.write_rom(0x4000, RTC_M);
    assert_eq!(m.read_ram(0xA000), 0);
    m.write_rom(0x4000, RTC_DL);
    assert_eq!(m.read_ram(0xA000), 0);
}
