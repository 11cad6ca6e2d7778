use gb_core::interrupts::{IntFlags, Interrupts};
use gb_core::timer::Timer;

fn fresh() -> (Timer, Interrupts) {
    (Timer::new(), Interrupts::new())
}

#[test]
fn div_increments_every_256_t_cycles() {
    let (mut t, mut i) = fresh();
    t.tick(256, &mut i);
    assert_eq!(t.read(0xFF04), 1);
    t.tick(256 * 254, &mut i);
    assert_eq!(t.read(0xFF04), 255);
    t.tick(256, &mut i);
    assert_eq!(t.read(0xFF04), 0); // wraps
}

#[test]
fn writing_div_zeros_counter() {
    let (mut t, mut i) = fresh();
    t.tick(10_000, &mut i);
    assert_ne!(t.read(0xFF04), 0);
    t.write(0xFF04, 0xAB);
    assert_eq!(t.read(0xFF04), 0);
}

#[test]
fn tima_clock_select_00_is_4096_hz() {
    // TAC=0b100 → enable, bit 9, 1024 T-cycles per increment.
    let (mut t, mut i) = fresh();
    t.write(0xFF07, 0b100);
    t.tick(1024, &mut i);
    assert_eq!(t.tima, 1);
    t.tick(1024 * 3, &mut i);
    assert_eq!(t.tima, 4);
}

#[test]
fn tima_clock_select_01_is_262144_hz() {
    // TAC=0b101 → enable, bit 3, 16 T-cycles per increment.
    let (mut t, mut i) = fresh();
    t.write(0xFF07, 0b101);
    t.tick(16, &mut i);
    assert_eq!(t.tima, 1);
    t.tick(16 * 9, &mut i);
    assert_eq!(t.tima, 10);
}

#[test]
fn tima_overflow_reloads_tma_and_fires_irq_after_delay() {
    let (mut t, mut i) = fresh();
    t.write(0xFF06, 0x42); // TMA
    t.write(0xFF05, 0xFF); // TIMA on the brink
    t.write(0xFF07, 0b101); // enable, bit 3
    t.tick(16, &mut i); // one TIMA increment → overflow
    assert_eq!(t.tima, 0, "reads as 0 during reload window");
    assert!(!i.pending().contains(IntFlags::timer()));
    t.tick(4, &mut i); // close the reload window
    assert_eq!(t.tima, 0x42);
    assert!(i.iflag.contains(IntFlags::timer()));
}

#[test]
fn timer_disabled_does_not_tick_tima() {
    let (mut t, mut i) = fresh();
    t.write(0xFF07, 0b000); // disabled
    t.tick(100_000, &mut i);
    assert_eq!(t.tima, 0);
}

#[test]
fn div_tracks_the_counter_over_many_cycles() {
    let (mut t, mut i) = fresh();
    t.tick(300, &mut i);
    assert_eq!(t.counter, 300);
    t.tick(65536, &mut i);
    assert_eq!(t.counter, 300);
    assert_eq!(t.read(0xFF04), 1);
}

#[test]
fn tac_reads_with_upper_bits_set() {
    let (mut t, _) = fresh();
    t.write(0xFF07, 0xFF);
    assert_eq!(t.read(0xFF07), 0xFF);
    t.write(0xFF07, 0x05);
    assert_eq!(t.read(0xFF07), 0xFD);
    assert_eq!(t.read(0xFF03), 0xFF);
}
