use gb_core::apu::{Apu, CPU_HZ, SAMPLE_RATE_HZ};

/// Bits of each register in `0xFF10..=0xFF2F` that always read as 1.
const READ_MASKS: [u8; 0x20] = [
    0x80, 0x3F, 0x00, 0xFF, 0xBF, 0xFF, 0x3F, 0x00, 0xFF, 0xBF, 0x7F, 0xFF, 0x9F, 0xFF, 0xBF, 0xFF,
    0xFF, 0x00, 0x00, 0xBF, 0x00, 0x00, 0x70, 0xFF, 0xFF, 0xFF, 0xFF, 0xFF, 0xFF, 0xFF, 0xFF, 0xFF,
];

#[test]
fn nr52_initial_value_after_boot() {
    let apu = Apu::new();
    // Bits 4-6 always read 1 (mask 0x70). Power bit 1. CH1 starts off
    // (length enable but not triggered) so the channel-status bits are 0.
    // Initial NR52 read: 0x80 (power) | 0x70 (mask) = 0xF0.
    assert_eq!(apu.read(0xFF26), 0xF0);
}

#[test]
fn power_off_clears_registers() {
    let mut apu = Apu::new();
    // Powering off clears NR10..NR51.
    apu.write(0xFF26, 0x00);
    for addr in 0xFF10..=0xFF25 {
        let expected = READ_MASKS[(addr - 0xFF10) as usize];
        assert_eq!(apu.read(addr), expected, "addr {addr:#06X}");
    }
    // Wave RAM should NOT be cleared.
    apu.write(0xFF26, 0x80);
    apu.write(0xFF30, 0xAB);
    apu.write(0xFF26, 0x00);
    assert_eq!(apu.read(0xFF30), 0xAB);
}

#[test]
fn writes_ignored_while_powered_off_except_length_and_wave() {
    let mut apu = Apu::new();
    apu.write(0xFF26, 0x00); // power off
    apu.write(0xFF12, 0xF0); // NR12 — should be ignored
    assert_eq!(apu.read(0xFF12), 0x00);
    // NR11 length write should land (DMG).
    apu.write(0xFF11, 0x10);
    // Length isn't directly observable on readback (duty bits only), but
    // we can check internal state.
    assert_eq!(apu.ch1.length, 64 - 0x10);
    // Wave RAM remains writable.
    apu.write(0xFF35, 0xCD);
    assert_eq!(apu.read(0xFF35), 0xCD);
}

#[test]
fn nr52_only_writes_bit7() {
    let mut apu = Apu::new();
    apu.write(0xFF26, 0x7F); // all low bits, no power bit
    assert_eq!(apu.read(0xFF26) & 0x80, 0);
    apu.write(0xFF26, 0x80);
    assert_eq!(apu.read(0xFF26) & 0x80, 0x80);
}

#[test]
fn samples_accumulate_at_target_rate() {
    let mut apu = Apu::new();
    apu.tick(CPU_HZ); // exactly one second of audio
    let samples = apu.drain_samples();
    // Allow ±1 sample for rounding.
    assert!(
        (samples.len() as i64 - SAMPLE_RATE_HZ as i64).abs() <= 1,
        "got {} samples, expected ~{}",
        samples.len(),
        SAMPLE_RATE_HZ
    );
}

#[test]
fn sample_count_is_exact_per_tick() {
    // The down-sampler records floor((phase + t * 48000) / 4194304) samples.
    let mut apu = Apu::new();
    apu.tick(1000);
    assert_eq!(apu.drain_samples().len(), 11);
    assert_eq!(apu.sample_accum, 48_000_000 % 4_194_304);
    apu.tick(87);
    assert_eq!(apu.drain_samples().len(), (48_000_000 % 4_194_304 + 87 * 48_000) / 4_194_304);
    assert!(apu.drain_samples().is_empty());
}

#[test]
fn triggered_square_channel_plays() {
    let mut apu = Apu::new();
    apu.write(0xFF12, 0xF0); // full volume, DAC on
    apu.write(0xFF11, 0x80); // 50% duty
    apu.write(0xFF13, 0x00);
    apu.write(0xFF14, 0x87); // trigger, period high bits 7
    assert_eq!(apu.read(0xFF26) & 0x01, 0x01);
    for _ in 0..64 {
        apu.tick(64);
    }
    let samples = apu.drain_samples();
    assert!(!samples.is_empty());
    assert!(samples.iter().all(|m| m.dac1 && m.nr50 == 0x77 && m.nr51 == 0xF3));
    assert!(samples.iter().any(|m| m.s1 == 15));
}

#[test]
fn length_counter_stops_the_channel() {
    let mut apu = Apu::new();
    apu.write(0xFF17, 0xF0); // CH2 DAC on
    apu.write(0xFF16, 0x3F); // length 1
    apu.write(0xFF19, 0xC0); // trigger with length enabled
    assert_eq!(apu.read(0xFF26) & 0x02, 0x02);
    apu.tick(8192 * 2);
    assert_eq!(apu.read(0xFF26) & 0x02, 0x00);
}

#[test]
fn wave_ram_reads_back() {
    let mut apu = Apu::new();
    for i in 0..16u16 {
        apu.write(0xFF30 + i, (i as u8) * 17);
    }
    for i in 0..16u16 {
        assert_eq!(apu.read(0xFF30 + i), (i as u8) * 17);
    }
    assert_eq!(apu.read(0xFF40), 0xFF);
}

#[test]
fn wave_ram_survives_power_off_and_masked_bits_read_one() {
    let mut apu = gb_core::apu::Apu::new();
    apu.write(0xFF30, 0x12);
    apu.write(0xFF3F, 0xEF);
    apu.write(0xFF26, 0x00);
    apu.tick(10_000);
    assert_eq!(apu.read(0xFF30), 0x12);
    assert_eq!(apu.read(0xFF3F), 0xEF);
    assert_eq!(apu.read(0xFF15), 0xFF);
    assert_eq!(apu.read(0xFF27), 0xFF);
}
