use gb_core::frontend::{
    audio_accepts, framebuffer_to_argb, interleave, next_fullscreen, pacing_sleep_ns,
    poll_buttons, window_size, EventAction, FullscreenMode, HeldKeys, HostEvent, HostKey,
    LoopState, AUDIO_QUEUE_MAX_BYTES, FRAME_NS,
};

fn no_keys() -> HeldKeys {
    HeldKeys { right: false, left: false, up: false, down: false, z: false, x: false, rshift: false, enter: false }
}

#[test]
fn keys_map_to_joypad_bits() {
    assert_eq!(poll_buttons(no_keys()).bits, 0);
    let k = HeldKeys { right: true, z: true, enter: true, ..no_keys() };
    assert_eq!(poll_buttons(k).bits, 0x01 | 0x10 | 0x80);
    let all = HeldKeys { right: true, left: true, up: true, down: true, z: true, x: true, rshift: true, enter: true };
    assert_eq!(poll_buttons(all).bits, 0xFF);
    let k = HeldKeys { x: true, rshift: true, left: true, ..no_keys() };
    assert_eq!(poll_buttons(k).bits, 0x20 | 0x40 | 0x02);
}

#[test]
fn frame_buffer_becomes_little_endian_argb() {
    let frame: Vec<u16> = vec![0x0000, 0x7FFF, 0x001F, 0x03E0, 0x7C00, 0x0421, 0x4210];
    let mut out = vec![0u8; frame.len() * 4];
    framebuffer_to_argb(&frame, &mut out);
    // Black and white.
    assert_eq!(&out[0..4], &[0x00, 0x00, 0x00, 0xFF]);
    assert_eq!(&out[4..8], &[0xFF, 0xFF, 0xFF, 0xFF]);
    // Pure red, green and blue land in bytes 2, 1 and 0.
    assert_eq!(&out[8..12], &[0x00, 0x00, 0xFF, 0xFF]);
    assert_eq!(&out[12..16], &[0x00, 0xFF, 0x00, 0xFF]);
    assert_eq!(&out[16..20], &[0xFF, 0x00, 0x00, 0xFF]);
    // 1 widens to 8, 16 to 0x84.
    assert_eq!(&out[20..24], &[0x08, 0x08, 0x08, 0xFF]);
    assert_eq!(&out[24..28], &[0x84, 0x84, 0x84, 0xFF]);
}

#[test]
fn escape_quit_and_close_end_the_loop() {
    let mut s = LoopState::new();
    assert_eq!(s.handle_event(HostEvent::Quit), EventAction::Quit);
    assert_eq!(s.handle_event(HostEvent::WindowClose), EventAction::Quit);
    let esc = HostEvent::KeyDown { key: HostKey::Escape, ctrl: false, repeat: false };
    assert_eq!(s.handle_event(esc), EventAction::Quit);
    assert!(!s.paused);
}

#[test]
fn ctrl_p_toggles_pause_and_repeats_are_ignored() {
    let mut s = LoopState::new();
    let ctrl_p = HostEvent::KeyDown { key: HostKey::P, ctrl: true, repeat: false };
    assert_eq!(s.handle_event(ctrl_p), EventAction::PauseToggled);
    assert!(s.paused);
    let repeat = HostEvent::KeyDown { key: HostKey::P, ctrl: true, repeat: true };
    assert_eq!(s.handle_event(repeat), EventAction::Continue);
    assert!(s.paused);
    let plain_p = HostEvent::KeyDown { key: HostKey::P, ctrl: false, repeat: false };
    assert_eq!(s.handle_event(plain_p), EventAction::Continue);
    assert!(s.paused);
    assert_eq!(s.handle_event(ctrl_p), EventAction::PauseToggled);
    assert!(!s.paused);
}

#[test]
fn ctrl_r_resets_and_ctrl_f_toggles_fullscreen() {
    let mut s = LoopState::new();
    let r = HostEvent::KeyDown { key: HostKey::R, ctrl: true, repeat: false };
    let f = HostEvent::KeyDown { key: HostKey::F, ctrl: true, repeat: false };
    let other = HostEvent::KeyDown { key: HostKey::Other, ctrl: true, repeat: false };
    assert_eq!(s.handle_event(r), EventAction::Reset);
    assert_eq!(s.handle_event(f), EventAction::ToggleFullscreen);
    assert_eq!(s.handle_event(other), EventAction::Continue);
    assert_eq!(s.handle_event(HostEvent::Other), EventAction::Continue);
    assert_eq!(next_fullscreen(FullscreenMode::Off), FullscreenMode::Desktop);
    assert_eq!(next_fullscreen(FullscreenMode::Desktop), FullscreenMode::Off);
    assert_eq!(next_fullscreen(FullscreenMode::True), FullscreenMode::Off);
}

#[test]
fn fps_window_closes_after_a_second() {
    let mut s = LoopState::new();
    assert_eq!(s.frame_presented(500_000_000), None);
    assert_eq!(s.frame_presented(999_999_999), None);
    assert_eq!(s.frames_since, 2);
    assert_eq!(s.frame_presented(1_000_000_000), Some(3));
    assert_eq!(s.frames_since, 0);
}

#[test]
fn pacing_sleeps_the_rest_of_the_frame() {
    assert_eq!(FRAME_NS, 16_742_006);
    assert_eq!(pacing_sleep_ns(false, false, 6_742_006), 10_000_000);
    assert_eq!(pacing_sleep_ns(false, false, FRAME_NS), 0);
    assert_eq!(pacing_sleep_ns(false, false, 20_000_000), 0);
    assert_eq!(pacing_sleep_ns(true, false, 0), 0);
    assert_eq!(pacing_sleep_ns(false, true, 0), 0);
}

#[test]
fn audio_back_pressure_and_interleaving() {
    assert_eq!(AUDIO_QUEUE_MAX_BYTES, 8 * 1024 * 2 * 2);
    assert!(audio_accepts(0));
    assert!(audio_accepts(AUDIO_QUEUE_MAX_BYTES - 1));
    assert!(!audio_accepts(AUDIO_QUEUE_MAX_BYTES));
    let pcm = vec![(1i16, -1i16), (300, -300), (i16::MIN, i16::MAX)];
    assert_eq!(interleave(&pcm), vec![1, -1, 300, -300, i16::MIN, i16::MAX]);
    assert!(interleave(&Vec::new()).is_empty());
}

#[test]
fn window_is_the_screen_times_the_scale() {
    assert_eq!(window_size(4), (640, 576));
    assert_eq!(window_size(0), (160, 144));
    assert_eq!(window_size(1), (160, 144));
}
