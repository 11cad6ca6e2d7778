//! Decisions of an interactive host: which joypad buttons the held keys press, what
//! a window or key event does to the main loop, how long to sleep to hold the frame
//! rate, when to feed audio, and the ARGB pixels an RGB555 frame is shown with. The host
//! performs the I/O (window, keyboard, audio device, clock) and hands in plain values.

use vstd::prelude::*;
use crate::joypad::JoypadState;
use crate::ppu::{SCREEN_HEIGHT, SCREEN_WIDTH};

verus! {

/// Nanoseconds per frame at 59.7275 Hz.
pub const FRAME_NS: u64 = 16_742_006;

/// Audio is no longer queued once the host queue holds this many bytes (about 85 ms
/// of stereo 16-bit samples at 48 kHz).
pub const AUDIO_QUEUE_MAX_BYTES: u32 = 32_768;

/// Length of the frame-rate measuring window.
pub const NS_PER_SECOND: u64 = 1_000_000_000;

/// Keyboard keys the joypad mapping reads, `true` while held.
#[derive(Clone, Copy, Debug)]
pub struct HeldKeys {
    pub right: bool,
    pub left: bool,
    pub up: bool,
    pub down: bool,
    /// Z: button A.
    pub z: bool,
    /// X: button B.
    pub x: bool,
    /// Right shift: Select.
    pub rshift: bool,
    /// Enter: Start.
    pub enter: bool,
}

/// `bit` when the key is held, else 0.
pub open spec fn key_bit(held: bool, bit: u8) -> int {
    if held { bit as int } else { 0 }
}

/// The joypad bits the held keys press: arrows to the d-pad (bits 0..3), Z to A,
/// X to B, right shift to Select and Enter to Start (bits 4..7).
pub open spec fn spec_buttons(k: HeldKeys) -> int {
    key_bit(k.right, 0x01) + key_bit(k.left, 0x02) + key_bit(k.up, 0x04) + key_bit(k.down, 0x08)
        + key_bit(k.z, 0x10) + key_bit(k.x, 0x20) + key_bit(k.rshift, 0x40) + key_bit(k.enter, 0x80)
}

/// The joypad state for the keys held on the host keyboard.
pub fn poll_buttons(k: HeldKeys) -> (s: JoypadState)
    ensures s.bits == spec_buttons(k),
{
    let mut bits: u8 = 0;
    if k.right {
        bits = bits + 0x01;
    }
    if k.left {
        bits = bits + 0x02;
    }
    if k.up {
        bits = bits + 0x04;
    }
    if k.down {
        bits = bits + 0x08;
    }
    if k.z {
        bits = bits + 0x10;
    }
    if k.x {
        bits = bits + 0x20;
    }
    if k.rshift {
        bits = bits + 0x40;
    }
    if k.enter {
        bits = bits + 0x80;
    }
    JoypadState { bits }
}

/// A 5-bit colour channel widened to 8 bits, its top bits repeated below:
/// `(v << 3) | (v >> 2)`, so 0 stays 0 and 31 becomes 255.
pub open spec fn expand5(v: u8) -> u8 {
    ((v << 3u8) | (v >> 2u8)) as u8
}

/// Red, green and blue fields of an RGB555 pixel (`0bbbbbgggggrrrrr`).
pub open spec fn red5(c: u16) -> u8 {
    (c & 0x1F) as u8
}

pub open spec fn green5(c: u16) -> u8 {
    ((c >> 5u16) & 0x1F) as u8
}

pub open spec fn blue5(c: u16) -> u8 {
    ((c >> 10u16) & 0x1F) as u8
}

/// Byte `k` of an RGB555 pixel as ARGB8888 in little-endian byte order: blue, green,
/// red, then an opaque alpha of `0xFF`.
pub open spec fn argb_byte(c: u16, k: int) -> u8 {
    if k == 0 {
        expand5(blue5(c))
    } else if k == 1 {
        expand5(green5(c))
    } else if k == 2 {
        expand5(red5(c))
    } else {
        0xFF
    }
}

fn expand_channel(v: u8) -> (r: u8)
    ensures r == expand5(v),
{
    (v << 3) | (v >> 2)
}

/// Writes each RGB555 pixel of the frame as four bytes of ARGB8888 (little-endian
/// byte order: B, G, R, A), each 5-bit channel widened to 8 bits, alpha opaque.
pub fn framebuffer_to_argb(frame: &[u16], out: &mut Vec<u8>)
    requires
        old(out)@.len() == 4 * frame@.len(),
    ensures
        final(out)@.len() == old(out)@.len(),
        forall|i: int, k: int|
            0 <= i < frame@.len() && 0 <= k < 4 ==> #[trigger] final(out)@[4 * i + k]
                == argb_byte(frame@[i], k),
{
    let n = frame.len();
    let mut i: usize = 0;
    while i < n
        invariant
            n == frame@.len(),
            out@.len() == 4 * n,
            i <= n,
            forall|j: int, k: int|
                0 <= j < i && 0 <= k < 4 ==> #[trigger] out@[4 * j + k] == argb_byte(frame@[j], k),
        decreases n - i,
    {
        let c = frame[i];
        let len = out.len();
        assert(4 * i + 3 < len);
        let o = 4 * i;
        out.set(o, expand_channel(((c >> 10) & 0x1F) as u8));
        out.set(o + 1, expand_channel(((c >> 5) & 0x1F) as u8));
        out.set(o + 2, expand_channel((c & 0x1F) as u8));
        out.set(o + 3, 0xFF);
        proof {
            assert forall|j: int, k: int|
                0 <= j < i + 1 && 0 <= k < 4 implies #[trigger] out@[4 * j + k] == argb_byte(frame@[j], k) by {
                if j < i {
                    assert(4 * j + k < 4 * i);
                }
            }
        }
        i = i + 1;
    }
}

/// Keys the main loop reacts to.
#[derive(Clone, Copy, PartialEq, Eq, Structural, Debug)]
pub enum HostKey {
    Escape,
    P,
    R,
    F,
    Other,
}

/// What the host's event queue delivered.
#[derive(Clone, Copy, PartialEq, Eq, Structural, Debug)]
pub enum HostEvent {
    /// The application was asked to quit.
    Quit,
    /// The window's close button.
    WindowClose,
    /// A key went down; `ctrl` when either control key is held, `repeat` for
    /// auto-repeat.
    KeyDown { key: HostKey, ctrl: bool, repeat: bool },
    /// Anything else.
    Other,
}

/// What the host does after an event.
#[derive(Clone, Copy, PartialEq, Eq, Structural, Debug)]
pub enum EventAction {
    /// Nothing.
    Continue,
    /// Leave the main loop.
    Quit,
    /// Pause or resume; the new state is in `LoopState::paused`.
    PauseToggled,
    /// Reset the machine.
    Reset,
    /// Switch between windowed and desktop fullscreen.
    ToggleFullscreen,
}

/// The action for an event: Escape, quit and window close end the loop; Ctrl+P
/// pauses, Ctrl+R resets, Ctrl+F toggles fullscreen; auto-repeated keys and
/// everything else do nothing.
pub open spec fn spec_event_action(ev: HostEvent) -> EventAction {
    match ev {
        HostEvent::Quit => EventAction::Quit,
        HostEvent::WindowClose => EventAction::Quit,
        HostEvent::KeyDown { key, ctrl, repeat } => {
            if repeat {
                EventAction::Continue
            } else {
                match key {
                    HostKey::Escape => EventAction::Quit,
                    HostKey::P => if ctrl { EventAction::PauseToggled } else { EventAction::Continue },
                    HostKey::R => if ctrl { EventAction::Reset } else { EventAction::Continue },
                    HostKey::F => if ctrl { EventAction::ToggleFullscreen } else { EventAction::Continue },
                    HostKey::Other => EventAction::Continue,
                }
            }
        },
        HostEvent::Other => EventAction::Continue,
    }
}

/// State the main loop carries between frames.
#[derive(Clone, Copy, Debug)]
pub struct LoopState {
    /// Emulation is paused; frames are still presented.
    pub paused: bool,
    /// Frames presented since the frame-rate window opened.
    pub frames_since: u32,
}

impl LoopState {
    pub fn new() -> (s: LoopState)
        ensures !s.paused && s.frames_since == 0,
    {
        LoopState { paused: false, frames_since: 0 }
    }

    /// Reacts to one event: returns what the host does and flips `paused` on Ctrl+P.
    pub fn handle_event(&mut self, ev: HostEvent) -> (a: EventAction)
        ensures
            a == spec_event_action(ev),
            final(self).paused == (old(self).paused != (a == EventAction::PauseToggled)),
            final(self).frames_since == old(self).frames_since,
    {
        let a = match ev {
            HostEvent::Quit => EventAction::Quit,
            HostEvent::WindowClose => EventAction::Quit,
            HostEvent::KeyDown { key, ctrl, repeat } => {
                if repeat {
                    EventAction::Continue
                } else {
                    match key {
                        HostKey::Escape => EventAction::Quit,
                        HostKey::P => if ctrl { EventAction::PauseToggled } else { EventAction::Continue },
                        HostKey::R => if ctrl { EventAction::Reset } else { EventAction::Continue },
                        HostKey::F => if ctrl { EventAction::ToggleFullscreen } else { EventAction::Continue },
                        HostKey::Other => EventAction::Continue,
                    }
                }
            },
            HostEvent::Other => EventAction::Continue,
        };
        if let EventAction::PauseToggled = a {
            self.paused = !self.paused;
        }
        a
    }

    /// Counts a presented frame, `elapsed_ns` after the frame-rate window opened. Once
    /// a second or more has passed, returns the frames of the window (for the fps
    /// readout) and starts a new window; otherwise `None`.
    pub fn frame_presented(&mut self, elapsed_ns: u64) -> (r: Option<u32>)
        requires
            old(self).frames_since < u32::MAX,
        ensures
            final(self).paused == old(self).paused,
            elapsed_ns >= NS_PER_SECOND ==> r == Some((old(self).frames_since + 1) as u32)
                && final(self).frames_since == 0,
            elapsed_ns < NS_PER_SECOND ==> r is None
                && final(self).frames_since == old(self).frames_since + 1,
    {
        self.frames_since = self.frames_since + 1;
        if elapsed_ns >= NS_PER_SECOND {
            let n = self.frames_since;
            self.frames_since = 0;
            Some(n)
        } else {
            None
        }
    }
}

/// Nanoseconds to sleep after a frame that took `used_ns`: the rest of the frame
/// period, or 0 when the frame rate is uncapped (`no_sync`, or turbo held) or the
/// frame took the whole period.
pub fn pacing_sleep_ns(no_sync: bool, turbo: bool, used_ns: u64) -> (r: u64)
    ensures
        r == (if !no_sync && !turbo && used_ns < FRAME_NS { FRAME_NS - used_ns } else { 0 }),
{
    if !no_sync && !turbo && used_ns < FRAME_NS {
        FRAME_NS - used_ns
    } else {
        0
    }
}

/// Whether a frame's samples go to an audio queue that already holds `queued_bytes`.
pub fn audio_accepts(queued_bytes: u32) -> (r: bool)
    ensures r == (queued_bytes < AUDIO_QUEUE_MAX_BYTES),
{
    queued_bytes < AUDIO_QUEUE_MAX_BYTES
}

/// Stereo pairs as the interleaved stream an audio queue takes: left, right, left, ...
pub fn interleave(samples: &Vec<(i16, i16)>) -> (r: Vec<i16>)
    requires
        2 * samples@.len() <= usize::MAX,
    ensures
        r@.len() == 2 * samples@.len(),
        forall|i: int| 0 <= i < samples@.len() ==> #[trigger] r@[2 * i] == samples@[i].0 && r@[2 * i + 1] == samples@[i].1,
{
    let mut r: Vec<i16> = Vec::new();
    let n = samples.len();
    let mut i: usize = 0;
    while i < n
        invariant
            n == samples@.len(),
            2 * n <= usize::MAX,
            i <= n,
            r@.len() == 2 * i,
            forall|j: int| 0 <= j < i ==> #[trigger] r@[2 * j] == samples@[j].0 && r@[2 * j + 1] == samples@[j].1,
        decreases n - i,
    {
        let (l, rt) = samples[i];
        let ghost before = r@;
        r.push(l);
        r.push(rt);
        proof {
            assert forall|j: int| 0 <= j < i + 1 implies #[trigger] r@[2 * j] == samples@[j].0
                && r@[2 * j + 1] == samples@[j].1 by {
                if j < i {
                    assert(r@[2 * j] == before[2 * j] && r@[2 * j + 1] == before[2 * j + 1]);
                }
            }
        }
        i = i + 1;
    }
    r
}

/// Fullscreen states of a host window.
#[derive(Clone, Copy, PartialEq, Eq, Structural, Debug)]
pub enum FullscreenMode {
    Off,
    /// Exclusive fullscreen with a mode change.
    True,
    /// Borderless, at the desktop resolution.
    Desktop,
}

/// Ctrl+F: a window goes to desktop fullscreen, any fullscreen back to a window.
pub fn next_fullscreen(cur: FullscreenMode) -> (r: FullscreenMode)
    ensures
        r == (if cur == FullscreenMode::Off { FullscreenMode::Desktop } else { FullscreenMode::Off }),
{
    match cur {
        FullscreenMode::Off => FullscreenMode::Desktop,
        _ => FullscreenMode::Off,
    }
}

/// The scale actually used: at least 1.
pub open spec fn effective_scale(scale: u32) -> int {
    if scale < 1 { 1 } else { scale as int }
}

/// Window size for an integer scale of the 160x144 screen (a scale of 0 counts as 1).
pub fn window_size(scale: u32) -> (r: (u32, u32))
    requires
        SCREEN_WIDTH * effective_scale(scale) <= u32::MAX,
    ensures
        r.0 == SCREEN_WIDTH * effective_scale(scale),
        r.1 == SCREEN_HEIGHT * effective_scale(scale),
{
    let s: u32 = if scale < 1 { 1 } else { scale };
    (SCREEN_WIDTH as u32 * s, SCREEN_HEIGHT as u32 * s)
}

} // verus!
