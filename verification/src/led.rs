//! The onboard RGB status LED: colours and the pairing heartbeat.
use vstd::prelude::*;

verus! {

/// Brightness of each channel of the white key-press flash (kept dim to
/// save battery).
pub const LED_KEY_WHITE: u8 = 48;

/// Peak brightness of the blue pairing heartbeat.
pub const LED_PAIRING_BLUE: u8 = 40;

/// Period of the pairing heartbeat in milliseconds.
pub const HEARTBEAT_PERIOD_MS: u128 = 1200;

/// A colour for the RGB LED, one byte per channel.
#[derive(Clone, Copy, Debug, PartialEq, Eq, Structural)]
pub struct Rgb {
    pub r: u8,
    pub g: u8,
    pub b: u8,
}

/// LED off.
pub open spec fn black() -> Rgb {
    Rgb { r: 0, g: 0, b: 0 }
}

/// The key-press flash colour.
pub open spec fn key_white() -> Rgb {
    Rgb { r: LED_KEY_WHITE, g: LED_KEY_WHITE, b: LED_KEY_WHITE }
}

/// Returns the LED-off colour.
pub fn led_off() -> (c: Rgb)
    ensures
        c == black(),
{
    Rgb { r: 0, g: 0, b: 0 }
}

/// Returns the key-press flash colour.
pub fn led_key_flash() -> (c: Rgb)
    ensures
        c == key_white(),
{
    Rgb { r: LED_KEY_WHITE, g: LED_KEY_WHITE, b: LED_KEY_WHITE }
}

/// A triangle pulse of the given width that rises from 0 to `peak` over the
/// first half and falls back over the second half; 0 outside the pulse.
pub open spec fn triangle(phase: int, width: int, peak: int) -> int {
    if phase >= width {
        0
    } else {
        let half = width / 2;
        if phase < half {
            phase * peak / half
        } else {
            (width - phase) * peak / half
        }
    }
}

/// The heartbeat envelope: within each 1.2 s period, a 150 ms beat, a 100 ms
/// pause, a softer 120 ms beat at 70 % strength, then rest.
pub open spec fn heartbeat_level(elapsed_ms: int) -> int {
    let t = elapsed_ms % (HEARTBEAT_PERIOD_MS as int);
    if t < 150 {
        triangle(t, 150, LED_PAIRING_BLUE as int)
    } else if t < 250 {
        0
    } else if t < 370 {
        triangle(t - 250, 120, LED_PAIRING_BLUE as int) * 7 / 10
    } else {
        0
    }
}

proof fn lemma_scaled_at_most(a: int, peak: int, half: int)
    requires
        0 <= a <= half,
        0 < half,
        0 <= peak,
    ensures
        0 <= a * peak / half <= peak,
{
    assert(0 <= a * peak <= half * peak) by (nonlinear_arith)
        requires
            0 <= a <= half,
            0 <= peak,
    ;
    assert(a * peak / half <= half * peak / half) by (nonlinear_arith)
        requires
            0 <= a * peak <= half * peak,
            0 < half,
    ;
    assert(half * peak / half == peak) by (nonlinear_arith)
        requires
            0 < half,
    ;
    assert(0 <= a * peak / half) by (nonlinear_arith)
        requires
            0 <= a * peak,
            0 < half,
    ;
}

fn triangle_pulse(phase: u32, width: u32, peak: u32) -> (level: u32)
    requires
        2 <= width <= 1000,
        width % 2 == 0,
        peak <= 255,
    ensures
        level == triangle(phase as int, width as int, peak as int),
        level <= peak,
{
    if phase >= width {
        return 0;
    }
    let half = width / 2;
    if phase < half {
        proof {
            lemma_scaled_at_most(phase as int, peak as int, half as int);
        }
        assert(phase * peak <= 1000 * 255) by (nonlinear_arith)
            requires
                phase <= 1000,
                peak <= 255,
        ;
        phase * peak / half
    } else {
        proof {
            lemma_scaled_at_most((width - phase) as int, peak as int, half as int);
        }
        assert((width - phase) * peak <= 1000 * 255) by (nonlinear_arith)
            requires
                width - phase <= 1000,
                peak <= 255,
        ;
        (width - phase) * peak / half
    }
}

/// Blue brightness of the pairing heartbeat, `elapsed_ms` after the
/// heartbeat started: a double beat then rest, repeating every 1.2 s.
pub fn pairing_heartbeat_level(elapsed_ms: u128) -> (level: u8)
    ensures
        level as int == heartbeat_level(elapsed_ms as int),
        level <= LED_PAIRING_BLUE,
        150 <= elapsed_ms % 1200 < 250 ==> level == 0,
        370 <= elapsed_ms % 1200 ==> level == 0,
        250 <= elapsed_ms % 1200 < 370 ==> level <= 28,
{
    let t = (elapsed_ms % 1200) as u32;
    let peak = LED_PAIRING_BLUE as u32;
    let level: u32 = if t <= 149 {
        triangle_pulse(t, 150, peak)
    } else if t <= 249 {
        0
    } else if t <= 369 {
        let beat = triangle_pulse(t - 250, 120, peak);
        beat * 7 / 10
    } else {
        0
    };
    level as u8
}

/// The heartbeat repeats with a period of 1.2 s.
pub proof fn lemma_heartbeat_periodic(elapsed_ms: int)
    requires
        0 <= elapsed_ms,
    ensures
        heartbeat_level(elapsed_ms + HEARTBEAT_PERIOD_MS as int) == heartbeat_level(elapsed_ms),
{
    vstd::arithmetic::div_mod::lemma_mod_add_multiples_vanish(elapsed_ms, 1200);
}

/// The heartbeat never exceeds its peak brightness and is never negative.
pub proof fn lemma_heartbeat_bounded(elapsed_ms: int)
    requires
        0 <= elapsed_ms,
    ensures
        0 <= heartbeat_level(elapsed_ms) <= LED_PAIRING_BLUE,
{
    let t = elapsed_ms % 1200;
    if t < 150 {
        if t < 75 {
            lemma_scaled_at_most(t, 40, 75);
        } else {
            lemma_scaled_at_most(150 - t, 40, 75);
        }
    } else if 250 <= t < 370 {
        let p = t - 250;
        if p < 60 {
            lemma_scaled_at_most(p, 40, 60);
        } else {
            lemma_scaled_at_most(120 - p, 40, 60);
        }
    }
}

} // verus!
