//! The three keys and the deep-sleep wake-up sources.
//!
//! Key 1 (GPIO13) is Globe, key 2 (GPIO11) is Voice Command and key 3
//! (GPIO12) is Enter. All three are RTC IOs so that any of them can wake the
//! chip from deep sleep through EXT1.
use vstd::prelude::*;

verus! {

/// GPIO of key 1 (Globe).
pub const KEY1_GPIO: u64 = 13;

/// GPIO of key 2 (Voice Command).
pub const KEY2_GPIO: u64 = 11;

/// GPIO of key 3 (Enter).
pub const KEY3_GPIO: u64 = 12;

/// Which of the three keys are held down.
#[derive(Clone, Copy, Debug, PartialEq, Eq, Structural)]
pub struct Keys {
    /// Key 1: Globe.
    pub globe: bool,
    /// Key 2: Voice Command.
    pub voice: bool,
    /// Key 3: Enter.
    pub enter: bool,
}

impl Keys {
    /// True when at least one key is held.
    pub open spec fn spec_any(self) -> bool {
        self.globe || self.voice || self.enter
    }

    /// Whether any key is held.
    pub fn any(&self) -> (held: bool)
        ensures
            held == self.spec_any(),
            held == (self.globe || self.voice || self.enter),
    {
        self.globe || self.voice || self.enter
    }

    /// True when Globe and Enter, the pairing chord, are both held.
    pub open spec fn spec_pairing_chord(self) -> bool {
        self.globe && self.enter
    }

    /// Whether the pairing chord (Globe + Enter) is held.
    pub fn pairing_chord(&self) -> (held: bool)
        ensures
            held == self.spec_pairing_chord(),
            held == (self.globe && self.enter),
    {
        self.globe && self.enter
    }
}

/// True when bit `gpio` of an EXT1 wake-up status word is set.
pub open spec fn gpio_bit_set(status: u64, gpio: u64) -> bool {
    status & (1u64 << gpio) != 0
}

/// The keys recorded in an EXT1 wake-up status word, or nothing when no
/// key woke the chip (the status is zero).
pub open spec fn spec_decode_wakeup(status: u64) -> Option<Keys> {
    if status != 0 {
        Some(
            Keys {
                globe: gpio_bit_set(status, KEY1_GPIO),
                voice: gpio_bit_set(status, KEY2_GPIO),
                enter: gpio_bit_set(status, KEY3_GPIO),
            },
        )
    } else {
        None
    }
}

/// Reads which keys woke the chip from the EXT1 wake-up status word
/// (zero when the wake-up cause was not EXT1).
pub fn decode_wakeup_status(status: u64) -> (pending: Option<Keys>)
    ensures
        pending == spec_decode_wakeup(status),
        pending is Some <==> status != 0,
{
    if status != 0 {
        Some(
            Keys {
                globe: (status & (1u64 << KEY1_GPIO)) != 0,
                voice: (status & (1u64 << KEY2_GPIO)) != 0,
                enter: (status & (1u64 << KEY3_GPIO)) != 0,
            },
        )
    } else {
        None
    }
}

/// The EXT1 wake-up mask: the GPIOs of all three keys.
pub fn wakeup_pin_mask() -> (mask: u64)
    ensures
        mask == 0x3800u64,
        gpio_bit_set(mask, KEY1_GPIO),
        gpio_bit_set(mask, KEY2_GPIO),
        gpio_bit_set(mask, KEY3_GPIO),
{
    let mask = (1u64 << KEY1_GPIO) | (1u64 << KEY2_GPIO) | (1u64 << KEY3_GPIO);
    assert(((1u64 << 13u64) | (1u64 << 11u64) | (1u64 << 12u64)) == 0x3800u64) by (bit_vector);
    assert((0x3800u64 & (1u64 << 13u64)) != 0u64 && (0x3800u64 & (1u64 << 11u64)) != 0u64 && (
    0x3800u64 & (1u64 << 12u64)) != 0u64) by (bit_vector);
    mask
}

} // verus!
