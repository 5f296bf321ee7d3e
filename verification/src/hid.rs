//! HID input reports sent to the host.
//!
//! Two input reports are declared by the report map: the keyboard report
//! (ID 1: a modifier byte, a reserved byte and six key slots) and the
//! consumer-control report (ID 2: one byte whose bit 0 is Voice Command and
//! bit 1 is Globe / AC Keyboard Layout Select, the other six bits padding).
use vstd::prelude::*;

verus! {

/// Usage code of the Enter / Return key on the keyboard usage page.
pub const KEY_ENTER: u8 = 0x28;

/// Bit of the consumer report that carries Voice Command (usage 0xCF).
pub const VOICE_COMMAND_BIT: u8 = 0;

/// Bit of the consumer report that carries Globe (usage 0x029D).
pub const GLOBE_BIT: u8 = 1;

/// The keyboard report for the Enter key state: Enter goes in the first key
/// slot (byte 2); everything else is zero.
pub open spec fn keyboard_report(enter_pressed: bool) -> [u8; 8] {
    if enter_pressed {
        [0u8, 0u8, KEY_ENTER, 0u8, 0u8, 0u8, 0u8, 0u8]
    } else {
        [0u8, 0u8, 0u8, 0u8, 0u8, 0u8, 0u8, 0u8]
    }
}

/// The consumer-control bit field: bit 0 for Voice Command, bit 1 for Globe.
pub open spec fn consumer_bits(globe_pressed: bool, voice_pressed: bool) -> u8 {
    if globe_pressed && voice_pressed {
        3u8
    } else if globe_pressed {
        2u8
    } else if voice_pressed {
        1u8
    } else {
        0u8
    }
}

/// The consumer-control report: the single bit-field byte.
pub open spec fn consumer_report(globe_pressed: bool, voice_pressed: bool) -> [u8; 1] {
    [consumer_bits(globe_pressed, voice_pressed)]
}

/// Builds the keyboard input report for the Enter key state.
pub fn create_keyboard_report(enter_pressed: bool) -> (report: [u8; 8])
    ensures
        report == keyboard_report(enter_pressed),
        report@ == keyboard_report(enter_pressed)@,
        report@[2] == (if enter_pressed { KEY_ENTER } else { 0u8 }),
        forall|i: int| 0 <= i < 8 && i != 2 ==> report@[i] == 0u8,
{
    if enter_pressed {
        [0u8, 0u8, KEY_ENTER, 0u8, 0u8, 0u8, 0u8, 0u8]
    } else {
        [0u8, 0u8, 0u8, 0u8, 0u8, 0u8, 0u8, 0u8]
    }
}

/// Builds the consumer-control input report for the Globe and Voice keys.
pub fn create_consumer_report(globe_pressed: bool, voice_pressed: bool) -> (report: [u8; 1])
    ensures
        report == consumer_report(globe_pressed, voice_pressed),
        report@ == consumer_report(globe_pressed, voice_pressed)@,
        (report@[0] & 1u8 == 1u8) == voice_pressed,
        ((report@[0] >> 1u8) & 1u8 == 1u8) == globe_pressed,
        report@[0] >> 2u8 == 0u8,
{
    let mut bits = 0u8;
    assert((0u8 | (1u8 << 0u8)) == 1u8) by (bit_vector);
    assert((0u8 | (1u8 << 1u8)) == 2u8 && (1u8 | (1u8 << 1u8)) == 3u8) by (bit_vector);
    if voice_pressed {
        bits = bits | (1u8 << VOICE_COMMAND_BIT);
    }
    if globe_pressed {
        bits = bits | (1u8 << GLOBE_BIT);
    }
    proof {
        lemma_consumer_bits_layout(globe_pressed, voice_pressed);
    }
    [bits]
}

/// Compares two byte strings element by element.
pub fn bytes_equal(a: &[u8], b: &[u8]) -> (same: bool)
    ensures
        same == (a@ == b@),
{
    if a.len() != b.len() {
        return false;
    }
    let mut i: usize = 0;
    while i < a.len()
        invariant
            a@.len() == b@.len(),
            0 <= i <= a@.len(),
            forall|j: int| 0 <= j < i ==> a@[j] == b@[j],
        decreases a@.len() - i,
    {
        if a[i] != b[i] {
            return false;
        }
        i = i + 1;
    }
    assert(a@ =~= b@);
    true
}

/// The consumer bit field follows the report map: Voice Command in bit 0,
/// Globe in bit 1, and the six padding bits are always clear.
pub proof fn lemma_consumer_bits_layout(globe_pressed: bool, voice_pressed: bool)
    ensures
        (consumer_bits(globe_pressed, voice_pressed) & 1u8 == 1u8) == voice_pressed,
        ((consumer_bits(globe_pressed, voice_pressed) >> 1u8) & 1u8 == 1u8) == globe_pressed,
        consumer_bits(globe_pressed, voice_pressed) >> 2u8 == 0u8,
{
    assert((3u8 & 1u8) == 1u8 && ((3u8 >> 1u8) & 1u8) == 1u8 && (3u8 >> 2u8) == 0u8)
        by (bit_vector);
    assert((2u8 & 1u8) == 0u8 && ((2u8 >> 1u8) & 1u8) == 1u8 && (2u8 >> 2u8) == 0u8)
        by (bit_vector);
    assert((1u8 & 1u8) == 1u8 && ((1u8 >> 1u8) & 1u8) == 0u8 && (1u8 >> 2u8) == 0u8)
        by (bit_vector);
    assert((0u8 & 1u8) == 0u8 && ((0u8 >> 1u8) & 1u8) == 0u8 && (0u8 >> 2u8) == 0u8)
        by (bit_vector);
}

/// A report is all zeros exactly when its keys are released, so the release
/// of a key is always reported by an empty report.
pub proof fn lemma_release_reports_are_empty(globe_pressed: bool, voice_pressed: bool, enter_pressed: bool)
    ensures
        (keyboard_report(enter_pressed)@ =~= seq![0u8, 0u8, 0u8, 0u8, 0u8, 0u8, 0u8, 0u8])
            == !enter_pressed,
        (consumer_report(globe_pressed, voice_pressed)[0] == 0u8) == (!globe_pressed && !voice_pressed),
{
    if enter_pressed {
        assert(keyboard_report(enter_pressed)@[2] != 0u8);
    }
}

/// Distinct key states give distinct reports, so a change of any key is
/// seen as a change of its report.
pub proof fn lemma_reports_distinguish_keys(
    globe_a: bool,
    voice_a: bool,
    enter_a: bool,
    globe_b: bool,
    voice_b: bool,
    enter_b: bool,
)
    ensures
        (keyboard_report(enter_a)@ == keyboard_report(enter_b)@) == (enter_a == enter_b),
        (consumer_report(globe_a, voice_a)@ == consumer_report(globe_b, voice_b)@) == (
        globe_a == globe_b && voice_a == voice_b),
{
    if keyboard_report(enter_a)@ == keyboard_report(enter_b)@ {
        assert(keyboard_report(enter_a)@[2] == keyboard_report(enter_b)@[2]);
    }
    if consumer_report(globe_a, voice_a)@ == consumer_report(globe_b, voice_b)@ {
        assert(consumer_report(globe_a, voice_a)@[0] == consumer_report(globe_b, voice_b)@[0]);
    }
    if enter_a == enter_b {
        assert(keyboard_report(enter_a)@ =~= keyboard_report(enter_b)@);
    }
    if globe_a == globe_b && voice_a == voice_b {
        assert(consumer_report(globe_a, voice_a)@ =~= consumer_report(globe_b, voice_b)@);
    }
}

} // verus!
