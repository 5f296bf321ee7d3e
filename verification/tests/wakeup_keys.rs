use rusty_balcon::keys::{decode_wakeup_status, wakeup_pin_mask, Keys};

#[test]
fn no_wakeup_when_status_zero() {
    assert_eq!(decode_wakeup_status(0), None);
}

#[test]
fn wakeup_by_each_key() {
    assert_eq!(
        decode_wakeup_status(1 << 13),
        Some(Keys { globe: true, voice: false, enter: false })
    );
    assert_eq!(
        decode_wakeup_status(1 << 11),
        Some(Keys { globe: false, voice: true, enter: false })
    );
    assert_eq!(
        decode_wakeup_status(1 << 12),
        Some(Keys { globe: false, voice: false, enter: true })
    );
}

#[test]
fn wakeup_by_other_pin_reports_no_key() {
    assert_eq!(
        decode_wakeup_status(1 << 7),
        Some(Keys { globe: false, voice: false, enter: false })
    );
}

#[test]
fn wake_mask_covers_three_keys() {
    assert_eq!(wakeup_pin_mask(), 0x3800);
    assert_eq!(
        decode_wakeup_status(wakeup_pin_mask()),
        Some(Keys { globe: true, voice: true, enter: true })
    );
}

#[test]
fn keys_any_and_chord() {
    let none = Keys { globe: false, voice: false, enter: false };
    assert!(!none.any());
    assert!(!none.pairing_chord());
    let chord = Keys { globe: true, voice: false, enter: true };
    assert!(chord.any());
    assert!(chord.pairing_chord());
    let voice = Keys { globe: false, voice: true, enter: false };
    assert!(voice.any());
    assert!(!voice.pairing_chord());
}
