use rusty_balcon::hid::{bytes_equal, create_consumer_report, create_keyboard_report, KEY_ENTER};

#[test]
fn keyboard_report_with_enter() {
    assert_eq!(create_keyboard_report(true), [0, 0, 0x28, 0, 0, 0, 0, 0]);
    assert_eq!(create_keyboard_report(true)[2], KEY_ENTER);
}

#[test]
fn keyboard_report_released_is_empty() {
    assert_eq!(create_keyboard_report(false), [0u8; 8]);
}

#[test]
fn consumer_report_bits() {
    assert_eq!(create_consumer_report(false, false), [0b00]);
    assert_eq!(create_consumer_report(false, true), [0b01]);
    assert_eq!(create_consumer_report(true, false), [0b10]);
    assert_eq!(create_consumer_report(true, true), [0b11]);
}

#[test]
fn consumer_report_padding_bits_clear() {
    for globe in [false, true] {
        for voice in [false, true] {
            let r = create_consumer_report(globe, voice);
            assert_eq!(r[0] >> 2, 0);
            assert_eq!(r[0] & 1 == 1, voice);
            assert_eq!((r[0] >> 1) & 1 == 1, globe);
        }
    }
}

#[test]
fn reports_distinguish_key_states() {
    assert_ne!(create_keyboard_report(true), create_keyboard_report(false));
    let all = [
        create_consumer_report(false, false),
        create_consumer_report(false, true),
        create_consumer_report(true, false),
        create_consumer_report(true, true),
    ];
    for i in 0..4 {
        for j in 0..4 {
            assert_eq!(all[i] == all[j], i == j);
        }
    }
}

#[test]
fn bytes_equal_compares_contents() {
    assert!(bytes_equal(&[1, 2, 3], &[1, 2, 3]));
    assert!(!bytes_equal(&[1, 2, 3], &[1, 2, 4]));
    assert!(!bytes_equal(&[1, 2], &[1, 2, 3]));
    assert!(bytes_equal(&[], &[]));
}
