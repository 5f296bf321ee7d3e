use rusty_balcon::led::{led_key_flash, led_off, pairing_heartbeat_level, Rgb, LED_PAIRING_BLUE};

#[test]
fn heartbeat_first_beat() {
    assert_eq!(pairing_heartbeat_level(0), 0);
    assert_eq!(pairing_heartbeat_level(30), 16);
    assert_eq!(pairing_heartbeat_level(75), 40);
    assert_eq!(pairing_heartbeat_level(100), 26);
    assert_eq!(pairing_heartbeat_level(149), 0);
}

#[test]
fn heartbeat_pause_and_rest() {
    assert_eq!(pairing_heartbeat_level(150), 0);
    assert_eq!(pairing_heartbeat_level(200), 0);
    assert_eq!(pairing_heartbeat_level(249), 0);
    assert_eq!(pairing_heartbeat_level(370), 0);
    assert_eq!(pairing_heartbeat_level(1199), 0);
}

#[test]
fn heartbeat_second_beat_is_softer() {
    assert_eq!(pairing_heartbeat_level(250), 0);
    assert_eq!(pairing_heartbeat_level(280), 14);
    assert_eq!(pairing_heartbeat_level(310), 28);
    assert_eq!(pairing_heartbeat_level(340), 14);
}

#[test]
fn heartbeat_repeats_every_period() {
    for t in 0..1200u128 {
        assert_eq!(pairing_heartbeat_level(t), pairing_heartbeat_level(t + 1200));
        assert_eq!(pairing_heartbeat_level(t), pairing_heartbeat_level(t + 1200 * 1000));
    }
}

#[test]
fn heartbeat_never_exceeds_peak() {
    for t in 0..2400u128 {
        assert!(pairing_heartbeat_level(t) <= LED_PAIRING_BLUE);
    }
    assert_eq!(pairing_heartbeat_level(u128::MAX) <= LED_PAIRING_BLUE, true);
}

#[test]
fn led_colours() {
    assert_eq!(led_off(), Rgb { r: 0, g: 0, b: 0 });
    assert_eq!(led_key_flash(), Rgb { r: 48, g: 48, b: 48 });
}
