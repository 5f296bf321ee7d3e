use rusty_balcon::controller::MachineState;
use rusty_balcon::display::{key_box, key_label, key_pressed, status_text, StatusText};
use rusty_balcon::keys::Keys;

#[test]
fn status_texts() {
    assert_eq!(status_text(MachineState::Idle, false, false).label(), "IDLE");
    assert_eq!(status_text(MachineState::Idle, true, false).label(), "RECONNECTING...");
    assert_eq!(status_text(MachineState::Pairing, false, true).label(), ">> PAIRING <<");
    assert_eq!(status_text(MachineState::Pairing, false, false).label(), "-- PAIRING --");
    assert_eq!(status_text(MachineState::Connected, true, true).label(), "CONNECTED");
    assert_eq!(status_text(MachineState::Connected, false, false), StatusText::Connected);
}

#[test]
fn key_boxes_side_by_side() {
    let b0 = key_box(0, false);
    let b1 = key_box(1, true);
    let b2 = key_box(2, false);
    assert_eq!((b0.x, b1.x, b2.x), (14, 52, 90));
    assert_eq!((b0.y, b0.width, b0.height), (42, 24, 14));
    assert_eq!((b1.label_x, b1.label_y), (64, 53));
    assert!(b1.filled);
    assert!(!b0.filled);
}

#[test]
fn key_labels_and_pressed() {
    assert_eq!(key_label(0), "GLB");
    assert_eq!(key_label(1), "MIC");
    assert_eq!(key_label(2), "ENT");
    let k = Keys { globe: false, voice: true, enter: false };
    assert!(!key_pressed(&k, 0));
    assert!(key_pressed(&k, 1));
    assert!(!key_pressed(&k, 2));
}
