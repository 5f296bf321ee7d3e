//! Decision logic of a three-key Bluetooth keyboard: HID report encoding,
//! the status LED heartbeat, the status display, the wake-up keys, and the
//! controller that turns each poll of the keys and of the link state into
//! actions for the hardware.

pub mod hid;
pub mod led;
pub mod keys;
pub mod display;
pub mod controller;
pub mod properties;
pub mod action_content;
