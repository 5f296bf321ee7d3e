//! What the 128x64 OLED shows: the status line and the three key boxes.
use vstd::prelude::*;

use crate::controller::MachineState;
use crate::keys::Keys;

verus! {

/// Display contrast while the screen is on (dim, to save power).
pub const DISPLAY_CONTRAST_ON: u8 = 0x10;

/// Display contrast when the screen is blanked.
pub const DISPLAY_CONTRAST_OFF: u8 = 0;

/// The connection status line.
#[derive(Clone, Copy, Debug, PartialEq, Eq, Structural)]
pub enum StatusText {
    /// Not connected, advertising.
    Idle,
    /// Woke from deep sleep with a key to replay, waiting for the host.
    Reconnecting,
    /// Pairing mode, bright phase of the blink.
    PairingBright,
    /// Pairing mode, dim phase of the blink.
    PairingDim,
    /// Connected to a host.
    Connected,
}

/// The status line for a machine state.
pub open spec fn spec_status_text(state: MachineState, reconnecting: bool, pairing_blink: bool) -> StatusText {
    match state {
        MachineState::Idle => if reconnecting {
            StatusText::Reconnecting
        } else {
            StatusText::Idle
        },
        MachineState::Pairing => if pairing_blink {
            StatusText::PairingBright
        } else {
            StatusText::PairingDim
        },
        MachineState::Connected => StatusText::Connected,
    }
}

/// Chooses the status line: Idle shows "RECONNECTING..." while a wake-up key
/// waits to be replayed, Pairing blinks between two texts.
pub fn status_text(state: MachineState, reconnecting: bool, pairing_blink: bool) -> (text: StatusText)
    ensures
        text == spec_status_text(state, reconnecting, pairing_blink),
{
    match state {
        MachineState::Idle => if reconnecting {
            StatusText::Reconnecting
        } else {
            StatusText::Idle
        },
        MachineState::Pairing => if pairing_blink {
            StatusText::PairingBright
        } else {
            StatusText::PairingDim
        },
        MachineState::Connected => StatusText::Connected,
    }
}

impl StatusText {
    /// The characters shown for this status.
    pub open spec fn spec_label(self) -> Seq<char> {
        match self {
            StatusText::Idle => "IDLE"@,
            StatusText::Reconnecting => "RECONNECTING..."@,
            StatusText::PairingBright => ">> PAIRING <<"@,
            StatusText::PairingDim => "-- PAIRING --"@,
            StatusText::Connected => "CONNECTED"@,
        }
    }

    /// The text drawn for this status.
    pub fn label(&self) -> (text: &'static str)
        ensures
            text@ == self.spec_label(),
    {
        match self {
            StatusText::Idle => "IDLE",
            StatusText::Reconnecting => "RECONNECTING...",
            StatusText::PairingBright => ">> PAIRING <<",
            StatusText::PairingDim => "-- PAIRING --",
            StatusText::Connected => "CONNECTED",
        }
    }
}

/// One screen of the status display.
#[derive(Clone, Copy, Debug, PartialEq, Eq, Structural)]
pub struct Frame {
    /// The status line.
    pub status: StatusText,
    /// The keys drawn as pressed.
    pub keys: Keys,
}

/// Position, size and appearance of one key box and its label.
#[derive(Clone, Copy, Debug, PartialEq, Eq, Structural)]
pub struct KeyBox {
    /// Left edge.
    pub x: i32,
    /// Top edge.
    pub y: i32,
    /// Width in pixels.
    pub width: u32,
    /// Height in pixels.
    pub height: u32,
    /// Horizontal centre of the label.
    pub label_x: i32,
    /// Baseline of the label.
    pub label_y: i32,
    /// A pressed key is drawn filled with its label in the background colour;
    /// a released key is drawn as an outline.
    pub filled: bool,
}

/// Width of a key box.
pub const KEY_BOX_WIDTH: u32 = 24;

/// Height of a key box.
pub const KEY_BOX_HEIGHT: u32 = 14;

/// Top edge of the key boxes.
pub const KEY_BOX_Y: i32 = 42;

/// Left edge of the key box with the given index (0: Globe, 1: Voice,
/// 2: Enter).
pub open spec fn key_box_x(index: int) -> int {
    if index == 0 {
        14
    } else if index == 1 {
        52
    } else {
        90
    }
}

/// Lays out the box of key `index` (0: Globe, 1: Voice, 2: Enter): three
/// boxes side by side, the label centred in its box.
pub fn key_box(index: usize, pressed: bool) -> (b: KeyBox)
    requires
        index < 3,
    ensures
        b.x == key_box_x(index as int),
        b.y == KEY_BOX_Y,
        b.width == KEY_BOX_WIDTH,
        b.height == KEY_BOX_HEIGHT,
        b.label_x == b.x + KEY_BOX_WIDTH / 2,
        b.label_y == KEY_BOX_Y + 11,
        b.filled == pressed,
{
    let x: i32 = if index == 0 {
        14
    } else if index == 1 {
        52
    } else {
        90
    };
    KeyBox {
        x,
        y: KEY_BOX_Y,
        width: KEY_BOX_WIDTH,
        height: KEY_BOX_HEIGHT,
        label_x: x + (KEY_BOX_WIDTH / 2) as i32,
        label_y: KEY_BOX_Y + 11,
        filled: pressed,
    }
}

/// The label of key `index`.
pub open spec fn spec_key_label(index: int) -> Seq<char> {
    if index == 0 {
        "GLB"@
    } else if index == 1 {
        "MIC"@
    } else {
        "ENT"@
    }
}

/// Returns the label drawn in the box of key `index`.
pub fn key_label(index: usize) -> (label: &'static str)
    requires
        index < 3,
    ensures
        label@ == spec_key_label(index as int),
{
    if index == 0 {
        "GLB"
    } else if index == 1 {
        "MIC"
    } else {
        "ENT"
    }
}

/// Whether key `index` of a key set is pressed.
pub open spec fn spec_key_pressed(keys: Keys, index: int) -> bool {
    if index == 0 {
        keys.globe
    } else if index == 1 {
        keys.voice
    } else {
        keys.enter
    }
}

/// Returns whether the key drawn in box `index` is pressed.
pub fn key_pressed(keys: &Keys, index: usize) -> (pressed: bool)
    requires
        index < 3,
    ensures
        pressed == spec_key_pressed(*keys, index as int),
{
    if index == 0 {
        keys.globe
    } else if index == 1 {
        keys.voice
    } else {
        keys.enter
    }
}

} // verus!
