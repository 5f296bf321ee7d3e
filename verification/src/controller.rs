//! The keyboard controller: one step per poll of the keys.
//!
//! Each step takes the time, the key levels and the link state that the
//! Bluetooth callbacks last recorded, updates the controller and returns the
//! actions for the hardware (LED, display, HID notifications, pairing, deep
//! sleep) in the order they are to be performed.
use vstd::prelude::*;

use crate::display::{
    spec_status_text, status_text, Frame, StatusText, DISPLAY_CONTRAST_OFF, DISPLAY_CONTRAST_ON,
};
use crate::hid::{
    bytes_equal, consumer_report, create_consumer_report, create_keyboard_report, keyboard_report,
};
use crate::keys::{wakeup_pin_mask, Keys};
use crate::led::{
    black, heartbeat_level, key_white, led_key_flash, led_off, pairing_heartbeat_level, Rgb,
};

verus! {

/// Inactivity after which an idle (disconnected) keyboard enters deep sleep:
/// 30 minutes.
pub const INACTIVITY_TIMEOUT_MS: u64 = 1_800_000;

/// Inactivity after which the display is blanked: 30 seconds.
pub const DISPLAY_TIMEOUT_MS: u64 = 30_000;

/// How long Globe + Enter must be held to enter pairing mode: 5 seconds.
pub const PAIRING_HOLD_MS: u64 = 5_000;

/// Length of the white LED flash on a key press.
pub const KEY_FLASH_MS: u64 = 80;

/// Delay after a connection before the wake-up key is replayed, so that the
/// link has settled.
pub const WAKE_REPLAY_DELAY_MS: u64 = 500;

/// How long a replayed key is held before its release is sent.
pub const REPLAY_HOLD_MS: u32 = 50;

/// Pause between blanking the outputs and entering deep sleep.
pub const SLEEP_SETTLE_MS: u32 = 100;

/// Period of the pairing text blink; the bright half comes first.
pub const PAIRING_BLINK_PERIOD_MS: u64 = 1000;

/// Time between two polls of the keys.
pub const POLL_INTERVAL_MS: u32 = 10;

/// Connection interval (units of 1.25 ms) asked of a newly connected host.
pub const CONN_INTERVAL: u16 = 12;

/// Slave latency asked of a newly connected host.
pub const CONN_LATENCY: u16 = 0;

/// Supervision timeout (units of 10 ms) asked of a newly connected host.
pub const CONN_SUPERVISION_TIMEOUT: u16 = 400;

/// The link state of the keyboard.
#[derive(Clone, Copy, Debug, PartialEq, Eq, Structural)]
pub enum MachineState {
    /// Not connected, advertising.
    Idle,
    /// Bonds cleared, advertising for a new host.
    Pairing,
    /// Connected to a host.
    Connected,
}

/// A change reported by the Bluetooth stack.
#[derive(Clone, Copy, Debug, PartialEq, Eq, Structural)]
pub enum LinkEvent {
    /// A host connected.
    Connected,
    /// The host disconnected.
    Disconnected,
}

/// The link state that a Bluetooth event leaves behind.
pub open spec fn spec_link_state_after(event: LinkEvent) -> MachineState {
    match event {
        LinkEvent::Connected => MachineState::Connected,
        LinkEvent::Disconnected => MachineState::Idle,
    }
}

/// Returns the link state to record for a Bluetooth event: a connection
/// makes the keyboard Connected, a disconnection makes it Idle.
pub fn link_state_after(event: LinkEvent) -> (state: MachineState)
    ensures
        state == spec_link_state_after(event),
{
    match event {
        LinkEvent::Connected => MachineState::Connected,
        LinkEvent::Disconnected => MachineState::Idle,
    }
}

/// One poll of the inputs.
#[derive(Clone, Copy, Debug)]
pub struct Sample {
    /// Milliseconds since boot.
    pub now_ms: u64,
    /// The keys held down.
    pub keys: Keys,
    /// The link state last recorded by the Bluetooth callbacks (or by a
    /// `SetLinkState` action).
    pub link: MachineState,
}

/// What the display last showed; a change of any part forces a redraw.
#[derive(Clone, Copy, Debug, PartialEq, Eq, Structural)]
pub struct DisplaySnapshot {
    /// The link state shown.
    pub state: MachineState,
    /// The keys shown.
    pub keys: Keys,
    /// Whether the pairing blink was bright or a reconnection was shown.
    pub highlight: bool,
}

/// Something the hardware is to do, in order.
#[derive(Clone, Copy, Debug, PartialEq, Eq)]
pub enum Action {
    /// Show a colour on the RGB LED.
    SetLed(Rgb),
    /// Set the display contrast.
    SetContrast(u8),
    /// Clear the display and flush it.
    ClearDisplay,
    /// Clear the display, draw a frame and flush it.
    Draw(Frame),
    /// Forget all bonded hosts.
    ClearBonds,
    /// Start advertising.
    StartAdvertising,
    /// Record a new link state where the Bluetooth callbacks record theirs.
    SetLinkState(MachineState),
    /// Set and notify the keyboard input report.
    SendKeyboard([u8; 8]),
    /// Set and notify the consumer-control input report.
    SendConsumer([u8; 1]),
    /// Wait this many milliseconds.
    Wait(u32),
    /// Arm EXT1 wake-up on the given GPIO mask (any low) and enter deep sleep.
    DeepSleep(u64),
}

/// The state kept between polls.
#[derive(Clone, Debug)]
pub struct Controller {
    /// The link state as of the last poll.
    pub state: MachineState,
    /// Last time a key was held.
    pub last_activity_ms: u64,
    /// When the pairing chord started being held, if it is held.
    pub hold_start_ms: Option<u64>,
    /// What the display last showed.
    pub last_display: DisplaySnapshot,
    /// The keyboard report the host last received.
    pub last_kb_report: [u8; 8],
    /// The consumer report the host last received.
    pub last_cons_report: [u8; 1],
    /// Whether the display is lit.
    pub display_on: bool,
    /// Start of the pairing heartbeat and blink.
    pub blink_start_ms: u64,
    /// The key that woke the chip from deep sleep, still to be replayed.
    pub wakeup_pending: Option<Keys>,
    /// When the current connection was made.
    pub connect_time_ms: Option<u64>,
    /// Whether any key was held at the previous poll.
    pub prev_any_key: bool,
    /// End of the current key-press LED flash.
    pub key_flash_until_ms: Option<u64>,
    /// The colour the LED shows.
    pub last_led: Rgb,
    /// Set once the controller has handed over to deep sleep or halted;
    /// a stopped controller does nothing more.
    pub stopped: bool,
}

/// Time elapsed from `start` to `now`, zero if `now` is earlier.
pub open spec fn since(now: u64, start: u64) -> u64 {
    if now >= start {
        (now - start) as u64
    } else {
        0
    }
}

fn elapsed(now: u64, start: u64) -> (d: u64)
    ensures
        d == since(now, start),
{
    now.saturating_sub(start)
}

/// A snapshot that differs from every real one in some part, so that the
/// next frame is drawn.
pub open spec fn forced_redraw_snapshot() -> DisplaySnapshot {
    DisplaySnapshot {
        state: MachineState::Idle,
        keys: Keys { globe: true, voice: true, enter: true },
        highlight: true,
    }
}

/// The controller as it starts after boot at `now_ms`, with the key that
/// woke the chip, if any, still to be replayed.
pub open spec fn spec_new(now_ms: u64, wakeup_pending: Option<Keys>) -> Controller {
    Controller {
        state: MachineState::Idle,
        last_activity_ms: now_ms,
        hold_start_ms: None,
        last_display: forced_redraw_snapshot(),
        last_kb_report: keyboard_report(false),
        last_cons_report: consumer_report(false, false),
        display_on: true,
        blink_start_ms: now_ms,
        wakeup_pending,
        connect_time_ms: None,
        prev_any_key: false,
        key_flash_until_ms: None,
        last_led: black(),
        stopped: false,
    }
}

// ---------------------------------------------------------------------------
// The phases of one step, in the order in which they run.
// ---------------------------------------------------------------------------

/// Adopts the link state recorded by the callbacks; a new connection starts
/// the replay delay.
pub open spec fn phase_sync(c: Controller, s: Sample) -> Controller {
    if s.link != c.state {
        Controller {
            state: s.link,
            connect_time_ms: if s.link == MachineState::Connected {
                Some(s.now_ms)
            } else {
                c.connect_time_ms
            },
            ..c
        }
    } else {
        c
    }
}

/// Notes activity while a key is held, and starts the LED flash on the
/// poll where the first key goes down.
pub open spec fn phase_activity(c: Controller, s: Sample) -> Controller {
    let any = s.keys.spec_any();
    Controller {
        last_activity_ms: if any {
            s.now_ms
        } else {
            c.last_activity_ms
        },
        key_flash_until_ms: if any && !c.prev_any_key {
            Some((s.now_ms + KEY_FLASH_MS) as u64)
        } else {
            c.key_flash_until_ms
        },
        prev_any_key: any,
        ..c
    }
}

/// Whether the key-press flash is still running at `now`.
pub open spec fn flashing(c: Controller, now: u64) -> bool {
    match c.key_flash_until_ms {
        Some(until) => now < until,
        None => false,
    }
}

/// The LED colour: the key flash first, then the pairing heartbeat, else off.
pub open spec fn led_color(c: Controller, now: u64) -> Rgb {
    if flashing(c, now) {
        key_white()
    } else if c.state == MachineState::Pairing {
        Rgb { r: 0, g: 0, b: heartbeat_level(since(now, c.blink_start_ms) as int) as u8 }
    } else {
        black()
    }
}

/// Sets the LED when its colour changes, and at every poll of the heartbeat.
pub open spec fn phase_led(c: Controller, s: Sample) -> (Controller, Seq<Action>) {
    let flash = flashing(c, s.now_ms);
    let color = led_color(c, s.now_ms);
    let c1 = Controller { key_flash_until_ms: if flash { c.key_flash_until_ms } else { None }, ..c };
    if (c.state == MachineState::Pairing && !flash) || color != c.last_led {
        (Controller { last_led: color, ..c1 }, seq![Action::SetLed(color)])
    } else {
        (c1, Seq::empty())
    }
}

/// Deep sleep is due when the keyboard is Idle (not connected, not pairing)
/// and no key has been held for the inactivity timeout.
pub open spec fn sleep_due(c: Controller, now: u64) -> bool {
    c.state == MachineState::Idle && since(now, c.last_activity_ms) >= INACTIVITY_TIMEOUT_MS
}

/// Blank the outputs, pause, then arm the key wake-up and sleep.
pub open spec fn sleep_actions() -> Seq<Action> {
    seq![
        Action::SetLed(black()),
        Action::ClearDisplay,
        Action::Wait(SLEEP_SETTLE_MS),
        Action::DeepSleep(0x3800u64),
    ]
}

/// Holding Globe + Enter for the hold time clears the bonds and starts
/// pairing; releasing either key restarts the count.
pub open spec fn phase_pairing(c: Controller, s: Sample) -> (Controller, Seq<Action>) {
    if s.keys.spec_pairing_chord() {
        match c.hold_start_ms {
            Some(start) => if since(s.now_ms, start) >= PAIRING_HOLD_MS && c.state
                != MachineState::Pairing {
                (
                    c,
                    seq![
                        Action::ClearBonds,
                        Action::StartAdvertising,
                        Action::SetLinkState(MachineState::Pairing),
                    ],
                )
            } else {
                (c, Seq::empty())
            },
            None => (Controller { hold_start_ms: Some(s.now_ms), ..c }, Seq::empty()),
        }
    } else {
        (Controller { hold_start_ms: None, ..c }, Seq::empty())
    }
}

/// The display is lit while pairing or until the display timeout has passed
/// without a key.
pub open spec fn display_target(c: Controller, now: u64) -> bool {
    c.state == MachineState::Pairing || since(now, c.last_activity_ms) < DISPLAY_TIMEOUT_MS
}

/// Lights or blanks the display when its target changes; lighting it forces
/// a redraw.
pub open spec fn phase_display_power(c: Controller, s: Sample) -> (Controller, Seq<Action>) {
    let target = display_target(c, s.now_ms);
    if target != c.display_on {
        if target {
            (
                Controller { display_on: true, last_display: forced_redraw_snapshot(), ..c },
                seq![Action::SetContrast(DISPLAY_CONTRAST_ON)],
            )
        } else {
            (
                Controller { display_on: false, ..c },
                seq![Action::SetContrast(DISPLAY_CONTRAST_OFF), Action::ClearDisplay],
            )
        }
    } else {
        (c, Seq::empty())
    }
}

/// Whether the pairing text is in the bright half of its blink.
pub open spec fn pairing_blink(c: Controller, now: u64) -> bool {
    c.state == MachineState::Pairing && since(now, c.blink_start_ms) % PAIRING_BLINK_PERIOD_MS
        < PAIRING_BLINK_PERIOD_MS / 2
}

/// What the display is to show now.
pub open spec fn display_snapshot(c: Controller, s: Sample) -> DisplaySnapshot {
    DisplaySnapshot {
        state: c.state,
        keys: s.keys,
        highlight: pairing_blink(c, s.now_ms) || c.wakeup_pending is Some,
    }
}

/// Redraws a lit display when what it shows has changed.
pub open spec fn phase_draw(c: Controller, s: Sample) -> (Controller, Seq<Action>) {
    let snap = display_snapshot(c, s);
    if c.display_on && snap != c.last_display {
        (
            Controller { last_display: snap, ..c },
            seq![
                Action::Draw(
                    Frame {
                        status: spec_status_text(
                            c.state,
                            c.wakeup_pending is Some,
                            pairing_blink(c, s.now_ms),
                        ),
                        keys: s.keys,
                    },
                ),
            ],
        )
    } else {
        (c, Seq::empty())
    }
}

/// The wake-up key is replayed once the connection has lasted the replay
/// delay.
pub open spec fn replay_due(c: Controller, now: u64) -> bool {
    &&& c.state == MachineState::Connected
    &&& c.wakeup_pending is Some
    &&& c.connect_time_ms matches Some(ct) && since(now, ct) >= WAKE_REPLAY_DELAY_MS
}

/// A replayed key is pressed, held briefly and released: Enter through the
/// keyboard report, Globe and Voice through the consumer report.
pub open spec fn replay_actions(w: Keys) -> Seq<Action> {
    (if w.enter {
        seq![
            Action::SendKeyboard(keyboard_report(true)),
            Action::Wait(REPLAY_HOLD_MS),
            Action::SendKeyboard(keyboard_report(false)),
        ]
    } else {
        Seq::empty()
    }) + (if w.globe || w.voice {
        seq![
            Action::SendConsumer(consumer_report(w.globe, w.voice)),
            Action::Wait(REPLAY_HOLD_MS),
            Action::SendConsumer(consumer_report(false, false)),
        ]
    } else {
        Seq::empty()
    })
}

/// Replays the wake-up key once, if due.
pub open spec fn phase_replay(c: Controller, s: Sample) -> (Controller, Seq<Action>) {
    if replay_due(c, s.now_ms) {
        let w = c.wakeup_pending->0;
        (
            Controller {
                wakeup_pending: None,
                last_kb_report: if w.enter {
                    keyboard_report(false)
                } else {
                    c.last_kb_report
                },
                last_cons_report: if w.globe || w.voice {
                    consumer_report(false, false)
                } else {
                    c.last_cons_report
                },
                ..c
            },
            replay_actions(w),
        )
    } else {
        (c, Seq::empty())
    }
}

/// Sends each report whose content differs from what the host last received.
pub open spec fn phase_reports(c: Controller, s: Sample) -> (Controller, Seq<Action>) {
    let kb = keyboard_report(s.keys.enter);
    let cons = consumer_report(s.keys.globe, s.keys.voice);
    let kb_changed = kb@ != c.last_kb_report@;
    let cons_changed = cons@ != c.last_cons_report@;
    (
        Controller {
            last_kb_report: if kb_changed {
                kb
            } else {
                c.last_kb_report
            },
            last_cons_report: if cons_changed {
                cons
            } else {
                c.last_cons_report
            },
            ..c
        },
        (if kb_changed {
            seq![Action::SendKeyboard(kb)]
        } else {
            Seq::empty()
        }) + (if cons_changed {
            seq![Action::SendConsumer(cons)]
        } else {
            Seq::empty()
        }),
    )
}

/// While connected: the wake-up replay, then the reports of the held keys.
pub open spec fn phase_hid(c: Controller, s: Sample) -> (Controller, Seq<Action>) {
    if c.state == MachineState::Connected {
        let r = phase_replay(c, s);
        let k = phase_reports(r.0, s);
        (k.0, r.1 + k.1)
    } else {
        (c, Seq::empty())
    }
}

/// One poll: the controller after it and the actions it asks for.
pub open spec fn spec_step(c: Controller, s: Sample) -> (Controller, Seq<Action>) {
    if c.stopped {
        (c, Seq::empty())
    } else {
        let c1 = phase_activity(phase_sync(c, s), s);
        let led = phase_led(c1, s);
        if sleep_due(led.0, s.now_ms) {
            (Controller { stopped: true, ..led.0 }, led.1 + sleep_actions())
        } else {
            let pair = phase_pairing(led.0, s);
            let power = phase_display_power(pair.0, s);
            let draw = phase_draw(power.0, s);
            let hid = phase_hid(draw.0, s);
            (hid.0, led.1 + pair.1 + power.1 + draw.1 + hid.1)
        }
    }
}

/// The inputs on which a step is defined: the end of a key-press flash
/// must be a representable time.
pub open spec fn step_defined(c: Controller, s: Sample) -> bool {
    (!c.stopped && s.keys.spec_any() && !c.prev_any_key) ==> s.now_ms + KEY_FLASH_MS <= u64::MAX
}

impl Controller {
    /// The controller at boot, `now_ms` after power-up, remembering the key
    /// that woke the chip from deep sleep, if any.
    pub fn new(now_ms: u64, wakeup_pending: Option<Keys>) -> (c: Controller)
        ensures
            c == spec_new(now_ms, wakeup_pending),
    {
        Controller {
            state: MachineState::Idle,
            last_activity_ms: now_ms,
            hold_start_ms: None,
            last_display: DisplaySnapshot {
                state: MachineState::Idle,
                keys: Keys { globe: true, voice: true, enter: true },
                highlight: true,
            },
            last_kb_report: create_keyboard_report(false),
            last_cons_report: create_consumer_report(false, false),
            display_on: true,
            blink_start_ms: now_ms,
            wakeup_pending,
            connect_time_ms: None,
            prev_any_key: false,
            key_flash_until_ms: None,
            last_led: led_off(),
            stopped: false,
        }
    }

    fn sync_link(&mut self, s: &Sample)
        ensures
            *final(self) == phase_sync(*old(self), *s),
    {
        if s.link != self.state {
            if s.link == MachineState::Connected {
                self.connect_time_ms = Some(s.now_ms);
            }
            self.state = s.link;
        }
    }

    fn note_activity(&mut self, s: &Sample)
        requires
            (s.keys.spec_any() && !old(self).prev_any_key) ==> s.now_ms + KEY_FLASH_MS <= u64::MAX,
        ensures
            *final(self) == phase_activity(*old(self), *s),
    {
        let any = s.keys.any();
        if any {
            self.last_activity_ms = s.now_ms;
        }
        if any && !self.prev_any_key {
            self.key_flash_until_ms = Some(s.now_ms + KEY_FLASH_MS);
        }
        self.prev_any_key = any;
    }

    fn update_led(&mut self, s: &Sample, out: &mut Vec<Action>)
        ensures
            *final(self) == phase_led(*old(self), *s).0,
            final(out)@ == old(out)@ + phase_led(*old(self), *s).1,
    {
        let flash = match self.key_flash_until_ms {
            Some(until) => s.now_ms < until,
            None => false,
        };
        let color = if flash {
            led_key_flash()
        } else {
            self.key_flash_until_ms = None;
            if self.state == MachineState::Pairing {
                let since_start = elapsed(s.now_ms, self.blink_start_ms);
                let level = pairing_heartbeat_level(since_start as u128);
                Rgb { r: 0, g: 0, b: level }
            } else {
                led_off()
            }
        };
        let force = self.state == MachineState::Pairing && self.key_flash_until_ms.is_none();
        if force || color != self.last_led {
            out.push(Action::SetLed(color));
            self.last_led = color;
        }
        assert(final(out)@ =~= old(out)@ + phase_led(*old(self), *s).1);
    }

    fn enter_sleep(&mut self, out: &mut Vec<Action>)
        ensures
            *final(self) == (Controller { stopped: true, ..*old(self) }),
            final(out)@ == old(out)@ + sleep_actions(),
    {
        out.push(Action::SetLed(led_off()));
        out.push(Action::ClearDisplay);
        out.push(Action::Wait(SLEEP_SETTLE_MS));
        out.push(Action::DeepSleep(wakeup_pin_mask()));
        self.stopped = true;
        assert(final(out)@ =~= old(out)@ + sleep_actions());
    }

    fn check_pairing_hold(&mut self, s: &Sample, out: &mut Vec<Action>)
        ensures
            *final(self) == phase_pairing(*old(self), *s).0,
            final(out)@ == old(out)@ + phase_pairing(*old(self), *s).1,
    {
        if s.keys.pairing_chord() {
            match self.hold_start_ms {
                Some(start) => {
                    if elapsed(s.now_ms, start) >= PAIRING_HOLD_MS && self.state
                        != MachineState::Pairing {
                        out.push(Action::ClearBonds);
                        out.push(Action::StartAdvertising);
                        out.push(Action::SetLinkState(MachineState::Pairing));
                    }
                },
                None => {
                    self.hold_start_ms = Some(s.now_ms);
                },
            }
        } else {
            self.hold_start_ms = None;
        }
        assert(final(out)@ =~= old(out)@ + phase_pairing(*old(self), *s).1);
    }

    fn update_display_power(&mut self, s: &Sample, out: &mut Vec<Action>)
        ensures
            *final(self) == phase_display_power(*old(self), *s).0,
            final(out)@ == old(out)@ + phase_display_power(*old(self), *s).1,
    {
        let inactivity = elapsed(s.now_ms, self.last_activity_ms);
        let target = self.state == MachineState::Pairing || inactivity < DISPLAY_TIMEOUT_MS;
        if target != self.display_on {
            if target {
                out.push(Action::SetContrast(DISPLAY_CONTRAST_ON));
            } else {
                out.push(Action::SetContrast(DISPLAY_CONTRAST_OFF));
                out.push(Action::ClearDisplay);
            }
            self.display_on = target;
            if self.display_on {
                self.last_display = DisplaySnapshot {
                    state: MachineState::Idle,
                    keys: Keys { globe: true, voice: true, enter: true },
                    highlight: true,
                };
            }
        }
        assert(final(out)@ =~= old(out)@ + phase_display_power(*old(self), *s).1);
    }

    fn redraw(&mut self, s: &Sample, out: &mut Vec<Action>)
        ensures
            *final(self) == phase_draw(*old(self), *s).0,
            final(out)@ == old(out)@ + phase_draw(*old(self), *s).1,
    {
        let blink = self.state == MachineState::Pairing && elapsed(s.now_ms, self.blink_start_ms)
            % PAIRING_BLINK_PERIOD_MS < PAIRING_BLINK_PERIOD_MS / 2;
        let reconnecting = self.wakeup_pending.is_some();
        let snap = DisplaySnapshot { state: self.state, keys: s.keys, highlight: blink || reconnecting };
        if self.display_on && snap != self.last_display {
            let status: StatusText = status_text(self.state, reconnecting, blink);
            out.push(Action::Draw(Frame { status, keys: s.keys }));
            self.last_display = snap;
        }
        assert(final(out)@ =~= old(out)@ + phase_draw(*old(self), *s).1);
    }

    fn replay_wakeup_key(&mut self, s: &Sample, out: &mut Vec<Action>)
        requires
            old(self).state == MachineState::Connected,
        ensures
            *final(self) == phase_replay(*old(self), *s).0,
            final(out)@ == old(out)@ + phase_replay(*old(self), *s).1,
    {
        if let Some(ct) = self.connect_time_ms {
            if elapsed(s.now_ms, ct) >= WAKE_REPLAY_DELAY_MS {
                if let Some(w) = self.wakeup_pending {
                    self.wakeup_pending = None;
                    if w.enter {
                        out.push(Action::SendKeyboard(create_keyboard_report(true)));
                        out.push(Action::Wait(REPLAY_HOLD_MS));
                        out.push(Action::SendKeyboard(create_keyboard_report(false)));
                        self.last_kb_report = create_keyboard_report(false);
                    }
                    if w.globe || w.voice {
                        out.push(Action::SendConsumer(create_consumer_report(w.globe, w.voice)));
                        out.push(Action::Wait(REPLAY_HOLD_MS));
                        out.push(Action::SendConsumer(create_consumer_report(false, false)));
                        self.last_cons_report = create_consumer_report(false, false);
                    }
                }
            }
        }
        assert(final(out)@ =~= old(out)@ + phase_replay(*old(self), *s).1);
    }

    fn send_reports(&mut self, s: &Sample, out: &mut Vec<Action>)
        ensures
            *final(self) == phase_reports(*old(self), *s).0,
            final(out)@ == old(out)@ + phase_reports(*old(self), *s).1,
    {
        let kb = create_keyboard_report(s.keys.enter);
        if !bytes_equal(kb.as_slice(), self.last_kb_report.as_slice()) {
            out.push(Action::SendKeyboard(kb));
            self.last_kb_report = kb;
        }
        let cons = create_consumer_report(s.keys.globe, s.keys.voice);
        if !bytes_equal(cons.as_slice(), self.last_cons_report.as_slice()) {
            out.push(Action::SendConsumer(cons));
            self.last_cons_report = cons;
        }
        assert(final(out)@ =~= old(out)@ + phase_reports(*old(self), *s).1);
    }

    /// Runs one poll of the keyboard: adopts the link state, tracks activity,
    /// drives the LED, enters deep sleep when due, watches the pairing chord,
    /// powers and redraws the display, and while connected replays the
    /// wake-up key and sends changed HID reports.
    pub fn step(&mut self, s: Sample) -> (actions: Vec<Action>)
        requires
            step_defined(*old(self), s),
        ensures
            *final(self) == spec_step(*old(self), s).0,
            actions@ == spec_step(*old(self), s).1,
    {
        let mut out: Vec<Action> = Vec::new();
        if self.stopped {
            return out;
        }
        self.sync_link(&s);
        self.note_activity(&s);
        self.update_led(&s, &mut out);
        let inactivity = elapsed(s.now_ms, self.last_activity_ms);
        if self.state == MachineState::Idle && inactivity >= INACTIVITY_TIMEOUT_MS {
            self.enter_sleep(&mut out);
            return out;
        }
        self.check_pairing_hold(&s, &mut out);
        self.update_display_power(&s, &mut out);
        self.redraw(&s, &mut out);
        if self.state == MachineState::Connected {
            self.replay_wakeup_key(&s, &mut out);
            self.send_reports(&s, &mut out);
        }
        out
    }
}

/// The fault handler: the controller halts for good and asks for nothing
/// more, as the firmware spins forever after a panic.
pub fn panic(controller: &mut Controller)
    ensures
        *final(controller) == (Controller { stopped: true, ..*old(controller) }),
{
    controller.stopped = true;
}

} // verus!
