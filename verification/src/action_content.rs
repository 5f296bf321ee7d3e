//! What the actions of a poll carry: the HID reports, the LED colour, the
//! frames drawn and the pairing requests, stated over the held keys and the
//! wire format rather than over the step's own definition.
use vstd::prelude::*;

use crate::controller::{
    phase_activity, phase_display_power, phase_draw, phase_hid, phase_led, phase_pairing,
    phase_replay, phase_reports, phase_sync, replay_actions, since, sleep_actions, sleep_due, spec_step, Action,
    Controller, MachineState, Sample, PAIRING_HOLD_MS, REPLAY_HOLD_MS,
};
use crate::display::StatusText;
use crate::hid::{consumer_report, keyboard_report, lemma_consumer_bits_layout, KEY_ENTER};
use crate::keys::Keys;
use crate::led::{Rgb, LED_PAIRING_BLUE};

verus! {

/// Every action of the sequence satisfies `p`.
pub open spec fn all_actions(acts: Seq<Action>, p: spec_fn(Action) -> bool) -> bool {
    forall|i: int| 0 <= i < acts.len() ==> p(#[trigger] acts[i])
}

proof fn lemma_all_actions_concat(a: Seq<Action>, b: Seq<Action>, p: spec_fn(Action) -> bool)
    requires
        all_actions(a, p),
        all_actions(b, p),
    ensures
        all_actions(a + b, p),
{
    assert forall|i: int| 0 <= i < (a + b).len() implies p(#[trigger] (a + b)[i]) by {
        if i < a.len() {
            assert((a + b)[i] == a[i]);
        } else {
            assert((a + b)[i] == b[i - a.len()]);
        }
    }
}

/// The consumer-control byte announces Voice Command in bit 0 and Globe in
/// bit 1, with the padding bits clear.
pub open spec fn encodes_consumer(byte: u8, globe: bool, voice: bool) -> bool {
    &&& (byte & 1u8 == 1u8) == voice
    &&& ((byte >> 1u8) & 1u8 == 1u8) == globe
    &&& byte >> 2u8 == 0u8
}

/// The keyboard report holds the Enter usage in its first key slot when
/// Enter is held, and is otherwise all zeros.
pub open spec fn encodes_keyboard(report: Seq<u8>, enter: bool) -> bool {
    &&& report.len() == 8
    &&& report[2] == (if enter {
        KEY_ENTER
    } else {
        0u8
    })
    &&& forall|i: int| 0 <= i < 8 && i != 2 ==> report[i] == 0u8
}

/// A report action that describes the given keys.
pub open spec fn report_shows(a: Action, keys: Keys) -> bool {
    match a {
        Action::SendConsumer(r) => encodes_consumer(r@[0], keys.globe, keys.voice),
        Action::SendKeyboard(r) => encodes_keyboard(r@, keys.enter),
        _ => true,
    }
}

proof fn lemma_reports_phase_shows_keys(c: Controller, s: Sample)
    ensures
        all_actions(phase_reports(c, s).1, |a: Action| report_shows(a, s.keys)),
{
    lemma_consumer_bits_layout(s.keys.globe, s.keys.voice);
    let p = |a: Action| report_shows(a, s.keys);
    let r = phase_reports(c, s).1;
    assert forall|i: int| 0 <= i < r.len() implies p(#[trigger] r[i]) by {
        let kb = crate::hid::keyboard_report(s.keys.enter);
        assert(kb@[2] == (if s.keys.enter { KEY_ENTER } else { 0u8 }));
    }
}

/// Outside the one-time wake-up replay, every HID report a poll sends
/// describes the keys held at that poll: the consumer byte has Voice in
/// bit 0 and Globe in bit 1, and the keyboard report has Enter in its first
/// key slot exactly when Enter is held.
pub proof fn lemma_reports_carry_held_keys(c: Controller, s: Sample)
    requires
        spec_step(c, s).0.wakeup_pending == c.wakeup_pending,
    ensures
        all_actions(spec_step(c, s).1, |a: Action| report_shows(a, s.keys)),
{
    let p = |a: Action| report_shows(a, s.keys);
    if !c.stopped {
        let c1 = phase_activity(phase_sync(c, s), s);
        let led = phase_led(c1, s);
        assert(all_actions(led.1, p));
        if sleep_due(led.0, s.now_ms) {
            assert(all_actions(sleep_actions(), p));
            lemma_all_actions_concat(led.1, sleep_actions(), p);
        } else {
            let pair = phase_pairing(led.0, s);
            let power = phase_display_power(pair.0, s);
            let draw = phase_draw(power.0, s);
            let hid = phase_hid(draw.0, s);
            assert(all_actions(pair.1, p));
            assert(all_actions(power.1, p));
            assert(all_actions(draw.1, p));
            if draw.0.state == MachineState::Connected {
                let rep = phase_replay(draw.0, s);
                assert(rep.1 =~= Seq::<Action>::empty());
                lemma_reports_phase_shows_keys(rep.0, s);
                lemma_all_actions_concat(rep.1, phase_reports(rep.0, s).1, p);
            }
            assert(all_actions(hid.1, p));
            lemma_all_actions_concat(led.1, pair.1, p);
            lemma_all_actions_concat(led.1 + pair.1, power.1, p);
            lemma_all_actions_concat(led.1 + pair.1 + power.1, draw.1, p);
            lemma_all_actions_concat(led.1 + pair.1 + power.1 + draw.1, hid.1, p);
        }
    }
}


/// No action of the sequence notifies a HID report.
pub open spec fn no_report(a: Action) -> bool {
    !(a is SendKeyboard) && !(a is SendConsumer)
}

/// A key press replayed through the consumer report at index `i`: the press
/// of the given keys, the hold, then the release.
pub open spec fn consumer_tap_at(acts: Seq<Action>, i: int, globe: bool, voice: bool) -> bool {
    &&& 0 <= i && i + 2 < acts.len()
    &&& acts[i] matches Action::SendConsumer(r) && encodes_consumer(r@[0], globe, voice)
    &&& acts[i + 1] == Action::Wait(REPLAY_HOLD_MS)
    &&& acts[i + 2] matches Action::SendConsumer(z) && encodes_consumer(z@[0], false, false)
}

/// A press of Enter replayed through the keyboard report at index `i`: the
/// press, the hold, then the release.
pub open spec fn keyboard_tap_at(acts: Seq<Action>, i: int) -> bool {
    &&& 0 <= i && i + 2 < acts.len()
    &&& acts[i] matches Action::SendKeyboard(r) && encodes_keyboard(r@, true)
    &&& acts[i + 1] == Action::Wait(REPLAY_HOLD_MS)
    &&& acts[i + 2] matches Action::SendKeyboard(z) && encodes_keyboard(z@, false)
}

proof fn lemma_replay_split(c: Controller, s: Sample, w: Keys) -> (parts: (Seq<Action>, Seq<Action>))
    requires
        c.wakeup_pending == Some(w),
        spec_step(c, s).0.wakeup_pending is None,
    ensures
        s.link == MachineState::Connected,
        spec_step(c, s).1 == parts.0 + (replay_actions(w) + parts.1),
        all_actions(parts.0, |a: Action| no_report(a)),
        all_actions(parts.1, |a: Action| report_shows(a, s.keys)),
{
    let c1 = phase_activity(phase_sync(c, s), s);
    let led = phase_led(c1, s);
    let pair = phase_pairing(led.0, s);
    let power = phase_display_power(pair.0, s);
    let draw = phase_draw(power.0, s);
    let hid = phase_hid(draw.0, s);
    assert(!c.stopped);
    assert(!sleep_due(led.0, s.now_ms));
    assert(draw.0.state == MachineState::Connected);
    let rep = phase_replay(draw.0, s);
    let k = phase_reports(rep.0, s);
    assert(draw.0.wakeup_pending == Some(w));
    let pre = led.1 + pair.1 + power.1 + draw.1;
    let p = |a: Action| no_report(a);
    assert(all_actions(led.1, p));
    assert(all_actions(pair.1, p));
    assert(all_actions(power.1, p));
    assert(all_actions(draw.1, p));
    lemma_all_actions_concat(led.1, pair.1, p);
    lemma_all_actions_concat(led.1 + pair.1, power.1, p);
    lemma_all_actions_concat(led.1 + pair.1 + power.1, draw.1, p);
    assert(rep.1 == replay_actions(w));
    assert(hid.1 == rep.1 + k.1);
    lemma_reports_phase_shows_keys(rep.0, s);
    (pre, k.1)
}

proof fn lemma_taps_in(pre: Seq<Action>, w: Keys, rest: Seq<Action>)
    requires
        all_actions(pre, |a: Action| no_report(a)),
    ensures
        w.enter ==> exists|i: int|
            keyboard_tap_at(pre + (replay_actions(w) + rest), i) && forall|j: int|
                0 <= j < i ==> !(#[trigger] (pre + (replay_actions(w) + rest))[j] is SendKeyboard),
        (w.globe || w.voice) ==> exists|i: int|
            consumer_tap_at(pre + (replay_actions(w) + rest), i, w.globe, w.voice) && forall|j: int|
                0 <= j < i ==> !(#[trigger] (pre + (replay_actions(w) + rest))[j] is SendConsumer),
{
    let acts = pre + (replay_actions(w) + rest);
    let n = pre.len() as int;
    let kb_part: Seq<Action> = if w.enter {
        seq![
            Action::SendKeyboard(keyboard_report(true)),
            Action::Wait(REPLAY_HOLD_MS),
            Action::SendKeyboard(keyboard_report(false)),
        ]
    } else {
        Seq::empty()
    };
    let cons_part: Seq<Action> = if w.globe || w.voice {
        seq![
            Action::SendConsumer(consumer_report(w.globe, w.voice)),
            Action::Wait(REPLAY_HOLD_MS),
            Action::SendConsumer(consumer_report(false, false)),
        ]
    } else {
        Seq::empty()
    };
    assert(replay_actions(w) == kb_part + cons_part);
    assert(acts =~= pre + (kb_part + (cons_part + rest)));
    assert forall|j: int| 0 <= j < n implies !(#[trigger] acts[j] is SendKeyboard) && !(
    acts[j] is SendConsumer) by {
        assert(acts[j] == pre[j]);
        assert(no_report(pre[j]));
    }
    if w.enter {
        let kt = keyboard_report(true);
        let kf = keyboard_report(false);
        assert(kt@[2] == KEY_ENTER);
        assert(kf@[2] == 0u8);
        assert(acts[n] == Action::SendKeyboard(kt));
        assert(acts[n + 1] == Action::Wait(REPLAY_HOLD_MS));
        assert(acts[n + 2] == Action::SendKeyboard(kf));
        assert(keyboard_tap_at(acts, n));
    }
    if w.globe || w.voice {
        let m = n + kb_part.len();
        lemma_consumer_bits_layout(w.globe, w.voice);
        lemma_consumer_bits_layout(false, false);
        assert(acts[m] == Action::SendConsumer(consumer_report(w.globe, w.voice)));
        assert(acts[m + 1] == Action::Wait(REPLAY_HOLD_MS));
        assert(acts[m + 2] == Action::SendConsumer(consumer_report(false, false)));
        assert(consumer_tap_at(acts, m, w.globe, w.voice));
        assert forall|j: int| 0 <= j < m implies !(#[trigger] acts[j] is SendConsumer) by {
            if j >= n {
                assert(acts[j] == kb_part[j - n]);
            }
        }
    }
}

/// When the key that woke the chip is replayed, the first keyboard report
/// of the poll is a tap of Enter if Enter woke it, and the first consumer
/// report is a tap of exactly the consumer keys that woke it (Globe in
/// bit 1, Voice in bit 0); the replay happens only while connected.
pub proof fn lemma_replay_taps_the_wake_keys(c: Controller, s: Sample, w: Keys)
    requires
        c.wakeup_pending == Some(w),
        spec_step(c, s).0.wakeup_pending is None,
    ensures
        s.link == MachineState::Connected,
        w.enter ==> exists|i: int|
            keyboard_tap_at(spec_step(c, s).1, i) && forall|j: int|
                0 <= j < i ==> !(#[trigger] spec_step(c, s).1[j] is SendKeyboard),
        (w.globe || w.voice) ==> exists|i: int|
            consumer_tap_at(spec_step(c, s).1, i, w.globe, w.voice) && forall|j: int|
                0 <= j < i ==> !(#[trigger] spec_step(c, s).1[j] is SendConsumer),
{
    let parts = lemma_replay_split(c, s, w);
    lemma_taps_in(parts.0, w, parts.1);
}


/// A step's actions with the phases that produced them: either the LED
/// phase followed by deep sleep, or the LED, pairing, display-power, redraw
/// and HID phases in turn.
proof fn lemma_step_segments(c: Controller, s: Sample, p: spec_fn(Action) -> bool)
    requires
        !c.stopped,
        all_actions(phase_led(phase_activity(phase_sync(c, s), s), s).1, p),
        all_actions(sleep_actions(), p),
        !sleep_due(phase_led(phase_activity(phase_sync(c, s), s), s).0, s.now_ms) ==> {
            let led = phase_led(phase_activity(phase_sync(c, s), s), s);
            let pair = phase_pairing(led.0, s);
            let power = phase_display_power(pair.0, s);
            let draw = phase_draw(power.0, s);
            &&& all_actions(pair.1, p)
            &&& all_actions(power.1, p)
            &&& all_actions(draw.1, p)
            &&& all_actions(phase_hid(draw.0, s).1, p)
        },
    ensures
        all_actions(spec_step(c, s).1, p),
{
    let led = phase_led(phase_activity(phase_sync(c, s), s), s);
    if sleep_due(led.0, s.now_ms) {
        lemma_all_actions_concat(led.1, sleep_actions(), p);
    } else {
        let pair = phase_pairing(led.0, s);
        let power = phase_display_power(pair.0, s);
        let draw = phase_draw(power.0, s);
        let hid = phase_hid(draw.0, s);
        lemma_all_actions_concat(led.1, pair.1, p);
        lemma_all_actions_concat(led.1 + pair.1, power.1, p);
        lemma_all_actions_concat(led.1 + pair.1 + power.1, draw.1, p);
        lemma_all_actions_concat(led.1 + pair.1 + power.1 + draw.1, hid.1, p);
    }
}

proof fn lemma_hid_phase_only_reports_and_waits(c: Controller, s: Sample)
    ensures
        all_actions(phase_hid(c, s).1, |a: Action| a is SendKeyboard || a is SendConsumer || a is Wait),
{
    let p = |a: Action| a is SendKeyboard || a is SendConsumer || a is Wait;
    if c.state == MachineState::Connected {
        let rep = phase_replay(c, s);
        let k = phase_reports(rep.0, s);
        assert(all_actions(rep.1, p)) by {
            if rep.1.len() > 0 {
                let w = c.wakeup_pending->0;
                assert(rep.1 == replay_actions(w));
            }
        }
        assert(all_actions(k.1, p));
        lemma_all_actions_concat(rep.1, k.1, p);
    }
}

/// Bonds are cleared only when Globe and Enter are both held, had already
/// been held together since a poll at least the pairing hold time earlier,
/// and the keyboard is not already pairing.
pub proof fn lemma_bonds_cleared_only_by_held_chord(c: Controller, s: Sample)
    ensures
        spec_step(c, s).1.contains(Action::ClearBonds) ==> {
            &&& !c.stopped
            &&& s.keys.globe
            &&& s.keys.enter
            &&& s.link != MachineState::Pairing
            &&& c.hold_start_ms matches Some(start) && since(s.now_ms, start) >= PAIRING_HOLD_MS
        },
{
    let chord_due = !c.stopped && s.keys.globe && s.keys.enter && s.link != MachineState::Pairing
        && (c.hold_start_ms matches Some(start) && since(s.now_ms, start) >= PAIRING_HOLD_MS);
    if !chord_due && !c.stopped {
        let p = |a: Action| a != Action::ClearBonds;
        let led = phase_led(phase_activity(phase_sync(c, s), s), s);
        let pair = phase_pairing(led.0, s);
        let power = phase_display_power(pair.0, s);
        let draw = phase_draw(power.0, s);
        assert(all_actions(led.1, p));
        assert(all_actions(sleep_actions(), p));
        assert(pair.1 =~= Seq::<Action>::empty());
        assert(all_actions(pair.1, p));
        assert(all_actions(power.1, p));
        assert(all_actions(draw.1, p));
        lemma_hid_phase_only_reports_and_waits(draw.0, s);
        let h = phase_hid(draw.0, s).1;
        assert forall|i: int| 0 <= i < h.len() implies p(#[trigger] h[i]) by {
            assert(h[i] is SendKeyboard || h[i] is SendConsumer || h[i] is Wait);
        }
        lemma_step_segments(c, s, p);
        let acts = spec_step(c, s).1;
        if acts.contains(Action::ClearBonds) {
            let i = choose|i: int| 0 <= i < acts.len() && acts[i] == Action::ClearBonds;
            assert(p(acts[i]));
        }
    }
}

/// The frame a drawing action shows.
pub open spec fn frame_shows(a: Action, s: Sample, reconnecting: bool, blink_bright: bool) -> bool {
    match a {
        Action::Draw(f) => {
            &&& f.keys == s.keys
            &&& match s.link {
                MachineState::Idle => f.status == (if reconnecting {
                    StatusText::Reconnecting
                } else {
                    StatusText::Idle
                }),
                MachineState::Pairing => f.status == (if blink_bright {
                    StatusText::PairingBright
                } else {
                    StatusText::PairingDim
                }),
                MachineState::Connected => f.status == StatusText::Connected,
            }
        },
        _ => true,
    }
}

/// Every frame a poll draws shows exactly the keys held at that poll, and
/// the status of the link recorded at that poll: IDLE, or RECONNECTING...
/// while a wake-up key waits to be replayed; the pairing text, bright in
/// the first half of each second since boot-up; CONNECTED.
pub proof fn lemma_frames_show_poll(c: Controller, s: Sample)
    requires
        !c.stopped,
    ensures
        all_actions(
            spec_step(c, s).1,
            |a: Action|
                frame_shows(
                    a,
                    s,
                    c.wakeup_pending is Some,
                    since(s.now_ms, c.blink_start_ms) % 1000 < 500,
                ),
        ),
{
    let p = |a: Action|
        frame_shows(a, s, c.wakeup_pending is Some, since(s.now_ms, c.blink_start_ms) % 1000 < 500);
    let led = phase_led(phase_activity(phase_sync(c, s), s), s);
    assert(all_actions(led.1, p));
    assert(all_actions(sleep_actions(), p));
    let pair = phase_pairing(led.0, s);
    let power = phase_display_power(pair.0, s);
    let draw = phase_draw(power.0, s);
    assert(all_actions(pair.1, p));
    assert(all_actions(power.1, p));
    assert(power.0.state == s.link);
    assert(power.0.wakeup_pending == c.wakeup_pending);
    assert(power.0.blink_start_ms == c.blink_start_ms);
    assert(all_actions(draw.1, p));
    lemma_hid_phase_only_reports_and_waits(draw.0, s);
    let h = phase_hid(draw.0, s).1;
    assert forall|i: int| 0 <= i < h.len() implies p(#[trigger] h[i]) by {
        assert(h[i] is SendKeyboard || h[i] is SendConsumer || h[i] is Wait);
    }
    lemma_step_segments(c, s, p);
}

/// An LED action that turns the LED off.
pub open spec fn led_dark(a: Action) -> bool {
    match a {
        Action::SetLed(col) => col == Rgb { r: 0, g: 0, b: 0 },
        _ => true,
    }
}

/// No key-press flash runs at this poll: no key went down at this poll and
/// the last flash, if any, has ended.
pub open spec fn no_flash(c: Controller, s: Sample) -> bool {
    &&& !(s.keys.spec_any() && !c.prev_any_key)
    &&& c.key_flash_until_ms matches Some(until) ==> s.now_ms >= until
}

/// Outside a key-press flash and outside pairing the LED is off: every LED
/// action of the poll turns it off and it is left off.
pub proof fn lemma_led_dark_unless_flash_or_pairing(c: Controller, s: Sample)
    requires
        !c.stopped,
        s.link != MachineState::Pairing,
        no_flash(c, s),
    ensures
        spec_step(c, s).0.last_led == (Rgb { r: 0, g: 0, b: 0 }),
        all_actions(spec_step(c, s).1, |a: Action| led_dark(a)),
{
    let p = |a: Action| led_dark(a);
    let led = phase_led(phase_activity(phase_sync(c, s), s), s);
    assert(all_actions(led.1, p));
    assert(all_actions(sleep_actions(), p));
    let pair = phase_pairing(led.0, s);
    let power = phase_display_power(pair.0, s);
    let draw = phase_draw(power.0, s);
    assert(all_actions(pair.1, p));
    assert(all_actions(power.1, p));
    assert(all_actions(draw.1, p));
    lemma_hid_phase_only_reports_and_waits(draw.0, s);
    let h = phase_hid(draw.0, s).1;
    assert forall|i: int| 0 <= i < h.len() implies p(#[trigger] h[i]) by {
        assert(h[i] is SendKeyboard || h[i] is SendConsumer || h[i] is Wait);
    }
    lemma_step_segments(c, s, p);
}

/// While pairing and outside a key-press flash, the first action of every
/// poll writes the blue heartbeat to the LED: red and green off, blue at
/// most the heartbeat peak.
pub proof fn lemma_pairing_writes_blue_heartbeat(c: Controller, s: Sample)
    requires
        !c.stopped,
        s.link == MachineState::Pairing,
        no_flash(c, s),
    ensures
        spec_step(c, s).1.len() > 0,
        spec_step(c, s).1[0] matches Action::SetLed(col) && col.r == 0 && col.g == 0 && col.b
            <= LED_PAIRING_BLUE && col == spec_step(c, s).0.last_led,
{
    let c1 = phase_activity(phase_sync(c, s), s);
    let led = phase_led(c1, s);
    crate::led::lemma_heartbeat_bounded(since(s.now_ms, c1.blink_start_ms) as int);
    assert(led.1.len() == 1);
    let pair = phase_pairing(led.0, s);
    let power = phase_display_power(pair.0, s);
    let draw = phase_draw(power.0, s);
    let hid = phase_hid(draw.0, s);
    let acts = spec_step(c, s).1;
    assert(acts == led.1 + pair.1 + power.1 + draw.1 + hid.1);
    assert(acts[0] == led.1[0]);
}


/// On the poll that replays the wake-up key, every HID report sent is the
/// press of the wake-up keys, a release, or the report of the keys held at
/// that poll; nothing else reaches the host.
pub proof fn lemma_replay_poll_reports(c: Controller, s: Sample, w: Keys)
    requires
        c.wakeup_pending == Some(w),
        spec_step(c, s).0.wakeup_pending is None,
    ensures
        all_actions(
            spec_step(c, s).1,
            |a: Action|
                report_shows(a, s.keys) || report_shows(a, w) || report_shows(
                    a,
                    Keys { globe: false, voice: false, enter: false },
                ),
        ),
{
    let none = Keys { globe: false, voice: false, enter: false };
    let p = |a: Action| report_shows(a, s.keys) || report_shows(a, w) || report_shows(a, none);
    let parts = lemma_replay_split(c, s, w);
    assert(all_actions(parts.0, p)) by {
        assert forall|i: int| 0 <= i < parts.0.len() implies p(#[trigger] parts.0[i]) by {
            assert(no_report(parts.0[i]));
        }
    }
    lemma_consumer_bits_layout(w.globe, w.voice);
    lemma_consumer_bits_layout(false, false);
    let r = replay_actions(w);
    assert(keyboard_report(true)@[2] == KEY_ENTER);
    assert(keyboard_report(false)@[2] == 0u8);
    assert(all_actions(r, p)) by {
        assert forall|i: int| 0 <= i < r.len() implies p(#[trigger] r[i]) by {
        }
    }
    assert(all_actions(parts.1, p)) by {
        assert forall|i: int| 0 <= i < parts.1.len() implies p(#[trigger] parts.1[i]) by {
            assert(report_shows(parts.1[i], s.keys));
        }
    }
    lemma_all_actions_concat(r, parts.1, p);
    lemma_all_actions_concat(parts.0, r + parts.1, p);
}

} // verus!
