//! Properties of the controller that hold across all inputs and across
//! successive polls.
use vstd::prelude::*;

use crate::controller::{
    led_color, phase_activity, phase_display_power, phase_draw, phase_hid, phase_led,
    phase_pairing, phase_replay, phase_reports, phase_sync, since, sleep_actions, sleep_due,
    spec_step, Action, Controller, MachineState, Sample, DISPLAY_TIMEOUT_MS,
    INACTIVITY_TIMEOUT_MS, KEY_FLASH_MS, PAIRING_HOLD_MS, WAKE_REPLAY_DELAY_MS,
};
use crate::hid::{consumer_report, keyboard_report};
use crate::led::{key_white, Rgb};

verus! {

/// A HID report notification.
pub open spec fn is_report(a: Action) -> bool {
    a is SendKeyboard || a is SendConsumer
}

/// No action of the sequence notifies a HID report.
pub open spec fn no_reports(actions: Seq<Action>) -> bool {
    forall|i: int| 0 <= i < actions.len() ==> !is_report(#[trigger] actions[i])
}

proof fn lemma_no_reports_concat(a: Seq<Action>, b: Seq<Action>)
    requires
        no_reports(a),
        no_reports(b),
    ensures
        no_reports(a + b),
{
    assert forall|i: int| 0 <= i < (a + b).len() implies !is_report(#[trigger] (a + b)[i]) by {
        if i < a.len() {
            assert((a + b)[i] == a[i]);
        } else {
            assert((a + b)[i] == b[i - a.len()]);
        }
    }
}

/// A stopped controller (asleep or halted) does nothing more: every poll
/// leaves it unchanged and asks for no action.
pub proof fn lemma_stopped_is_final(c: Controller, s: Sample)
    requires
        c.stopped,
    ensures
        spec_step(c, s).0 == c,
        spec_step(c, s).1 == Seq::<Action>::empty(),
{
}

/// After the fault handler has run, no poll changes the controller or asks
/// for any action.
pub proof fn lemma_panic_halts(c: Controller, s: Sample)
    ensures
        spec_step(Controller { stopped: true, ..c }, s).0 == (Controller { stopped: true, ..c }),
        spec_step(Controller { stopped: true, ..c }, s).1 == Seq::<Action>::empty(),
{
}

/// Every poll of a running controller adopts the link state that the
/// Bluetooth callbacks recorded.
pub proof fn lemma_link_state_adopted(c: Controller, s: Sample)
    requires
        !c.stopped,
    ensures
        spec_step(c, s).0.state == s.link,
{
}

/// Holding any key counts as activity at the time of the poll.
pub proof fn lemma_key_is_activity(c: Controller, s: Sample)
    requires
        !c.stopped,
        s.keys.spec_any(),
    ensures
        spec_step(c, s).0.last_activity_ms == s.now_ms,
        !spec_step(c, s).0.stopped,
{
}

/// Deep sleep is entered exactly when the keyboard is Idle (neither
/// connected nor pairing), no key is held, and no key has been held for the
/// inactivity timeout; the step then ends by blanking the outputs and
/// arming the wake-up on all three keys.
pub proof fn lemma_deep_sleep_only_when_idle_and_inactive(c: Controller, s: Sample)
    requires
        !c.stopped,
    ensures
        spec_step(c, s).0.stopped == (s.link == MachineState::Idle && !s.keys.spec_any() && since(
            s.now_ms,
            c.last_activity_ms,
        ) >= INACTIVITY_TIMEOUT_MS),
        spec_step(c, s).0.stopped ==> spec_step(c, s).1.last() == Action::DeepSleep(0x3800u64),
{
    let c1 = phase_activity(phase_sync(c, s), s);
    let led = phase_led(c1, s);
    if sleep_due(led.0, s.now_ms) {
        let acts = led.1 + sleep_actions();
        assert(acts.last() == sleep_actions().last());
    }
}

/// The LED always shows the colour the priority rule gives: the white
/// key-press flash, else the pairing heartbeat, else off.
pub proof fn lemma_led_follows_priority(c: Controller, s: Sample)
    requires
        !c.stopped,
    ensures
        spec_step(c, s).0.last_led == led_color(phase_activity(phase_sync(c, s), s), s.now_ms),
{
}

/// The poll on which the first key goes down lights the LED white.
pub proof fn lemma_key_press_flashes_white(c: Controller, s: Sample)
    requires
        !c.stopped,
        s.keys.spec_any(),
        !c.prev_any_key,
        s.now_ms + KEY_FLASH_MS <= u64::MAX,
    ensures
        spec_step(c, s).0.last_led == key_white(),
        spec_step(c, s).0.last_led == (Rgb { r: 48, g: 48, b: 48 }),
{
}

/// The display is lit after a poll exactly when the keyboard is pairing or
/// a key has been held within the display timeout.
pub proof fn lemma_display_follows_activity(c: Controller, s: Sample)
    requires
        !c.stopped,
        !spec_step(c, s).0.stopped,
    ensures
        spec_step(c, s).0.display_on == (s.link == MachineState::Pairing || s.keys.spec_any()
            || since(s.now_ms, c.last_activity_ms) < DISPLAY_TIMEOUT_MS),
{
}

/// Releasing either key of the pairing chord restarts the hold count.
pub proof fn lemma_release_resets_pairing_hold(c: Controller, s: Sample)
    requires
        !c.stopped,
        !s.keys.spec_pairing_chord(),
        !spec_step(c, s).0.stopped,
    ensures
        spec_step(c, s).0.hold_start_ms is None,
{
}

/// Holding Globe + Enter for the hold time while not pairing clears the
/// bonds, starts advertising and records the Pairing state.
pub proof fn lemma_pairing_chord_enters_pairing(c: Controller, s: Sample, start: u64)
    requires
        !c.stopped,
        c.hold_start_ms == Some(start),
        s.keys.spec_pairing_chord(),
        since(s.now_ms, start) >= PAIRING_HOLD_MS,
        s.link != MachineState::Pairing,
    ensures
        spec_step(c, s).1.contains(Action::ClearBonds),
        spec_step(c, s).1.contains(Action::StartAdvertising),
        spec_step(c, s).1.contains(Action::SetLinkState(MachineState::Pairing)),
{
    let c1 = phase_activity(phase_sync(c, s), s);
    let led = phase_led(c1, s);
    let pair = phase_pairing(led.0, s);
    let power = phase_display_power(pair.0, s);
    let draw = phase_draw(power.0, s);
    let hid = phase_hid(draw.0, s);
    let acts = led.1 + pair.1 + power.1 + draw.1 + hid.1;
    assert(!sleep_due(led.0, s.now_ms));
    let n = led.1.len() as int;
    assert(acts[n] == Action::ClearBonds);
    assert(acts[n + 1] == Action::StartAdvertising);
    assert(acts[n + 2] == Action::SetLinkState(MachineState::Pairing));
}

/// While connected, the last reports the host received are those of the
/// keys held at this poll.
pub proof fn lemma_reports_mirror_keys(c: Controller, s: Sample)
    requires
        !c.stopped,
        s.link == MachineState::Connected,
    ensures
        spec_step(c, s).0.last_kb_report@ == keyboard_report(s.keys.enter)@,
        spec_step(c, s).0.last_cons_report@ == consumer_report(s.keys.globe, s.keys.voice)@,
{
}

/// The wake-up key is replayed at most once: once it is gone it never
/// comes back, and it goes only on a connected poll at least the replay
/// delay after the connection was made.
pub proof fn lemma_wakeup_replayed_once(c: Controller, s: Sample)
    ensures
        c.wakeup_pending is None ==> spec_step(c, s).0.wakeup_pending is None,
        (c.wakeup_pending is Some && spec_step(c, s).0.wakeup_pending is None) ==> {
            &&& s.link == MachineState::Connected
            &&& spec_step(c, s).0.connect_time_ms matches Some(ct) && since(s.now_ms, ct)
                >= WAKE_REPLAY_DELAY_MS
        },
{
}

proof fn lemma_phase_led_no_reports(c: Controller, s: Sample)
    ensures
        no_reports(phase_led(c, s).1),
{
}

/// Reports are sent only when they change: a second poll with the same
/// keys, still connected and with no wake-up key left to replay, sends no
/// HID report.
pub proof fn lemma_unchanged_keys_send_nothing(c: Controller, s1: Sample, s2: Sample)
    requires
        !c.stopped,
        s1.link == MachineState::Connected,
        s2.link == MachineState::Connected,
        s1.keys == s2.keys,
        spec_step(c, s1).0.wakeup_pending is None,
    ensures
        no_reports(spec_step(spec_step(c, s1).0, s2).1),
{
    let d = spec_step(c, s1).0;
    lemma_link_state_adopted(c, s1);
    lemma_reports_mirror_keys(c, s1);
    let c1 = phase_activity(phase_sync(d, s2), s2);
    let led = phase_led(c1, s2);
    let pair = phase_pairing(led.0, s2);
    let power = phase_display_power(pair.0, s2);
    let draw = phase_draw(power.0, s2);
    let rep = phase_replay(draw.0, s2);
    let k = phase_reports(rep.0, s2);
    assert(!sleep_due(led.0, s2.now_ms));
    assert(k.1 =~= Seq::<Action>::empty());
    lemma_phase_led_no_reports(c1, s2);
    assert(no_reports(pair.1));
    assert(no_reports(power.1));
    assert(no_reports(draw.1));
    assert(rep.1 =~= Seq::<Action>::empty());
    let hid = phase_hid(draw.0, s2);
    assert(hid.1 =~= Seq::<Action>::empty());
    lemma_no_reports_concat(led.1, pair.1);
    lemma_no_reports_concat(led.1 + pair.1, power.1);
    lemma_no_reports_concat(led.1 + pair.1 + power.1, draw.1);
    lemma_no_reports_concat(led.1 + pair.1 + power.1 + draw.1, hid.1);
}

} // verus!
