use rusty_balcon::controller::{
    link_state_after, Action, Controller, LinkEvent, MachineState, Sample,
};
use rusty_balcon::display::{Frame, StatusText};
use rusty_balcon::keys::Keys;
use rusty_balcon::led::Rgb;

const NONE: Keys = Keys { globe: false, voice: false, enter: false };
const ENTER: Keys = Keys { globe: false, voice: false, enter: true };
const GLOBE: Keys = Keys { globe: true, voice: false, enter: false };
const CHORD: Keys = Keys { globe: true, voice: false, enter: true };

fn sample(now_ms: u64, keys: Keys, link: MachineState) -> Sample {
    Sample { now_ms, keys, link }
}

fn has_deep_sleep(actions: &[Action]) -> bool {
    actions.iter().any(|a| matches!(a, Action::DeepSleep(_)))
}

fn reports(actions: &[Action]) -> Vec<Action> {
    actions
        .iter()
        .copied()
        .filter(|a| matches!(a, Action::SendKeyboard(_) | Action::SendConsumer(_)))
        .collect()
}

#[test]
fn first_poll_draws_idle_screen() {
    let mut c = Controller::new(1000, None);
    let actions = c.step(sample(1000, NONE, MachineState::Idle));
    assert_eq!(
        actions,
        vec![Action::Draw(Frame { status: StatusText::Idle, keys: NONE })]
    );
    let again = c.step(sample(1010, NONE, MachineState::Idle));
    assert!(again.is_empty());
}

#[test]
fn idle_sleeps_after_thirty_minutes() {
    let mut c = Controller::new(0, None);
    c.step(sample(0, NONE, MachineState::Idle));
    let five_min = c.step(sample(300_000, NONE, MachineState::Idle));
    assert!(!has_deep_sleep(&five_min));
    let almost = c.step(sample(1_799_999, NONE, MachineState::Idle));
    assert!(!has_deep_sleep(&almost));
    let due = c.step(sample(1_800_000, NONE, MachineState::Idle));
    assert_eq!(
        &due[due.len() - 4..],
        &[
            Action::SetLed(Rgb { r: 0, g: 0, b: 0 }),
            Action::ClearDisplay,
            Action::Wait(100),
            Action::DeepSleep(0x3800),
        ]
    );
    assert!(c.stopped);
    assert!(c.step(sample(1_800_010, ENTER, MachineState::Idle)).is_empty());
}

#[test]
fn connected_or_pairing_never_sleeps() {
    let mut c = Controller::new(0, None);
    c.step(sample(0, NONE, MachineState::Connected));
    let late = c.step(sample(7_200_000, NONE, MachineState::Connected));
    assert!(!has_deep_sleep(&late));
    let mut p = Controller::new(0, None);
    p.step(sample(0, NONE, MachineState::Pairing));
    let late = p.step(sample(7_200_000, NONE, MachineState::Pairing));
    assert!(!has_deep_sleep(&late));
    assert!(!p.stopped);
}

#[test]
fn key_activity_postpones_sleep() {
    let mut c = Controller::new(0, None);
    c.step(sample(1_000_000, GLOBE, MachineState::Idle));
    let a = c.step(sample(2_700_000, NONE, MachineState::Idle));
    assert!(!has_deep_sleep(&a));
    let b = c.step(sample(2_800_000, NONE, MachineState::Idle));
    assert!(has_deep_sleep(&b));
}

#[test]
fn pairing_chord_held_five_seconds() {
    let mut c = Controller::new(0, None);
    let first = c.step(sample(1000, CHORD, MachineState::Idle));
    assert!(!first.contains(&Action::ClearBonds));
    assert_eq!(c.hold_start_ms, Some(1000));
    let early = c.step(sample(5999, CHORD, MachineState::Idle));
    assert!(!early.contains(&Action::ClearBonds));
    let due = c.step(sample(6000, CHORD, MachineState::Idle));
    let pos = due.iter().position(|a| *a == Action::ClearBonds).unwrap();
    assert_eq!(
        &due[pos..pos + 3],
        &[
            Action::ClearBonds,
            Action::StartAdvertising,
            Action::SetLinkState(MachineState::Pairing)
        ]
    );
    // The Bluetooth side now records Pairing; holding on does not repeat it.
    let next = c.step(sample(6010, CHORD, MachineState::Pairing));
    assert!(!next.contains(&Action::ClearBonds));
    assert_eq!(c.state, MachineState::Pairing);
}

#[test]
fn releasing_chord_restarts_hold() {
    let mut c = Controller::new(0, None);
    c.step(sample(1000, CHORD, MachineState::Idle));
    c.step(sample(4000, ENTER, MachineState::Idle));
    assert_eq!(c.hold_start_ms, None);
    c.step(sample(4010, CHORD, MachineState::Idle));
    let a = c.step(sample(6000, CHORD, MachineState::Idle));
    assert!(!a.contains(&Action::ClearBonds));
    let b = c.step(sample(9010, CHORD, MachineState::Idle));
    assert!(b.contains(&Action::ClearBonds));
}

#[test]
fn key_press_flashes_white_for_80_ms() {
    let mut c = Controller::new(0, None);
    c.step(sample(0, NONE, MachineState::Idle));
    let press = c.step(sample(100, GLOBE, MachineState::Idle));
    assert_eq!(press[0], Action::SetLed(Rgb { r: 48, g: 48, b: 48 }));
    let held = c.step(sample(179, GLOBE, MachineState::Idle));
    assert!(!held.iter().any(|a| matches!(a, Action::SetLed(_))));
    let over = c.step(sample(180, GLOBE, MachineState::Idle));
    assert_eq!(over[0], Action::SetLed(Rgb { r: 0, g: 0, b: 0 }));
    assert_eq!(c.key_flash_until_ms, None);
}

#[test]
fn pairing_heartbeat_written_every_poll() {
    let mut c = Controller::new(0, None);
    let a = c.step(sample(75, NONE, MachineState::Pairing));
    assert_eq!(a[0], Action::SetLed(Rgb { r: 0, g: 0, b: 40 }));
    let b = c.step(sample(200, NONE, MachineState::Pairing));
    assert_eq!(b[0], Action::SetLed(Rgb { r: 0, g: 0, b: 0 }));
    let d = c.step(sample(210, NONE, MachineState::Pairing));
    assert_eq!(d[0], Action::SetLed(Rgb { r: 0, g: 0, b: 0 }));
    let e = c.step(sample(1510, NONE, MachineState::Pairing));
    assert_eq!(e[0], Action::SetLed(Rgb { r: 0, g: 0, b: 28 }));
}

#[test]
fn pairing_text_blinks() {
    let mut c = Controller::new(0, None);
    let a = c.step(sample(100, NONE, MachineState::Pairing));
    assert!(a.contains(&Action::Draw(Frame { status: StatusText::PairingBright, keys: NONE })));
    let b = c.step(sample(600, NONE, MachineState::Pairing));
    assert!(b.contains(&Action::Draw(Frame { status: StatusText::PairingDim, keys: NONE })));
    let same = c.step(sample(700, NONE, MachineState::Pairing));
    assert!(!same.iter().any(|x| matches!(x, Action::Draw(_))));
}

#[test]
fn display_blanks_after_thirty_seconds() {
    let mut c = Controller::new(0, None);
    c.step(sample(0, NONE, MachineState::Idle));
    let before = c.step(sample(29_999, NONE, MachineState::Idle));
    assert!(before.is_empty());
    let off = c.step(sample(30_000, NONE, MachineState::Idle));
    assert_eq!(off, vec![Action::SetContrast(0), Action::ClearDisplay]);
    assert!(!c.display_on);
    let key = c.step(sample(40_000, ENTER, MachineState::Idle));
    assert!(key.contains(&Action::SetContrast(0x10)));
    assert!(key.contains(&Action::Draw(Frame { status: StatusText::Idle, keys: ENTER })));
    assert!(c.display_on);
}

#[test]
fn connected_stays_awake_with_display_off() {
    let mut c = Controller::new(0, None);
    c.step(sample(0, NONE, MachineState::Connected));
    c.step(sample(60_000, NONE, MachineState::Connected));
    assert!(!c.display_on);
    assert!(!c.stopped);
    let press = c.step(sample(3_600_000, ENTER, MachineState::Connected));
    assert!(press.contains(&Action::SendKeyboard([0, 0, 0x28, 0, 0, 0, 0, 0])));
}

#[test]
fn reports_sent_on_change_only() {
    let mut c = Controller::new(0, None);
    let connect = c.step(sample(0, NONE, MachineState::Connected));
    assert!(reports(&connect).is_empty());
    let press = c.step(sample(10, ENTER, MachineState::Connected));
    assert_eq!(reports(&press), vec![Action::SendKeyboard([0, 0, 0x28, 0, 0, 0, 0, 0])]);
    let held = c.step(sample(20, ENTER, MachineState::Connected));
    assert!(reports(&held).is_empty());
    let release = c.step(sample(30, NONE, MachineState::Connected));
    assert_eq!(reports(&release), vec![Action::SendKeyboard([0; 8])]);
    let both = c.step(sample(40, Keys { globe: true, voice: true, enter: false }, MachineState::Connected));
    assert_eq!(reports(&both), vec![Action::SendConsumer([0b11])]);
    let up = c.step(sample(50, NONE, MachineState::Connected));
    assert_eq!(reports(&up), vec![Action::SendConsumer([0])]);
}

#[test]
fn no_reports_while_not_connected() {
    let mut c = Controller::new(0, None);
    let a = c.step(sample(0, ENTER, MachineState::Idle));
    assert!(reports(&a).is_empty());
    let b = c.step(sample(10, GLOBE, MachineState::Pairing));
    assert!(reports(&b).is_empty());
}

#[test]
fn wakeup_key_replayed_once_after_connection() {
    let wake = Some(ENTER);
    let mut c = Controller::new(0, wake);
    let idle = c.step(sample(0, NONE, MachineState::Idle));
    assert!(idle.contains(&Action::Draw(Frame { status: StatusText::Reconnecting, keys: NONE })));
    c.step(sample(100, NONE, MachineState::Connected));
    assert_eq!(c.connect_time_ms, Some(100));
    let early = c.step(sample(599, NONE, MachineState::Connected));
    assert!(reports(&early).is_empty());
    let due = c.step(sample(600, NONE, MachineState::Connected));
    assert_eq!(
        reports(&due),
        vec![
            Action::SendKeyboard([0, 0, 0x28, 0, 0, 0, 0, 0]),
            Action::SendKeyboard([0; 8]),
        ]
    );
    assert!(due.contains(&Action::Wait(50)));
    assert_eq!(c.wakeup_pending, None);
    let later = c.step(sample(1200, NONE, MachineState::Connected));
    assert!(reports(&later).is_empty());
}

#[test]
fn wakeup_consumer_keys_replayed() {
    let mut c = Controller::new(0, Some(Keys { globe: true, voice: true, enter: false }));
    c.step(sample(0, NONE, MachineState::Connected));
    let due = c.step(sample(500, NONE, MachineState::Connected));
    assert_eq!(
        due.iter().copied().filter(|a| !matches!(a, Action::Draw(_))).collect::<Vec<_>>(),
        vec![
            Action::SendConsumer([0b11]),
            Action::Wait(50),
            Action::SendConsumer([0]),
        ]
    );
}

#[test]
fn link_events_set_state() {
    assert_eq!(link_state_after(LinkEvent::Connected), MachineState::Connected);
    assert_eq!(link_state_after(LinkEvent::Disconnected), MachineState::Idle);
}

#[test]
fn panic_halts_controller() {
    let mut c = Controller::new(0, None);
    c.step(sample(0, NONE, MachineState::Idle));
    rusty_balcon::controller::panic(&mut c);
    assert!(c.stopped);
    assert!(c.step(sample(10, ENTER, MachineState::Connected)).is_empty());
    assert_eq!(c.state, MachineState::Idle);
}
