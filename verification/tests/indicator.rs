use presence_monitor::indicator::{icon_path, Indicator};
use presence_monitor::presence::PresenceState;

#[test]
fn a_fresh_indicator_shows_the_neutral_state() {
    let indicator = Indicator::new();
    assert_eq!(indicator.shown, PresenceState::Absent);
}

#[test]
fn emitting_present_twice_is_idempotent_and_errorless() {
    let mut indicator = Indicator::new();
    let first = indicator.set_indicator(PresenceState::Present);
    assert!(first.is_ok());
    assert_eq!(indicator.shown, PresenceState::Present);
    let second = indicator.set_indicator(PresenceState::Present);
    assert!(second.is_ok());
    assert_eq!(indicator.shown, PresenceState::Present);
}

#[test]
fn each_state_selects_its_icon_resource() {
    assert_eq!(icon_path(PresenceState::Present), "icons/connected.ico");
    assert_eq!(icon_path(PresenceState::Absent), "icons/disconnected.ico");
}
