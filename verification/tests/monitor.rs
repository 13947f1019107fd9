use presence_monitor::enumeration::EnumerationError;
use presence_monitor::monitor::{
    default_config, interval_for, next_state, Monitor, MonitorConfig, ABSENT_INTERVAL_MS,
    PRESENT_INTERVAL_MS,
};
use presence_monitor::presence::PresenceState;

#[test]
fn the_default_configuration_is_the_reference_deployment() {
    let config = default_config();
    assert_eq!(config.prefix, "HHKB-Hybrid_");
    assert_eq!(config.present_interval_ms, 10_000);
    assert_eq!(config.absent_interval_ms, 500);
    assert_eq!(PRESENT_INTERVAL_MS, 10_000);
    assert_eq!(ABSENT_INTERVAL_MS, 500);
}

#[test]
fn a_fresh_monitor_reports_absent() {
    let monitor = Monitor::new(default_config());
    assert_eq!(monitor.state, PresenceState::Absent);
}

#[test]
fn scenario_matching_device_present_long_interval() {
    let mut monitor = Monitor::new(default_config());
    let outcome = Ok(vec!["HHKB-Hybrid_ABC123".to_string()]);
    let interval = monitor.poll(&outcome);
    assert_eq!(monitor.state, PresenceState::Present);
    assert_eq!(interval, 10_000);
}

#[test]
fn scenario_other_devices_absent_short_interval() {
    let mut monitor = Monitor::new(default_config());
    let outcome = Ok(vec!["AirPods Pro".to_string(), "Mouse".to_string()]);
    let interval = monitor.poll(&outcome);
    assert_eq!(monitor.state, PresenceState::Absent);
    assert_eq!(interval, 500);
}

#[test]
fn scenario_no_devices_absent() {
    let mut monitor = Monitor::new(default_config());
    let outcome = Ok(vec![]);
    let interval = monitor.poll(&outcome);
    assert_eq!(monitor.state, PresenceState::Absent);
    assert_eq!(interval, 500);
}

#[test]
fn scenario_enumeration_failure_absent_and_the_loop_goes_on() {
    let mut monitor = Monitor::new(default_config());
    let interval = monitor.poll(&Err(EnumerationError));
    assert_eq!(monitor.state, PresenceState::Absent);
    assert_eq!(interval, 500);
    // The failure was absorbed: the next cycle still works and can recover.
    let outcome = Ok(vec!["HHKB-Hybrid_ABC123".to_string()]);
    let interval = monitor.poll(&outcome);
    assert_eq!(monitor.state, PresenceState::Present);
    assert_eq!(interval, 10_000);
}

#[test]
fn the_emitted_state_has_no_hysteresis() {
    // Two monitors in different states see the same enumeration outcome and
    // emit the same state; a repeated outcome repeats the emission.
    let mut was_present = Monitor::new(default_config());
    was_present.poll(&Ok(vec!["HHKB-Hybrid_ABC123".to_string()]));
    assert_eq!(was_present.state, PresenceState::Present);
    let mut was_absent = Monitor::new(default_config());

    let outcome = Ok(vec!["Mouse".to_string()]);
    was_present.poll(&outcome);
    was_absent.poll(&outcome);
    assert_eq!(was_present.state, was_absent.state);

    was_present.poll(&outcome);
    assert_eq!(was_present.state, was_absent.state);
}

#[test]
fn interval_selection_follows_the_configuration() {
    let config = MonitorConfig {
        prefix: "X".to_string(),
        present_interval_ms: 7,
        absent_interval_ms: 3,
    };
    assert_eq!(interval_for(PresenceState::Present, &config), 7);
    assert_eq!(interval_for(PresenceState::Absent, &config), 3);
    let reference = default_config();
    assert_eq!(interval_for(PresenceState::Present, &reference), 10_000);
    assert_eq!(interval_for(PresenceState::Absent, &reference), 500);
}

#[test]
fn next_state_decides_from_the_outcome_alone() {
    let present = next_state(&Ok(vec!["HHKB-Hybrid_9".to_string()]), "HHKB-Hybrid_");
    assert_eq!(present, PresenceState::Present);
    let absent = next_state(&Ok(vec!["Keyboard".to_string()]), "HHKB-Hybrid_");
    assert_eq!(absent, PresenceState::Absent);
    let failed = next_state(&Err(EnumerationError), "HHKB-Hybrid_");
    assert_eq!(failed, PresenceState::Absent);
}

#[test]
fn a_custom_prefix_is_honoured() {
    let config = MonitorConfig {
        prefix: "Trackball-".to_string(),
        present_interval_ms: 1_000,
        absent_interval_ms: 100,
    };
    let mut monitor = Monitor::new(config);
    let interval = monitor.poll(&Ok(vec!["Trackball-7".to_string()]));
    assert_eq!(monitor.state, PresenceState::Present);
    assert_eq!(interval, 1_000);
}
