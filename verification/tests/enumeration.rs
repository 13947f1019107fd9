use presence_monitor::enumeration::collect_names;
use presence_monitor::monitor::{default_config, Monitor};
use presence_monitor::presence::{is_hhkb_connected, PresenceState};

#[test]
fn a_failed_name_lookup_drops_only_that_device() {
    let lookups = vec![
        Some("HHKB-Hybrid_ABC123".to_string()),
        None,
        Some("Mouse".to_string()),
    ];
    let names = collect_names(&lookups);
    assert_eq!(names, vec!["HHKB-Hybrid_ABC123".to_string(), "Mouse".to_string()]);
    // The predicate is evaluated over the two devices that resolved.
    assert!(is_hhkb_connected(&names));
}

#[test]
fn all_lookups_failing_leaves_an_empty_batch() {
    let lookups: Vec<Option<String>> = vec![None, None];
    let names = collect_names(&lookups);
    assert!(names.is_empty());
    assert!(!is_hhkb_connected(&names));
}

#[test]
fn all_lookups_succeeding_keeps_every_device_in_order() {
    let lookups = vec![Some("A".to_string()), Some("B".to_string())];
    let names = collect_names(&lookups);
    assert_eq!(names, vec!["A".to_string(), "B".to_string()]);
}

#[test]
fn a_partially_failed_batch_still_drives_a_poll_cycle() {
    let lookups = vec![None, Some("HHKB-Hybrid_X".to_string())];
    let names = collect_names(&lookups);
    let mut monitor = Monitor::new(default_config());
    let interval = monitor.poll(&Ok(names));
    assert_eq!(monitor.state, PresenceState::Present);
    assert_eq!(interval, 10_000);
}
