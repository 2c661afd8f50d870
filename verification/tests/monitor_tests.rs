use quinoa_audio::device::Props;
use quinoa_audio::monitor::{added_event, removed_event, MonitorState};

fn props_of(pairs: &[(&str, &str)]) -> Props {
    let mut p = Props::new();
    for (k, v) in pairs {
        p.insert(k.to_string(), v.to_string());
    }
    p
}

#[test]
fn classified_additions_report_id_and_name() {
    let p = props_of(&[
        ("media.class", "Audio/Sink"),
        ("node.name", "alsa_output.spk"),
        ("node.description", "Speakers"),
    ]);
    let e = added_event(11, &p).unwrap();
    assert_eq!(e.type_, "added");
    assert_eq!(e.device_id.as_deref(), Some("alsa_output.spk"));
    assert_eq!(e.device_name.as_deref(), Some("Speakers"));
}

#[test]
fn unclassified_additions_report_nothing() {
    assert!(added_event(11, &props_of(&[("media.class", "Midi/Bridge")])).is_none());
    assert!(added_event(11, &props_of(&[])).is_none());
}

#[test]
fn additions_without_a_stable_name_use_the_numeric_id() {
    let p = props_of(&[("media.class", "Audio/Source")]);
    let e = added_event(37, &p).unwrap();
    assert_eq!(e.device_id.as_deref(), Some("37"));
    assert_eq!(e.device_name.as_deref(), Some("Unknown Device"));
}

#[test]
fn every_removal_reports_its_id_only() {
    let e = removed_event(52);
    assert_eq!(e.type_, "removed");
    assert_eq!(e.device_id.as_deref(), Some("52"));
    assert!(e.device_name.is_none());
}

#[test]
fn monitor_stops_on_the_tick_that_drains_a_stop() {
    let mut m = MonitorState::new();
    assert!(!m.on_tick(false));
    assert!(!m.stopped);
    assert!(m.on_tick(true));
    assert!(m.stopped);
}
