use quinoa_audio::device::{DeviceType, Props};
use quinoa_audio::enumerate::{is_default_metadata, parse_default_device, EnumState, Observation};

fn props_of(pairs: &[(&str, &str)]) -> Props {
    let mut p = Props::new();
    for (k, v) in pairs {
        p.insert(k.to_string(), v.to_string());
    }
    p
}

fn mic_entry(name: &str) -> Props {
    props_of(&[("media.class", "Audio/Source"), ("node.name", name)])
}

fn sink_entry(name: &str) -> Props {
    props_of(&[("media.class", "Audio/Sink"), ("node.name", name)])
}

fn source_default(value: &str) -> Observation {
    Observation::MetadataProperty {
        subject: 0,
        key: Some("default.audio.source".to_string()),
        value: Some(value.to_string()),
    }
}

#[test]
fn bare_and_json_default_values_resolve_alike() {
    assert_eq!(parse_default_device("alsa_output.foo").as_deref(), Some("alsa_output.foo"));
    assert_eq!(
        parse_default_device("{\"name\":\"alsa_output.foo\"}").as_deref(),
        Some("alsa_output.foo")
    );
}

#[test]
fn unparseable_default_values_resolve_to_nothing() {
    assert!(parse_default_device("{not json").is_none());
    assert!(parse_default_device("{}").is_none());
    assert!(parse_default_device("{\"name\": 3}").is_none());
}

#[test]
fn devices_after_the_acknowledgment_are_excluded() {
    let mut e = EnumState::new(0, 42);
    e.observe(Observation::Global { id: 1, props: mic_entry("mic_before") });
    e.observe(Observation::Done { id: 0, seq: 42 });
    e.observe(Observation::Global { id: 2, props: mic_entry("mic_after") });
    e.observe(source_default("mic_after"));
    let devices = e.finish();
    assert_eq!(devices.len(), 1);
    assert_eq!(devices[0].id, "mic_before");
    assert!(!devices[0].is_default);
}

#[test]
fn unmatched_acknowledgments_do_not_end_the_enumeration() {
    let mut e = EnumState::new(0, 42);
    e.observe(Observation::Done { id: 0, seq: 41 });
    e.observe(Observation::Done { id: 3, seq: 42 });
    e.observe(Observation::Global { id: 1, props: mic_entry("still_counted") });
    assert!(!e.finished);
    let devices = e.finish();
    assert_eq!(devices.len(), 1);
}

#[test]
fn defaults_mark_exactly_the_matching_devices() {
    let mut e = EnumState::new(0, 7);
    e.observe(Observation::Global { id: 1, props: mic_entry("mic_a") });
    e.observe(Observation::Global { id: 2, props: mic_entry("mic_b") });
    e.observe(Observation::Global { id: 3, props: sink_entry("spk_a") });
    e.observe(Observation::Global { id: 4, props: sink_entry("mic_a") });
    e.observe(source_default("{\"name\":\"mic_a\"}"));
    e.observe(Observation::MetadataProperty {
        subject: 0,
        key: Some("default.audio.sink".to_string()),
        value: Some("spk_a".to_string()),
    });
    let devices = e.finish();
    assert_eq!(devices.len(), 4);
    assert!(devices[0].is_default, "the default source matches by id and type");
    assert!(!devices[1].is_default);
    assert!(devices[2].is_default, "the default sink matches by id and type");
    assert!(
        !devices[3].is_default,
        "a speaker named like the default source is not the default source"
    );
    assert_eq!(devices[3].device_type, DeviceType::Speaker);
}

#[test]
fn malformed_default_values_retain_the_prior_resolution() {
    let mut e = EnumState::new(0, 7);
    e.observe(source_default("mic_good"));
    e.observe(source_default("{broken"));
    assert_eq!(e.default_source.as_deref(), Some("mic_good"));
    // Non-global subjects and unrelated keys are ignored outright.
    e.observe(Observation::MetadataProperty {
        subject: 5,
        key: Some("default.audio.source".to_string()),
        value: Some("other".to_string()),
    });
    e.observe(Observation::MetadataProperty {
        subject: 0,
        key: Some("default.configured.audio.source".to_string()),
        value: Some("other".to_string()),
    });
    assert_eq!(e.default_source.as_deref(), Some("mic_good"));
}

#[test]
fn non_device_entries_are_not_captured() {
    let mut e = EnumState::new(0, 7);
    e.observe(Observation::Global {
        id: 1,
        props: props_of(&[("media.class", "Stream/Output/Audio")]),
    });
    e.observe(Observation::Global { id: 2, props: props_of(&[]) });
    assert!(e.finish().is_empty());
}

#[test]
fn the_default_metadata_object_is_recognised_by_type_and_name() {
    let named_default = props_of(&[("metadata.name", "default")]);
    assert!(is_default_metadata(true, &named_default));
    assert!(!is_default_metadata(false, &named_default));
    assert!(!is_default_metadata(true, &props_of(&[("metadata.name", "settings")])));
    assert!(!is_default_metadata(true, &props_of(&[])));
}
