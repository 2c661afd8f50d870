use quinoa_audio::device::{
    classify, device_from_entry, device_id, display_name, string_eq, string_eq_str, u32_to_string,
    Device, DeviceType, Props,
};

fn props_of(pairs: &[(&str, &str)]) -> Props {
    let mut p = Props::new();
    for (k, v) in pairs {
        p.insert(k.to_string(), v.to_string());
    }
    p
}

#[test]
fn test_device_creation() {
    let device = Device::new(
        "test_id".to_string(),
        "Test Device".to_string(),
        DeviceType::Microphone,
        true,
        48000,
        2,
        false,
        None,
    );

    assert_eq!(device.id, "test_id");
    assert_eq!(device.name, "Test Device");
    assert_eq!(device.device_type, DeviceType::Microphone);
    assert!(device.is_bluetooth);
    assert_eq!(device.sample_rate, 48000);
    assert_eq!(device.channels, 2);
    assert!(!device.is_default);
    assert!(device.bluetooth_profile.is_none());
}

#[test]
fn lib_test_device_creation() {
    let device = Device::new(
        "test_id".to_string(),
        "Test Device".to_string(),
        DeviceType::Microphone,
        true,
        48000,
        2,
        false,
        None,
    );

    assert_eq!(device.id, "test_id");
    assert_eq!(device.name, "Test Device");
    assert_eq!(device.device_type, DeviceType::Microphone);
    assert!(device.is_bluetooth);
    assert_eq!(device.sample_rate, 48000);
    assert_eq!(device.channels, 2);
    assert!(!device.is_default);
}

#[test]
fn classify_audio_source_is_microphone() {
    assert_eq!(classify(&"Audio/Source".to_string()), Some(DeviceType::Microphone));
}

#[test]
fn classify_audio_sink_is_speaker() {
    assert_eq!(classify(&"Audio/Sink".to_string()), Some(DeviceType::Speaker));
}

#[test]
fn classify_other_classes_are_no_device() {
    assert_eq!(classify(&"Audio/Source/Virtual".to_string()), None);
    assert_eq!(classify(&"Video/Source".to_string()), None);
    assert_eq!(classify(&"Stream/Output/Audio".to_string()), None);
    assert_eq!(classify(&"".to_string()), None);
}

#[test]
fn entry_with_other_class_produces_no_device() {
    let p = props_of(&[("media.class", "Video/Source"), ("node.name", "cam")]);
    assert!(device_from_entry(7, &p).is_none());
    let p2 = props_of(&[("node.name", "no-class")]);
    assert!(device_from_entry(7, &p2).is_none());
}

#[test]
fn entry_classification_builds_device() {
    let p = props_of(&[
        ("media.class", "Audio/Source"),
        ("node.name", "alsa_input.mic"),
        ("node.description", "Front Microphone"),
    ]);
    let d = device_from_entry(3, &p).unwrap();
    assert_eq!(d.device_type, DeviceType::Microphone);
    assert_eq!(d.id, "alsa_input.mic");
    assert_eq!(d.name, "Front Microphone");
    assert!(!d.is_bluetooth);
    assert!(d.bluetooth_profile.is_none());
    assert_eq!(d.sample_rate, 48000);
    assert_eq!(d.channels, 2);
    assert!(!d.is_default);

    let sink = props_of(&[("media.class", "Audio/Sink"), ("node.name", "alsa_output.spk")]);
    let d2 = device_from_entry(4, &sink).unwrap();
    assert_eq!(d2.device_type, DeviceType::Speaker);
}

#[test]
fn display_name_resolution_order() {
    let all = props_of(&[
        ("node.description", "Desc"),
        ("node.nick", "Nick"),
        ("node.name", "name"),
    ]);
    assert_eq!(display_name(&all), "Desc");

    let nick = props_of(&[("node.nick", "Nick"), ("node.name", "name")]);
    assert_eq!(display_name(&nick), "Nick");

    let name = props_of(&[("node.name", "name")]);
    assert_eq!(display_name(&name), "name");

    let none = props_of(&[]);
    assert_eq!(display_name(&none), "Unknown Device");
}

#[test]
fn identifier_prefers_stable_name_and_falls_back_to_numeric_id() {
    let named = props_of(&[("node.name", "alsa_input.mic")]);
    assert_eq!(device_id(&named, 51), "alsa_input.mic");

    let unnamed = props_of(&[("node.description", "Desc")]);
    assert_eq!(device_id(&unnamed, 51), "51");
}

#[test]
fn numeric_ids_render_in_decimal() {
    assert_eq!(u32_to_string(0), "0");
    assert_eq!(u32_to_string(7), "7");
    assert_eq!(u32_to_string(10), "10");
    assert_eq!(u32_to_string(48000), "48000");
    assert_eq!(u32_to_string(4294967295), "4294967295");
}

#[test]
fn bluetooth_detection_and_profile() {
    let bt = props_of(&[
        ("media.class", "Audio/Source"),
        ("node.name", "bt_mic"),
        ("device.api", "bluez5"),
        ("api.bluez5.profile", "headset-head-unit"),
    ]);
    let d = device_from_entry(9, &bt).unwrap();
    assert!(d.is_bluetooth);
    assert_eq!(d.bluetooth_profile.as_deref(), Some("headset-head-unit"));

    let not_bt = props_of(&[
        ("media.class", "Audio/Source"),
        ("node.name", "usb_mic"),
        ("device.api", "alsa"),
    ]);
    let d2 = device_from_entry(9, &not_bt).unwrap();
    assert!(!d2.is_bluetooth);
    assert!(d2.bluetooth_profile.is_none());
}

#[test]
fn props_lookup_takes_first_binding_and_ignores_unknown_keys() {
    let p = props_of(&[("k", "first"), ("k", "second"), ("unrelated", "x")]);
    assert_eq!(p.get("k").map(|s| s.as_str()), Some("first"));
    assert!(p.get("missing").is_none());
}

#[test]
fn string_helpers_compare_by_contents() {
    assert!(string_eq(&"abc".to_string(), &"abc".to_string()));
    assert!(!string_eq(&"abc".to_string(), &"abd".to_string()));
    assert!(string_eq_str(&"abc".to_string(), "abc"));
    assert!(!string_eq_str(&"abc".to_string(), "ab"));
}

#[test]
fn device_summary_prints_id_name_type_and_bluetooth() {
    let device = Device::new(
        "test_id".to_string(),
        "Test Device".to_string(),
        DeviceType::Microphone,
        true,
        48000,
        2,
        false,
        None,
    );
    assert_eq!(
        device.describe(),
        "Device(id='test_id', name='Test Device', type=Microphone, bt=true)"
    );
}
