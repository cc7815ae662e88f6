use bzmenu::device::{
    Device, DeviceProps, UUID_BATTERY_SERVICE, UUID_HEART_RATE, UUID_HID,
};

fn classify(
    class_of_device: Option<u32>,
    appearance: Option<u16>,
    uuids: Option<Vec<u128>>,
    icon: Option<&str>,
) -> String {
    Device::determine_device_type(
        class_of_device,
        appearance,
        &uuids,
        &icon.map(|s| s.to_string()),
    )
}

// Class-of-device value with the given major and minor class.
fn cod(major: u32, minor: u32) -> u32 {
    (major << 8) | (minor << 2)
}

#[test]
fn class_of_device_wins_over_every_later_signal() {
    // Major class 5 (peripheral), minor class 2: a mouse — even though the
    // appearance says keyboard, a service identifier says battery and the
    // icon name says speaker.
    let r = classify(
        Some(cod(0x05, 0x02)),
        Some(961),
        Some(vec![UUID_BATTERY_SERVICE]),
        Some("audio-card"),
    );
    assert_eq!(r, "mouse");
}

#[test]
fn class_of_device_table() {
    assert_eq!(classify(Some(cod(0x01, 0x00)), None, None, None), "computer");
    assert_eq!(classify(Some(cod(0x02, 0x03)), None, None, None), "phone");
    assert_eq!(classify(Some(cod(0x02, 0x06)), None, None, None), "laptop");
    assert_eq!(classify(Some(cod(0x03, 0x00)), None, None, None), "network");
    assert_eq!(classify(Some(cod(0x04, 0x09)), None, None, None), "tv");
    assert_eq!(classify(Some(cod(0x04, 0x03)), None, None, None), "audio");
    assert_eq!(classify(Some(cod(0x05, 0x01)), None, None, None), "keyboard");
    assert_eq!(classify(Some(cod(0x05, 0x08)), None, None, None), "pen");
    assert_eq!(classify(Some(cod(0x06, 0x10)), None, None, None), "display");
    assert_eq!(classify(Some(cod(0x06, 0x20)), None, None, None), "tv");
    assert_eq!(classify(Some(cod(0x07, 0x01)), None, None, None), "watch");
    assert_eq!(classify(Some(cod(0x07, 0x04)), None, None, None), "headphones");
}

#[test]
fn unknown_major_class_falls_through_to_appearance() {
    // Major class 0 identifies nothing; the appearance decides.
    assert_eq!(classify(Some(cod(0x00, 0x00)), Some(962), None, None), "mouse");
    assert_eq!(classify(None, Some(192), None, None), "watch");
    assert_eq!(classify(None, Some(1600), None, None), "health");
    assert_eq!(classify(None, Some(1663), None, None), "health");
    assert_eq!(classify(None, Some(1727), None, None), "sensor");
}

#[test]
fn appearance_zero_falls_through_to_uuids() {
    let r = classify(None, Some(0), Some(vec![UUID_HEART_RATE]), None);
    assert_eq!(r, "health");
}

#[test]
fn first_matching_service_identifier_wins() {
    // The generic-access identifier decides nothing; the first match does.
    let generic_access: u128 = 0x00001800_0000_1000_8000_00805f9b34fb;
    let r = classify(None, None, Some(vec![generic_access, UUID_HID, UUID_HEART_RATE]), None);
    assert_eq!(r, "keyboard");
}

#[test]
fn icon_name_is_the_last_resort() {
    assert_eq!(classify(None, None, None, Some("computer-laptop")), "laptop");
    assert_eq!(classify(None, None, None, Some("input-gaming")), "gamepad");
    assert_eq!(classify(None, None, None, Some("video-display")), "tv");
    // An unknown icon name is taken verbatim.
    assert_eq!(classify(None, None, None, Some("pda")), "pda");
}

#[test]
fn with_no_signal_at_all_the_type_is_device() {
    assert_eq!(classify(None, None, None, None), "device");
    assert_eq!(classify(None, None, Some(vec![]), None), "device");
    // An empty icon name is no answer either.
    assert_eq!(classify(None, None, None, Some("")), "device");
}

#[test]
fn snapshot_carries_properties_and_derived_type() {
    let d = Device::new(DeviceProps {
        address: 0x0000_aabb_ccdd_eeff,
        alias: "Travel Mouse".to_string(),
        icon: None,
        class_of_device: Some(cod(0x05, 0x02)),
        appearance: None,
        service_uuids: None,
        is_paired: true,
        is_trusted: false,
        is_connected: true,
        battery_percentage: Some(80),
    });
    assert_eq!(d.addr, 0x0000_aabb_ccdd_eeff);
    assert_eq!(d.alias, "Travel Mouse");
    assert_eq!(d.device_type, "mouse");
    assert!(d.is_paired);
    assert!(!d.is_trusted);
    assert!(d.is_connected);
    assert_eq!(d.battery_percentage, Some(80));
}

#[test]
fn empty_icon_reads_are_dropped() {
    let d = Device::new(DeviceProps {
        address: 3,
        alias: "z".to_string(),
        icon: Some(String::new()),
        class_of_device: None,
        appearance: None,
        service_uuids: None,
        is_paired: false,
        is_trusted: false,
        is_connected: false,
        battery_percentage: None,
    });
    assert_eq!(d.icon, None);
    assert_eq!(d.device_type, "device");
    let e = Device::new(DeviceProps {
        address: 4,
        alias: "w".to_string(),
        icon: Some("audio-card".to_string()),
        class_of_device: None,
        appearance: None,
        service_uuids: None,
        is_paired: false,
        is_trusted: false,
        is_connected: false,
        battery_percentage: None,
    });
    assert_eq!(e.icon, Some("audio-card".to_string()));
    assert_eq!(e.device_type, "speaker");
}

#[test]
fn battery_readings_above_full_are_dropped() {
    let base = DeviceProps {
        address: 1,
        alias: "x".to_string(),
        icon: None,
        class_of_device: None,
        appearance: None,
        service_uuids: None,
        is_paired: false,
        is_trusted: false,
        is_connected: false,
        battery_percentage: Some(150),
    };
    let d = Device::new(base);
    assert_eq!(d.battery_percentage, None);
    let full = Device::new(DeviceProps {
        address: 2,
        alias: "y".to_string(),
        icon: None,
        class_of_device: None,
        appearance: None,
        service_uuids: None,
        is_paired: false,
        is_trusted: false,
        is_connected: false,
        battery_percentage: Some(100),
    });
    assert_eq!(full.battery_percentage, Some(100));
}
