use bzmenu::controller::{partition_devices, Controller};
use bzmenu::device::Device;
use bzmenu::error::BtError;

fn dev(addr: u64, alias: &str, is_paired: bool) -> Device {
    Device {
        addr,
        alias: alias.to_string(),
        icon: None,
        device_type: "device".to_string(),
        is_paired,
        is_trusted: false,
        is_connected: false,
        battery_percentage: None,
    }
}

#[test]
fn partition_splits_by_pairing_and_sorts_by_address() {
    let devices = vec![
        dev(30, "c", true),
        dev(10, "a", false),
        dev(20, "b", true),
        dev(5, "z", false),
    ];
    let (paired, fresh) = partition_devices(devices);
    let paired_addrs: Vec<u64> = paired.iter().map(|d| d.addr).collect();
    let fresh_addrs: Vec<u64> = fresh.iter().map(|d| d.addr).collect();
    assert_eq!(paired_addrs, vec![20, 30]);
    assert_eq!(fresh_addrs, vec![5, 10]);
    assert!(paired.iter().all(|d| d.is_paired));
    assert!(fresh.iter().all(|d| !d.is_paired));
    // The two lists together carry exactly the enumerated set.
    assert_eq!(paired.len() + fresh.len(), 4);
}

#[test]
fn partition_of_nothing_is_two_empty_lists() {
    let (paired, fresh) = partition_devices(Vec::new());
    assert!(paired.is_empty());
    assert!(fresh.is_empty());
}

#[test]
fn first_adapter_is_selected() {
    let names = vec!["hci0".to_string(), "hci1".to_string()];
    assert_eq!(Controller::select_adapter(names), Ok("hci0".to_string()));
}

#[test]
fn no_adapter_is_fatal() {
    assert_eq!(Controller::select_adapter(Vec::new()), Err(BtError::NoAdapterFound));
}

#[test]
fn powered_off_at_startup_then_power_on_and_refresh() {
    // The adapter starts powered off, with nothing enumerated.
    let mut c = Controller::new(
        "hci0".to_string(),
        "my-adapter".to_string(),
        false,
        false,
        false,
        false,
        Vec::new(),
    );
    assert!(!c.is_powered);
    assert!(c.paired_devices.is_empty());
    assert!(c.new_devices.is_empty());

    // The driver prompts for power-on, writes the property, and refreshes:
    // only then does the new state become visible, lists included.
    c.refresh(
        true,
        false,
        false,
        vec![dev(7, "headset", true), dev(3, "mouse", false)],
    );
    assert!(c.is_powered);
    assert_eq!(c.name, "hci0");
    assert_eq!(c.alias, "my-adapter");
    assert_eq!(c.paired_devices.len(), 1);
    assert_eq!(c.paired_devices[0].alias, "headset");
    assert_eq!(c.new_devices.len(), 1);
    assert_eq!(c.new_devices[0].alias, "mouse");
}

#[test]
fn refresh_replaces_lists_wholesale() {
    let mut c = Controller::new(
        "hci0".to_string(),
        "a".to_string(),
        true,
        true,
        true,
        false,
        vec![dev(1, "old", true)],
    );
    c.refresh(true, true, false, vec![dev(2, "new", false)]);
    assert!(c.paired_devices.is_empty());
    assert_eq!(c.new_devices.len(), 1);
    assert_eq!(c.new_devices[0].addr, 2);
    assert!(!c.is_discoverable);
    assert!(c.is_pairable);
}
