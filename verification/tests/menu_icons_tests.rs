use bzmenu::controller::Controller;
use bzmenu::device::Device;
use bzmenu::error::BtError;
use bzmenu::icons::{IconDefinition, Icons};
use bzmenu::menu::{
    AdapterMenuOptions, BluetoothMenuOptions, DeviceMenuOptions, MainMenuOptions, Menu,
    SettingsMenuOptions,
};

fn dev(addr: u64, alias: &str, is_paired: bool) -> Device {
    Device {
        addr,
        alias: alias.to_string(),
        icon: None,
        device_type: "device".to_string(),
        is_paired,
        is_trusted: false,
        is_connected: false,
        battery_percentage: None,
    }
}

#[test]
fn icon_tables_answer_by_kind() {
    let icons = Icons::new();
    assert_eq!(icons.get_icon("mouse", "font"), "\u{f037d}");
    assert_eq!(icons.get_icon("connected", "generic"), "\u{23fa}");
    assert_eq!(
        icons.get_icon("phone", "xdg"),
        "phone-symbolic,drive-harddisk-symbolic"
    );
    // Unknown keys and unknown kinds give the empty string.
    assert_eq!(icons.get_icon("no_such_key", "font"), "");
    assert_eq!(icons.get_icon("mouse", "emoji"), "");
}

#[test]
fn single_xdg_icon_uses_the_fallback_rule() {
    let icons = Icons::new();
    // Explicit single icon.
    assert_eq!(icons.get_xdg_icon("battery_100"), "battery-full-symbolic");
    // No explicit single icon: the first entry of the list.
    assert_eq!(icons.get_xdg_icon("bluetooth"), "bluetooth-symbolic");
    assert_eq!(icons.get_xdg_icon("no_such_key"), "");
    assert_eq!(
        icons.get_xdg_icon_list("laptop"),
        "laptop-symbolic,computer-laptop-symbolic,computer-symbolic,drive-harddisk-symbolic"
    );
}

#[test]
fn icon_definitions_trim_the_first_list_entry() {
    let d = IconDefinition::with_fallbacks(None, " first-icon , second-icon");
    assert_eq!(d.single, "first-icon");
    assert_eq!(d.list, " first-icon , second-icon");
    let e = IconDefinition::with_fallbacks(Some("explicit"), "a,b");
    assert_eq!(e.single, "explicit");
    let s = IconDefinition::simple("only");
    assert_eq!(s.single, "only");
    assert_eq!(s.list, "only");
}

#[test]
fn battery_icons_cover_each_band_and_nothing_above_full() {
    let icons = Icons::new();
    assert_eq!(icons.get_battery_icon(100, "font"), Some("\u{f0079}".to_string()));
    assert_eq!(icons.get_battery_icon(91, "font"), Some("\u{f0079}".to_string()));
    assert_eq!(icons.get_battery_icon(90, "font"), Some("\u{f0082}".to_string()));
    assert_eq!(icons.get_battery_icon(55, "font"), Some("\u{f007f}".to_string()));
    assert_eq!(icons.get_battery_icon(0, "font"), Some("\u{f007a}".to_string()));
    assert_eq!(icons.get_battery_icon(101, "font"), None);
    assert_eq!(icons.get_battery_icon(255, "xdg"), None);
}

#[test]
fn icon_text_renders_lines_by_kind() {
    let icons = Icons::new();
    assert_eq!(
        icons.get_icon_text(vec![("scan", "Scan")], "font", 2),
        "\u{f46a}  Scan"
    );
    assert_eq!(
        icons.get_icon_text(vec![("settings", "Settings")], "xdg", 1),
        "Settings\u{0}icon\u{1f}preferences-system-symbolic"
    );
    assert_eq!(
        icons.get_icon_text(vec![("scan", "Scan"), ("settings", "Settings")], "plain", 0),
        "Scan\nSettings"
    );
    assert_eq!(icons.get_icon_text(vec![], "font", 1), "");
}

#[test]
fn spacing_and_display_formatting() {
    assert_eq!(Icons::format_with_spacing('x', 2, true), "  x");
    assert_eq!(Icons::format_with_spacing('x', 2, false), "x  ");
    let icons = Icons::new();
    assert_eq!(
        icons.format_display_with_icon("Name", "icon-a", "xdg", 0),
        "Name\u{0}icon\u{1f}icon-a"
    );
    assert_eq!(icons.format_display_with_icon("Name", "@", "font", 1), "@ Name");
    assert_eq!(icons.format_display_with_icon("Name", "@", "other", 1), "Name");
}

#[test]
fn device_icons_map_synonyms() {
    let icons = Icons::new();
    assert_eq!(icons.get_device_icon("smartphone", "font"), "\u{f011c}");
    assert_eq!(icons.get_device_icon("headset", "font"), "\u{f02cb}");
    assert_eq!(icons.get_device_icon("television", "font"), "\u{f0379}");
    assert_eq!(icons.get_device_icon("mystery", "font"), "\u{f0fb0}");
}

#[test]
fn menu_output_is_cleaned_by_icon_kind() {
    let menu = Menu::new(Icons::new());
    assert_eq!(menu.clean_menu_output("  \u{f293} Connect  ", "font"), "Connect");
    assert_eq!(
        menu.clean_menu_output(" Name\u{0}icon\u{1f}whatever ", "xdg"),
        "Name"
    );
    assert_eq!(menu.clean_menu_output("  plain  ", "anything-else"), "plain");
}

#[test]
fn main_menu_input_lists_scan_devices_settings() {
    let menu = Menu::new(Icons::new());
    let c = Controller::new(
        "hci0".to_string(),
        "a".to_string(),
        true,
        false,
        false,
        false,
        vec![dev(2, "Headset", true), dev(1, "Mouse", false)],
    );
    let input = menu.build_main_menu_input(&c, "plain", 0);
    assert_eq!(input, "Scan\nHeadset\nMouse\nSettings");
}

#[test]
fn device_lines_carry_status_markers() {
    let menu = Menu::new(Icons::new());
    let mut d = dev(1, "Pad", false);
    d.battery_percentage = Some(87);
    let line = menu.format_device_display(&d, "xdg", 0);
    assert_eq!(line, "Pad [87%]\u{0}icon\u{1f}drive-harddisk-symbolic");

    let mut e = dev(2, "Ear", true);
    e.is_connected = true;
    let line2 = menu.format_device_display(&e, "plain", 0);
    assert_eq!(line2, "Ear \u{23fa}");
}

#[test]
fn settings_menu_is_built_from_the_current_toggles() {
    let menu = Menu::new(Icons::new());
    let c = Controller::new(
        "hci0".to_string(),
        "a".to_string(),
        true,
        false,
        true,
        false,
        Vec::new(),
    );
    let input = menu.build_settings_menu_input(&c, "plain", 0);
    assert_eq!(input, "Disable discoverable\nEnable pairable\nDisable adapter");
}

#[test]
fn settings_selection_follows_the_rendered_labels() {
    let menu = Menu::new(Icons::new());
    assert_eq!(
        menu.parse_settings_selection("Disable discoverable", true, false),
        Some(SettingsMenuOptions::ToggleDiscoverable)
    );
    // The menu showed "Disable discoverable", so the enable label names nothing.
    assert_eq!(menu.parse_settings_selection("Enable discoverable", true, false), None);
    assert_eq!(
        menu.parse_settings_selection("Enable pairable", true, false),
        Some(SettingsMenuOptions::TogglePairable)
    );
    assert_eq!(
        menu.parse_settings_selection("Disable adapter", false, false),
        Some(SettingsMenuOptions::DisableAdapter)
    );
    assert_eq!(menu.parse_settings_selection("nonsense", false, false), None);
}

#[test]
fn device_options_depend_on_device_state() {
    let menu = Menu::new(Icons::new());
    let mut d = dev(1, "Pad", true);
    d.is_connected = true;
    d.is_trusted = true;
    assert_eq!(
        menu.get_paired_device_options(&d),
        vec![
            DeviceMenuOptions::Disconnect,
            DeviceMenuOptions::RevokeTrust,
            DeviceMenuOptions::Forget,
        ]
    );
    let e = dev(2, "Ear", true);
    assert_eq!(
        menu.get_paired_device_options(&e),
        vec![
            DeviceMenuOptions::Connect,
            DeviceMenuOptions::Trust,
            DeviceMenuOptions::Forget,
        ]
    );
    let input = menu.build_device_options_input(
        &vec![DeviceMenuOptions::Connect, DeviceMenuOptions::Forget],
        "plain",
        0,
    );
    assert_eq!(input, "Connect\nForget\n");
}

#[test]
fn devices_are_found_by_their_cleaned_display_line() {
    let menu = Menu::new(Icons::new());
    let devices = vec![dev(1, "Alpha", true), dev(2, "Beta", true)];
    assert_eq!(menu.find_device_by_display(&devices, "Beta", "plain", 0), Some(1));
    assert_eq!(menu.find_device_by_display(&devices, "Alpha", "plain", 0), Some(0));
    assert_eq!(menu.find_device_by_display(&devices, "Gamma", "plain", 0), None);
}

#[test]
fn menu_labels_round_trip() {
    assert_eq!(MainMenuOptions::from_string("Scan"), Some(MainMenuOptions::Scan));
    assert_eq!(MainMenuOptions::from_string("Settings"), Some(MainMenuOptions::Settings));
    assert_eq!(
        MainMenuOptions::from_string("My Phone"),
        Some(MainMenuOptions::Device("My Phone".to_string()))
    );
    for o in [
        DeviceMenuOptions::Connect,
        DeviceMenuOptions::Disconnect,
        DeviceMenuOptions::Trust,
        DeviceMenuOptions::RevokeTrust,
        DeviceMenuOptions::Forget,
    ] {
        assert_eq!(DeviceMenuOptions::from_string(o.to_str()), Some(o));
    }
    for o in [
        SettingsMenuOptions::ToggleDiscoverable,
        SettingsMenuOptions::TogglePairable,
        SettingsMenuOptions::DisableAdapter,
    ] {
        assert_eq!(SettingsMenuOptions::from_string(o.to_str()), Some(o));
    }
    for o in [
        BluetoothMenuOptions::EnableDiscoverable,
        BluetoothMenuOptions::DisableDiscoverable,
        BluetoothMenuOptions::EnablePairable,
        BluetoothMenuOptions::DisablePairable,
    ] {
        assert_eq!(BluetoothMenuOptions::from_string(o.to_str()), Some(o));
    }
    assert_eq!(
        AdapterMenuOptions::from_string("Power on device"),
        Some(AdapterMenuOptions::PowerOnDevice)
    );
    assert_eq!(AdapterMenuOptions::from_string("Power off"), None);
    assert_eq!(DeviceMenuOptions::from_string("connect"), None);
}

#[test]
fn passkey_prompt_answers() {
    let menu = Menu::new(Icons::new());
    assert!(menu.parse_passkey_confirmation("Confirm"));
    assert!(!menu.parse_passkey_confirmation("Cancel"));
    assert!(!menu.parse_passkey_confirmation(""));
}

#[test]
fn error_kinds_carry_fixed_messages() {
    assert_eq!(BtError::NoAdapterFound.message(), "no wireless adapter found");
    assert_eq!(
        BtError::ConfirmationAlreadyPending.message(),
        "a confirmation request is already pending"
    );
    assert_eq!(BtError::ConfirmationTimeout.message(), "confirmation timed out");
    assert_eq!(BtError::DeviceOutOfRange.message(), "device is out of range");
    assert_ne!(BtError::PairingFailed, BtError::ConnectionFailed);
}
