use vstd::prelude::*;

use crate::controller::Controller;
use crate::device::Device;
use crate::icons::{item_views, Icons};
use crate::strutil::{
    before_char, is_ascii_alnum, skip_to_ascii_alnum, spec_drop_while, spec_take_while, spec_trim,
    spec_u8_decimal, str_eq, trim_str, u8_decimal,
};

verus! {

broadcast use vstd::string::group_string_axioms;

/// A top-level menu selection.
#[derive(Clone, Debug, PartialEq)]
pub enum MainMenuOptions {
    Scan,
    Settings,
    /// A line naming one of the listed devices.
    Device(String),
}

/// The label of a fixed top-level menu entry.
pub open spec fn spec_main_menu_label(o: MainMenuOptions) -> Seq<char> {
    match o {
        MainMenuOptions::Scan => "Scan"@,
        MainMenuOptions::Settings => "Settings"@,
        MainMenuOptions::Device(_) => "Device"@,
    }
}

impl MainMenuOptions {
    /// Map a selection back to an option: the two fixed labels name
    /// themselves, any other line selects the device it displays.
    pub fn from_string(option: &str) -> (r: Option<MainMenuOptions>)
        ensures
            option@ == "Scan"@ ==> r == Some(MainMenuOptions::Scan),
            option@ != "Scan"@ && option@ == "Settings"@ ==> r == Some(MainMenuOptions::Settings),
            option@ != "Scan"@ && option@ != "Settings"@ ==> (r matches Some(o) && o matches
                MainMenuOptions::Device(s) && s@ == option@),
    {
        if str_eq(option, "Scan") {
            Some(MainMenuOptions::Scan)
        } else if str_eq(option, "Settings") {
            Some(MainMenuOptions::Settings)
        } else {
            Some(MainMenuOptions::Device(option.to_owned()))
        }
    }

    pub fn to_str(&self) -> (r: &'static str)
        ensures
            r@ == spec_main_menu_label(*self),
    {
        match self {
            MainMenuOptions::Scan => "Scan",
            MainMenuOptions::Settings => "Settings",
            MainMenuOptions::Device(_) => "Device",
        }
    }
}

/// The two fixed labels are distinct, so reading back a rendered fixed
/// label yields the option it was rendered from and never the other.
pub proof fn lemma_main_menu_labels_distinct()
    ensures
        spec_main_menu_label(MainMenuOptions::Scan) != spec_main_menu_label(
            MainMenuOptions::Settings,
        ),
{
    reveal_strlit("Scan");
    reveal_strlit("Settings");
    assert("Scan"@.len() == 4);
    assert("Settings"@.len() == 8);
}

/// An action on one device.
#[derive(Clone, Copy, Debug, PartialEq, Eq, Structural)]
pub enum DeviceMenuOptions {
    Connect,
    Disconnect,
    Trust,
    RevokeTrust,
    Forget,
}

/// The label of a device action.
pub open spec fn spec_device_menu_label(o: DeviceMenuOptions) -> Seq<char> {
    match o {
        DeviceMenuOptions::Connect => "Connect"@,
        DeviceMenuOptions::Disconnect => "Disconnect"@,
        DeviceMenuOptions::Trust => "Trust"@,
        DeviceMenuOptions::RevokeTrust => "Revoke trust"@,
        DeviceMenuOptions::Forget => "Forget"@,
    }
}

/// The device action a selection names, if any.
pub open spec fn spec_device_menu_from(option: Seq<char>) -> Option<DeviceMenuOptions> {
    if option == "Connect"@ {
        Some(DeviceMenuOptions::Connect)
    } else if option == "Disconnect"@ {
        Some(DeviceMenuOptions::Disconnect)
    } else if option == "Trust"@ {
        Some(DeviceMenuOptions::Trust)
    } else if option == "Revoke trust"@ {
        Some(DeviceMenuOptions::RevokeTrust)
    } else if option == "Forget"@ {
        Some(DeviceMenuOptions::Forget)
    } else {
        None
    }
}

impl DeviceMenuOptions {
    pub fn from_string(option: &str) -> (r: Option<DeviceMenuOptions>)
        ensures
            r == spec_device_menu_from(option@),
    {
        if str_eq(option, "Connect") {
            Some(DeviceMenuOptions::Connect)
        } else if str_eq(option, "Disconnect") {
            Some(DeviceMenuOptions::Disconnect)
        } else if str_eq(option, "Trust") {
            Some(DeviceMenuOptions::Trust)
        } else if str_eq(option, "Revoke trust") {
            Some(DeviceMenuOptions::RevokeTrust)
        } else if str_eq(option, "Forget") {
            Some(DeviceMenuOptions::Forget)
        } else {
            None
        }
    }

    pub fn to_str(&self) -> (r: &'static str)
        ensures
            r@ == spec_device_menu_label(*self),
    {
        match self {
            DeviceMenuOptions::Connect => "Connect",
            DeviceMenuOptions::Disconnect => "Disconnect",
            DeviceMenuOptions::Trust => "Trust",
            DeviceMenuOptions::RevokeTrust => "Revoke trust",
            DeviceMenuOptions::Forget => "Forget",
        }
    }
}

/// Device-action labels round-trip: reading back a rendered label yields
/// exactly the action it was rendered from.
pub proof fn lemma_device_menu_labels_roundtrip(o: DeviceMenuOptions)
    ensures
        spec_device_menu_from(spec_device_menu_label(o)) == Some(o),
{
    reveal_strlit("Connect");
    reveal_strlit("Disconnect");
    reveal_strlit("Trust");
    reveal_strlit("Revoke trust");
    reveal_strlit("Forget");
    assert("Connect"@.len() == 7);
    assert("Disconnect"@.len() == 10);
    assert("Trust"@.len() == 5);
    assert("Revoke trust"@.len() == 12);
    assert("Forget"@.len() == 6);
}

/// An adapter-settings action.
#[derive(Clone, Copy, Debug, PartialEq, Eq, Structural)]
pub enum SettingsMenuOptions {
    ToggleDiscoverable,
    TogglePairable,
    DisableAdapter,
}

/// The label of a settings action as selected (toggles are rendered through
/// their current state's label instead; see the settings-menu builder).
pub open spec fn spec_settings_menu_label(o: SettingsMenuOptions) -> Seq<char> {
    match o {
        SettingsMenuOptions::ToggleDiscoverable => "Toggle discoverable"@,
        SettingsMenuOptions::TogglePairable => "Toggle pairable"@,
        SettingsMenuOptions::DisableAdapter => "Disable adapter"@,
    }
}

/// The settings action a selection names, if any.
pub open spec fn spec_settings_menu_from(option: Seq<char>) -> Option<SettingsMenuOptions> {
    if option == "Toggle discoverable"@ {
        Some(SettingsMenuOptions::ToggleDiscoverable)
    } else if option == "Toggle pairable"@ {
        Some(SettingsMenuOptions::TogglePairable)
    } else if option == "Disable adapter"@ {
        Some(SettingsMenuOptions::DisableAdapter)
    } else {
        None
    }
}

impl SettingsMenuOptions {
    pub fn from_string(option: &str) -> (r: Option<SettingsMenuOptions>)
        ensures
            r == spec_settings_menu_from(option@),
    {
        if str_eq(option, "Toggle discoverable") {
            Some(SettingsMenuOptions::ToggleDiscoverable)
        } else if str_eq(option, "Toggle pairable") {
            Some(SettingsMenuOptions::TogglePairable)
        } else if str_eq(option, "Disable adapter") {
            Some(SettingsMenuOptions::DisableAdapter)
        } else {
            None
        }
    }

    pub fn to_str(&self) -> (r: &'static str)
        ensures
            r@ == spec_settings_menu_label(*self),
    {
        match self {
            SettingsMenuOptions::ToggleDiscoverable => "Toggle discoverable",
            SettingsMenuOptions::TogglePairable => "Toggle pairable",
            SettingsMenuOptions::DisableAdapter => "Disable adapter",
        }
    }
}

/// Settings labels round-trip.
pub proof fn lemma_settings_menu_labels_roundtrip(o: SettingsMenuOptions)
    ensures
        spec_settings_menu_from(spec_settings_menu_label(o)) == Some(o),
{
    reveal_strlit("Toggle discoverable");
    reveal_strlit("Toggle pairable");
    reveal_strlit("Disable adapter");
    assert("Toggle discoverable"@.len() == 19);
    assert("Toggle pairable"@.len() == 15);
    assert("Disable adapter"@.len() == 15);
    assert("Toggle pairable"@[0] == 'T');
    assert("Disable adapter"@[0] == 'D');
}

/// The one action offered while the adapter is powered off.
#[derive(Clone, Copy, Debug, PartialEq, Eq, Structural)]
pub enum AdapterMenuOptions {
    PowerOnDevice,
}

pub open spec fn spec_adapter_menu_label(o: AdapterMenuOptions) -> Seq<char> {
    match o {
        AdapterMenuOptions::PowerOnDevice => "Power on device"@,
    }
}

impl AdapterMenuOptions {
    pub fn from_string(option: &str) -> (r: Option<AdapterMenuOptions>)
        ensures
            r == if option@ == "Power on device"@ {
                Some(AdapterMenuOptions::PowerOnDevice)
            } else {
                None::<AdapterMenuOptions>
            },
    {
        if str_eq(option, "Power on device") {
            Some(AdapterMenuOptions::PowerOnDevice)
        } else {
            None
        }
    }

    pub fn to_str(&self) -> (r: &'static str)
        ensures
            r@ == spec_adapter_menu_label(*self),
    {
        match self {
            AdapterMenuOptions::PowerOnDevice => "Power on device",
        }
    }
}

/// A discoverable/pairable toggle as shown in the settings menu, labeled by
/// the state it would switch to.
#[derive(Clone, Copy, Debug, PartialEq, Eq, Structural)]
pub enum BluetoothMenuOptions {
    EnableDiscoverable,
    DisableDiscoverable,
    EnablePairable,
    DisablePairable,
}

pub open spec fn spec_bluetooth_menu_label(o: BluetoothMenuOptions) -> Seq<char> {
    match o {
        BluetoothMenuOptions::EnableDiscoverable => "Enable discoverable"@,
        BluetoothMenuOptions::DisableDiscoverable => "Disable discoverable"@,
        BluetoothMenuOptions::EnablePairable => "Enable pairable"@,
        BluetoothMenuOptions::DisablePairable => "Disable pairable"@,
    }
}

pub open spec fn spec_bluetooth_menu_from(option: Seq<char>) -> Option<BluetoothMenuOptions> {
    if option == "Enable discoverable"@ {
        Some(BluetoothMenuOptions::EnableDiscoverable)
    } else if option == "Disable discoverable"@ {
        Some(BluetoothMenuOptions::DisableDiscoverable)
    } else if option == "Enable pairable"@ {
        Some(BluetoothMenuOptions::EnablePairable)
    } else if option == "Disable pairable"@ {
        Some(BluetoothMenuOptions::DisablePairable)
    } else {
        None
    }
}

impl BluetoothMenuOptions {
    pub fn from_string(option: &str) -> (r: Option<BluetoothMenuOptions>)
        ensures
            r == spec_bluetooth_menu_from(option@),
    {
        if str_eq(option, "Enable discoverable") {
            Some(BluetoothMenuOptions::EnableDiscoverable)
        } else if str_eq(option, "Disable discoverable") {
            Some(BluetoothMenuOptions::DisableDiscoverable)
        } else if str_eq(option, "Enable pairable") {
            Some(BluetoothMenuOptions::EnablePairable)
        } else if str_eq(option, "Disable pairable") {
            Some(BluetoothMenuOptions::DisablePairable)
        } else {
            None
        }
    }

    pub fn to_str(&self) -> (r: &'static str)
        ensures
            r@ == spec_bluetooth_menu_label(*self),
    {
        match self {
            BluetoothMenuOptions::EnableDiscoverable => "Enable discoverable",
            BluetoothMenuOptions::DisableDiscoverable => "Disable discoverable",
            BluetoothMenuOptions::EnablePairable => "Enable pairable",
            BluetoothMenuOptions::DisablePairable => "Disable pairable",
        }
    }
}

/// Toggle labels round-trip.
pub proof fn lemma_bluetooth_menu_labels_roundtrip(o: BluetoothMenuOptions)
    ensures
        spec_bluetooth_menu_from(spec_bluetooth_menu_label(o)) == Some(o),
{
    reveal_strlit("Enable discoverable");
    reveal_strlit("Disable discoverable");
    reveal_strlit("Enable pairable");
    reveal_strlit("Disable pairable");
    assert("Enable discoverable"@.len() == 19);
    assert("Disable discoverable"@.len() == 20);
    assert("Enable pairable"@.len() == 15);
    assert("Disable pairable"@.len() == 16);
}

/// What a raw launcher selection is reduced to before it is compared with
/// labels: trimmed, with the icon decoration of the given kind stripped.
pub open spec fn spec_clean_menu_output(output: Seq<char>, icon_type: Seq<char>) -> Seq<char> {
    if icon_type == "font"@ {
        spec_trim(spec_drop_while(spec_trim(output), |c: char| !is_ascii_alnum(c)))
    } else if icon_type == "xdg"@ {
        spec_trim(spec_take_while(spec_trim(output), |c: char| c != '\u{0}'))
    } else {
        spec_trim(output)
    }
}

/// The status markers appended to a device's display name: its battery
/// level, then a connected marker, then a trusted marker.
pub open spec fn spec_device_status(icons: Icons, d: Device, icon_type: Seq<char>) -> Seq<char> {
    let battery_part = match d.battery_percentage {
        Some(b) => {
            if icon_type == "font"@ {
                if b <= 100 {
                    " ["@ + icons.spec_get_icon(Icons::spec_battery_key(b)->0, icon_type) + "]"@
                } else {
                    Seq::<char>::empty()
                }
            } else if icon_type == "xdg"@ {
                " ["@ + spec_u8_decimal(b) + "%]"@
            } else {
                Seq::<char>::empty()
            }
        },
        None => Seq::<char>::empty(),
    };
    let connected_part = if d.is_connected {
        " "@ + icons.spec_get_icon("connected"@, "generic"@)
    } else {
        Seq::<char>::empty()
    };
    let trusted_part = if d.is_trusted {
        " "@ + icons.spec_get_icon("trusted"@, "generic"@)
    } else {
        Seq::<char>::empty()
    };
    battery_part + connected_part + trusted_part
}

/// One device line: the alias with its status markers, combined with the
/// device-type icon.
pub open spec fn spec_format_device_display(
    icons: Icons,
    d: Device,
    icon_type: Seq<char>,
    spaces_n: nat,
) -> Seq<char> {
    Icons::spec_display_with_icon(
        d.alias@ + spec_device_status(icons, d, icon_type),
        icons.spec_get_icon(Icons::spec_device_icon_key(d.device_type@), icon_type),
        icon_type,
        spaces_n,
    )
}

/// One line per device, each preceded by a line break.
pub open spec fn spec_device_lines(
    icons: Icons,
    devs: Seq<Device>,
    icon_type: Seq<char>,
    spaces_n: nat,
) -> Seq<char>
    decreases devs.len(),
{
    if devs.len() == 0 {
        Seq::empty()
    } else {
        spec_device_lines(icons, devs.drop_last(), icon_type, spaces_n) + "\n"@
            + spec_format_device_display(icons, devs.last(), icon_type, spaces_n)
    }
}

/// The whole top-level menu text: the scan entry, one line per paired then
/// per new device, and the settings entry.
pub open spec fn spec_main_menu_input(
    icons: Icons,
    c: Controller,
    icon_type: Seq<char>,
    spaces_n: nat,
) -> Seq<char> {
    icons.spec_item_text("scan"@, "Scan"@, icon_type, spaces_n) + spec_device_lines(
        icons,
        c.paired_devices@,
        icon_type,
        spaces_n,
    ) + spec_device_lines(icons, c.new_devices@, icon_type, spaces_n) + "\n"@
        + icons.spec_item_text("settings"@, "Settings"@, icon_type, spaces_n)
}

/// The settings-menu text: the discoverable toggle labeled by the state it
/// would switch to, the pairable toggle likewise, and the disable entry.
pub open spec fn spec_settings_menu_input(
    icons: Icons,
    is_discoverable: bool,
    is_pairable: bool,
    icon_type: Seq<char>,
    spaces_n: nat,
) -> Seq<char> {
    let discoverable = if is_discoverable {
        ("disable_discoverable"@, "Disable discoverable"@)
    } else {
        ("enable_discoverable"@, "Enable discoverable"@)
    };
    let pairable = if is_pairable {
        ("disable_pairable"@, "Disable pairable"@)
    } else {
        ("enable_pairable"@, "Enable pairable"@)
    };
    icons.spec_icon_text(
        seq![discoverable, pairable, ("disable_adapter"@, "Disable adapter"@)],
        icon_type,
        spaces_n,
    )
}

/// The settings action a cleaned selection names, given which toggle labels
/// the menu was rendered with.
pub open spec fn spec_settings_selection(
    cleaned: Seq<char>,
    is_discoverable: bool,
    is_pairable: bool,
) -> Option<SettingsMenuOptions> {
    let discoverable_label = if is_discoverable {
        "Disable discoverable"@
    } else {
        "Enable discoverable"@
    };
    let pairable_label = if is_pairable {
        "Disable pairable"@
    } else {
        "Enable pairable"@
    };
    if cleaned == discoverable_label {
        Some(SettingsMenuOptions::ToggleDiscoverable)
    } else if cleaned == pairable_label {
        Some(SettingsMenuOptions::TogglePairable)
    } else if cleaned == "Disable adapter"@ {
        Some(SettingsMenuOptions::DisableAdapter)
    } else {
        None
    }
}

/// The icon-table key of a device action.
pub open spec fn spec_device_option_key(o: DeviceMenuOptions) -> Seq<char> {
    match o {
        DeviceMenuOptions::Connect => "connect"@,
        DeviceMenuOptions::Disconnect => "disconnect"@,
        DeviceMenuOptions::Trust => "trust"@,
        DeviceMenuOptions::RevokeTrust => "revoke_trust"@,
        DeviceMenuOptions::Forget => "forget"@,
    }
}

/// The device-menu text: one line per offered action, each ending in a line
/// break.
pub open spec fn spec_device_options_input(
    icons: Icons,
    options: Seq<DeviceMenuOptions>,
    icon_type: Seq<char>,
    spaces_n: nat,
) -> Seq<char>
    decreases options.len(),
{
    if options.len() == 0 {
        Seq::empty()
    } else {
        spec_device_options_input(icons, options.drop_last(), icon_type, spaces_n)
            + icons.spec_item_text(
            spec_device_option_key(options.last()),
            spec_device_menu_label(options.last()),
            icon_type,
            spaces_n,
        ) + "\n"@
    }
}

/// The actions offered for a paired device: disconnect or connect by its
/// connection state, revoke trust or trust by its trust state, and forget.
pub open spec fn spec_paired_device_options(d: Device) -> Seq<DeviceMenuOptions> {
    seq![
        if d.is_connected {
            DeviceMenuOptions::Disconnect
        } else {
            DeviceMenuOptions::Connect
        },
        if d.is_trusted {
            DeviceMenuOptions::RevokeTrust
        } else {
            DeviceMenuOptions::Trust
        },
        DeviceMenuOptions::Forget,
    ]
}

/// The menu texts and selection parsing around the external picker. The
/// picker process itself is outside the core: these functions only build the
/// exact text handed to it and reduce what it hands back.
pub struct Menu {
    pub icons: Icons,
}

impl Menu {
    pub fn new(icons: Icons) -> (m: Menu)
        ensures
            m.icons == icons,
    {
        Menu { icons }
    }

    /// Reduce a raw selection: trim it and strip the icon decoration of the
    /// given kind.
    pub fn clean_menu_output(&self, output: &str, icon_type: &str) -> (r: String)
        ensures
            r@ == spec_clean_menu_output(output@, icon_type@),
    {
        if str_eq(icon_type, "font") {
            let trimmed = trim_str(output);
            let skipped = skip_to_ascii_alnum(trimmed.as_str());
            trim_str(skipped.as_str())
        } else if str_eq(icon_type, "xdg") {
            let trimmed = trim_str(output);
            let head = before_char(trimmed.as_str(), '\u{0}');
            trim_str(head.as_str())
        } else {
            trim_str(output)
        }
    }

    /// Render one line per labeled item, joined with line breaks.
    pub fn get_icon_text(&self, items: Vec<(&str, &str)>, icon_type: &str, spaces_n: usize) -> (r:
        String)
        ensures
            r@ == self.icons.spec_icon_text(item_views(items@), icon_type@, spaces_n as nat),
    {
        self.icons.get_icon_text(items, icon_type, spaces_n)
    }

    /// One device line for the top-level menu.
    pub fn format_device_display(&self, device: &Device, icon_type: &str, spaces_n: usize) -> (r:
        String)
        ensures
            r@ == spec_format_device_display(self.icons, *device, icon_type@, spaces_n as nat),
    {
        let mut display_name = device.alias.clone();
        let mut status = String::new();
        if let Some(battery) = device.battery_percentage {
            if str_eq(icon_type, "font") {
                if let Some(battery_icon) = self.icons.get_battery_icon(battery, icon_type) {
                    status.append(" [");
                    status.append(battery_icon.as_str());
                    status.append("]");
                }
            } else if str_eq(icon_type, "xdg") {
                status.append(" [");
                let level = u8_decimal(battery);
                status.append(level.as_str());
                status.append("%]");
            }
        }
        if device.is_connected {
            status.append(" ");
            let marker = self.icons.get_icon("connected", "generic");
            status.append(marker.as_str());
        }
        if device.is_trusted {
            status.append(" ");
            let marker = self.icons.get_icon("trusted", "generic");
            status.append(marker.as_str());
        }
        display_name.append(status.as_str());
        proof {
            assert(display_name@ =~= device.alias@ + spec_device_status(
                self.icons,
                *device,
                icon_type@,
            ));
        }
        let icon = self.icons.get_device_icon(device.device_type.as_str(), icon_type);
        self.icons.format_display_with_icon(
            display_name.as_str(),
            icon.as_str(),
            icon_type,
            spaces_n,
        )
    }

    /// The whole top-level menu text for the controller's current state.
    pub fn build_main_menu_input(&self, controller: &Controller, icon_type: &str, spaces_n: usize)
        -> (r: String)
        ensures
            r@ == spec_main_menu_input(self.icons, *controller, icon_type@, spaces_n as nat),
    {
        let scan_items: Vec<(&str, &str)> = vec![("scan", "Scan")];
        let ghost scan_views = scan_items@;
        let mut input = self.icons.get_icon_text(scan_items, icon_type, spaces_n);
        proof {
            assert(item_views(scan_views) =~= seq![("scan"@, "Scan"@)]);
            assert(input@ == self.icons.spec_item_text(
                "scan"@,
                "Scan"@,
                icon_type@,
                spaces_n as nat,
            ));
        }
        let ghost base = input@;
        let mut i: usize = 0;
        while i < controller.paired_devices.len()
            invariant
                i <= controller.paired_devices@.len(),
                input@ == base + spec_device_lines(
                    self.icons,
                    controller.paired_devices@.take(i as int),
                    icon_type@,
                    spaces_n as nat,
                ),
            decreases controller.paired_devices@.len() - i,
        {
            input.append("\n");
            let line = self.format_device_display(&controller.paired_devices[i], icon_type, spaces_n);
            input.append(line.as_str());
            proof {
                assert(controller.paired_devices@.take(i as int + 1).drop_last()
                    =~= controller.paired_devices@.take(i as int));
            }
            i += 1;
        }
        proof {
            assert(controller.paired_devices@.take(controller.paired_devices@.len() as int)
                =~= controller.paired_devices@);
        }
        let ghost base2 = input@;
        let mut j: usize = 0;
        while j < controller.new_devices.len()
            invariant
                j <= controller.new_devices@.len(),
                input@ == base2 + spec_device_lines(
                    self.icons,
                    controller.new_devices@.take(j as int),
                    icon_type@,
                    spaces_n as nat,
                ),
            decreases controller.new_devices@.len() - j,
        {
            input.append("\n");
            let line = self.format_device_display(&controller.new_devices[j], icon_type, spaces_n);
            input.append(line.as_str());
            proof {
                assert(controller.new_devices@.take(j as int + 1).drop_last()
                    =~= controller.new_devices@.take(j as int));
            }
            j += 1;
        }
        proof {
            assert(controller.new_devices@.take(controller.new_devices@.len() as int)
                =~= controller.new_devices@);
        }
        input.append("\n");
        let settings_items: Vec<(&str, &str)> = vec![("settings", "Settings")];
        let ghost settings_views = settings_items@;
        let settings_line = self.icons.get_icon_text(settings_items, icon_type, spaces_n);
        input.append(settings_line.as_str());
        proof {
            assert(item_views(settings_views) =~= seq![("settings"@, "Settings"@)]);
            assert(input@ =~= spec_main_menu_input(
                self.icons,
                *controller,
                icon_type@,
                spaces_n as nat,
            ));
        }
        input
    }

    /// The settings-menu text for the controller's current state.
    pub fn build_settings_menu_input(
        &self,
        controller: &Controller,
        icon_type: &str,
        spaces_n: usize,
    ) -> (r: String)
        ensures
            r@ == spec_settings_menu_input(
                self.icons,
                controller.is_discoverable,
                controller.is_pairable,
                icon_type@,
                spaces_n as nat,
            ),
    {
        let discoverable: (&str, &str) = if controller.is_discoverable {
            ("disable_discoverable", "Disable discoverable")
        } else {
            ("enable_discoverable", "Enable discoverable")
        };
        let pairable: (&str, &str) = if controller.is_pairable {
            ("disable_pairable", "Disable pairable")
        } else {
            ("enable_pairable", "Enable pairable")
        };
        let items: Vec<(&str, &str)> = vec![
            discoverable,
            pairable,
            ("disable_adapter", "Disable adapter"),
        ];
        let ghost items_v = items@;
        let r = self.icons.get_icon_text(items, icon_type, spaces_n);
        proof {
            let d = if controller.is_discoverable {
                ("disable_discoverable"@, "Disable discoverable"@)
            } else {
                ("enable_discoverable"@, "Enable discoverable"@)
            };
            let p = if controller.is_pairable {
                ("disable_pairable"@, "Disable pairable"@)
            } else {
                ("enable_pairable"@, "Enable pairable"@)
            };
            assert(item_views(items_v) =~= seq![d, p, ("disable_adapter"@, "Disable adapter"@)]);
        }
        r
    }

    /// The settings action a cleaned selection names, given the controller
    /// state the menu was rendered from.
    pub fn parse_settings_selection(
        &self,
        cleaned: &str,
        is_discoverable: bool,
        is_pairable: bool,
    ) -> (r: Option<SettingsMenuOptions>)
        ensures
            r == spec_settings_selection(cleaned@, is_discoverable, is_pairable),
    {
        let discoverable_label: &str = if is_discoverable {
            "Disable discoverable"
        } else {
            "Enable discoverable"
        };
        let pairable_label: &str = if is_pairable {
            "Disable pairable"
        } else {
            "Enable pairable"
        };
        if str_eq(cleaned, discoverable_label) {
            Some(SettingsMenuOptions::ToggleDiscoverable)
        } else if str_eq(cleaned, pairable_label) {
            Some(SettingsMenuOptions::TogglePairable)
        } else if str_eq(cleaned, "Disable adapter") {
            Some(SettingsMenuOptions::DisableAdapter)
        } else {
            None
        }
    }

    /// The device-menu text for the offered actions.
    pub fn build_device_options_input(
        &self,
        options: &Vec<DeviceMenuOptions>,
        icon_type: &str,
        spaces_n: usize,
    ) -> (r: String)
        ensures
            r@ == spec_device_options_input(self.icons, options@, icon_type@, spaces_n as nat),
    {
        let mut input = String::new();
        let mut i: usize = 0;
        while i < options.len()
            invariant
                i <= options@.len(),
                input@ == spec_device_options_input(
                    self.icons,
                    options@.take(i as int),
                    icon_type@,
                    spaces_n as nat,
                ),
            decreases options@.len() - i,
        {
            let option = options[i];
            let icon_key: &str = match option {
                DeviceMenuOptions::Connect => "connect",
                DeviceMenuOptions::Disconnect => "disconnect",
                DeviceMenuOptions::Trust => "trust",
                DeviceMenuOptions::RevokeTrust => "revoke_trust",
                DeviceMenuOptions::Forget => "forget",
            };
            let label = option.to_str();
            let line_items: Vec<(&str, &str)> = vec![(icon_key, label)];
            let ghost line_views = line_items@;
            let line = self.icons.get_icon_text(line_items, icon_type, spaces_n);
            input.append(line.as_str());
            input.append("\n");
            proof {
                assert(item_views(line_views) =~= seq![(icon_key@, label@)]);
                assert(options@.take(i as int + 1).drop_last() =~= options@.take(i as int));
            }
            i += 1;
        }
        proof {
            assert(options@.take(options@.len() as int) =~= options@);
        }
        input
    }

    /// The actions offered for a paired device.
    pub fn get_paired_device_options(&self, device: &Device) -> (r: Vec<DeviceMenuOptions>)
        ensures
            r@ == spec_paired_device_options(*device),
    {
        let mut options: Vec<DeviceMenuOptions> = Vec::new();
        if device.is_connected {
            options.push(DeviceMenuOptions::Disconnect);
        } else {
            options.push(DeviceMenuOptions::Connect);
        }
        if device.is_trusted {
            options.push(DeviceMenuOptions::RevokeTrust);
        } else {
            options.push(DeviceMenuOptions::Trust);
        }
        options.push(DeviceMenuOptions::Forget);
        proof {
            assert(options@ =~= spec_paired_device_options(*device));
        }
        options
    }

    /// The first listed device whose rendered, cleaned menu line equals the
    /// cleaned selection, by index; none when no line matches.
    pub fn find_device_by_display(
        &self,
        devices: &Vec<Device>,
        cleaned: &str,
        icon_type: &str,
        spaces_n: usize,
    ) -> (r: Option<usize>)
        ensures
            r matches Some(i) ==> {
                &&& i < devices@.len()
                &&& spec_clean_menu_output(
                    spec_format_device_display(
                        self.icons,
                        devices@[i as int],
                        icon_type@,
                        spaces_n as nat,
                    ),
                    icon_type@,
                ) == cleaned@
                &&& forall|j: int|
                    0 <= j < i ==> spec_clean_menu_output(
                        spec_format_device_display(
                            self.icons,
                            #[trigger] devices@[j],
                            icon_type@,
                            spaces_n as nat,
                        ),
                        icon_type@,
                    ) != cleaned@
            },
            r is None ==> forall|j: int|
                0 <= j < devices@.len() ==> spec_clean_menu_output(
                    spec_format_device_display(
                        self.icons,
                        #[trigger] devices@[j],
                        icon_type@,
                        spaces_n as nat,
                    ),
                    icon_type@,
                ) != cleaned@,
    {
        let mut i: usize = 0;
        while i < devices.len()
            invariant
                i <= devices@.len(),
                forall|j: int|
                    0 <= j < i ==> spec_clean_menu_output(
                        spec_format_device_display(
                            self.icons,
                            #[trigger] devices@[j],
                            icon_type@,
                            spaces_n as nat,
                        ),
                        icon_type@,
                    ) != cleaned@,
            decreases devices@.len() - i,
        {
            let line = self.format_device_display(&devices[i], icon_type, spaces_n);
            let line_cleaned = self.clean_menu_output(line.as_str(), icon_type);
            if str_eq(line_cleaned.as_str(), cleaned) {
                return Some(i);
            }
            i += 1;
        }
        None
    }

    /// Whether a cleaned prompt selection confirms the passkey.
    pub fn parse_passkey_confirmation(&self, cleaned: &str) -> (r: bool)
        ensures
            r == (cleaned@ == "Confirm"@),
    {
        str_eq(cleaned, "Confirm")
    }
}

} // verus!
