use vstd::prelude::*;

use crate::strutil::str_eq;

verus! {

// Service identifiers (full 128-bit form) that decide a device type.
pub const UUID_AV_REMOTE_CONTROL: u128 = 0x0000110b_0000_1000_8000_00805f9b34fb;
pub const UUID_AV_REMOTE_TARGET: u128 = 0x0000110c_0000_1000_8000_00805f9b34fb;
pub const UUID_AV_REMOTE_CONTROLLER: u128 = 0x0000110e_0000_1000_8000_00805f9b34fb;
pub const UUID_ADVANCED_AUDIO: u128 = 0x0000110f_0000_1000_8000_00805f9b34fb;
pub const UUID_HEADSET: u128 = 0x00001112_0000_1000_8000_00805f9b34fb;
pub const UUID_AVCTP: u128 = 0x00001117_0000_1000_8000_00805f9b34fb;
pub const UUID_PHONEBOOK_SERVER: u128 = 0x00001131_0000_1000_8000_00805f9b34fb;
pub const UUID_MESSAGE_ACCESS: u128 = 0x00001132_0000_1000_8000_00805f9b34fb;
pub const UUID_HID: u128 = 0x00001124_0000_1000_8000_00805f9b34fb;
pub const UUID_HID_OVER_GATT: u128 = 0x00001812_0000_1000_8000_00805f9b34fb;
pub const UUID_HEART_RATE: u128 = 0x0000180d_0000_1000_8000_00805f9b34fb;
pub const UUID_BATTERY_SERVICE: u128 = 0x0000180f_0000_1000_8000_00805f9b34fb;

/// The type tag decided by the class-of-device value, when its major (and
/// where needed minor) class identifies one.
pub open spec fn spec_class_type(class_value: u32) -> Option<Seq<char>> {
    let major = (class_value >> 8) & 0x1F;
    let minor = (class_value >> 2) & 0x3F;
    if major == 0x01 {
        Some("computer"@)
    } else if major == 0x02 {
        if minor == 0x02 {
            Some("modem"@)
        } else if minor == 0x04 || minor == 0x05 {
            Some("computer"@)
        } else if minor == 0x06 {
            Some("laptop"@)
        } else if minor == 0x07 {
            Some("tablet"@)
        } else {
            Some("phone"@)
        }
    } else if major == 0x03 {
        Some("network"@)
    } else if major == 0x04 {
        if minor == 0x01 || minor == 0x02 || minor == 0x06 {
            Some("headphones"@)
        } else if minor == 0x04 {
            Some("microphone"@)
        } else if minor == 0x05 || minor == 0x08 || minor == 0x0A {
            Some("speaker"@)
        } else if minor == 0x09 {
            Some("tv"@)
        } else {
            Some("audio"@)
        }
    } else if major == 0x05 {
        if minor == 0x01 {
            Some("keyboard"@)
        } else if minor == 0x02 || minor == 0x07 {
            Some("mouse"@)
        } else if minor == 0x03 {
            Some("trackball"@)
        } else if minor == 0x04 {
            Some("joystick"@)
        } else if minor == 0x05 {
            Some("gamepad"@)
        } else if minor == 0x06 {
            Some("tablet"@)
        } else if minor == 0x08 {
            Some("pen"@)
        } else {
            Some("peripheral"@)
        }
    } else if major == 0x06 {
        if minor == 0x01 || minor == 0x02 {
            Some("printer"@)
        } else if minor == 0x04 || minor == 0x08 {
            Some("camera"@)
        } else if minor == 0x10 {
            Some("display"@)
        } else if minor == 0x20 {
            Some("tv"@)
        } else {
            Some("imaging"@)
        }
    } else if major == 0x07 {
        if minor == 0x01 {
            Some("watch"@)
        } else if minor == 0x02 {
            Some("glasses"@)
        } else if minor == 0x04 {
            Some("headphones"@)
        } else {
            Some("wearable"@)
        }
    } else {
        None
    }
}

/// The type tag decided by the advertised appearance value, when it names one.
pub open spec fn spec_appearance_type(appearance: u16) -> Option<Seq<char>> {
    if appearance == 64 {
        Some("phone"@)
    } else if appearance == 128 {
        Some("computer"@)
    } else if appearance == 192 {
        Some("watch"@)
    } else if appearance == 256 {
        Some("display"@)
    } else if appearance == 512 {
        Some("remote"@)
    } else if appearance == 576 || appearance == 1152 {
        Some("scanner"@)
    } else if appearance == 640 {
        Some("tag"@)
    } else if appearance == 704 {
        Some("keyring"@)
    } else if appearance == 768 {
        Some("media"@)
    } else if appearance == 832 {
        Some("barcode"@)
    } else if appearance == 896 {
        Some("thermometer"@)
    } else if appearance == 960 {
        Some("peripheral"@)
    } else if appearance == 961 {
        Some("keyboard"@)
    } else if appearance == 962 {
        Some("mouse"@)
    } else if appearance == 963 {
        Some("joystick"@)
    } else if appearance == 964 {
        Some("gamepad"@)
    } else if appearance == 976 {
        Some("digitizer"@)
    } else if appearance == 1024 {
        Some("reader"@)
    } else if appearance == 1088 {
        Some("pen"@)
    } else if appearance == 1216 || appearance == 1344 {
        Some("speaker"@)
    } else if appearance == 1280 {
        Some("headphones"@)
    } else if appearance == 1408 {
        Some("microphone"@)
    } else if appearance == 1472 {
        Some("audio"@)
    } else if 1600 <= appearance && appearance <= 1663 {
        Some("health"@)
    } else if 1664 <= appearance && appearance <= 1727 {
        Some("sensor"@)
    } else {
        None
    }
}

/// The type tag a single advertised service identifier decides, if any.
pub open spec fn spec_uuid_type(uuid: u128) -> Option<Seq<char>> {
    if uuid == UUID_AV_REMOTE_CONTROL {
        Some("audio"@)
    } else if uuid == UUID_AV_REMOTE_TARGET || uuid == UUID_AV_REMOTE_CONTROLLER || uuid
        == UUID_HEADSET || uuid == UUID_PHONEBOOK_SERVER {
        Some("headphones"@)
    } else if uuid == UUID_ADVANCED_AUDIO || uuid == UUID_AVCTP {
        Some("speaker"@)
    } else if uuid == UUID_MESSAGE_ACCESS {
        Some("phone"@)
    } else if uuid == UUID_HID {
        Some("keyboard"@)
    } else if uuid == UUID_HID_OVER_GATT {
        Some("peripheral"@)
    } else if uuid == UUID_HEART_RATE {
        Some("health"@)
    } else if uuid == UUID_BATTERY_SERVICE {
        Some("battery"@)
    } else {
        None
    }
}

/// The first service identifier in order that decides a type, if any does.
pub open spec fn spec_uuid_scan(uuids: Seq<u128>) -> Option<Seq<char>>
    decreases uuids.len(),
{
    if uuids.len() == 0 {
        None
    } else if spec_uuid_type(uuids[0]) is Some {
        spec_uuid_type(uuids[0])
    } else {
        spec_uuid_scan(uuids.drop_first())
    }
}

/// The type tag derived from the platform's icon name: a known icon name maps
/// to its tag, any other icon name is taken verbatim as the tag.
pub open spec fn spec_icon_type(icon: Seq<char>) -> Seq<char> {
    if icon == "audio-card"@ || icon == "audio-speakers"@ {
        "speaker"@
    } else if icon == "audio-headphones"@ || icon == "audio-headset"@ {
        "headphones"@
    } else if icon == "input-keyboard"@ {
        "keyboard"@
    } else if icon == "input-mouse"@ {
        "mouse"@
    } else if icon == "input-gaming"@ || icon == "input-joystick"@ {
        "gamepad"@
    } else if icon == "phone"@ {
        "phone"@
    } else if icon == "computer"@ {
        "computer"@
    } else if icon == "computer-laptop"@ {
        "laptop"@
    } else if icon == "video-display"@ || icon == "tv"@ {
        "tv"@
    } else {
        icon
    }
}

/// The classification priority chain: class of device first, then appearance,
/// then service identifiers, then the platform icon name, then the literal
/// fallback. An earlier signal that yields a non-empty answer always wins;
/// an empty icon name is no answer, so it too falls to the fallback.
pub open spec fn spec_device_type(
    class_of_device: Option<u32>,
    appearance: Option<u16>,
    service_uuids: Option<Seq<u128>>,
    icon: Option<Seq<char>>,
) -> Seq<char> {
    if class_of_device is Some && spec_class_type(class_of_device->0) is Some {
        spec_class_type(class_of_device->0)->0
    } else if appearance is Some && spec_appearance_type(appearance->0) is Some {
        spec_appearance_type(appearance->0)->0
    } else if service_uuids is Some && spec_uuid_scan(service_uuids->0) is Some {
        spec_uuid_scan(service_uuids->0)->0
    } else if icon is Some && icon->0.len() > 0 {
        spec_icon_type(icon->0)
    } else {
        "device"@
    }
}

/// The service-identifier list as a mathematical value, absent when the
/// property was absent.
pub open spec fn opt_uuids_view(v: Option<Vec<u128>>) -> Option<Seq<u128>> {
    match v {
        Some(u) => Some(u@),
        None => None,
    }
}

/// An optional string as a mathematical value.
pub open spec fn opt_string_view(s: Option<String>) -> Option<Seq<char>> {
    match s {
        Some(x) => Some(x@),
        None => None,
    }
}

/// An icon name as the snapshot holds it: present exactly when the platform
/// reported a non-empty name; an empty read carries no information and is
/// treated as absent.
pub open spec fn spec_icon_name(raw: Option<String>) -> Option<String> {
    match raw {
        Some(s) => if s@.len() > 0 {
            Some(s)
        } else {
            None
        },
        None => None,
    }
}

/// A battery percentage as the snapshot holds it: a charge of at most one
/// hundred percent, or absent; a platform reading above one hundred is
/// nonsense and treated as not reported.
pub open spec fn spec_battery_level(raw: Option<u8>) -> Option<u8> {
    match raw {
        Some(p) => if p <= 100 {
            Some(p)
        } else {
            None
        },
        None => None,
    }
}

/// The raw property set read from the platform for one peripheral. A property
/// whose read failed is absent, which classification treats the same as a
/// property the device does not advertise.
pub struct DeviceProps {
    /// The peripheral's stable 48-bit address.
    pub address: u64,
    pub alias: String,
    pub icon: Option<String>,
    pub class_of_device: Option<u32>,
    pub appearance: Option<u16>,
    pub service_uuids: Option<Vec<u128>>,
    pub is_paired: bool,
    pub is_trusted: bool,
    pub is_connected: bool,
    pub battery_percentage: Option<u8>,
}

/// An immutable-per-refresh snapshot of one peripheral: its properties and
/// the derived type classification. Constructed fresh on every enumeration
/// and never mutated in place.
pub struct Device {
    /// The peripheral's stable 48-bit address, the unique key.
    pub addr: u64,
    pub alias: String,
    /// The platform's icon name, when it reported a non-empty one (the
    /// constructor drops an empty read).
    pub icon: Option<String>,
    /// The derived type tag.
    pub device_type: String,
    pub is_paired: bool,
    pub is_trusted: bool,
    pub is_connected: bool,
    /// The last reported charge, zero to one hundred percent, when the
    /// peripheral reports one (the constructor drops anything larger).
    pub battery_percentage: Option<u8>,
}

impl Device {
    /// Build the snapshot for one peripheral from its raw properties:
    /// deriving the type classification, keeping the icon name only when it
    /// is non-empty, and bounding the battery reading to the
    /// zero-to-one-hundred range the data model allows.
    pub fn new(props: DeviceProps) -> (d: Device)
        ensures
            d.addr == props.address,
            d.alias == props.alias,
            d.icon == spec_icon_name(props.icon),
            d.icon matches Some(s) ==> s@.len() > 0,
            d.is_paired == props.is_paired,
            d.is_trusted == props.is_trusted,
            d.is_connected == props.is_connected,
            d.battery_percentage == spec_battery_level(props.battery_percentage),
            d.battery_percentage matches Some(p) ==> p <= 100,
            d.device_type@ == spec_device_type(
                props.class_of_device,
                props.appearance,
                opt_uuids_view(props.service_uuids),
                opt_string_view(props.icon),
            ),
    {
        let device_type = Device::determine_device_type(
            props.class_of_device,
            props.appearance,
            &props.service_uuids,
            &props.icon,
        );
        let icon = match props.icon {
            Some(s) => if s.as_str().is_empty() {
                None
            } else {
                Some(s)
            },
            None => None,
        };
        let battery_percentage = match props.battery_percentage {
            Some(p) => if p <= 100 {
                Some(p)
            } else {
                None
            },
            None => None,
        };
        Device {
            addr: props.address,
            alias: props.alias,
            icon,
            device_type,
            is_paired: props.is_paired,
            is_trusted: props.is_trusted,
            is_connected: props.is_connected,
            battery_percentage,
        }
    }

    /// Evaluate the classification priority chain on the raw signals.
    pub fn determine_device_type(
        class_of_device: Option<u32>,
        appearance: Option<u16>,
        service_uuids: &Option<Vec<u128>>,
        icon: &Option<String>,
    ) -> (r: String)
        ensures
            r@ == spec_device_type(
                class_of_device,
                appearance,
                opt_uuids_view(*service_uuids),
                opt_string_view(*icon),
            ),
    {
        if let Some(class_value) = class_of_device {
            if let Some(tag) = class_type(class_value) {
                return tag.to_owned();
            }
        }
        if let Some(appearance_value) = appearance {
            if let Some(tag) = appearance_type(appearance_value) {
                return tag.to_owned();
            }
        }
        if let Some(uuids) = service_uuids {
            proof {
                assert(*service_uuids == Some(*uuids));
                assert(uuids@.skip(0) =~= uuids@);
            }
            let mut i: usize = 0;
            while i < uuids.len()
                invariant
                    *service_uuids == Some(*uuids),
                    class_of_device matches Some(c) ==> spec_class_type(c) is None,
                    appearance matches Some(a) ==> spec_appearance_type(a) is None,
                    i <= uuids@.len(),
                    spec_uuid_scan(uuids@) == spec_uuid_scan(uuids@.skip(i as int)),
                decreases uuids@.len() - i,
            {
                if let Some(tag) = uuid_type(uuids[i]) {
                    proof {
                        assert(uuids@.skip(i as int).len() > 0);
                        assert(uuids@.skip(i as int)[0] == uuids@[i as int]);
                        assert(spec_uuid_scan(uuids@.skip(i as int)) == spec_uuid_type(
                            uuids@[i as int],
                        ));
                        assert(opt_uuids_view(*service_uuids) == Some(uuids@));
                        assert(spec_uuid_scan(uuids@) is Some);
                    }
                    return tag.to_owned();
                }
                proof {
                    assert(uuids@.skip(i as int).drop_first() =~= uuids@.skip(i as int + 1));
                }
                i += 1;
            }
        }
        if let Some(icon_name) = icon {
            if !icon_name.as_str().is_empty() {
                return icon_type(icon_name);
            }
        }
        "device".to_owned()
    }
}

fn class_type(class_value: u32) -> (r: Option<&'static str>)
    ensures
        r is Some <==> spec_class_type(class_value) is Some,
        r matches Some(tag) ==> tag@ == spec_class_type(class_value)->0,
{
    let major = (class_value >> 8) & 0x1F;
    let minor = (class_value >> 2) & 0x3F;
    match major {
        0x01 => Some("computer"),
        0x02 => match minor {
            0x02 => Some("modem"),
            0x04 | 0x05 => Some("computer"),
            0x06 => Some("laptop"),
            0x07 => Some("tablet"),
            _ => Some("phone"),
        },
        0x03 => Some("network"),
        0x04 => match minor {
            0x01 | 0x02 | 0x06 => Some("headphones"),
            0x04 => Some("microphone"),
            0x05 | 0x08 | 0x0A => Some("speaker"),
            0x09 => Some("tv"),
            _ => Some("audio"),
        },
        0x05 => match minor {
            0x01 => Some("keyboard"),
            0x02 | 0x07 => Some("mouse"),
            0x03 => Some("trackball"),
            0x04 => Some("joystick"),
            0x05 => Some("gamepad"),
            0x06 => Some("tablet"),
            0x08 => Some("pen"),
            _ => Some("peripheral"),
        },
        0x06 => match minor {
            0x01 | 0x02 => Some("printer"),
            0x04 | 0x08 => Some("camera"),
            0x10 => Some("display"),
            0x20 => Some("tv"),
            _ => Some("imaging"),
        },
        0x07 => match minor {
            0x01 => Some("watch"),
            0x02 => Some("glasses"),
            0x04 => Some("headphones"),
            _ => Some("wearable"),
        },
        _ => None,
    }
}

fn appearance_type(appearance: u16) -> (r: Option<&'static str>)
    ensures
        r is Some <==> spec_appearance_type(appearance) is Some,
        r matches Some(tag) ==> tag@ == spec_appearance_type(appearance)->0,
{
    if appearance == 64 {
        Some("phone")
    } else if appearance == 128 {
        Some("computer")
    } else if appearance == 192 {
        Some("watch")
    } else if appearance == 256 {
        Some("display")
    } else if appearance == 512 {
        Some("remote")
    } else if appearance == 576 || appearance == 1152 {
        Some("scanner")
    } else if appearance == 640 {
        Some("tag")
    } else if appearance == 704 {
        Some("keyring")
    } else if appearance == 768 {
        Some("media")
    } else if appearance == 832 {
        Some("barcode")
    } else if appearance == 896 {
        Some("thermometer")
    } else if appearance == 960 {
        Some("peripheral")
    } else if appearance == 961 {
        Some("keyboard")
    } else if appearance == 962 {
        Some("mouse")
    } else if appearance == 963 {
        Some("joystick")
    } else if appearance == 964 {
        Some("gamepad")
    } else if appearance == 976 {
        Some("digitizer")
    } else if appearance == 1024 {
        Some("reader")
    } else if appearance == 1088 {
        Some("pen")
    } else if appearance == 1216 || appearance == 1344 {
        Some("speaker")
    } else if appearance == 1280 {
        Some("headphones")
    } else if appearance == 1408 {
        Some("microphone")
    } else if appearance == 1472 {
        Some("audio")
    } else if 1600 <= appearance && appearance <= 1663 {
        Some("health")
    } else if 1664 <= appearance && appearance <= 1727 {
        Some("sensor")
    } else {
        None
    }
}

fn uuid_type(uuid: u128) -> (r: Option<&'static str>)
    ensures
        r is Some <==> spec_uuid_type(uuid) is Some,
        r matches Some(tag) ==> tag@ == spec_uuid_type(uuid)->0,
{
    if uuid == UUID_AV_REMOTE_CONTROL {
        Some("audio")
    } else if uuid == UUID_AV_REMOTE_TARGET || uuid == UUID_AV_REMOTE_CONTROLLER || uuid
        == UUID_HEADSET || uuid == UUID_PHONEBOOK_SERVER {
        Some("headphones")
    } else if uuid == UUID_ADVANCED_AUDIO || uuid == UUID_AVCTP {
        Some("speaker")
    } else if uuid == UUID_MESSAGE_ACCESS {
        Some("phone")
    } else if uuid == UUID_HID {
        Some("keyboard")
    } else if uuid == UUID_HID_OVER_GATT {
        Some("peripheral")
    } else if uuid == UUID_HEART_RATE {
        Some("health")
    } else if uuid == UUID_BATTERY_SERVICE {
        Some("battery")
    } else {
        None
    }
}

fn icon_type(icon: &String) -> (r: String)
    ensures
        r@ == spec_icon_type(icon@),
{
    if str_eq(icon.as_str(), "audio-card") || str_eq(icon.as_str(), "audio-speakers") {
        "speaker".to_owned()
    } else if str_eq(icon.as_str(), "audio-headphones") || str_eq(icon.as_str(), "audio-headset") {
        "headphones".to_owned()
    } else if str_eq(icon.as_str(), "input-keyboard") {
        "keyboard".to_owned()
    } else if str_eq(icon.as_str(), "input-mouse") {
        "mouse".to_owned()
    } else if str_eq(icon.as_str(), "input-gaming") || str_eq(icon.as_str(), "input-joystick") {
        "gamepad".to_owned()
    } else if str_eq(icon.as_str(), "phone") {
        "phone".to_owned()
    } else if str_eq(icon.as_str(), "computer") {
        "computer".to_owned()
    } else if str_eq(icon.as_str(), "computer-laptop") {
        "laptop".to_owned()
    } else if str_eq(icon.as_str(), "video-display") || str_eq(icon.as_str(), "tv") {
        "tv".to_owned()
    } else {
        icon.as_str().to_owned()
    }
}

/// Every tag the class-of-device table yields is non-empty.
proof fn lemma_class_type_nonempty(class_value: u32)
    ensures
        spec_class_type(class_value) matches Some(t) ==> t.len() > 0,
{
    reveal_strlit("computer");
    reveal_strlit("modem");
    reveal_strlit("laptop");
    reveal_strlit("tablet");
    reveal_strlit("phone");
    reveal_strlit("network");
    reveal_strlit("headphones");
    reveal_strlit("microphone");
    reveal_strlit("speaker");
    reveal_strlit("tv");
    reveal_strlit("audio");
    reveal_strlit("keyboard");
    reveal_strlit("mouse");
    reveal_strlit("trackball");
    reveal_strlit("joystick");
    reveal_strlit("gamepad");
    reveal_strlit("pen");
    reveal_strlit("peripheral");
    reveal_strlit("printer");
    reveal_strlit("camera");
    reveal_strlit("display");
    reveal_strlit("imaging");
    reveal_strlit("watch");
    reveal_strlit("glasses");
    reveal_strlit("wearable");
}

/// Every tag the appearance table yields is non-empty.
proof fn lemma_appearance_type_nonempty(appearance: u16)
    ensures
        spec_appearance_type(appearance) matches Some(t) ==> t.len() > 0,
{
    reveal_strlit("phone");
    reveal_strlit("computer");
    reveal_strlit("watch");
    reveal_strlit("display");
    reveal_strlit("remote");
    reveal_strlit("scanner");
    reveal_strlit("tag");
    reveal_strlit("keyring");
    reveal_strlit("media");
    reveal_strlit("barcode");
    reveal_strlit("thermometer");
    reveal_strlit("peripheral");
    reveal_strlit("keyboard");
    reveal_strlit("mouse");
    reveal_strlit("joystick");
    reveal_strlit("gamepad");
    reveal_strlit("digitizer");
    reveal_strlit("reader");
    reveal_strlit("pen");
    reveal_strlit("speaker");
    reveal_strlit("headphones");
    reveal_strlit("microphone");
    reveal_strlit("audio");
    reveal_strlit("health");
    reveal_strlit("sensor");
}

/// Every tag a service identifier yields is non-empty.
proof fn lemma_uuid_type_nonempty(uuid: u128)
    ensures
        spec_uuid_type(uuid) matches Some(t) ==> t.len() > 0,
{
    reveal_strlit("audio");
    reveal_strlit("headphones");
    reveal_strlit("speaker");
    reveal_strlit("phone");
    reveal_strlit("keyboard");
    reveal_strlit("peripheral");
    reveal_strlit("health");
    reveal_strlit("battery");
}

/// Every tag the identifier scan yields is non-empty.
proof fn lemma_uuid_scan_nonempty(uuids: Seq<u128>)
    ensures
        spec_uuid_scan(uuids) matches Some(t) ==> t.len() > 0,
    decreases uuids.len(),
{
    if uuids.len() > 0 {
        lemma_uuid_type_nonempty(uuids[0]);
        lemma_uuid_scan_nonempty(uuids.drop_first());
    }
}

/// A non-empty icon name yields a non-empty tag.
proof fn lemma_icon_type_nonempty(icon: Seq<char>)
    requires
        icon.len() > 0,
    ensures
        spec_icon_type(icon).len() > 0,
{
    reveal_strlit("speaker");
    reveal_strlit("headphones");
    reveal_strlit("keyboard");
    reveal_strlit("mouse");
    reveal_strlit("gamepad");
    reveal_strlit("phone");
    reveal_strlit("computer");
    reveal_strlit("laptop");
    reveal_strlit("tv");
}

/// The classification is never the empty string: every step of the chain
/// yields a non-empty tag or no tag at all, and the fallback is non-empty.
pub proof fn lemma_device_type_nonempty(
    class_of_device: Option<u32>,
    appearance: Option<u16>,
    service_uuids: Option<Seq<u128>>,
    icon: Option<Seq<char>>,
)
    ensures
        spec_device_type(class_of_device, appearance, service_uuids, icon).len() > 0,
{
    reveal_strlit("device");
    if class_of_device is Some {
        lemma_class_type_nonempty(class_of_device->0);
    }
    if appearance is Some {
        lemma_appearance_type_nonempty(appearance->0);
    }
    if service_uuids is Some {
        lemma_uuid_scan_nonempty(service_uuids->0);
    }
    if icon is Some && icon->0.len() > 0 {
        lemma_icon_type_nonempty(icon->0);
    }
}

/// The priority of the class-of-device signal, stated for the mouse class:
/// whenever the class of device carries major class 5 and minor class 2, the
/// classification is "mouse", whatever appearance, service identifiers or
/// icon name are also present.
pub proof fn lemma_class_of_device_wins_for_mouse(
    class_value: u32,
    appearance: Option<u16>,
    service_uuids: Option<Seq<u128>>,
    icon: Option<Seq<char>>,
)
    requires
        (class_value >> 8) & 0x1F == 0x05,
        (class_value >> 2) & 0x3F == 0x02,
    ensures
        spec_device_type(Some(class_value), appearance, service_uuids, icon) == "mouse"@,
{
}

} // verus!
