use vstd::prelude::*;

use crate::strutil::{
    before_char, push_char, spaces, spec_spaces, spec_take_while, spec_trim, str_eq, trim_str,
};

verus! {

/// The single-icon fallback rule: an explicit single icon wins; otherwise the
/// first entry of the comma-separated list, trimmed.
pub open spec fn spec_fallback_single(single: Option<Seq<char>>, list: Seq<char>) -> Seq<char> {
    match single {
        Some(s) => s,
        None => spec_trim(spec_take_while(list, |c: char| c != ',')),
    }
}

/// An optional borrowed string as a mathematical value.
pub open spec fn opt_str_view(s: Option<&str>) -> Option<Seq<char>> {
    match s {
        Some(x) => Some(x@),
        None => None,
    }
}

/// One icon in its two renderings: a single icon name, and a comma-separated
/// list of fallbacks.
pub struct IconDefinition {
    pub single: String,
    pub list: String,
}

impl IconDefinition {
    /// One icon name serving as both renderings.
    pub fn simple(icon: &str) -> (r: IconDefinition)
        ensures
            r.single@ == icon@,
            r.list@ == icon@,
    {
        IconDefinition { single: icon.to_owned(), list: icon.to_owned() }
    }

    /// A fallback list, with the single rendering given explicitly or taken
    /// as the list's first entry.
    pub fn with_fallbacks(single: Option<&str>, list: &str) -> (r: IconDefinition)
        ensures
            r.single@ == spec_fallback_single(opt_str_view(single), list@),
            r.list@ == list@,
    {
        let single_icon = match single {
            Some(icon) => icon.to_owned(),
            None => {
                let head = before_char(list, ',');
                trim_str(head.as_str())
            },
        };
        IconDefinition { single: single_icon, list: list.to_owned() }
    }
}

/// The views of a list of labeled items.
pub open spec fn item_views(items: Seq<(&str, &str)>) -> Seq<(Seq<char>, Seq<char>)> {
    items.map_values(|p: (&str, &str)| (p.0@, p.1@))
}

/// The key/value views of a plain icon table.
pub open spec fn entry_views(entries: Seq<(String, String)>) -> Seq<(Seq<char>, Seq<char>)> {
    entries.map_values(|p: (String, String)| (p.0@, p.1@))
}

/// The key/(single, list) views of the themed icon table.
pub open spec fn xdg_entry_views(entries: Seq<(String, IconDefinition)>) -> Seq<
    (Seq<char>, (Seq<char>, Seq<char>)),
> {
    entries.map_values(|p: (String, IconDefinition)| (p.0@, (p.1.single@, p.1.list@)))
}

/// First-match lookup in a plain icon table; the empty string when absent.
pub open spec fn spec_lookup(entries: Seq<(Seq<char>, Seq<char>)>, key: Seq<char>) -> Seq<char>
    decreases entries.len(),
{
    if entries.len() == 0 {
        Seq::empty()
    } else if entries[0].0 == key {
        entries[0].1
    } else {
        spec_lookup(entries.drop_first(), key)
    }
}

/// First-match lookup in the themed icon table.
pub open spec fn spec_lookup_xdg(
    entries: Seq<(Seq<char>, (Seq<char>, Seq<char>))>,
    key: Seq<char>,
) -> Option<(Seq<char>, Seq<char>)>
    decreases entries.len(),
{
    if entries.len() == 0 {
        None
    } else if entries[0].0 == key {
        Some(entries[0].1)
    } else {
        spec_lookup_xdg(entries.drop_first(), key)
    }
}

/// The fixed font-glyph table: one glyph per action or device-type key.
pub open spec fn spec_font_table() -> Seq<(Seq<char>, Seq<char>)> {
    seq![
        ("bluetooth"@, "\u{f293}"@),
        ("bluetooth_connected"@, "\u{f294}"@),
        ("connected"@, "\u{f294}"@),
        ("disconnected"@, "\u{f295}"@),
        ("connect"@, "\u{f0337}"@),
        ("disconnect"@, "\u{f0338}"@),
        ("scan"@, "\u{f46a}"@),
        ("settings"@, "\u{f08bb}"@),
        ("disable_adapter"@, "\u{f00b2}"@),
        ("power_on_device"@, "\u{f0425}"@),
        ("trust"@, "\u{f0cc8}"@),
        ("revoke_trust"@, "\u{f099c}"@),
        ("forget"@, "\u{f0377}"@),
        ("enable_pairable"@, "\u{f0339}"@),
        ("disable_pairable"@, "\u{f033a}"@),
        ("enable_discoverable"@, "\u{f06d0}"@),
        ("disable_discoverable"@, "\u{f06d1}"@),
        ("device"@, "\u{f0fb0}"@),
        ("phone"@, "\u{f011c}"@),
        ("headphones"@, "\u{f02cb}"@),
        ("keyboard"@, "\u{f030c}"@),
        ("mouse"@, "\u{f037d}"@),
        ("speaker"@, "\u{f04c3}"@),
        ("gamepad"@, "\u{f0eb5}"@),
        ("computer"@, "\u{f0aab}"@),
        ("laptop"@, "\u{f0322}"@),
        ("tablet"@, "\u{f04f7}"@),
        ("watch"@, "\u{f0897}"@),
        ("tv"@, "\u{f0379}"@),
        ("display"@, "\u{f0379}"@),
        ("battery_100"@, "\u{f0079}"@),
        ("battery_90"@, "\u{f0082}"@),
        ("battery_80"@, "\u{f0081}"@),
        ("battery_70"@, "\u{f0080}"@),
        ("battery_60"@, "\u{f007f}"@),
        ("battery_50"@, "\u{f007e}"@),
        ("battery_40"@, "\u{f007d}"@),
        ("battery_30"@, "\u{f007c}"@),
        ("battery_20"@, "\u{f007b}"@),
        ("battery_10"@, "\u{f007a}"@),
        ("ok"@, "\u{f05e1}"@),
        ("error"@, "\u{f05d6}"@),
        ("paired"@, "\u{f119f}"@),
        ("trusted"@, "\u{f0cc8}"@),
    ]
}

/// The fixed plain-text marker table.
pub open spec fn spec_generic_table() -> Seq<(Seq<char>, Seq<char>)> {
    seq![
        ("connected"@, "\u{23fa}"@),
    ]
}

/// The fixed themed-icon table: per key, the single icon under the fallback
/// rule and the full fallback list.
pub open spec fn spec_xdg_table() -> Seq<(Seq<char>, (Seq<char>, Seq<char>))> {
    seq![
        ("bluetooth"@, (spec_fallback_single(None, "bluetooth-symbolic,network-bluetooth-symbolic,bluetooth"@), "bluetooth-symbolic,network-bluetooth-symbolic,bluetooth"@)),
        ("connected"@, (spec_fallback_single(None, "bluetooth-active-symbolic,network-bluetooth-activated-symbolic,bluetooth-active"@), "bluetooth-active-symbolic,network-bluetooth-activated-symbolic,bluetooth-active"@)),
        ("disconnected"@, (spec_fallback_single(None, "bluetooth-disabled-symbolic,network-bluetooth-inactive-symbolic,bluetooth-disabled"@), "bluetooth-disabled-symbolic,network-bluetooth-inactive-symbolic,bluetooth-disabled"@)),
        ("connect"@, (spec_fallback_single(Some("network-connect-symbolic"@), "entries-linked-symbolic,network-connect-symbolic,link-symbolic"@), "entries-linked-symbolic,network-connect-symbolic,link-symbolic"@)),
        ("disconnect"@, (spec_fallback_single(Some("network-disconnect-symbolic"@), "entries-unlinked-symbolic,network-disconnect-symbolic,media-eject-symbolic"@), "entries-unlinked-symbolic,network-disconnect-symbolic,media-eject-symbolic"@)),
        ("scan"@, (spec_fallback_single(None, "sync-synchronizing-symbolic,emblem-synchronizing-symbolic,view-refresh-symbolic"@), "sync-synchronizing-symbolic,emblem-synchronizing-symbolic,view-refresh-symbolic"@)),
        ("scan_in_progress"@, (spec_fallback_single(None, "bluetooth-acquiring-symbolic"@), "bluetooth-acquiring-symbolic"@)),
        ("settings"@, (spec_fallback_single(None, "preferences-system-symbolic"@), "preferences-system-symbolic"@)),
        ("disable_adapter"@, (spec_fallback_single(None, "bluetooth-disabled-symbolic,network-bluetooth-inactive-symbolic"@), "bluetooth-disabled-symbolic,network-bluetooth-inactive-symbolic"@)),
        ("power_on_device"@, (spec_fallback_single(None, "bluetooth-symbolic"@), "bluetooth-symbolic"@)),
        ("trust"@, (spec_fallback_single(None, "emblem-default-symbolic"@), "emblem-default-symbolic"@)),
        ("revoke_trust"@, (spec_fallback_single(None, "action-unavailable-symbolic"@), "action-unavailable-symbolic"@)),
        ("forget"@, (spec_fallback_single(None, "list-remove-symbolic"@), "list-remove-symbolic"@)),
        ("enable_pairable"@, (spec_fallback_single(None, "changes-allow-symbolic"@), "changes-allow-symbolic"@)),
        ("disable_pairable"@, (spec_fallback_single(None, "changes-prevent-symbolic"@), "changes-prevent-symbolic"@)),
        ("enable_discoverable"@, (spec_fallback_single(None, "view-reveal-symbolic,view-visible-symbolic,object-visible-symbolic"@), "view-reveal-symbolic,view-visible-symbolic,object-visible-symbolic"@)),
        ("disable_discoverable"@, (spec_fallback_single(None, "view-conceal-symbolic,view-hidden-symbolic,object-hidden-symbolic"@), "view-conceal-symbolic,view-hidden-symbolic,object-hidden-symbolic"@)),
        ("device"@, (spec_fallback_single(None, "drive-harddisk-symbolic"@), "drive-harddisk-symbolic"@)),
        ("phone"@, (spec_fallback_single(None, "phone-symbolic,drive-harddisk-symbolic"@), "phone-symbolic,drive-harddisk-symbolic"@)),
        ("headphones"@, (spec_fallback_single(None, "audio-headphones-symbolic,drive-harddisk-symbolic"@), "audio-headphones-symbolic,drive-harddisk-symbolic"@)),
        ("keyboard"@, (spec_fallback_single(None, "input-keyboard-symbolic,drive-harddisk-symbolic"@), "input-keyboard-symbolic,drive-harddisk-symbolic"@)),
        ("mouse"@, (spec_fallback_single(None, "input-mouse-symbolic,drive-harddisk-symbolic"@), "input-mouse-symbolic,drive-harddisk-symbolic"@)),
        ("speaker"@, (spec_fallback_single(None, "audio-speakers-symbolic,drive-harddisk-symbolic"@), "audio-speakers-symbolic,drive-harddisk-symbolic"@)),
        ("gamepad"@, (spec_fallback_single(None, "input-gaming-symbolic,input-gamepad-symbolic,drive-harddisk-symbolic"@), "input-gaming-symbolic,input-gamepad-symbolic,drive-harddisk-symbolic"@)),
        ("computer"@, (spec_fallback_single(None, "computer-symbolic,drive-harddisk-symbolic"@), "computer-symbolic,drive-harddisk-symbolic"@)),
        ("laptop"@, (spec_fallback_single(None, "laptop-symbolic,computer-laptop-symbolic,computer-symbolic,drive-harddisk-symbolic"@), "laptop-symbolic,computer-laptop-symbolic,computer-symbolic,drive-harddisk-symbolic"@)),
        ("tablet"@, (spec_fallback_single(None, "tablet-symbolic,drive-harddisk-symbolic"@), "tablet-symbolic,drive-harddisk-symbolic"@)),
        ("watch"@, (spec_fallback_single(None, "smartwatch-symbolic,drive-harddisk-symbolic"@), "smartwatch-symbolic,drive-harddisk-symbolic"@)),
        ("tv"@, (spec_fallback_single(None, "video-display-symbolic,preferences-desktop-display-randr-symbolic,drive-harddisk-symbolic"@), "video-display-symbolic,preferences-desktop-display-randr-symbolic,drive-harddisk-symbolic"@)),
        ("display"@, (spec_fallback_single(None, "video-display-symbolic,preferences-desktop-display-randr-symbolic,drive-harddisk-symbolic"@), "video-display-symbolic,preferences-desktop-display-randr-symbolic,drive-harddisk-symbolic"@)),
        ("battery_100"@, (spec_fallback_single(Some("battery-full-symbolic"@), "battery-100-symbolic,battery-full-symbolic"@), "battery-100-symbolic,battery-full-symbolic"@)),
        ("battery_90"@, (spec_fallback_single(Some("battery-good-symbolic"@), "battery-090-symbolic,battery-good-symbolic"@), "battery-090-symbolic,battery-good-symbolic"@)),
        ("battery_80"@, (spec_fallback_single(Some("battery-good-symbolic"@), "battery-080-symbolic,battery-good-symbolic"@), "battery-080-symbolic,battery-good-symbolic"@)),
        ("battery_70"@, (spec_fallback_single(Some("battery-good-symbolic"@), "battery-070-symbolic,battery-good-symbolic"@), "battery-070-symbolic,battery-good-symbolic"@)),
        ("battery_60"@, (spec_fallback_single(Some("battery-good-symbolic"@), "battery-060-symbolic,battery-good-symbolic"@), "battery-060-symbolic,battery-good-symbolic"@)),
        ("battery_50"@, (spec_fallback_single(Some("battery-medium-symbolic"@), "battery-050-symbolic,battery-medium-symbolic"@), "battery-050-symbolic,battery-medium-symbolic"@)),
        ("battery_40"@, (spec_fallback_single(Some("battery-medium-symbolic"@), "battery-040-symbolic,battery-medium-symbolic"@), "battery-040-symbolic,battery-medium-symbolic"@)),
        ("battery_30"@, (spec_fallback_single(Some("battery-low-symbolic"@), "battery-030-symbolic,battery-low-symbolic"@), "battery-030-symbolic,battery-low-symbolic"@)),
        ("battery_20"@, (spec_fallback_single(Some("battery-low-symbolic"@), "battery-020-symbolic,battery-low-symbolic"@), "battery-020-symbolic,battery-low-symbolic"@)),
        ("battery_10"@, (spec_fallback_single(Some("battery-caution-symbolic"@), "battery-010-symbolic,battery-caution-symbolic"@), "battery-010-symbolic,battery-caution-symbolic"@)),
        ("ok"@, (spec_fallback_single(None, "emblem-default-symbolic"@), "emblem-default-symbolic"@)),
        ("error"@, (spec_fallback_single(None, "dialog-error-symbolic"@), "dialog-error-symbolic"@)),
        ("paired"@, (spec_fallback_single(None, "emblem-checked-symbolic"@), "emblem-checked-symbolic"@)),
        ("trusted"@, (spec_fallback_single(None, "security-high-symbolic"@), "security-high-symbolic"@)),
    ]
}

/// Build the font-glyph table, entry for entry as the fixed table states.
fn build_font_icons() -> (v: Vec<(String, String)>)
    ensures
        entry_views(v@) == spec_font_table(),
{
    let mut v: Vec<(String, String)> = Vec::new();
    v.push(("bluetooth".to_owned(), "\u{f293}".to_owned()));
    v.push(("bluetooth_connected".to_owned(), "\u{f294}".to_owned()));
    v.push(("connected".to_owned(), "\u{f294}".to_owned()));
    v.push(("disconnected".to_owned(), "\u{f295}".to_owned()));
    v.push(("connect".to_owned(), "\u{f0337}".to_owned()));
    v.push(("disconnect".to_owned(), "\u{f0338}".to_owned()));
    v.push(("scan".to_owned(), "\u{f46a}".to_owned()));
    v.push(("settings".to_owned(), "\u{f08bb}".to_owned()));
    v.push(("disable_adapter".to_owned(), "\u{f00b2}".to_owned()));
    v.push(("power_on_device".to_owned(), "\u{f0425}".to_owned()));
    v.push(("trust".to_owned(), "\u{f0cc8}".to_owned()));
    v.push(("revoke_trust".to_owned(), "\u{f099c}".to_owned()));
    v.push(("forget".to_owned(), "\u{f0377}".to_owned()));
    v.push(("enable_pairable".to_owned(), "\u{f0339}".to_owned()));
    v.push(("disable_pairable".to_owned(), "\u{f033a}".to_owned()));
    v.push(("enable_discoverable".to_owned(), "\u{f06d0}".to_owned()));
    v.push(("disable_discoverable".to_owned(), "\u{f06d1}".to_owned()));
    v.push(("device".to_owned(), "\u{f0fb0}".to_owned()));
    v.push(("phone".to_owned(), "\u{f011c}".to_owned()));
    v.push(("headphones".to_owned(), "\u{f02cb}".to_owned()));
    v.push(("keyboard".to_owned(), "\u{f030c}".to_owned()));
    v.push(("mouse".to_owned(), "\u{f037d}".to_owned()));
    v.push(("speaker".to_owned(), "\u{f04c3}".to_owned()));
    v.push(("gamepad".to_owned(), "\u{f0eb5}".to_owned()));
    v.push(("computer".to_owned(), "\u{f0aab}".to_owned()));
    v.push(("laptop".to_owned(), "\u{f0322}".to_owned()));
    v.push(("tablet".to_owned(), "\u{f04f7}".to_owned()));
    v.push(("watch".to_owned(), "\u{f0897}".to_owned()));
    v.push(("tv".to_owned(), "\u{f0379}".to_owned()));
    v.push(("display".to_owned(), "\u{f0379}".to_owned()));
    v.push(("battery_100".to_owned(), "\u{f0079}".to_owned()));
    v.push(("battery_90".to_owned(), "\u{f0082}".to_owned()));
    v.push(("battery_80".to_owned(), "\u{f0081}".to_owned()));
    v.push(("battery_70".to_owned(), "\u{f0080}".to_owned()));
    v.push(("battery_60".to_owned(), "\u{f007f}".to_owned()));
    v.push(("battery_50".to_owned(), "\u{f007e}".to_owned()));
    v.push(("battery_40".to_owned(), "\u{f007d}".to_owned()));
    v.push(("battery_30".to_owned(), "\u{f007c}".to_owned()));
    v.push(("battery_20".to_owned(), "\u{f007b}".to_owned()));
    v.push(("battery_10".to_owned(), "\u{f007a}".to_owned()));
    v.push(("ok".to_owned(), "\u{f05e1}".to_owned()));
    v.push(("error".to_owned(), "\u{f05d6}".to_owned()));
    v.push(("paired".to_owned(), "\u{f119f}".to_owned()));
    v.push(("trusted".to_owned(), "\u{f0cc8}".to_owned()));
    proof {
        assert(entry_views(v@) =~= spec_font_table());
    }
    v
}

/// Build the plain-text marker table.
fn build_generic_icons() -> (v: Vec<(String, String)>)
    ensures
        entry_views(v@) == spec_generic_table(),
{
    let mut v: Vec<(String, String)> = Vec::new();
    v.push(("connected".to_owned(), "\u{23fa}".to_owned()));
    proof {
        assert(entry_views(v@) =~= spec_generic_table());
    }
    v
}

/// Build the themed-icon table, entry for entry as the fixed table states.
fn build_xdg_icons() -> (v: Vec<(String, IconDefinition)>)
    ensures
        xdg_entry_views(v@) == spec_xdg_table(),
{
    let mut v: Vec<(String, IconDefinition)> = Vec::new();
    v.push(("bluetooth".to_owned(), IconDefinition::with_fallbacks(None, "bluetooth-symbolic,network-bluetooth-symbolic,bluetooth")));
    v.push(("connected".to_owned(), IconDefinition::with_fallbacks(None, "bluetooth-active-symbolic,network-bluetooth-activated-symbolic,bluetooth-active")));
    v.push(("disconnected".to_owned(), IconDefinition::with_fallbacks(None, "bluetooth-disabled-symbolic,network-bluetooth-inactive-symbolic,bluetooth-disabled")));
    v.push(("connect".to_owned(), IconDefinition::with_fallbacks(Some("network-connect-symbolic"), "entries-linked-symbolic,network-connect-symbolic,link-symbolic")));
    v.push(("disconnect".to_owned(), IconDefinition::with_fallbacks(Some("network-disconnect-symbolic"), "entries-unlinked-symbolic,network-disconnect-symbolic,media-eject-symbolic")));
    v.push(("scan".to_owned(), IconDefinition::with_fallbacks(None, "sync-synchronizing-symbolic,emblem-synchronizing-symbolic,view-refresh-symbolic")));
    v.push(("scan_in_progress".to_owned(), IconDefinition::with_fallbacks(None, "bluetooth-acquiring-symbolic")));
    v.push(("settings".to_owned(), IconDefinition::with_fallbacks(None, "preferences-system-symbolic")));
    v.push(("disable_adapter".to_owned(), IconDefinition::with_fallbacks(None, "bluetooth-disabled-symbolic,network-bluetooth-inactive-symbolic")));
    v.push(("power_on_device".to_owned(), IconDefinition::with_fallbacks(None, "bluetooth-symbolic")));
    v.push(("trust".to_owned(), IconDefinition::with_fallbacks(None, "emblem-default-symbolic")));
    v.push(("revoke_trust".to_owned(), IconDefinition::with_fallbacks(None, "action-unavailable-symbolic")));
    v.push(("forget".to_owned(), IconDefinition::with_fallbacks(None, "list-remove-symbolic")));
    v.push(("enable_pairable".to_owned(), IconDefinition::with_fallbacks(None, "changes-allow-symbolic")));
    v.push(("disable_pairable".to_owned(), IconDefinition::with_fallbacks(None, "changes-prevent-symbolic")));
    v.push(("enable_discoverable".to_owned(), IconDefinition::with_fallbacks(None, "view-reveal-symbolic,view-visible-symbolic,object-visible-symbolic")));
    v.push(("disable_discoverable".to_owned(), IconDefinition::with_fallbacks(None, "view-conceal-symbolic,view-hidden-symbolic,object-hidden-symbolic")));
    v.push(("device".to_owned(), IconDefinition::with_fallbacks(None, "drive-harddisk-symbolic")));
    v.push(("phone".to_owned(), IconDefinition::with_fallbacks(None, "phone-symbolic,drive-harddisk-symbolic")));
    v.push(("headphones".to_owned(), IconDefinition::with_fallbacks(None, "audio-headphones-symbolic,drive-harddisk-symbolic")));
    v.push(("keyboard".to_owned(), IconDefinition::with_fallbacks(None, "input-keyboard-symbolic,drive-harddisk-symbolic")));
    v.push(("mouse".to_owned(), IconDefinition::with_fallbacks(None, "input-mouse-symbolic,drive-harddisk-symbolic")));
    v.push(("speaker".to_owned(), IconDefinition::with_fallbacks(None, "audio-speakers-symbolic,drive-harddisk-symbolic")));
    v.push(("gamepad".to_owned(), IconDefinition::with_fallbacks(None, "input-gaming-symbolic,input-gamepad-symbolic,drive-harddisk-symbolic")));
    v.push(("computer".to_owned(), IconDefinition::with_fallbacks(None, "computer-symbolic,drive-harddisk-symbolic")));
    v.push(("laptop".to_owned(), IconDefinition::with_fallbacks(None, "laptop-symbolic,computer-laptop-symbolic,computer-symbolic,drive-harddisk-symbolic")));
    v.push(("tablet".to_owned(), IconDefinition::with_fallbacks(None, "tablet-symbolic,drive-harddisk-symbolic")));
    v.push(("watch".to_owned(), IconDefinition::with_fallbacks(None, "smartwatch-symbolic,drive-harddisk-symbolic")));
    v.push(("tv".to_owned(), IconDefinition::with_fallbacks(None, "video-display-symbolic,preferences-desktop-display-randr-symbolic,drive-harddisk-symbolic")));
    v.push(("display".to_owned(), IconDefinition::with_fallbacks(None, "video-display-symbolic,preferences-desktop-display-randr-symbolic,drive-harddisk-symbolic")));
    v.push(("battery_100".to_owned(), IconDefinition::with_fallbacks(Some("battery-full-symbolic"), "battery-100-symbolic,battery-full-symbolic")));
    v.push(("battery_90".to_owned(), IconDefinition::with_fallbacks(Some("battery-good-symbolic"), "battery-090-symbolic,battery-good-symbolic")));
    v.push(("battery_80".to_owned(), IconDefinition::with_fallbacks(Some("battery-good-symbolic"), "battery-080-symbolic,battery-good-symbolic")));
    v.push(("battery_70".to_owned(), IconDefinition::with_fallbacks(Some("battery-good-symbolic"), "battery-070-symbolic,battery-good-symbolic")));
    v.push(("battery_60".to_owned(), IconDefinition::with_fallbacks(Some("battery-good-symbolic"), "battery-060-symbolic,battery-good-symbolic")));
    v.push(("battery_50".to_owned(), IconDefinition::with_fallbacks(Some("battery-medium-symbolic"), "battery-050-symbolic,battery-medium-symbolic")));
    v.push(("battery_40".to_owned(), IconDefinition::with_fallbacks(Some("battery-medium-symbolic"), "battery-040-symbolic,battery-medium-symbolic")));
    v.push(("battery_30".to_owned(), IconDefinition::with_fallbacks(Some("battery-low-symbolic"), "battery-030-symbolic,battery-low-symbolic")));
    v.push(("battery_20".to_owned(), IconDefinition::with_fallbacks(Some("battery-low-symbolic"), "battery-020-symbolic,battery-low-symbolic")));
    v.push(("battery_10".to_owned(), IconDefinition::with_fallbacks(Some("battery-caution-symbolic"), "battery-010-symbolic,battery-caution-symbolic")));
    v.push(("ok".to_owned(), IconDefinition::with_fallbacks(None, "emblem-default-symbolic")));
    v.push(("error".to_owned(), IconDefinition::with_fallbacks(None, "dialog-error-symbolic")));
    v.push(("paired".to_owned(), IconDefinition::with_fallbacks(None, "emblem-checked-symbolic")));
    v.push(("trusted".to_owned(), IconDefinition::with_fallbacks(None, "security-high-symbolic")));
    proof {
        assert(xdg_entry_views(v@) =~= spec_xdg_table());
    }
    v
}

/// First-match lookup of a key in a plain icon table.
fn lookup(entries: &Vec<(String, String)>, key: &str) -> (r: String)
    ensures
        r@ == spec_lookup(entry_views(entries@), key@),
{
    let mut i: usize = 0;
    proof {
        assert(entry_views(entries@).skip(0) =~= entry_views(entries@));
    }
    while i < entries.len()
        invariant
            i <= entries@.len(),
            entry_views(entries@).len() == entries@.len(),
            spec_lookup(entry_views(entries@), key@) == spec_lookup(
                entry_views(entries@).skip(i as int),
                key@,
            ),
        decreases entries@.len() - i,
    {
        proof {
            assert(entry_views(entries@).skip(i as int)[0] == entry_views(entries@)[i as int]);
        }
        if str_eq(entries[i].0.as_str(), key) {
            return entries[i].1.clone();
        }
        proof {
            assert(entry_views(entries@).skip(i as int).drop_first() =~= entry_views(
                entries@,
            ).skip(i as int + 1));
        }
        i += 1;
    }
    String::new()
}

/// First-match lookup of a key in the themed icon table.
fn lookup_xdg<'a>(entries: &'a Vec<(String, IconDefinition)>, key: &str) -> (r: Option<
    &'a IconDefinition,
>)
    ensures
        r is Some <==> spec_lookup_xdg(xdg_entry_views(entries@), key@) is Some,
        r matches Some(d) ==> Some((d.single@, d.list@)) == spec_lookup_xdg(
            xdg_entry_views(entries@),
            key@,
        ),
{
    let mut i: usize = 0;
    proof {
        assert(xdg_entry_views(entries@).skip(0) =~= xdg_entry_views(entries@));
    }
    while i < entries.len()
        invariant
            i <= entries@.len(),
            xdg_entry_views(entries@).len() == entries@.len(),
            spec_lookup_xdg(xdg_entry_views(entries@), key@) == spec_lookup_xdg(
                xdg_entry_views(entries@).skip(i as int),
                key@,
            ),
        decreases entries@.len() - i,
    {
        proof {
            assert(xdg_entry_views(entries@).skip(i as int)[0] == xdg_entry_views(
                entries@,
            )[i as int]);
        }
        if str_eq(entries[i].0.as_str(), key) {
            return Some(&entries[i].1);
        }
        proof {
            assert(xdg_entry_views(entries@).skip(i as int).drop_first() =~= xdg_entry_views(
                entries@,
            ).skip(i as int + 1));
        }
        i += 1;
    }
    None
}

/// The icon tables: plain text markers, font glyphs, and themed icon names,
/// each keyed by a fixed action or device-type key.
pub struct Icons {
    pub generic_icons: Vec<(String, String)>,
    pub font_icons: Vec<(String, String)>,
    pub xdg_icons: Vec<(String, IconDefinition)>,
}

impl Icons {
    /// The three tables hold exactly the fixed entries.
    pub open spec fn wf(&self) -> bool {
        &&& entry_views(self.font_icons@) == spec_font_table()
        &&& entry_views(self.generic_icons@) == spec_generic_table()
        &&& xdg_entry_views(self.xdg_icons@) == spec_xdg_table()
    }

    pub fn new() -> (r: Icons)
        ensures
            r.wf(),
    {
        Icons {
            generic_icons: build_generic_icons(),
            font_icons: build_font_icons(),
            xdg_icons: build_xdg_icons(),
        }
    }

    /// What `get_icon` returns: a font glyph, a themed fallback list or a
    /// generic marker by key, the empty string for an unknown key or kind.
    pub open spec fn spec_get_icon(&self, key: Seq<char>, icon_type: Seq<char>) -> Seq<char> {
        if icon_type == "font"@ {
            spec_lookup(entry_views(self.font_icons@), key)
        } else if icon_type == "xdg"@ {
            match spec_lookup_xdg(xdg_entry_views(self.xdg_icons@), key) {
                Some(d) => d.1,
                None => Seq::empty(),
            }
        } else if icon_type == "generic"@ {
            spec_lookup(entry_views(self.generic_icons@), key)
        } else {
            Seq::empty()
        }
    }

    pub fn get_icon(&self, key: &str, icon_type: &str) -> (r: String)
        ensures
            r@ == self.spec_get_icon(key@, icon_type@),
    {
        if str_eq(icon_type, "font") {
            lookup(&self.font_icons, key)
        } else if str_eq(icon_type, "xdg") {
            match lookup_xdg(&self.xdg_icons, key) {
                Some(d) => d.list.clone(),
                None => String::new(),
            }
        } else if str_eq(icon_type, "generic") {
            lookup(&self.generic_icons, key)
        } else {
            String::new()
        }
    }

    /// What `get_xdg_icon` returns: the single themed icon for a key.
    pub open spec fn spec_get_xdg_icon(&self, key: Seq<char>) -> Seq<char> {
        match spec_lookup_xdg(xdg_entry_views(self.xdg_icons@), key) {
            Some(d) => d.0,
            None => Seq::empty(),
        }
    }

    pub fn get_xdg_icon(&self, key: &str) -> (r: String)
        ensures
            r@ == self.spec_get_xdg_icon(key@),
    {
        match lookup_xdg(&self.xdg_icons, key) {
            Some(d) => d.single.clone(),
            None => String::new(),
        }
    }

    pub fn get_xdg_icon_list(&self, key: &str) -> (r: String)
        ensures
            r@ == (match spec_lookup_xdg(xdg_entry_views(self.xdg_icons@), key@) {
                Some(d) => d.1,
                None => Seq::<char>::empty(),
            }),
    {
        match lookup_xdg(&self.xdg_icons, key) {
            Some(d) => d.list.clone(),
            None => String::new(),
        }
    }

    /// One labeled menu line: a font glyph before the text, a themed icon
    /// attached after a marker, or the bare text.
    pub open spec fn spec_item_text(
        &self,
        key: Seq<char>,
        text: Seq<char>,
        icon_type: Seq<char>,
        spaces_n: nat,
    ) -> Seq<char> {
        if icon_type == "font"@ {
            self.spec_get_icon(key, icon_type) + spec_spaces(spaces_n) + text
        } else if icon_type == "xdg"@ {
            text + "\u{0}icon\u{1f}"@ + self.spec_get_icon(key, icon_type)
        } else {
            text
        }
    }

    /// Labeled menu lines joined with line breaks, over the items' views.
    pub open spec fn spec_icon_text(
        &self,
        items: Seq<(Seq<char>, Seq<char>)>,
        icon_type: Seq<char>,
        spaces_n: nat,
    ) -> Seq<char>
        decreases items.len(),
    {
        if items.len() == 0 {
            Seq::empty()
        } else if items.len() == 1 {
            self.spec_item_text(items[0].0, items[0].1, icon_type, spaces_n)
        } else {
            self.spec_icon_text(items.drop_last(), icon_type, spaces_n) + "\n"@
                + self.spec_item_text(items.last().0, items.last().1, icon_type, spaces_n)
        }
    }

    fn item_text(&self, key: &str, text: &str, icon_type: &str, spaces_n: usize) -> (r: String)
        ensures
            r@ == self.spec_item_text(key@, text@, icon_type@, spaces_n as nat),
    {
        if str_eq(icon_type, "font") {
            let mut r = self.get_icon(key, icon_type);
            let pad = spaces(spaces_n);
            r.append(pad.as_str());
            r.append(text);
            r
        } else if str_eq(icon_type, "xdg") {
            let mut r = text.to_owned();
            r.append("\u{0}icon\u{1f}");
            let icon = self.get_icon(key, icon_type);
            r.append(icon.as_str());
            r
        } else {
            text.to_owned()
        }
    }

    /// Render one line per labeled item, joined with line breaks.
    pub fn get_icon_text(&self, items: Vec<(&str, &str)>, icon_type: &str, spaces_n: usize) -> (r:
        String)
        ensures
            r@ == self.spec_icon_text(item_views(items@), icon_type@, spaces_n as nat),
    {
        let mut r = String::new();
        let mut i: usize = 0;
        while i < items.len()
            invariant
                i <= items@.len(),
                item_views(items@).len() == items@.len(),
                r@ == self.spec_icon_text(
                    item_views(items@).take(i as int),
                    icon_type@,
                    spaces_n as nat,
                ),
            decreases items@.len() - i,
        {
            if i > 0 {
                r.append("\n");
            }
            let line = self.item_text(items[i].0, items[i].1, icon_type, spaces_n);
            r.append(line.as_str());
            proof {
                assert(item_views(items@).take(i as int + 1).drop_last() =~= item_views(
                    items@,
                ).take(i as int));
                assert(item_views(items@).take(i as int + 1).last() == item_views(
                    items@,
                )[i as int]);
            }
            i += 1;
        }
        proof {
            assert(item_views(items@).take(items@.len() as int) =~= item_views(items@));
        }
        r
    }

    /// A glyph padded with spaces, before or after.
    pub open spec fn spec_with_spacing(icon: char, spaces_n: nat, before: bool) -> Seq<char> {
        if before {
            spec_spaces(spaces_n).push(icon)
        } else {
            seq![icon] + spec_spaces(spaces_n)
        }
    }

    pub fn format_with_spacing(icon: char, spaces_n: usize, before: bool) -> (r: String)
        ensures
            r@ == Icons::spec_with_spacing(icon, spaces_n as nat, before),
    {
        if before {
            let mut r = spaces(spaces_n);
            push_char(&mut r, icon);
            r
        } else {
            let mut r = String::new();
            push_char(&mut r, icon);
            let pad = spaces(spaces_n);
            r.append(pad.as_str());
            proof {
                assert(r@ =~= seq![icon] + spec_spaces(spaces_n as nat));
            }
            r
        }
    }

    /// A display name combined with its icon, in the rendering the icon kind
    /// calls for.
    pub open spec fn spec_display_with_icon(
        name: Seq<char>,
        icon: Seq<char>,
        icon_type: Seq<char>,
        spaces_n: nat,
    ) -> Seq<char> {
        if icon_type == "xdg"@ {
            name + "\u{0}icon\u{1f}"@ + icon
        } else if icon_type == "font"@ || icon_type == "generic"@ {
            icon + spec_spaces(spaces_n) + name
        } else {
            name
        }
    }

    pub fn format_display_with_icon(
        &self,
        name: &str,
        icon: &str,
        icon_type: &str,
        spaces_n: usize,
    ) -> (r: String)
        ensures
            r@ == Icons::spec_display_with_icon(name@, icon@, icon_type@, spaces_n as nat),
    {
        if str_eq(icon_type, "xdg") {
            let mut r = name.to_owned();
            r.append("\u{0}icon\u{1f}");
            r.append(icon);
            r
        } else if str_eq(icon_type, "font") || str_eq(icon_type, "generic") {
            let mut r = icon.to_owned();
            let pad = spaces(spaces_n);
            r.append(pad.as_str());
            r.append(name);
            r
        } else {
            name.to_owned()
        }
    }

    /// The icon-table key a derived device type maps to.
    pub open spec fn spec_device_icon_key(device_type: Seq<char>) -> Seq<char> {
        if device_type == "phone"@ || device_type == "smartphone"@ {
            "phone"@
        } else if device_type == "audio"@ || device_type == "headset"@ || device_type
            == "headphones"@ {
            "headphones"@
        } else if device_type == "keyboard"@ {
            "keyboard"@
        } else if device_type == "mouse"@ || device_type == "pointing"@ {
            "mouse"@
        } else if device_type == "speaker"@ {
            "speaker"@
        } else if device_type == "gamepad"@ || device_type == "joystick"@ {
            "gamepad"@
        } else if device_type == "computer"@ || device_type == "desktop"@ {
            "computer"@
        } else if device_type == "laptop"@ {
            "laptop"@
        } else if device_type == "tablet"@ {
            "tablet"@
        } else if device_type == "watch"@ || device_type == "wearable"@ {
            "watch"@
        } else if device_type == "tv"@ || device_type == "television"@ || device_type
            == "display"@ {
            "tv"@
        } else {
            "device"@
        }
    }

    /// The icon for a derived device type, in the given icon kind.
    pub fn get_device_icon(&self, device_type: &str, icon_type: &str) -> (r: String)
        ensures
            r@ == self.spec_get_icon(Icons::spec_device_icon_key(device_type@), icon_type@),
    {
        let icon_key: &str = if str_eq(device_type, "phone") || str_eq(device_type, "smartphone") {
            "phone"
        } else if str_eq(device_type, "audio") || str_eq(device_type, "headset") || str_eq(
            device_type,
            "headphones",
        ) {
            "headphones"
        } else if str_eq(device_type, "keyboard") {
            "keyboard"
        } else if str_eq(device_type, "mouse") || str_eq(device_type, "pointing") {
            "mouse"
        } else if str_eq(device_type, "speaker") {
            "speaker"
        } else if str_eq(device_type, "gamepad") || str_eq(device_type, "joystick") {
            "gamepad"
        } else if str_eq(device_type, "computer") || str_eq(device_type, "desktop") {
            "computer"
        } else if str_eq(device_type, "laptop") {
            "laptop"
        } else if str_eq(device_type, "tablet") {
            "tablet"
        } else if str_eq(device_type, "watch") || str_eq(device_type, "wearable") {
            "watch"
        } else if str_eq(device_type, "tv") || str_eq(device_type, "television") || str_eq(
            device_type,
            "display",
        ) {
            "tv"
        } else {
            "device"
        };
        self.get_icon(icon_key, icon_type)
    }

    /// The battery-level key for a charge percentage: one key per ten-percent
    /// band, none above one hundred percent.
    pub open spec fn spec_battery_key(percentage: u8) -> Option<Seq<char>> {
        if 91 <= percentage && percentage <= 100 {
            Some("battery_100"@)
        } else if 81 <= percentage && percentage <= 90 {
            Some("battery_90"@)
        } else if 71 <= percentage && percentage <= 80 {
            Some("battery_80"@)
        } else if 61 <= percentage && percentage <= 70 {
            Some("battery_70"@)
        } else if 51 <= percentage && percentage <= 60 {
            Some("battery_60"@)
        } else if 41 <= percentage && percentage <= 50 {
            Some("battery_50"@)
        } else if 31 <= percentage && percentage <= 40 {
            Some("battery_40"@)
        } else if 21 <= percentage && percentage <= 30 {
            Some("battery_30"@)
        } else if 11 <= percentage && percentage <= 20 {
            Some("battery_20"@)
        } else if percentage <= 10 {
            Some("battery_10"@)
        } else {
            None
        }
    }

    /// The battery icon for a charge percentage, in the given icon kind;
    /// none above one hundred percent.
    pub fn get_battery_icon(&self, percentage: u8, icon_type: &str) -> (r: Option<String>)
        ensures
            r is Some <==> percentage <= 100,
            r matches Some(s) ==> s@ == self.spec_get_icon(
                Icons::spec_battery_key(percentage)->0,
                icon_type@,
            ),
    {
        let icon_key: &str = if 91 <= percentage && percentage <= 100 {
            "battery_100"
        } else if 81 <= percentage && percentage <= 90 {
            "battery_90"
        } else if 71 <= percentage && percentage <= 80 {
            "battery_80"
        } else if 61 <= percentage && percentage <= 70 {
            "battery_70"
        } else if 51 <= percentage && percentage <= 60 {
            "battery_60"
        } else if 41 <= percentage && percentage <= 50 {
            "battery_50"
        } else if 31 <= percentage && percentage <= 40 {
            "battery_40"
        } else if 21 <= percentage && percentage <= 30 {
            "battery_30"
        } else if 11 <= percentage && percentage <= 20 {
            "battery_20"
        } else if percentage <= 10 {
            "battery_10"
        } else {
            return None;
        };
        Some(self.get_icon(icon_key, icon_type))
    }
}

impl Default for Icons {
    /// The fixed tables, as `new` builds them.
    fn default() -> (r: Icons)
        ensures
            r.wf(),
    {
        Icons::new()
    }
}

} // verus!
