//! Kernel power-supply entries (`/sys/class/power_supply`): which entry is the
//! device, and what its files mean.

use vstd::prelude::*;
use crate::battery::provider::DeviceIdentity;
use crate::battery::types::{
    BatteryConfidence, BatteryReading, BatterySource, BatteryState, BatteryValidity, RawProviderData,
};
use crate::text::{
    begins, chars_of, clean_id, clean_id_chars, contains, ends_with, has, has_sub, lines, lines_of,
    lower_chars, lowercase, owned, parse_number, parse_unsigned, starts_with, string_of, strip_prefix,
    trim, trim_chars, trim_str, views,
};

verus! {

/// Reads the kernel's power-supply entries.
pub struct SysfsProvider;

impl SysfsProvider {
    pub fn new() -> (r: Self) {
        SysfsProvider
    }

    pub fn name(&self) -> (r: &'static str)
        ensures
            r@ == "Sysfs Power Supply Provider"@,
    {
        "Sysfs Power Supply Provider"
    }

    pub fn source(&self) -> (r: BatterySource)
        ensures
            r == BatterySource::Sysfs,
    {
        BatterySource::Sysfs
    }

    pub fn priority(&self) -> (r: u8)
        ensures
            r == 6,
    {
        6
    }
}

/// Reads the battery entries the kernel's HID driver creates (`hid-…-battery`).
pub struct StandardHidProvider;

impl StandardHidProvider {
    pub fn new() -> (r: Self) {
        StandardHidProvider
    }

    pub fn name(&self) -> (r: &'static str)
        ensures
            r@ == "Standard Kernel HID Battery Provider"@,
    {
        "Standard Kernel HID Battery Provider"
    }

    pub fn source(&self) -> (r: BatterySource)
        ensures
            r == BatterySource::HidStandard,
    {
        BatterySource::HidStandard
    }

    pub fn priority(&self) -> (r: u8)
        ensures
            r == 4,
    {
        4
    }
}

/// A power-supply entry worth looking at: of type mouse, keyboard or battery, or named
/// after a HID device.
pub open spec fn spec_supply_relevant(supply_type: Seq<char>, entry: Seq<char>) -> bool {
    trim(supply_type) == "Mouse"@ || trim(supply_type) == "Keyboard"@ || trim(supply_type) == "Battery"@
        || has_sub(entry, "hid"@)
}

/// Whether a power-supply entry is worth looking at (`supply_type` is the content of
/// its `type` file).
pub fn supply_relevant(supply_type: &str, entry_name: &str) -> (r: bool)
    ensures
        r == spec_supply_relevant(supply_type@, entry_name@),
{
    let t = trim_str(supply_type);
    let e = chars_of(entry_name);
    crate::text::is_text(t.as_slice(), "Mouse") || crate::text::is_text(t.as_slice(), "Keyboard")
        || crate::text::is_text(t.as_slice(), "Battery") || has(e.as_slice(), "hid")
}

/// The model named in `uevent` lines (`POWER_SUPPLY_MODEL_NAME=`), the first one found.
pub open spec fn uevent_model(ls: Seq<Seq<char>>) -> Option<Seq<char>>
    decreases ls.len(),
{
    if ls.len() == 0 {
        None
    } else if starts_with(ls[0], "POWER_SUPPLY_MODEL_NAME="@) {
        Some(trim(ls[0].skip(24)))
    } else {
        uevent_model(ls.drop_first())
    }
}

/// The model of an entry: its `model_name` file, or the model its `uevent` names when
/// that file is blank.
pub open spec fn spec_entry_model(model_name: Seq<char>, uevent: Seq<char>) -> Seq<char> {
    if trim(model_name).len() == 0 {
        match uevent_model(lines(uevent)) {
            Some(m) => m,
            None => model_name,
        }
    } else {
        model_name
    }
}

/// The model of an entry.
pub fn entry_model(model_name: &str, uevent: &str) -> (r: String)
    ensures
        r@ == spec_entry_model(model_name@, uevent@),
{
    let t = trim_str(model_name);
    if t.len() > 0 {
        return owned(model_name);
    }
    let c = chars_of(uevent);
    let ls = lines_of(c.as_slice());
    let p = chars_of("POWER_SUPPLY_MODEL_NAME=");
    proof { reveal_strlit("POWER_SUPPLY_MODEL_NAME="); }
    assert(views(ls@).skip(0) =~= views(ls@));
    let mut i: usize = 0;
    while i < ls.len()
        invariant
            i <= ls@.len(),
            views(ls@) == lines(uevent@),
            p@ == "POWER_SUPPLY_MODEL_NAME="@,
            trim(model_name@).len() == 0,
            uevent_model(views(ls@)) == uevent_model(views(ls@).skip(i as int)),
        decreases ls.len() - i,
    {
        proof { reveal_strlit("POWER_SUPPLY_MODEL_NAME="); }
        let ghost rest = views(ls@).skip(i as int);
        assert(rest.len() > 0);
        assert(rest[0] == ls@[i as int]@);
        assert(rest.drop_first() =~= views(ls@).skip(i + 1));
        if let Some(v) = strip_prefix(ls[i].as_slice(), p.as_slice()) {
            let m = trim_chars(v.as_slice());
            assert(uevent_model(rest) == Some(trim(rest[0].skip(24))));
            return string_of(m.as_slice());
        }
        i = i + 1;
    }
    assert(views(ls@).skip(ls@.len() as int) =~= Seq::<Seq<char>>::empty());
    owned(model_name)
}

/// Vendors whose devices are never taken for a Rapoo device.
pub open spec fn names_excluded_vendor(s: Seq<char>) -> bool {
    has_sub(s, "logitech"@) || has_sub(s, "razer"@) || has_sub(s, "corsair"@) || has_sub(s, "apple"@)
        || has_sub(s, "steelseries"@) || has_sub(s, "dell"@) || has_sub(s, "hp"@) || has_sub(s, "lenovo"@)
}

/// Whether the lowercase text names an excluded vendor.
pub fn excluded_vendor_named(s: &[char]) -> (r: bool)
    ensures
        r == names_excluded_vendor(s@),
{
    has(s, "logitech") || has(s, "razer") || has(s, "corsair") || has(s, "apple")
        || has(s, "steelseries") || has(s, "dell") || has(s, "hp") || has(s, "lenovo")
}

/// An entry whose `uevent` or model names another vendor.
pub open spec fn spec_vendor_excluded(uevent: Seq<char>, model: Seq<char>) -> bool {
    names_excluded_vendor(lowercase(uevent)) || names_excluded_vendor(lowercase(model))
}

/// Whether an entry belongs to another vendor.
pub fn is_vendor_excluded(uevent: &str, model: &str) -> (r: bool)
    ensures
        r == spec_vendor_excluded(uevent@, model@),
{
    let u = lower_chars(uevent);
    let m = lower_chars(model);
    excluded_vendor_named(u.as_slice()) || excluded_vendor_named(m.as_slice())
}

/// The text an entry is matched on: its model, `uevent` and name, lowercased.
pub open spec fn supply_combined(model: Seq<char>, uevent: Seq<char>, entry: Seq<char>) -> Seq<char> {
    lowercase(model) + " "@ + lowercase(uevent) + " "@ + lowercase(entry)
}

/// An entry is the device when its text contains the device's physical path, or by
/// model (E9050 keyboards, MT760 mice), or, for other devices, when it names Rapoo.
pub open spec fn spec_device_match(device_name: Seq<char>, model: Seq<char>, uevent: Seq<char>, entry: Seq<char>, phys: Option<Seq<char>>) -> bool {
    let dev = lowercase(device_name);
    let combined = supply_combined(model, uevent, entry);
    let combined_clean = crate::text::without(combined, seq![':', '_', '-']);
    if phys is Some && clean_id(phys.unwrap()).len() > 0 && has_sub(combined_clean, clean_id(phys.unwrap())) {
        true
    } else if has_sub(dev, "e9050"@) {
        has_sub(combined, "e9050"@) || (has_sub(combined, "keyboard"@) && !has_sub(combined, "mouse"@))
    } else if has_sub(dev, "mt760"@) {
        has_sub(combined, "mt760"@) || (has_sub(combined, "mouse"@) && !has_sub(combined, "keyboard"@))
    } else {
        has_sub(combined, "rapoo"@) || has_sub(combined, "24ae"@)
    }
}

/// Whether a power-supply entry is the device.
pub fn is_device_match(device_name: &str, model_name: &str, uevent: &str, entry_name: &str, phys: Option<&str>) -> (r: bool)
    ensures
        r == spec_device_match(device_name@, model_name@, uevent@, entry_name@, crate::text::str_opt(phys)),
{
    let dev = lower_chars(device_name);
    let mut combined = string_of(lower_chars(model_name).as_slice());
    crate::text::append_str(&mut combined, " ");
    crate::text::append_str(&mut combined, string_of(lower_chars(uevent).as_slice()).as_str());
    crate::text::append_str(&mut combined, " ");
    crate::text::append_str(&mut combined, string_of(lower_chars(entry_name).as_slice()).as_str());
    let comb = chars_of(combined.as_str());
    if let Some(p) = phys {
        let pc = clean_id_chars(p);
        let seps = [':', '_', '-'];
        let cc = crate::text::remove_chars(comb.as_slice(), &seps);
        assert(seps@ =~= seq![':', '_', '-']);
        if pc.len() > 0 && contains(cc.as_slice(), pc.as_slice()) {
            return true;
        }
    }
    if has(dev.as_slice(), "e9050") {
        return has(comb.as_slice(), "e9050") || (has(comb.as_slice(), "keyboard") && !(has(comb.as_slice(), "mouse")));
    }
    if has(dev.as_slice(), "mt760") {
        return has(comb.as_slice(), "mt760") || (has(comb.as_slice(), "mouse") && !(has(comb.as_slice(), "keyboard")));
    }
    has(comb.as_slice(), "rapoo") || has(comb.as_slice(), "24ae")
}

/// The level written in a `capacity` file (surrounding whitespace ignored).
pub open spec fn spec_capacity(cap: Seq<char>) -> Option<u8> {
    match parse_unsigned(trim(cap), 10, 255) {
        Some(v) => Some(v as u8),
        None => None,
    }
}

/// Reads a `capacity` file.
pub fn parse_capacity(cap: &str) -> (r: Option<u8>)
    ensures
        r == spec_capacity(cap@),
{
    let t = trim_str(cap);
    match parse_number(t.as_slice(), 10, 255) {
        Some(v) => Some(v as u8),
        None => None,
    }
}

/// The level a `capacity_level` word stands for.
pub open spec fn spec_level_word(level: Seq<char>) -> Option<u8> {
    let w = lowercase(trim(level));
    if w == "full"@ { Some(100) }
    else if w == "high"@ { Some(80) }
    else if w == "normal"@ || w == "medium"@ { Some(50) }
    else if w == "low"@ { Some(20) }
    else if w == "critical"@ { Some(5) }
    else { None }
}

/// Reads a `capacity_level` file.
pub fn capacity_level_percentage(level: &str) -> (r: Option<u8>)
    ensures
        r == spec_level_word(level@),
{
    let t = string_of(trim_str(level).as_slice());
    let w = lower_chars(t.as_str());
    let ws = w.as_slice();
    if crate::text::is_text(ws, "full") { Some(100) }
    else if crate::text::is_text(ws, "high") { Some(80) }
    else if crate::text::is_text(ws, "normal") || crate::text::is_text(ws, "medium") { Some(50) }
    else if crate::text::is_text(ws, "low") { Some(20) }
    else if crate::text::is_text(ws, "critical") { Some(5) }
    else { None }
}

/// A `status` file says the device charges: it mentions charging but not discharging.
pub open spec fn spec_status_charging(status: Seq<char>) -> bool {
    has_sub(lowercase(status), "charging"@) && !has_sub(lowercase(status), "discharging"@)
}

/// Whether a `status` file says the device charges.
pub fn status_charging(status: &str) -> (r: bool)
    ensures
        r == spec_status_charging(status@),
{
    let l = lower_chars(status);
    has(l.as_slice(), "charging") && !(has(l.as_slice(), "discharging"))
}

/// An entry created by the kernel's HID battery driver (`hid-…-battery`).
pub open spec fn spec_hid_battery_entry(name: Seq<char>) -> bool {
    starts_with(name, "hid-"@) && crate::text::ends_with(name, "-battery"@)
}

/// Whether an entry was created by the kernel's HID battery driver.
pub fn is_hid_battery_entry(name: &str) -> (r: bool)
    ensures
        r == spec_hid_battery_entry(name@),
{
    let n = chars_of(name);
    let suffix = chars_of("-battery");
    begins(n.as_slice(), "hid-") && crate::text::has_suffix(n.as_slice(), suffix.as_slice())
}

/// A HID battery entry is the device when its name contains the device's physical
/// path; without a path, when its model names Rapoo or its name Rapoo's vendor id.
pub open spec fn spec_hid_battery_match(phys: Option<Seq<char>>, name: Seq<char>, model: Seq<char>) -> bool {
    match phys {
        Some(p) => clean_id(p).len() > 0 && has_sub(clean_id(name), clean_id(p)),
        None => has_sub(lowercase(model), "rapoo"@) || has_sub(name, "24ae"@),
    }
}

/// Whether a HID battery entry is the device.
pub fn hid_battery_matches(device: &DeviceIdentity, name: &str, model_name: &str) -> (r: bool)
    ensures
        r == spec_hid_battery_match(crate::text::text_of(device.phys), name@, model_name@),
{
    match &device.phys {
        Some(p) => {
            let pc = clean_id_chars(p.as_str());
            let nc = clean_id_chars(name);
            pc.len() > 0 && contains(nc.as_slice(), pc.as_slice())
        },
        None => {
            let m = lower_chars(model_name);
            let n = chars_of(name);
            has(m.as_slice(), "rapoo") || has(n.as_slice(), "24ae")
        },
    }
}

/// `r` is the reading of a power-supply entry at `path` reporting `pct` from `source`.
pub open spec fn is_supply_reading(r: BatteryReading, name: Seq<char>, source: BatterySource, path: Seq<char>,
    model: Seq<char>, pct: u8, charging: bool, time: u64) -> bool
{
    &&& r.percentage == Some(if pct > 100 { 100u8 } else { pct })
    &&& r.state == if charging { BatteryState::Charging } else { BatteryState::Available }
    &&& r.is_present
    &&& r.charging == Some(charging)
    &&& r.source == source
    &&& r.timestamp == time
    &&& r.device_identifier@ == name
    &&& r.connection@ == if source == BatterySource::Sysfs { "sysfs"@ } else { "hid_standard"@ }
    &&& r.confidence == BatteryConfidence::Medium
    &&& r.device_match_confidence == BatteryConfidence::Medium
    &&& r.reading_confidence == BatteryConfidence::Medium
    &&& r.reading_valid
    &&& !r.is_stale
    &&& r.validity is Valid
    &&& r.invalidation_reason is None
    &&& r.alternative_source is None
    &&& r.conflict_status is None
    &&& r.raw_data matches Some(d) && supply_raw_ok(d, path, model)
}

/// The raw details of a power-supply reading: the entry's path and model.
pub open spec fn supply_raw_ok(d: RawProviderData, path: Seq<char>, model: Seq<char>) -> bool {
    &&& d.sysfs_path matches Some(p) && p@ == path
    &&& d.model matches Some(m) && m@ == model
    &&& d.upower_path is None && d.bluez_path is None && d.hidraw_path is None && d.hid_uniq is None
    &&& d.parent_usb is None && d.report_id is None && d.bluetooth_address is None && d.serial is None
}

/// The reading of a power-supply entry (`source` is `Sysfs` or `HidStandard`).
pub fn power_supply_reading(device: &DeviceIdentity, source: BatterySource, path: &str, model: &str, pct: u8, charging: bool, now: u64) -> (r: BatteryReading)
    ensures
        is_supply_reading(r, device.name@, source, path@, model@, pct, charging, now),
{
    let mut raw = RawProviderData::empty();
    raw.sysfs_path = Some(owned(path));
    raw.model = Some(owned(model));
    BatteryReading {
        percentage: Some(if pct > 100 { 100 } else { pct }),
        state: if charging { BatteryState::Charging } else { BatteryState::Available },
        is_present: true,
        charging: Some(charging),
        source,
        timestamp: now,
        device_identifier: device.name.clone(),
        connection: if source == BatterySource::Sysfs { owned("sysfs") } else { owned("hid_standard") },
        confidence: BatteryConfidence::Medium,
        device_match_confidence: BatteryConfidence::Medium,
        reading_confidence: BatteryConfidence::Medium,
        reading_valid: true,
        is_stale: false,
        validity: BatteryValidity::Valid,
        invalidation_reason: None,
        alternative_source: None,
        conflict_status: None,
        raw_data: Some(raw),
    }
}

} // verus!
