//! UPower (`org.freedesktop.UPower.Device`) battery telemetry: which UPower device is
//! the device, and what its properties mean.

use vstd::prelude::*;
use crate::battery::provider::DeviceIdentity;
use crate::battery::sysfs::{excluded_vendor_named, names_excluded_vendor};
use crate::battery::bluez::level_state;
use crate::battery::types::{
    BatteryConfidence, BatteryReading, BatterySource, BatteryState, BatteryValidity, RawProviderData,
};
use crate::device::DeviceType;
use crate::text::{
    append_str, chars_of, clean_id, clean_id_chars, contains, has, has_sub, key_chars, key_of,
    lower_chars, lowercase, owned, string_of,
};

verus! {

/// Reads battery levels that UPower exposes over D-Bus.
pub struct UPowerProvider;

impl UPowerProvider {
    pub fn new() -> (r: Self) {
        UPowerProvider
    }

    pub fn name(&self) -> (r: &'static str)
        ensures
            r@ == "UPower D-Bus Provider"@,
    {
        "UPower D-Bus Provider"
    }

    pub fn source(&self) -> (r: BatterySource)
        ensures
            r == BatterySource::UPower,
    {
        BatterySource::UPower
    }

    pub fn priority(&self) -> (r: u8)
        ensures
            r == 3,
    {
        3
    }
}

/// A UPower object path worth looking at: it names a mouse, a keyboard, a Bluetooth
/// device or a battery.
pub open spec fn spec_upower_path_relevant(path: Seq<char>) -> bool {
    let p = lowercase(path);
    has_sub(p, "mouse"@) || has_sub(p, "keyboard"@) || has_sub(p, "dev_"@) || has_sub(p, "battery"@)
}

/// Whether a UPower object path is worth looking at.
pub fn upower_path_relevant(path: &str) -> (r: bool)
    ensures
        r == spec_upower_path_relevant(path@),
{
    let p = lower_chars(path);
    has(p.as_slice(), "mouse") || has(p.as_slice(), "keyboard") || has(p.as_slice(), "dev_")
        || has(p.as_slice(), "battery")
}

/// The text a UPower device is matched on: its model, object path and native path.
pub open spec fn upower_combined(model: Seq<char>, path: Seq<char>, native: Seq<char>) -> Seq<char> {
    lowercase(model) + " "@ + lowercase(path) + " "@ + lowercase(native)
}

/// Whether a UPower device is the device: devices of other vendors never are; a mouse
/// never takes a keyboard's entry nor a keyboard a mouse's (by UPower type code 6 or 5,
/// model or path); a known Bluetooth address decides alone; then a physical path that
/// names the entry; then the model (E9050 keyboards, MT760 mice).
pub open spec fn spec_upower_match(device: DeviceIdentity, model: Seq<char>, serial: Seq<char>, native: Seq<char>,
    path: Seq<char>, type_code: u32) -> bool
{
    let dev = lowercase(device.name@);
    let m = lowercase(model);
    let p = lowercase(path);
    let n = lowercase(native);
    let combined = upower_combined(model, path, native);
    let combined_clean = key_of(combined);
    let serial_clean = key_of(serial);
    if names_excluded_vendor(m) || names_excluded_vendor(n) {
        false
    } else if device.device_type == DeviceType::Mouse
        && (type_code == 6 || has_sub(m, "keyboard"@) || has_sub(p, "keyboard_dev"@)) {
        false
    } else if device.device_type == DeviceType::Keyboard
        && (type_code == 5 || has_sub(m, "mouse"@) || has_sub(p, "mouse_dev"@)) {
        false
    } else if device.bluetooth_address is Some && key_of(device.bluetooth_address.unwrap()@).len() > 0 {
        let target = key_of(device.bluetooth_address.unwrap()@);
        has_sub(combined_clean, target) || has_sub(serial_clean, target)
    } else if device.phys is Some && clean_id(device.phys.unwrap()@).len() > 0
        && (has_sub(combined_clean, clean_id(device.phys.unwrap()@))
            || (serial_clean.len() > 0 && has_sub(clean_id(device.phys.unwrap()@), serial_clean))) {
        true
    } else if has_sub(dev, "e9050"@) || device.device_type == DeviceType::Keyboard {
        (has_sub(combined, "e9050"@) || type_code == 6 || has_sub(m, "keyboard"@)) && !has_sub(combined, "mouse"@)
    } else if has_sub(dev, "mt760"@) || device.device_type == DeviceType::Mouse {
        (has_sub(combined, "mt760"@) || type_code == 5 || has_sub(m, "mouse"@)) && !has_sub(combined, "keyboard"@)
    } else {
        false
    }
}

/// Whether a UPower device is the device.
pub fn is_upower_device_match(device: &DeviceIdentity, model: &str, serial: &str, native_path: &str,
    path_str: &str, dev_type_code: u32) -> (r: bool)
    ensures
        r == spec_upower_match(*device, model@, serial@, native_path@, path_str@, dev_type_code),
{
    let dev = lower_chars(device.name.as_str());
    let m = lower_chars(model);
    let p = lower_chars(path_str);
    let n = lower_chars(native_path);
    let mut combined = string_of(m.as_slice());
    append_str(&mut combined, " ");
    append_str(&mut combined, string_of(p.as_slice()).as_str());
    append_str(&mut combined, " ");
    append_str(&mut combined, string_of(n.as_slice()).as_str());
    let comb = chars_of(combined.as_str());
    let combined_clean = key_chars(combined.as_str());
    let serial_clean = key_chars(serial);
    if excluded_vendor_named(m.as_slice()) || excluded_vendor_named(n.as_slice()) {
        return false;
    }
    let is_mouse = matches!(device.device_type, DeviceType::Mouse);
    let is_keyboard = matches!(device.device_type, DeviceType::Keyboard);
    if is_mouse {
        if dev_type_code == 6 || has(m.as_slice(), "keyboard") || has(p.as_slice(), "keyboard_dev") {
            return false;
        }
    } else if is_keyboard {
        if dev_type_code == 5 || has(m.as_slice(), "mouse") || has(p.as_slice(), "mouse_dev") {
            return false;
        }
    }
    if let Some(target_bt) = &device.bluetooth_address {
        let target = key_chars(target_bt.as_str());
        if target.len() > 0 {
            return contains(combined_clean.as_slice(), target.as_slice())
                || contains(serial_clean.as_slice(), target.as_slice());
        }
    }
    if let Some(phys) = &device.phys {
        let pc = clean_id_chars(phys.as_str());
        if pc.len() > 0 && (contains(combined_clean.as_slice(), pc.as_slice())
            || (serial_clean.len() > 0 && contains(pc.as_slice(), serial_clean.as_slice()))) {
            return true;
        }
    }
    if has(dev.as_slice(), "e9050") || is_keyboard {
        if has(comb.as_slice(), "e9050") || dev_type_code == 6 || has(m.as_slice(), "keyboard") {
            return !(has(comb.as_slice(), "mouse"));
        }
        return false;
    }
    if has(dev.as_slice(), "mt760") || is_mouse {
        if has(comb.as_slice(), "mt760") || dev_type_code == 5 || has(m.as_slice(), "mouse") {
            return !(has(comb.as_slice(), "keyboard"));
        }
        return false;
    }
    false
}

/// The level of a UPower device: its `Percentage` (rounded, when not negative), else the
/// level its coarse `BatteryLevel` code stands for.
pub open spec fn spec_upower_level(rounded: Option<u8>, level_code: u32) -> Option<u8> {
    match rounded {
        Some(p) => Some(p),
        None => if level_code == 8 { Some(100u8) }
            else if level_code == 7 { Some(80u8) }
            else if level_code == 6 { Some(50u8) }
            else if level_code == 3 { Some(20u8) }
            else if level_code == 4 { Some(5u8) }
            else { None },
    }
}

/// The level of a UPower device.
pub fn upower_level(rounded: Option<u8>, battery_level_code: u32) -> (r: Option<u8>)
    ensures
        r == spec_upower_level(rounded, battery_level_code),
{
    match rounded {
        Some(p) => Some(p),
        None => match battery_level_code {
            8 => Some(100),
            7 => Some(80),
            6 => Some(50),
            3 => Some(20),
            4 => Some(5),
            _ => None,
        },
    }
}

/// A UPower entry is stale when it was last updated more than an hour before `now`.
pub open spec fn upower_stale(update_time: u64, now: u64) -> bool {
    update_time > 0 && now > update_time && now - update_time > 3600
}

/// The raw details of a UPower reading.
pub open spec fn upower_raw_ok(d: RawProviderData, path: Seq<char>, model: Seq<char>, serial: Seq<char>, with_address: bool) -> bool {
    &&& d.upower_path matches Some(p) && p@ == path
    &&& d.model matches Some(m) && m@ == model
    &&& d.serial matches Some(s) && s@ == serial
    &&& if with_address && serial.contains(':') {
        d.bluetooth_address matches Some(a) && a@ == serial
    } else {
        d.bluetooth_address is None
    }
    &&& d.bluez_path is None && d.hidraw_path is None && d.sysfs_path is None && d.hid_uniq is None
    &&& d.parent_usb is None && d.report_id is None
}

/// What a matched UPower device's properties mean: a 0% level with unknown state and
/// no coarse level is not trusted; another level gives a reading (stale after an hour,
/// its confidence from how the entry was identified); no level at all gives none.
pub open spec fn upower_reading_ok(r: Option<BatteryReading>, name: Seq<char>, path: Seq<char>, model: Seq<char>,
    serial: Seq<char>, native: Seq<char>, state_code: u32, update_time: u64, level: Option<u8>, level_code: u32, now: u64) -> bool
{
    let stale = upower_stale(update_time, now);
    let time = if update_time > 0 { update_time } else { now };
    if level == Some(0u8) && state_code == 0 && level_code == 0 {
        r matches Some(x) && {
            &&& x.percentage is None
            &&& x.state == BatteryState::Unknown
            &&& x.is_present
            &&& x.charging is None
            &&& x.source == BatterySource::UPower
            &&& x.timestamp == time
            &&& x.device_identifier@ == name
            &&& x.connection@ == "upower_dbus"@
            &&& x.confidence == BatteryConfidence::Unconfirmed
            &&& x.device_match_confidence == BatteryConfidence::High
            &&& x.reading_confidence == BatteryConfidence::Unconfirmed
            &&& !x.reading_valid
            &&& x.is_stale == stale
            &&& x.validity is ZeroUnconfirmed
            &&& x.invalidation_reason matches Some(s)
                && s@ == "Leitura de 0% não confirmada pelo UPower/BlueZ (estado desconhecido)"@
            &&& x.alternative_source is None
            &&& x.conflict_status is None
            &&& x.raw_data matches Some(d) && upower_raw_ok(d, path, model, serial, false)
        }
    } else {
        match level {
            Some(pct) => r matches Some(x) && {
                let charging = state_code == 1;
                let match_conf = if has_sub(native, "hci"@) || serial.len() > 0 {
                    BatteryConfidence::High
                } else {
                    BatteryConfidence::Medium
                };
                let conf = if pct == 0 && state_code == 0 { BatteryConfidence::Unconfirmed } else { match_conf };
                &&& x.percentage == Some(if pct > 100 { 100u8 } else { pct })
                &&& x.state == if charging { BatteryState::Charging }
                    else if state_code == 4 { BatteryState::Full }
                    else { level_state(pct) }
                &&& x.is_present
                &&& x.charging == Some(charging)
                &&& x.source == BatterySource::UPower
                &&& x.timestamp == time
                &&& x.device_identifier@ == name
                &&& x.connection@ == "upower_dbus"@
                &&& x.confidence == conf
                &&& x.device_match_confidence == match_conf
                &&& x.reading_confidence == conf
                &&& x.reading_valid == (!stale && (pct > 0 || state_code != 0))
                &&& x.is_stale == stale
                &&& if stale {
                    x.validity == (BatteryValidity::StaleReading { age_seconds: (now - update_time) as u64 })
                } else {
                    x.validity is Valid
                }
                &&& x.invalidation_reason is None
                &&& x.alternative_source is None
                &&& x.conflict_status is None
                &&& x.raw_data matches Some(d) && upower_raw_ok(d, path, model, serial, true)
            },
            None => r is None,
        }
    }
}

fn upower_raw(path: &str, model: &str, serial: &str, with_address: bool) -> (d: RawProviderData)
    ensures
        upower_raw_ok(d, path@, model@, serial@, with_address),
{
    let mut d = RawProviderData::empty();
    d.upower_path = Some(owned(path));
    d.model = Some(owned(model));
    d.serial = Some(owned(serial));
    if with_address && crate::text::char_in(':', chars_of(serial).as_slice()) {
        d.bluetooth_address = Some(owned(serial));
    }
    d
}

/// The reading made of a matched UPower device's properties (none when it reports no
/// level); the log records a rejected 0%.
pub fn upower_reading(
    device: &DeviceIdentity,
    path: &str,
    model: &str,
    serial: &str,
    native_path: &str,
    state_code: u32,
    update_time: u64,
    level: Option<u8>,
    battery_level_code: u32,
    now: u64,
    log: &mut Vec<String>,
) -> (r: Option<BatteryReading>)
    ensures
        upower_reading_ok(r, device.name@, path@, model@, serial@, native_path@, state_code, update_time,
            level, battery_level_code, now),
        final(log)@.len() >= old(log)@.len(),
        final(log)@.subrange(0, old(log)@.len() as int) == old(log)@,
{
    let is_stale = update_time > 0 && now > update_time && now - update_time > 3600;
    let time = if update_time > 0 { update_time } else { now };
    if level == Some(0u8) && state_code == 0 && battery_level_code == 0 {
        let mut l = owned("Ignorando ");
        append_str(&mut l, path);
        append_str(&mut l, ": bateria 0% com State=0 (Unknown) e BatteryLevel=0 (BlueZ não sincronizou)");
        log.push(l);
        assert(log@.subrange(0, old(log)@.len() as int) =~= old(log)@);
        return Some(BatteryReading {
            percentage: None,
            state: BatteryState::Unknown,
            is_present: true,
            charging: None,
            source: BatterySource::UPower,
            timestamp: time,
            device_identifier: device.name.clone(),
            connection: owned("upower_dbus"),
            confidence: BatteryConfidence::Unconfirmed,
            device_match_confidence: BatteryConfidence::High,
            reading_confidence: BatteryConfidence::Unconfirmed,
            reading_valid: false,
            is_stale,
            validity: BatteryValidity::ZeroUnconfirmed,
            invalidation_reason: Some(owned("Leitura de 0% não confirmada pelo UPower/BlueZ (estado desconhecido)")),
            alternative_source: None,
            conflict_status: None,
            raw_data: Some(upower_raw(path, model, serial, false)),
        });
    }
    match level {
        Some(pct) => {
            let is_charging = state_code == 1;
            let validity = if is_stale {
                BatteryValidity::StaleReading { age_seconds: now - update_time }
            } else {
                BatteryValidity::Valid
            };
            let state = if is_charging {
                BatteryState::Charging
            } else if state_code == 4 {
                BatteryState::Full
            } else if pct <= 5 {
                BatteryState::Critical
            } else if pct <= 20 {
                BatteryState::Low
            } else {
                BatteryState::Available
            };
            let native = chars_of(native_path);
            let dev_match_conf = if has(native.as_slice(), "hci") || !serial.is_empty() {
                BatteryConfidence::High
            } else {
                BatteryConfidence::Medium
            };
            let reading_conf = if pct == 0 && state_code == 0 {
                BatteryConfidence::Unconfirmed
            } else {
                dev_match_conf
            };
            Some(BatteryReading {
                percentage: Some(if pct > 100 { 100 } else { pct }),
                state,
                is_present: true,
                charging: Some(is_charging),
                source: BatterySource::UPower,
                timestamp: time,
                device_identifier: device.name.clone(),
                connection: owned("upower_dbus"),
                confidence: reading_conf,
                device_match_confidence: dev_match_conf,
                reading_confidence: reading_conf,
                reading_valid: !is_stale && (pct > 0 || state_code != 0),
                is_stale,
                validity,
                invalidation_reason: None,
                alternative_source: None,
                conflict_status: None,
                raw_data: Some(upower_raw(path, model, serial, true)),
            })
        },
        None => None,
    }
}

/// Readings stay with their device: a mouse never takes a UPower entry of keyboard type
/// (or whose model says keyboard), a keyboard never one of mouse type; and a device whose
/// Bluetooth address is known only takes an entry that carries that address.
pub proof fn lemma_upower_device_isolation(device: DeviceIdentity, model: Seq<char>, serial: Seq<char>,
    native: Seq<char>, path: Seq<char>, type_code: u32)
    ensures
        device.device_type == DeviceType::Mouse && (type_code == 6 || has_sub(lowercase(model), "keyboard"@))
            ==> !spec_upower_match(device, model, serial, native, path, type_code),
        device.device_type == DeviceType::Keyboard && (type_code == 5 || has_sub(lowercase(model), "mouse"@))
            ==> !spec_upower_match(device, model, serial, native, path, type_code),
        device.bluetooth_address is Some && key_of(device.bluetooth_address.unwrap()@).len() > 0
            && spec_upower_match(device, model, serial, native, path, type_code)
            ==> has_sub(key_of(upower_combined(model, path, native)), key_of(device.bluetooth_address.unwrap()@))
                || has_sub(key_of(serial), key_of(device.bluetooth_address.unwrap()@)),
{
}

} // verus!
