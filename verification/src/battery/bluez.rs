//! BlueZ (`org.bluez.Battery1`) battery telemetry: which Bluetooth object is the
//! device, and what its battery properties mean.

use vstd::prelude::*;
use crate::battery::provider::DeviceIdentity;
use crate::battery::types::{
    BatteryConfidence, BatteryReading, BatterySource, BatteryState, BatteryValidity, RawProviderData,
};
use crate::device::DeviceType;
use crate::text::{chars_of, 
    append_dec, append_str, clean_id, clean_id_chars, contains, dec, has, has_sub, lower_chars,
    lowercase, owned, string_of,
};

verus! {

/// Reads battery levels that BlueZ exposes over D-Bus.
pub struct BluezBatteryProvider;

impl BluezBatteryProvider {
    pub fn new() -> (r: Self) {
        BluezBatteryProvider
    }

    pub fn name(&self) -> (r: &'static str)
        ensures
            r@ == "BlueZ D-Bus Battery Provider"@,
    {
        "BlueZ D-Bus Battery Provider"
    }

    pub fn source(&self) -> (r: BatterySource)
        ensures
            r == BatterySource::BlueZ,
    {
        BatterySource::BlueZ
    }

    /// Highest priority for Bluetooth devices.
    pub fn priority(&self) -> (r: u8)
        ensures
            r == 1,
    {
        1
    }
}

/// The text an object is matched on: its alias, name, address and path, lowercased
/// and separated by spaces.
pub open spec fn bluez_combined(alias: Seq<char>, name: Seq<char>, address: Seq<char>, path: Seq<char>) -> Seq<char> {
    lowercase(alias) + " "@ + lowercase(name) + " "@ + lowercase(address) + " "@ + lowercase(path)
}

/// The text an object is matched on.
pub fn bluez_combined_info(alias: &str, name: &str, address: &str, path: &str) -> (r: String)
    ensures
        r@ == bluez_combined(alias@, name@, address@, path@),
{
    let mut r = string_of(lower_chars(alias).as_slice());
    append_str(&mut r, " ");
    append_str(&mut r, string_of(lower_chars(name).as_slice()).as_str());
    append_str(&mut r, " ");
    append_str(&mut r, string_of(lower_chars(address).as_slice()).as_str());
    append_str(&mut r, " ");
    append_str(&mut r, string_of(lower_chars(path).as_slice()).as_str());
    r
}

/// Whether a BlueZ object (described by `combined` and its `address`) is the device:
/// a mouse never takes a keyboard's object nor a keyboard a mouse's; a known Bluetooth
/// address decides alone; then a physical path that names the object; then the model
/// (E9050 keyboards, MT760 mice).
pub open spec fn spec_bluez_match(device: DeviceIdentity, combined: Seq<char>, address: Seq<char>) -> bool {
    let dev = lowercase(device.name@);
    let comb = lowercase(combined);
    let comb_clean = clean_id(combined);
    let addr_clean = clean_id(address);
    if device.device_type == DeviceType::Mouse && has_sub(comb, "keyboard"@) {
        false
    } else if device.device_type == DeviceType::Keyboard && has_sub(comb, "mouse"@) {
        false
    } else if device.bluetooth_address is Some && clean_id(device.bluetooth_address.unwrap()@).len() > 0 {
        let target = clean_id(device.bluetooth_address.unwrap()@);
        addr_clean == target || has_sub(comb_clean, target)
    } else if device.phys is Some && clean_id(device.phys.unwrap()@).len() > 0
        && (has_sub(comb_clean, clean_id(device.phys.unwrap()@))
            || (addr_clean.len() > 0 && has_sub(clean_id(device.phys.unwrap()@), addr_clean))) {
        true
    } else if has_sub(dev, "e9050"@) || device.device_type == DeviceType::Keyboard {
        (has_sub(comb, "e9050"@) || has_sub(comb, "keyboard"@) || has_sub(comb, "kbd"@)) && !has_sub(comb, "mouse"@)
    } else if has_sub(dev, "mt760"@) || device.device_type == DeviceType::Mouse {
        (has_sub(comb, "mt760"@) || has_sub(comb, "mouse"@) || has_sub(comb, "bt mouse"@)) && !has_sub(comb, "keyboard"@)
    } else {
        false
    }
}

/// Whether a BlueZ object is the device.
pub fn is_bluez_match(device: &DeviceIdentity, combined: &str, address: &str) -> (r: bool)
    ensures
        r == spec_bluez_match(*device, combined@, address@),
{
    let dev = lower_chars(device.name.as_str());
    let comb = lower_chars(combined);
    let comb_clean = clean_id_chars(combined);
    let addr_clean = clean_id_chars(address);
    let is_mouse = matches!(device.device_type, DeviceType::Mouse);
    let is_keyboard = matches!(device.device_type, DeviceType::Keyboard);
    if is_mouse {
        if has(comb.as_slice(), "keyboard") {
            return false;
        }
    } else if is_keyboard && has(comb.as_slice(), "mouse") {
        return false;
    }
    if let Some(target_bt) = &device.bluetooth_address {
        let target = clean_id_chars(target_bt.as_str());
        if target.len() > 0 {
            return crate::text::chars_eq(addr_clean.as_slice(), target.as_slice())
                || contains(comb_clean.as_slice(), target.as_slice());
        }
    }
    if let Some(phys) = &device.phys {
        let p = clean_id_chars(phys.as_str());
        if p.len() > 0 && (contains(comb_clean.as_slice(), p.as_slice())
            || (addr_clean.len() > 0 && contains(p.as_slice(), addr_clean.as_slice()))) {
            return true;
        }
    }
    if has(dev.as_slice(), "e9050") || is_keyboard {
        return (has(comb.as_slice(), "e9050") || has(comb.as_slice(), "keyboard") || has(comb.as_slice(), "kbd"))
            && !(has(comb.as_slice(), "mouse"));
    }
    if has(dev.as_slice(), "mt760") || is_mouse {
        return (has(comb.as_slice(), "mt760") || has(comb.as_slice(), "mouse") || has(comb.as_slice(), "bt mouse"))
            && !(has(comb.as_slice(), "keyboard"));
    }
    false
}

/// What is known of a matched object before its battery is read.
pub enum BluezObjectStep {
    /// The object has no `Battery1` interface: look further.
    NoBattery,
    /// The device is disconnected: this reading says so.
    Disconnected(BatteryReading),
    /// The battery can be read.
    ReadBattery,
}

/// The fields every BlueZ reading shares.
pub open spec fn bluez_common(r: BatteryReading, name: Seq<char>, path: Seq<char>, address: Seq<char>, alias: Seq<char>, time: u64) -> bool {
    &&& r.source == BatterySource::BlueZ
    &&& r.timestamp == time
    &&& r.device_identifier@ == name
    &&& r.device_match_confidence == BatteryConfidence::High
    &&& !r.is_stale
    &&& r.alternative_source is None
    &&& r.conflict_status is None
    &&& r.raw_data matches Some(d) && bluez_raw_ok(d, path, address, alias)
}

/// The raw details of a BlueZ reading: its object path, address and alias.
pub open spec fn bluez_raw_ok(d: RawProviderData, path: Seq<char>, address: Seq<char>, alias: Seq<char>) -> bool {
    &&& d.bluez_path matches Some(p) && p@ == path
    &&& d.bluetooth_address matches Some(a) && a@ == address
    &&& d.model matches Some(m) && m@ == alias
    &&& d.upower_path is None && d.hidraw_path is None && d.sysfs_path is None
    &&& d.hid_uniq is None && d.parent_usb is None && d.report_id is None && d.serial is None
}

fn bluez_raw(path: &str, address: &str, alias: &str) -> (d: RawProviderData)
    ensures
        bluez_raw_ok(d, path@, address@, alias@),
{
    let mut d = RawProviderData::empty();
    d.bluez_path = Some(owned(path));
    d.bluetooth_address = Some(owned(address));
    d.model = Some(owned(alias));
    d
}

/// The step after a matched object: without `Battery1` nothing is read; a disconnected
/// device gives a "disconnected" reading; otherwise the battery is read.
pub fn bluez_object_step(
    device: &DeviceIdentity,
    path: &str,
    address: &str,
    alias: &str,
    has_battery: bool,
    connected: bool,
    now: u64,
) -> (s: BluezObjectStep)
    ensures
        !has_battery <==> s is NoBattery,
        has_battery && connected <==> s is ReadBattery,
        s matches BluezObjectStep::Disconnected(r) ==> {
            &&& bluez_common(r, device.name@, path@, address@, alias@, now)
            &&& r.percentage is None
            &&& r.state == BatteryState::DeviceDisconnected
            &&& !r.is_present
            &&& r.charging is None
            &&& r.connection@ == "bluetooth"@
            &&& r.confidence == BatteryConfidence::Low
            &&& r.reading_confidence == BatteryConfidence::NotAvailable
            &&& !r.reading_valid
            &&& r.validity is DeviceDisconnected
            &&& r.invalidation_reason matches Some(x) && x@ == "Dispositivo Bluetooth desconectado"@
        },
{
    if !has_battery {
        return BluezObjectStep::NoBattery;
    }
    if !connected {
        return BluezObjectStep::Disconnected(BatteryReading {
            percentage: None,
            state: BatteryState::DeviceDisconnected,
            is_present: false,
            charging: None,
            source: BatterySource::BlueZ,
            timestamp: now,
            device_identifier: device.name.clone(),
            connection: owned("bluetooth"),
            confidence: BatteryConfidence::Low,
            device_match_confidence: BatteryConfidence::High,
            reading_confidence: BatteryConfidence::NotAvailable,
            reading_valid: false,
            is_stale: false,
            validity: BatteryValidity::DeviceDisconnected,
            invalidation_reason: Some(owned("Dispositivo Bluetooth desconectado")),
            alternative_source: None,
            conflict_status: None,
            raw_data: Some(bluez_raw(path, address, alias)),
        });
    }
    BluezObjectStep::ReadBattery
}

/// The battery state shown for a level: critical up to 5%, low up to 20%.
pub open spec fn level_state(pct: u8) -> BatteryState {
    if pct <= 5 {
        BatteryState::Critical
    } else if pct <= 20 {
        BatteryState::Low
    } else {
        BatteryState::Available
    }
}

/// What a `Battery1` object's `Percentage` (and `Source`) mean for the device: above
/// 100 is rejected; 0 is not trusted without a second source; another level is
/// accepted; a missing level makes the reading invalid.
pub open spec fn bluez_battery_ok(r: BatteryReading, name: Seq<char>, path: Seq<char>, address: Seq<char>,
    alias: Seq<char>, pct: Option<u8>, bt_source: Seq<char>, time: u64) -> bool
{
    &&& bluez_common(r, name, path, address, alias, time)
    &&& r.is_present
    &&& r.charging is None
    &&& match pct {
        Some(p) => if p > 100 {
            &&& r.percentage == Some(p)
            &&& r.state == BatteryState::Unknown
            &&& r.connection@ == "bluetooth"@
            &&& r.confidence == BatteryConfidence::NotAvailable
            &&& r.reading_confidence == BatteryConfidence::Rejected
            &&& !r.reading_valid
            &&& r.validity matches BatteryValidity::Invalid { reason } && reason@ == "Percentage de "@ + dec(p as nat) + "% acima de 100%"@
            &&& r.invalidation_reason matches Some(x) && x@ == "Percentage de "@ + dec(p as nat) + "% rejeitado por valor inválido"@
        } else if p == 0 {
            &&& r.percentage == Some(0u8)
            &&& r.state == BatteryState::Unknown
            &&& r.connection@ == "bluetooth"@
            &&& r.confidence == BatteryConfidence::Unconfirmed
            &&& r.reading_confidence == BatteryConfidence::Unconfirmed
            &&& !r.reading_valid
            &&& r.validity is ZeroUnconfirmed
            &&& r.invalidation_reason matches Some(x)
                && x@ == "Bateria 0% recebida via BlueZ sem confirmação secundária (estado desconhecido)"@
        } else {
            &&& r.percentage == Some(p)
            &&& r.state == level_state(p)
            &&& r.connection@ == if bt_source.len() == 0 { "bluetooth"@ } else { "bluetooth_"@ + bt_source }
            &&& r.confidence == BatteryConfidence::High
            &&& r.reading_confidence == BatteryConfidence::High
            &&& r.reading_valid
            &&& r.validity is Valid
            &&& r.invalidation_reason is None
        },
        None => {
            &&& r.percentage is None
            &&& r.state == BatteryState::Unknown
            &&& r.connection@ == "bluetooth"@
            &&& r.confidence == BatteryConfidence::NotAvailable
            &&& r.reading_confidence == BatteryConfidence::NotAvailable
            &&& !r.reading_valid
            &&& r.validity matches BatteryValidity::Invalid { reason }
                && reason@ == "Propriedade Percentage ausente na interface org.bluez.Battery1"@
            &&& r.invalidation_reason matches Some(x)
                && x@ == "Battery1 encontrada em "@ + path + ", mas propriedade Percentage ausente"@
        },
    }
}

/// The reading made of a matched, connected object's battery properties; the log
/// records the decision.
pub fn bluez_battery_reading(
    device: &DeviceIdentity,
    path: &str,
    address: &str,
    alias: &str,
    percentage: Option<u8>,
    bt_source: &str,
    now: u64,
    log: &mut Vec<String>,
) -> (r: BatteryReading)
    ensures
        bluez_battery_ok(r, device.name@, path@, address@, alias@, percentage, bt_source@, now),
        final(log)@.len() > old(log)@.len(),
        final(log)@.subrange(0, old(log)@.len() as int) == old(log)@,
{
    let ghost log0 = log@;
    let raw = bluez_raw(path, address, alias);
    match percentage {
        Some(pct) => {
            if pct > 100 {
                let mut l = owned("Percentage de ");
                append_dec(&mut l, pct as u64);
                append_str(&mut l, "% rejeitado por valor inválido (>100%)");
                log.push(l);
                assert(log@.subrange(0, log0.len() as int) =~= log0);
                let mut reason = owned("Percentage de ");
                append_dec(&mut reason, pct as u64);
                append_str(&mut reason, "% acima de 100%");
                let mut why = owned("Percentage de ");
                append_dec(&mut why, pct as u64);
                append_str(&mut why, "% rejeitado por valor inválido");
                return BatteryReading {
                    percentage: Some(pct),
                    state: BatteryState::Unknown,
                    is_present: true,
                    charging: None,
                    source: BatterySource::BlueZ,
                    timestamp: now,
                    device_identifier: device.name.clone(),
                    connection: owned("bluetooth"),
                    confidence: BatteryConfidence::NotAvailable,
                    device_match_confidence: BatteryConfidence::High,
                    reading_confidence: BatteryConfidence::Rejected,
                    reading_valid: false,
                    is_stale: false,
                    validity: BatteryValidity::Invalid { reason },
                    invalidation_reason: Some(why),
                    alternative_source: None,
                    conflict_status: None,
                    raw_data: Some(raw),
                };
            }
            let mut l = owned("Percentage obtido via BlueZ: ");
            append_dec(&mut l, pct as u64);
            append_str(&mut l, "%");
            log.push(l);
            if pct == 0 {
                let mut l2 = owned("BlueZ reportou 0% para ");
                append_str(&mut l2, path);
                append_str(&mut l2, ". Marcando como não confirmada.");
                log.push(l2);
                assert(log@.subrange(0, log0.len() as int) =~= log0);
                return BatteryReading {
                    percentage: Some(0),
                    state: BatteryState::Unknown,
                    is_present: true,
                    charging: None,
                    source: BatterySource::BlueZ,
                    timestamp: now,
                    device_identifier: device.name.clone(),
                    connection: owned("bluetooth"),
                    confidence: BatteryConfidence::Unconfirmed,
                    device_match_confidence: BatteryConfidence::High,
                    reading_confidence: BatteryConfidence::Unconfirmed,
                    reading_valid: false,
                    is_stale: false,
                    validity: BatteryValidity::ZeroUnconfirmed,
                    invalidation_reason: Some(owned("Bateria 0% recebida via BlueZ sem confirmação secundária (estado desconhecido)")),
                    alternative_source: None,
                    conflict_status: None,
                    raw_data: Some(raw),
                };
            }
            assert(log@.subrange(0, log0.len() as int) =~= log0);
            let state = if pct <= 5 {
                BatteryState::Critical
            } else if pct <= 20 {
                BatteryState::Low
            } else {
                BatteryState::Available
            };
            let connection = if bt_source.is_empty() {
                owned("bluetooth")
            } else {
                let mut c = owned("bluetooth_");
                append_str(&mut c, bt_source);
                c
            };
            BatteryReading {
                percentage: Some(pct),
                state,
                is_present: true,
                charging: None,
                source: BatterySource::BlueZ,
                timestamp: now,
                device_identifier: device.name.clone(),
                connection,
                confidence: BatteryConfidence::High,
                device_match_confidence: BatteryConfidence::High,
                reading_confidence: BatteryConfidence::High,
                reading_valid: true,
                is_stale: false,
                validity: BatteryValidity::Valid,
                invalidation_reason: None,
                alternative_source: None,
                conflict_status: None,
                raw_data: Some(raw),
            }
        },
        None => {
            let mut l = owned("Battery1 encontrada em '");
            append_str(&mut l, path);
            append_str(&mut l, "', mas propriedade Percentage ausente ou não pôde ser lida");
            log.push(l);
            assert(log@.subrange(0, log0.len() as int) =~= log0);
            let mut why = owned("Battery1 encontrada em ");
            append_str(&mut why, path);
            append_str(&mut why, ", mas propriedade Percentage ausente");
            BatteryReading {
                percentage: None,
                state: BatteryState::Unknown,
                is_present: true,
                charging: None,
                source: BatterySource::BlueZ,
                timestamp: now,
                device_identifier: device.name.clone(),
                connection: owned("bluetooth"),
                confidence: BatteryConfidence::NotAvailable,
                device_match_confidence: BatteryConfidence::High,
                reading_confidence: BatteryConfidence::NotAvailable,
                reading_valid: false,
                is_stale: false,
                validity: BatteryValidity::Invalid {
                    reason: owned("Propriedade Percentage ausente na interface org.bluez.Battery1"),
                },
                invalidation_reason: Some(why),
                alternative_source: None,
                conflict_status: None,
                raw_data: Some(raw),
            }
        },
    }
}

/// A BlueZ reading is accepted as valid only for a level between 1 and 100.
pub proof fn lemma_bluez_valid_level(r: BatteryReading, name: Seq<char>, path: Seq<char>, address: Seq<char>,
    alias: Seq<char>, pct: Option<u8>, bt_source: Seq<char>, time: u64)
    requires
        bluez_battery_ok(r, name, path, address, alias, pct, bt_source, time),
        r.validity is Valid,
    ensures
        r.percentage matches Some(p) && 1 <= p <= 100,
{
}

/// Readings stay with their device: a mouse never takes a BlueZ object that calls itself
/// a keyboard, a keyboard never one that calls itself a mouse; and a device whose
/// Bluetooth address is known only takes the object with that address (or that names it).
pub proof fn lemma_bluez_device_isolation(device: DeviceIdentity, combined: Seq<char>, address: Seq<char>)
    ensures
        device.device_type == DeviceType::Mouse && has_sub(lowercase(combined), "keyboard"@)
            ==> !spec_bluez_match(device, combined, address),
        device.device_type == DeviceType::Keyboard && has_sub(lowercase(combined), "mouse"@)
            ==> !spec_bluez_match(device, combined, address),
        device.bluetooth_address is Some && clean_id(device.bluetooth_address.unwrap()@).len() > 0
            && spec_bluez_match(device, combined, address)
            ==> clean_id(address) == clean_id(device.bluetooth_address.unwrap()@)
                || has_sub(clean_id(combined), clean_id(device.bluetooth_address.unwrap()@)),
{
}

/// A property value as D-Bus delivers it, by its wire type; any other type is kept as
/// its text.
#[derive(Debug, Clone, PartialEq, Eq)]
pub enum DbusValue {
    U8(u8),
    U16(u16),
    U32(u32),
    I32(i32),
    U64(u64),
    Other(String),
}

/// `s` without the leading characters that are in `cs`.
pub open spec fn trim_front_set(s: Seq<char>, cs: Seq<char>) -> Seq<char>
    decreases s.len(),
{
    if s.len() > 0 && cs.contains(s[0]) { trim_front_set(s.drop_first(), cs) } else { s }
}

/// `s` without the trailing characters that are in `cs`.
pub open spec fn trim_back_set(s: Seq<char>, cs: Seq<char>) -> Seq<char>
    decreases s.len(),
{
    if s.len() > 0 && cs.contains(s.last()) { trim_back_set(s.drop_last(), cs) } else { s }
}

/// The characters stripped around a level given as text: quotes, apostrophes,
/// spaces and parentheses.
pub open spec fn level_wrappers() -> Seq<char> {
    seq!['"', '\'', ' ', '(', ')']
}

/// A level given as text, stripped of `level_wrappers` at both ends, as a `u8`.
pub open spec fn text_level(t: Seq<char>) -> Option<u8> {
    match crate::text::parse_unsigned(trim_back_set(trim_front_set(t, level_wrappers()), level_wrappers()), 10, 255) {
        Some(v) => Some(v as u8),
        None => None,
    }
}

/// The battery level a D-Bus value gives: unsigned integers truncated to a byte, a
/// signed one only from 0 to 255, anything else read as text.
pub open spec fn spec_u8_value(v: DbusValue) -> Option<u8> {
    match v {
        DbusValue::U8(x) => Some(x),
        DbusValue::U16(x) => Some(x as u8),
        DbusValue::U32(x) => Some(x as u8),
        DbusValue::I32(x) => if 0 <= x <= 255 { Some(x as u8) } else { text_level(crate::battery::bluez::signed_text(x as int)) },
        DbusValue::U64(x) => Some(x as u8),
        DbusValue::Other(t) => text_level(t@),
    }
}

/// How a signed integer prints.
pub open spec fn signed_text(v: int) -> Seq<char> {
    crate::capture::signed_dec(v)
}

fn is_wrapper(c: char) -> (r: bool)
    ensures
        r == level_wrappers().contains(c),
{
    let r = c == '"' || c == '\'' || c == ' ' || c == '(' || c == ')';
    proof {
        if r {
            if c == '"' { assert(level_wrappers()[0] == c); }
            else if c == '\'' { assert(level_wrappers()[1] == c); }
            else if c == ' ' { assert(level_wrappers()[2] == c); }
            else if c == '(' { assert(level_wrappers()[3] == c); }
            else { assert(level_wrappers()[4] == c); }
        }
    }
    r
}

fn level_of_text(t: &[char]) -> (r: Option<u8>)
    ensures
        r == text_level(t@),
{
    let mut a: usize = 0;
    let mut b: usize = t.len();
    assert(t@.subrange(0, t@.len() as int) =~= t@);
    while a < b && is_wrapper(t[a])
        invariant
            a <= b == t@.len(),
            trim_front_set(t@.subrange(a as int, b as int), level_wrappers()) == trim_front_set(t@, level_wrappers()),
        decreases b - a,
    {
        assert(t@.subrange(a as int, b as int).drop_first() =~= t@.subrange(a + 1, b as int));
        a = a + 1;
    }
    let ghost front = t@.subrange(a as int, b as int);
    assert(trim_front_set(front, level_wrappers()) == front);
    while b > a && is_wrapper(t[b - 1])
        invariant
            a <= b <= t@.len(),
            trim_back_set(t@.subrange(a as int, b as int), level_wrappers()) == trim_back_set(front, level_wrappers()),
        decreases b - a,
    {
        assert(t@.subrange(a as int, b as int).drop_last() =~= t@.subrange(a as int, b - 1));
        b = b - 1;
    }
    let ghost mid = t@.subrange(a as int, b as int);
    assert(trim_back_set(mid, level_wrappers()) == mid);
    let piece = crate::text::slice_chars(t, a, b);
    match crate::text::parse_number(piece.as_slice(), 10, 255) {
        Some(v) => Some(v as u8),
        None => None,
    }
}

/// The battery level a D-Bus property value gives, if any.
pub fn extract_u8_value(v: &DbusValue) -> (r: Option<u8>)
    ensures
        r == spec_u8_value(*v),
{
    match v {
        DbusValue::U8(x) => Some(*x),
        DbusValue::U16(x) => Some(*x as u8),
        DbusValue::U32(x) => Some(*x as u8),
        DbusValue::I32(x) => {
            if 0 <= *x && *x <= 255 {
                Some(*x as u8)
            } else {
                let mut s = String::new();
                crate::capture::append_signed(&mut s, *x);
                let cs = chars_of(s.as_str());
                level_of_text(cs.as_slice())
            }
        },
        DbusValue::U64(x) => Some(*x as u8),
        DbusValue::Other(t) => {
            let cs = chars_of(t.as_str());
            level_of_text(cs.as_slice())
        },
    }
}

} // verus!
