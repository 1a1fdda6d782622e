//! The GATT Battery Service (UUID `0x180F`, characteristic `0x2A19`) read through BlueZ.

use vstd::prelude::*;
use crate::battery::provider::DeviceIdentity;
use crate::battery::types::{
    BatteryConfidence, BatteryReading, BatterySource, BatteryState, BatteryValidity, RawProviderData,
};
use crate::text::{append_dec, append_str, clean_id, clean_id_chars, contains, has, has_sub, lower_chars, lowercase, owned};

verus! {

/// Reads the GATT Battery Level characteristic through BlueZ.
pub struct BluezGattProvider;

impl BluezGattProvider {
    pub fn new() -> (r: Self) {
        BluezGattProvider
    }

    pub fn name(&self) -> (r: &'static str)
        ensures
            r@ == "BlueZ GATT Battery Service Provider (UUID 0x180F / 0x2A19)"@,
    {
        "BlueZ GATT Battery Service Provider (UUID 0x180F / 0x2A19)"
    }

    pub fn source(&self) -> (r: BatterySource)
        ensures
            r == BatterySource::BluezGatt,
    {
        BatterySource::BluezGatt
    }

    pub fn priority(&self) -> (r: u8)
        ensures
            r == 2,
    {
        2
    }
}

/// A GATT characteristic is the device's Battery Level: its UUID mentions `2a19`, and its
/// object path contains the device's physical path (or, without one, any device).
pub open spec fn spec_gatt_match(phys: Option<Seq<char>>, path: Seq<char>, uuid: Seq<char>) -> bool {
    has_sub(lowercase(uuid), "2a19"@) && match phys {
        Some(p) => clean_id(p).len() > 0 && has_sub(clean_id(path), clean_id(p)),
        None => has_sub(lowercase(path), "dev_"@),
    }
}

/// Whether a GATT characteristic is the device's Battery Level.
pub fn gatt_characteristic_matches(device: &DeviceIdentity, path: &str, uuid: &str) -> (r: bool)
    ensures
        r == spec_gatt_match(crate::text::text_of(device.phys), path@, uuid@),
{
    let u = lower_chars(uuid);
    if !(has(u.as_slice(), "2a19")) {
        return false;
    }
    match &device.phys {
        Some(p) => {
            let cp = clean_id_chars(p.as_str());
            let cpath = clean_id_chars(path);
            cp.len() > 0 && contains(cpath.as_slice(), cp.as_slice())
        },
        None => {
            let lp = lower_chars(path);
            has(lp.as_slice(), "dev_")
        },
    }
}

/// The reading made of a Battery Level value: its first byte, when at most 100.
pub open spec fn gatt_reading_ok(r: Option<BatteryReading>, name: Seq<char>, path: Seq<char>, value: Seq<u8>, time: u64) -> bool {
    if value.len() > 0 && value[0] <= 100 {
        r matches Some(x) && {
            &&& x.percentage == Some(value[0])
            &&& x.state == BatteryState::Available
            &&& x.is_present
            &&& x.charging is None
            &&& x.source == BatterySource::BluezGatt
            &&& x.timestamp == time
            &&& x.device_identifier@ == name
            &&& x.connection@ == "bluetooth_gatt"@
            &&& x.confidence == BatteryConfidence::High
            &&& x.device_match_confidence == BatteryConfidence::High
            &&& x.reading_confidence == BatteryConfidence::High
            &&& x.reading_valid
            &&& !x.is_stale
            &&& x.validity is Valid
            &&& x.invalidation_reason is None
            &&& x.alternative_source is None
            &&& x.conflict_status is None
            &&& x.raw_data matches Some(d) && gatt_raw_ok(d, path)
        }
    } else {
        r is None
    }
}

/// The raw details of a GATT reading: the characteristic's object path.
pub open spec fn gatt_raw_ok(d: RawProviderData, path: Seq<char>) -> bool {
    &&& d.bluez_path matches Some(p) && p@ == path
    &&& d.upower_path is None && d.hidraw_path is None && d.sysfs_path is None && d.hid_uniq is None
    &&& d.parent_usb is None && d.report_id is None && d.bluetooth_address is None && d.model is None
    &&& d.serial is None
}

/// The reading made of a Battery Level value read from `path`.
pub fn gatt_reading(device: &DeviceIdentity, path: &str, value: &[u8], now: u64, log: &mut Vec<String>) -> (r: Option<BatteryReading>)
    ensures
        gatt_reading_ok(r, device.name@, path@, value@, now),
        final(log)@.len() >= old(log)@.len(),
        final(log)@.subrange(0, old(log)@.len() as int) == old(log)@,
{
    if value.len() > 0 && value[0] <= 100 {
        let pct = value[0];
        let mut l = owned("Leitura GATT realizada com sucesso: ");
        append_dec(&mut l, pct as u64);
        append_str(&mut l, "%");
        log.push(l);
        assert(log@.subrange(0, old(log)@.len() as int) =~= old(log)@);
        let mut raw = RawProviderData::empty();
        raw.bluez_path = Some(owned(path));
        Some(BatteryReading {
            percentage: Some(pct),
            state: BatteryState::Available,
            is_present: true,
            charging: None,
            source: BatterySource::BluezGatt,
            timestamp: now,
            device_identifier: device.name.clone(),
            connection: owned("bluetooth_gatt"),
            confidence: BatteryConfidence::High,
            device_match_confidence: BatteryConfidence::High,
            reading_confidence: BatteryConfidence::High,
            reading_valid: true,
            is_stale: false,
            validity: BatteryValidity::Valid,
            invalidation_reason: None,
            alternative_source: None,
            conflict_status: None,
            raw_data: Some(raw),
        })
    } else {
        assert(log@.subrange(0, old(log)@.len() as int) =~= old(log)@);
        None
    }
}

} // verus!
