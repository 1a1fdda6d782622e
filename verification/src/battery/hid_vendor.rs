//! Rapoo's proprietary battery reports on the vendor hidraw interface.

use vstd::prelude::*;
use crate::battery::hidraw::HidrawCandidate;
use crate::battery::provider::DeviceIdentity;
use crate::battery::types::{
    BatteryConfidence, BatteryReading, BatterySource, BatteryState, BatteryValidity, RawProviderData,
};
use crate::device::ConnectionType;
use crate::text::{append_str, dec, owned};
use crate::RAPOO_VENDOR_ID;

verus! {

/// What a legacy reply (`0xA0`/`0xA1 0x08 …` or `0xBA`/`0x09 …`) reports: the
/// percentage and whether the device is charging.
pub open spec fn legacy_reply(resp: Seq<u8>) -> Option<(u8, bool)> {
    if resp.len() < 3 {
        None
    } else if (resp[0] == 0xA0 || resp[0] == 0xA1) && resp[1] == 0x08 {
        let level = resp[2] % 128;
        Some((if level > 100 { 100u8 } else { level as u8 }, resp[2] >= 128))
    } else if resp[0] == 0xBA || resp[0] == 0x09 {
        Some((if resp[1] > 100 { 100u8 } else { resp[1] }, false))
    } else {
        None
    }
}

/// Reads a legacy battery reply: for `0xA0`/`0xA1 0x08`, the low seven bits of the
/// third byte are the level (capped at 100) and its top bit means charging; for
/// `0xBA`/`0x09`, the second byte is the level (capped at 100).
pub fn parse_rapoo_battery_response(resp: &[u8]) -> (r: Option<(u8, bool)>)
    ensures
        r == legacy_reply(resp@),
{
    if resp.len() < 3 {
        return None;
    }
    if (resp[0] == 0xA0 || resp[0] == 0xA1) && resp[1] == 0x08 {
        let raw_val = resp[2];
        let charging = raw_val >= 128;
        let level = raw_val % 128;
        let pct = if level > 100 { 100 } else { level };
        return Some((pct, charging));
    }
    if resp[0] == 0xBA || resp[0] == 0x09 {
        let val = resp[1];
        if val <= 100 {
            return Some((val, false));
        } else {
            return Some((100, false));
        }
    }
    None
}

/// For a `0xA0`/`0xA1 0x08` reply the level is the low seven bits of the third byte
/// (`& 0x7F`), capped at 100, and the charging flag is its top bit (`& 0x80`); so the
/// level never exceeds 100, and setting or clearing the charging bit changes the flag
/// and never the level.
pub proof fn lemma_legacy_level(resp: Seq<u8>, other: Seq<u8>)
    requires
        resp.len() >= 3,
        resp[0] == 0xA0 || resp[0] == 0xA1,
        resp[1] == 0x08,
        other.len() >= 3,
        other[0] == resp[0],
        other[1] == resp[1],
        other[2] == (resp[2] ^ 0x80u8),
    ensures
        legacy_reply(resp) == Some((
            if (resp[2] & 0x7Fu8) > 100 { 100u8 } else { resp[2] & 0x7Fu8 },
            (resp[2] & 0x80u8) != 0)),
        legacy_reply(resp).unwrap().0 <= 100,
        legacy_reply(other).unwrap().0 == legacy_reply(resp).unwrap().0,
        legacy_reply(other).unwrap().1 != legacy_reply(resp).unwrap().1,
{
    let b = resp[2];
    assert(b % 128 == (b & 0x7Fu8) && (b >= 128 <==> (b & 0x80u8) != 0)) by (bit_vector);
    assert((b ^ 0x80u8) % 128 == b % 128 && ((b ^ 0x80u8) >= 128 <==> b < 128)) by (bit_vector);
}

/// What a reply to the `0x07` battery query reports: at least four bytes, echoing
/// report `0x07` and category `0x01`, with a level of at most 100 and a charge state
/// of 1 or 2 when charging.
pub open spec fn report_07_reply(buf: Seq<u8>) -> Option<(u8, bool)> {
    if buf.len() >= 4 && buf[0] == 0x07 && buf[1] == 0x01 && buf[2] <= 100 {
        Some((buf[2], buf[3] == 1 || buf[3] == 2))
    } else {
        None
    }
}

/// Reads a reply to the `0x07` battery query.
pub fn parse_report_07_reply(buf: &[u8]) -> (r: Option<(u8, bool)>)
    ensures
        r == report_07_reply(buf@),
{
    if buf.len() >= 4 && buf[0] == 0x07 && buf[1] == 0x01 && buf[2] <= 100 {
        Some((buf[2], buf[3] == 1 || buf[3] == 2))
    } else {
        None
    }
}

/// The query bytes of the vendor protocol: report `0x07`, category `0x01`
/// (or the legacy `0xA0 0x08`), padded with zeros to 16 bytes.
pub fn vendor_request(legacy: bool) -> (r: Vec<u8>)
    ensures
        r@.len() == 16,
        r@[0] == if legacy { 0xA0u8 } else { 0x07u8 },
        r@[1] == if legacy { 0x08u8 } else { 0x01u8 },
        forall|k: int| 2 <= k < 16 ==> r@[k] == 0,
{
    let mut r: Vec<u8> = Vec::new();
    r.push(if legacy { 0xA0 } else { 0x07 });
    r.push(if legacy { 0x08 } else { 0x01 });
    let mut k: usize = 2;
    while k < 16
        invariant
            2 <= k <= 16,
            r@.len() == k,
            r@[0] == if legacy { 0xA0u8 } else { 0x07u8 },
            r@[1] == if legacy { 0x08u8 } else { 0x01u8 },
            forall|j: int| 2 <= j < k ==> r@[j] == 0,
        decreases 16 - k,
    {
        r.push(0);
        k = k + 1;
    }
    r
}

/// `r` is the reading built from a vendor reply on `path` through report `id`.
pub open spec fn is_vendor_reading(r: BatteryReading, name: Seq<char>, path: Seq<char>, pct: u8, charging: bool, id: u8, time: u64) -> bool {
    &&& r.percentage == Some(pct)
    &&& r.state == if charging { BatteryState::Charging } else { BatteryState::Available }
    &&& r.is_present
    &&& r.charging == Some(charging)
    &&& r.source == BatterySource::HidVendorSpecific
    &&& r.timestamp == time
    &&& r.device_identifier@ == name
    &&& r.connection@ == if id == 0x07 { "hidraw_0x07"@ } else { "hidraw_0xA0"@ }
    &&& r.confidence == BatteryConfidence::Medium
    &&& r.device_match_confidence == BatteryConfidence::Medium
    &&& r.reading_confidence == BatteryConfidence::Medium
    &&& r.reading_valid
    &&& !r.is_stale
    &&& r.validity is Valid
    &&& r.invalidation_reason is None
    &&& r.alternative_source is None
    &&& r.conflict_status is None
    &&& r.raw_data matches Some(d) && vendor_raw_ok(d, path, id)
}

/// The raw details of a vendor reading: its hidraw node and report id.
pub open spec fn vendor_raw_ok(d: RawProviderData, path: Seq<char>, id: u8) -> bool {
    &&& d.hidraw_path matches Some(p) && p@ == path
    &&& d.report_id == Some(id)
    &&& d.upower_path is None && d.bluez_path is None && d.sysfs_path is None && d.hid_uniq is None
    &&& d.parent_usb is None && d.bluetooth_address is None && d.model is None && d.serial is None
}

/// The reading built from a vendor reply (`report_id` is `0x07` or `0xA0`).
pub fn vendor_battery_reading(device_name: &String, hidraw_path: &str, pct: u8, charging: bool, report_id: u8, now: u64) -> (r: BatteryReading)
    ensures
        is_vendor_reading(r, device_name@, hidraw_path@, pct, charging, report_id, now),
{
    let mut raw = RawProviderData::empty();
    raw.hidraw_path = Some(owned(hidraw_path));
    raw.report_id = Some(report_id);
    BatteryReading {
        percentage: Some(pct),
        state: if charging { BatteryState::Charging } else { BatteryState::Available },
        is_present: true,
        charging: Some(charging),
        source: BatterySource::HidVendorSpecific,
        timestamp: now,
        device_identifier: device_name.clone(),
        connection: if report_id == 0x07 { owned("hidraw_0x07") } else { owned("hidraw_0xA0") },
        confidence: BatteryConfidence::Medium,
        device_match_confidence: BatteryConfidence::Medium,
        reading_confidence: BatteryConfidence::Medium,
        reading_valid: true,
        is_stale: false,
        validity: BatteryValidity::Valid,
        invalidation_reason: None,
        alternative_source: None,
        conflict_status: None,
        raw_data: Some(raw),
    }
}

/// Reads battery telemetry through Rapoo's vendor HID reports (`0x07`, then `0xA0`).
pub struct RapooVendorHidProvider;

impl RapooVendorHidProvider {
    pub fn new() -> (r: Self) {
        RapooVendorHidProvider
    }

    pub fn name(&self) -> (r: &'static str)
        ensures
            r@ == "Rapoo Vendor HID Provider (Report ID 0x07 / 0xA0)"@,
    {
        "Rapoo Vendor HID Provider (Report ID 0x07 / 0xA0)"
    }

    pub fn source(&self) -> (r: BatterySource)
        ensures
            r == BatterySource::HidVendorSpecific,
    {
        BatterySource::HidVendorSpecific
    }

    pub fn priority(&self) -> (r: u8)
        ensures
            r == 5,
    {
        5
    }

    /// The first step of a query: a device on Bluetooth is not asked through the vendor
    /// channel, and the log says so.
    pub fn skips_transport(&self, device: &DeviceIdentity, log: &mut Vec<String>) -> (skip: bool)
        ensures
            skip == (device.spec_resolved_transport() == ConnectionType::Bluetooth),
            skip ==> final(log)@.len() == old(log)@.len() + 1
                && final(log)@.subrange(0, old(log)@.len() as int) == old(log)@
                && final(log)@.last()@ == "Provedor Rapoo Vendor HID ignorado para transporte Bluetooth (dispositivo conectado via Bluetooth)."@,
            !skip ==> final(log)@ == old(log)@,
    {
        let transport = device.resolved_transport();
        if transport == ConnectionType::Bluetooth {
            log.push(owned("Provedor Rapoo Vendor HID ignorado para transporte Bluetooth (dispositivo conectado via Bluetooth)."));
            assert(log@.subrange(0, old(log)@.len() as int) =~= old(log)@);
            true
        } else {
            false
        }
    }

    /// The vendor id to look for: the device's own, or Rapoo's when it is not known.
    pub fn target_vendor_id(&self, device: &DeviceIdentity) -> (r: u16)
        ensures
            r == if device.vendor_id != 0 { device.vendor_id } else { RAPOO_VENDOR_ID },
    {
        if device.vendor_id != 0 { device.vendor_id } else { RAPOO_VENDOR_ID }
    }

    /// The hint used to find the device's interface: its HID unique id, else its
    /// physical path.
    pub fn uniq_hint<'a>(&self, device: &'a DeviceIdentity) -> (r: Option<&'a str>)
        ensures
            r matches Some(s) ==> match device.hid_uniq {
                Some(u) => s@ == u@,
                None => device.phys matches Some(p) && s@ == p@,
            },
            r is None <==> device.hid_uniq is None && device.phys is None,
    {
        match &device.hid_uniq {
            Some(u) => Some(u.as_str()),
            None => match &device.phys {
                Some(p) => Some(p.as_str()),
                None => None,
            },
        }
    }

    /// The hidraw node to ask: the vendor interface found, else the device's own hidraw
    /// node, else none.
    pub fn choose_hidraw_target(&self, candidate: &Option<HidrawCandidate>, device: &DeviceIdentity, log: &mut Vec<String>) -> (r: Option<String>)
        ensures
            match candidate {
                Some(c) => r matches Some(p) && p@ == c.hidraw_path@,
                None => match device.hidraw_path {
                    Some(h) => r matches Some(p) && p@ == h@,
                    None => r is None,
                },
            },
            final(log)@.len() == old(log)@.len() + 1,
            final(log)@.subrange(0, old(log)@.len() as int) == old(log)@,
    {
        let r = match candidate {
            Some(c) => {
                let mut l = owned("Candidato hidraw proprietário encontrado: ");
                append_str(&mut l, c.hidraw_path.as_str());
                append_str(&mut l, " (Report IDs: ");
                let ids = ids_debug(&c.report_ids);
                append_str(&mut l, ids.as_str());
                append_str(&mut l, ")");
                log.push(l);
                Some(c.hidraw_path.clone())
            },
            None => match &device.hidraw_path {
                Some(p) => {
                    let mut l = owned("Usando hidraw associado ao dispositivo: ");
                    append_str(&mut l, p.as_str());
                    log.push(l);
                    Some(p.clone())
                },
                None => {
                    log.push(owned("Nenhuma interface hidraw proprietária Rapoo encontrada."));
                    None
                },
            },
        };
        assert(log@.subrange(0, old(log)@.len() as int) =~= old(log)@);
        r
    }
}

/// The report ids in decimal, separated by `", "`.
pub open spec fn ids_list_text(ids: Seq<u8>) -> Seq<char>
    decreases ids.len(),
{
    if ids.len() == 0 {
        Seq::empty()
    } else if ids.len() == 1 {
        dec(ids[0] as nat)
    } else {
        ids_list_text(ids.drop_last()) + ", "@ + dec(ids.last() as nat)
    }
}

/// `{:?}` of a list of report ids, e.g. `[7, 160]`.
fn ids_debug(ids: &Vec<u8>) -> (r: String)
    ensures
        r@ == "["@ + ids_list_text(ids@) + "]"@,
{
    let mut s = owned("[");
    let mut i: usize = 0;
    while i < ids.len()
        invariant
            i <= ids@.len(),
            s@ == "["@ + ids_list_text(ids@.take(i as int)),
        decreases ids.len() - i,
    {
        let ghost before = s@;
        assert(ids@.take(i + 1).drop_last() =~= ids@.take(i as int));
        if i > 0 {
            append_str(&mut s, ", ");
        }
        crate::text::append_dec(&mut s, ids[i] as u64);
        proof {
            if i == 0 {
                assert(ids_list_text(ids@.take(0)) =~= Seq::<char>::empty());
                assert(s@ =~= "["@ + ids_list_text(ids@.take(1)));
            } else {
                assert(s@ =~= "["@ + ids_list_text(ids@.take(i + 1)));
            }
        }
        i = i + 1;
    }
    assert(ids@.take(ids@.len() as int) =~= ids@);
    append_str(&mut s, "]");
    s
}

} // verus!
