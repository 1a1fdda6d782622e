//! Multi-provider, multi-transport battery detection.

pub mod aggregator;
pub mod bluez;
pub mod bluez_gatt;
pub mod diagnostic;
pub mod environment;
pub mod hid_vendor;
pub mod hidraw;
pub mod provider;
pub mod sysfs;
pub mod types;
pub mod upower;

pub use aggregator::{AggregatedResult, BatteryAggregator};
pub use bluez::BluezBatteryProvider;
pub use bluez_gatt::BluezGattProvider;
pub use hid_vendor::{parse_rapoo_battery_response, RapooVendorHidProvider};
pub use hidraw::HidrawCandidate;
pub use provider::{current_epoch_seconds, BatteryProvider, DeviceIdentity};
pub use sysfs::{StandardHidProvider, SysfsProvider};
pub use upower::UPowerProvider;
pub use types::{
    BatteryConfidence, BatteryReading, BatterySource, BatteryState, BatteryStatus, BatteryValidity,
    ChargingInfo, ConflictInfo, PowerSource, RawProviderData,
};

use vstd::prelude::*;
use crate::battery::aggregator::{aggregation_outcome, provider_outcome, lemma_aggregation_laws};
use crate::battery::types::{status_of_reading, lemma_status_level_only_from_valid_or_stale};
use crate::device::{ConnectionType, DeviceType};
use crate::text::{owned, str_opt, text_of};

verus! {

/// The identity built from a device's name, transport, physical path and hidraw node.
pub open spec fn identity_from(
    id: DeviceIdentity,
    name: Seq<char>,
    transport: ConnectionType,
    phys: Option<Seq<char>>,
    hidraw: Option<Seq<char>>,
) -> bool {
    &&& id.name@ == name
    &&& id.transport == transport
    &&& id.device_type == DeviceType::Mouse
    &&& id.vendor_id == 0
    &&& id.product_id == 0
    &&& text_of(id.phys) == phys
    &&& id.bluetooth_address is None
    &&& text_of(id.hidraw_path) == hidraw
    &&& id.hid_uniq is None
    &&& id.upower_path is None
    &&& id.bluez_path is None
    &&& id.serial is None
}

fn opt_owned(s: Option<&str>) -> (r: Option<String>)
    ensures
        text_of(r) == str_opt(s),
{
    match s {
        Some(x) => Some(owned(x)),
        None => None,
    }
}

/// The status shown for a device: the reading that `aggregator` chooses, converted.
pub fn query_battery_for_identity<P: BatteryProvider>(
    aggregator: &BatteryAggregator<P>,
    identity: &DeviceIdentity,
) -> (s: BatteryStatus)
    ensures
        exists|r: AggregatedResult| aggregation_outcome(*identity, r) && provider_outcome(aggregator.provider_seq(), *identity, r) && status_of_reading(r.chosen, s),
{
    let mut log: Vec<String> = Vec::new();
    let result = aggregator.query_all(identity, &mut log);
    let AggregatedResult { chosen, .. } = result;
    let s = BatteryStatus::from_reading(chosen);
    assert(aggregation_outcome(*identity, result) && provider_outcome(aggregator.provider_seq(), *identity, result) && status_of_reading(result.chosen, s));
    s
}

/// The status shown for a device given by name, transport, physical path and hidraw node.
pub fn query_battery_for_device<P: BatteryProvider>(
    aggregator: &BatteryAggregator<P>,
    device_name: &str,
    transport: ConnectionType,
    phys: Option<&str>,
    hidraw_path: Option<&str>,
) -> (s: BatteryStatus)
    ensures
        exists|id: DeviceIdentity, r: AggregatedResult|
            identity_from(id, device_name@, transport,
                str_opt(phys),
                str_opt(hidraw_path))
            && aggregation_outcome(id, r) && provider_outcome(aggregator.provider_seq(), id, r) && status_of_reading(r.chosen, s),
{
    let identity = DeviceIdentity {
        name: owned(device_name),
        device_type: DeviceType::Mouse,
        transport,
        vendor_id: 0,
        product_id: 0,
        phys: opt_owned(phys),
        bluetooth_address: None,
        hidraw_path: opt_owned(hidraw_path),
        hid_uniq: None,
        upower_path: None,
        bluez_path: None,
        serial: None,
    };
    query_battery_for_identity(aggregator, &identity)
}

/// The status shown for a device whose transport is resolved from its name and path.
pub fn query_battery_multi_provider<P: BatteryProvider>(
    aggregator: &BatteryAggregator<P>,
    device_name: &str,
    phys: Option<&str>,
    hidraw_path: Option<&str>,
) -> (s: BatteryStatus)
    ensures
        exists|id: DeviceIdentity, r: AggregatedResult|
            identity_from(id, device_name@, ConnectionType::Unknown,
                str_opt(phys),
                str_opt(hidraw_path))
            && aggregation_outcome(id, r) && provider_outcome(aggregator.provider_seq(), id, r) && status_of_reading(r.chosen, s),
{
    query_battery_for_device(aggregator, device_name, ConnectionType::Unknown, phys, hidraw_path)
}

/// The status shown for a device known by its name alone.
pub fn read_sysfs_battery<P: BatteryProvider>(aggregator: &BatteryAggregator<P>, device_name: &str) -> (s: BatteryStatus)
    ensures
        exists|id: DeviceIdentity, r: AggregatedResult|
            identity_from(id, device_name@, ConnectionType::Unknown, None, None)
            && aggregation_outcome(id, r) && provider_outcome(aggregator.provider_seq(), id, r) && status_of_reading(r.chosen, s),
{
    query_battery_multi_provider(aggregator, device_name, None, None)
}

/// The identity a provider is asked about for a bare hidraw node: a mouse of unknown
/// name, transport and ids, known only by that node.
pub open spec fn hidraw_identity_of(id: DeviceIdentity, path: Seq<char>) -> bool {
    &&& id.name@.len() == 0
    &&& id.device_type == DeviceType::Mouse
    &&& id.transport == ConnectionType::Unknown
    &&& id.vendor_id == 0
    &&& id.product_id == 0
    &&& id.phys is None
    &&& id.bluetooth_address is None
    &&& text_of(id.hidraw_path) == Some(path)
    &&& id.hid_uniq is None
    &&& id.upower_path is None
    &&& id.bluez_path is None
    &&& id.serial is None
}

/// The identity for a bare hidraw node (see `hidraw_identity_of`).
pub fn hidraw_identity(path: &str) -> (id: DeviceIdentity)
    ensures
        hidraw_identity_of(id, path@),
{
    DeviceIdentity {
        name: String::new(),
        device_type: DeviceType::Mouse,
        transport: ConnectionType::Unknown,
        vendor_id: 0,
        product_id: 0,
        phys: None,
        bluetooth_address: None,
        hidraw_path: Some(owned(path)),
        hid_uniq: None,
        upower_path: None,
        bluez_path: None,
        serial: None,
    }
}

/// Asks one provider about the device behind a hidraw node and converts its answer:
/// the provider is asked about `hidraw_identity_of` the node, and its reading, when it
/// gives one, is converted as `status_of_reading` says; no reading gives `None`.
pub fn query_rapoo_hidraw_battery<P: BatteryProvider>(
    provider: &P,
    primary_hidraw_path: &str,
    log: &mut Vec<String>,
) -> (s: Option<BatteryStatus>)
    ensures
        exists|id: DeviceIdentity, a: Option<BatteryReading>|
            #[trigger] provider.answers(id, a) && hidraw_identity_of(id, primary_hidraw_path@)
            && match (a, s) {
                (Some(r), Some(st)) => status_of_reading(r, st),
                (None, None) => true,
                _ => false,
            },
{
    let identity = hidraw_identity(primary_hidraw_path);
    let answer = provider.query(&identity, log);
    match answer {
        Some(r) => {
            let st = BatteryStatus::from_reading(r);
            assert(provider.answers(identity, Some(r)));
            Some(st)
        },
        None => {
            assert(provider.answers(identity, None));
            None
        },
    }
}

/// Whatever the providers answer, the status shown for a device never claims a level
/// above 100%, and it claims a level only from a reading that was valid or merely stale.
pub proof fn lemma_shown_level_in_range(device: DeviceIdentity, r: AggregatedResult, s: BatteryStatus)
    requires
        aggregation_outcome(device, r),
        status_of_reading(r.chosen, s),
    ensures
        s.spec_percentage() matches Some(p) ==> p <= 100,
        s.spec_percentage() is Some ==> r.chosen.validity is Valid || r.chosen.validity is StaleReading,
{
    if s.spec_percentage() is Some {
        lemma_status_level_only_from_valid_or_stale(r.chosen, s);
        if device.spec_resolved_transport() != ConnectionType::Unknown {
            let t = device.spec_resolved_transport();
            let (cs, dis, now, time) = choose|cs: Seq<BatteryReading>, dis: Seq<(BatteryReading, String)>, now: u64, time: u64|
                aggregator::discards_match(cs, dis, now, aggregator::spec_ttl(t))
                && #[trigger] aggregator::finished(device.name@, device.transport, aggregator::accepted_of(cs, now, aggregator::spec_ttl(t)), dis, time, r);
            lemma_aggregation_laws(cs, dis, now, aggregator::spec_ttl(t), device.name@, device.transport, time, r);
        }
    }
}

} // verus!
