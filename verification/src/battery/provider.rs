//! The identity of a device as battery providers see it, and the provider interface.

use vstd::prelude::*;
use crate::battery::types::{BatteryReading, BatterySource};
use crate::device::{ConnectionType, DeviceType};
use crate::text::{has, has_sub, begins, starts_with, lowercase, lower_chars, lower_opt};

verus! {

/// Identity information handed to battery providers for matching devices.
#[derive(Debug, Clone)]
pub struct DeviceIdentity {
    pub name: String,
    pub device_type: DeviceType,
    pub transport: ConnectionType,
    pub vendor_id: u16,
    pub product_id: u16,
    pub phys: Option<String>,
    pub bluetooth_address: Option<String>,
    pub hidraw_path: Option<String>,
    pub hid_uniq: Option<String>,
    pub upower_path: Option<String>,
    pub bluez_path: Option<String>,
    pub serial: Option<String>,
}

impl Default for DeviceIdentity {
    fn default() -> (r: Self)
        ensures
            r.name@ == Seq::<char>::empty(),
            r.device_type == DeviceType::Mouse,
            r.transport == ConnectionType::Unknown,
            r.vendor_id == 0,
            r.product_id == 0,
            r.phys is None,
            r.bluetooth_address is None,
            r.hidraw_path is None,
            r.hid_uniq is None,
            r.upower_path is None,
            r.bluez_path is None,
            r.serial is None,
    {
        DeviceIdentity {
            name: String::new(),
            device_type: DeviceType::Mouse,
            transport: ConnectionType::Unknown,
            vendor_id: 0,
            product_id: 0,
            phys: None,
            bluetooth_address: None,
            hidraw_path: None,
            hid_uniq: None,
            upower_path: None,
            bluez_path: None,
            serial: None,
        }
    }
}

/// The text of an optional string, empty when absent.
pub open spec fn text_or_empty(s: Option<String>) -> Seq<char> {
    match s {
        Some(x) => x@,
        None => Seq::<char>::empty(),
    }
}

impl DeviceIdentity {
    /// The transport, deduced from the name, physical path and address when not known.
    pub open spec fn spec_resolved_transport(self) -> ConnectionType {
        let name = lowercase(self.name@);
        let phys = lowercase(text_or_empty(self.phys));
        if self.transport != ConnectionType::Unknown {
            self.transport
        } else if has_sub(phys, "bluetooth"@) || has_sub(phys, "hci"@) || self.bluetooth_address is Some
            || has_sub(name, "(bluetooth)"@) || has_sub(name, "bt mouse"@) {
            ConnectionType::Bluetooth
        } else if (has_sub(phys, "usb-"@) || starts_with(phys, "usb"@))
            && (has_sub(name, "composite device"@) || has_sub(name, "wired"@)) {
            ConnectionType::UsbCable
        } else if (has_sub(phys, "usb-"@) || starts_with(phys, "usb"@))
            && (has_sub(name, "nearlink"@) || has_sub(name, "dongle"@) || has_sub(name, "2.4g"@)) {
            ConnectionType::TwoPointFourGhz
        } else {
            ConnectionType::Unknown
        }
    }

    /// The transport, deduced from the name, physical path and address when not known.
    pub fn resolved_transport(&self) -> (t: ConnectionType)
        ensures
            t == self.spec_resolved_transport(),
    {
        if self.transport != ConnectionType::Unknown {
            return self.transport;
        }
        let name = lower_chars(self.name.as_str());
        let phys = lower_opt(&self.phys);
        if has(phys.as_slice(), "bluetooth") || has(phys.as_slice(), "hci")
            || self.bluetooth_address.is_some() || has(name.as_slice(), "(bluetooth)")
            || has(name.as_slice(), "bt mouse") {
            return ConnectionType::Bluetooth;
        }
        if has(phys.as_slice(), "usb-") || begins(phys.as_slice(), "usb") {
            if has(name.as_slice(), "composite device") || has(name.as_slice(), "wired") {
                return ConnectionType::UsbCable;
            }
            if has(name.as_slice(), "nearlink") || has(name.as_slice(), "dongle")
                || has(name.as_slice(), "2.4g") {
                return ConnectionType::TwoPointFourGhz;
            }
        }
        ConnectionType::Unknown
    }
}

/// A battery provider: UPower, BlueZ, GATT, sysfs, HID readers, or one of a user's own.
pub trait BatteryProvider {
    /// The name a provider goes by; fixed for each provider.
    spec fn spec_name(&self) -> String;

    /// Human-readable provider name for logging and diagnostics: always the same for a
    /// given provider.
    fn name(&self) -> (r: &str)
        ensures
            r@ == self.spec_name()@;

    /// The telemetry source a provider stands for; fixed for each provider.
    spec fn spec_source(&self) -> BatterySource;

    /// The priority of a provider; fixed for each provider.
    spec fn spec_priority(&self) -> u8;

    /// Telemetry source type: always the same for a given provider.
    fn source(&self) -> (r: BatterySource)
        ensures
            r == self.spec_source();

    /// Provider priority: lower numbers come first; always the same for a given provider.
    fn priority(&self) -> (r: u8)
        ensures
            r == self.spec_priority();

    /// The answers this provider may give about `device` (`None`: no reading). What a
    /// provider reads depends on the system at the moment of the call, so this is a
    /// relation: an answer that the call gave satisfies it.
    spec fn answers(&self, device: DeviceIdentity, r: Option<BatteryReading>) -> bool;

    /// The answers this provider may give when asked whether it is available; as with
    /// `answers`, the answer depends on the environment at the moment of the call.
    spec fn reports_available(&self, r: bool) -> bool;

    /// Queries the battery of the given device, appending diagnostic lines to `log`
    /// (the lines already there stay).
    fn query(&self, device: &DeviceIdentity, log: &mut Vec<String>) -> (r: Option<BatteryReading>)
        ensures
            self.answers(*device, r),
            old(log)@.len() <= final(log)@.len(),
            final(log)@.subrange(0, old(log)@.len() as int) == old(log)@;

    /// Whether this provider is supported in the current environment.
    fn is_available(&self) -> (r: bool)
        ensures
            self.reports_available(r);
}

/// Calls `std::time::SystemTime::now` and returns the seconds since the Unix epoch
/// (0 if the clock is before it). The clock is read at the moment of the call, so
/// nothing is promised of the value.
#[verifier::external_body]
pub fn current_epoch_seconds() -> (r: u64) {
    std::time::SystemTime::now()
        .duration_since(std::time::UNIX_EPOCH)
        .map(|d| d.as_secs())
        .unwrap_or(0)
}

} // verus!
