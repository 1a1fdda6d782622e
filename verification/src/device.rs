//! Rapoo devices: their kinds, connections, capabilities, and how they are recognised.

use vstd::prelude::*;
use crate::battery::types::{clone_opt_string, opt_str_equiv, BatteryStatus};
use crate::battery::provider::DeviceIdentity;
use crate::known_pids::{MT760_PRO_BT, MT760_PRO_NEARLINK, MT760_PRO_WIRED};
use crate::text::owned;

verus! {

/// Device type classification.
#[derive(Debug, Clone, Copy, PartialEq, Eq, Structural)]
pub enum DeviceType {
    Mouse,
    Keyboard,
    Other,
}

impl Default for DeviceType {
    fn default() -> (r: Self)
        ensures
            r == DeviceType::Mouse,
    {
        DeviceType::Mouse
    }
}

impl DeviceType {
    pub open spec fn spec_name(self) -> Seq<char> {
        match self {
            DeviceType::Mouse => "Mouse"@,
            DeviceType::Keyboard => "Teclado"@,
            DeviceType::Other => "Outro"@,
        }
    }

    /// The user-facing name (the `Display` text).
    pub fn to_display_string(&self) -> (r: String)
        ensures
            r@ == self.spec_name(),
    {
        match self {
            DeviceType::Mouse => owned("Mouse"),
            DeviceType::Keyboard => owned("Teclado"),
            DeviceType::Other => owned("Outro"),
        }
    }
}

/// Dynamic connection state of the device.
#[derive(Debug, Clone, Copy, PartialEq, Eq, Structural)]
pub enum DeviceConnectionState {
    Connected,
    Disconnected,
    Reconnecting,
}

impl Default for DeviceConnectionState {
    fn default() -> (r: Self)
        ensures
            r == DeviceConnectionState::Connected,
    {
        DeviceConnectionState::Connected
    }
}

impl DeviceConnectionState {
    pub open spec fn spec_name(self) -> Seq<char> {
        match self {
            DeviceConnectionState::Connected => "Conectado"@,
            DeviceConnectionState::Disconnected => "Desconectado"@,
            DeviceConnectionState::Reconnecting => "Reconectando"@,
        }
    }

    /// The user-facing name (the `Display` text).
    pub fn to_display_string(&self) -> (r: String)
        ensures
            r@ == self.spec_name(),
    {
        match self {
            DeviceConnectionState::Connected => owned("Conectado"),
            DeviceConnectionState::Disconnected => owned("Desconectado"),
            DeviceConnectionState::Reconnecting => owned("Reconectando"),
        }
    }
}

/// State of a USB receiver or Bluetooth link.
#[derive(Debug, Clone, Copy, PartialEq, Eq, Structural)]
pub enum ReceiverState {
    /// Dongle plugged in, but no 2.4 GHz mouse paired or active
    ReceiverPresent,
    /// Dongle plugged in and mouse paired in firmware
    ReceiverPaired,
    /// Mouse actively communicating via the 2.4 GHz dongle
    ReceiverActive,
    /// Device connected via Bluetooth
    BluetoothConnected,
    Disconnected,
    Unknown,
}

impl Default for ReceiverState {
    fn default() -> (r: Self)
        ensures
            r == ReceiverState::Unknown,
    {
        ReceiverState::Unknown
    }
}

impl ReceiverState {
    pub open spec fn spec_name(self) -> Seq<char> {
        match self {
            ReceiverState::ReceiverPresent => "Receptor USB Conectado (Sem Mouse)"@,
            ReceiverState::ReceiverPaired => "Receptor USB Pareado"@,
            ReceiverState::ReceiverActive => "Mouse Ativo via 2.4GHz"@,
            ReceiverState::BluetoothConnected => "Conectado via Bluetooth"@,
            ReceiverState::Disconnected => "Desconectado"@,
            ReceiverState::Unknown => "Desconhecido"@,
        }
    }

    /// The user-facing name (the `Display` text).
    pub fn to_display_string(&self) -> (r: String)
        ensures
            r@ == self.spec_name(),
    {
        match self {
            ReceiverState::ReceiverPresent => owned("Receptor USB Conectado (Sem Mouse)"),
            ReceiverState::ReceiverPaired => owned("Receptor USB Pareado"),
            ReceiverState::ReceiverActive => owned("Mouse Ativo via 2.4GHz"),
            ReceiverState::BluetoothConnected => owned("Conectado via Bluetooth"),
            ReceiverState::Disconnected => owned("Desconectado"),
            ReceiverState::Unknown => owned("Desconhecido"),
        }
    }
}

/// A physical USB receiver (dongle) or hardware endpoint.
#[derive(Debug, Clone)]
pub struct PhysicalReceiver {
    pub vendor_id: u16,
    pub product_id: u16,
    pub usb_path: String,
    pub hid_uniq: Option<String>,
    pub hidraw_nodes: Vec<String>,
    pub evdev_nodes: Vec<String>,
    pub state: ReceiverState,
}

/// Features a device model supports.
#[derive(Debug, Clone, PartialEq, Eq)]
pub struct DeviceCapabilities {
    pub has_buttons_remapping: bool,
    pub has_pointer_settings: bool,
    pub has_battery_reader: bool,
    pub can_read_dpi: bool,
    pub can_set_dpi: bool,
    pub can_read_polling_rate: bool,
    pub can_set_polling_rate: bool,
    pub svg_asset_name: Option<String>,
}

impl Default for DeviceCapabilities {
    fn default() -> (r: Self)
        ensures
            r.has_buttons_remapping,
            r.has_pointer_settings,
            r.has_battery_reader,
            r.can_read_dpi,
            !r.can_set_dpi,
            r.can_read_polling_rate,
            !r.can_set_polling_rate,
            r.svg_asset_name is None,
    {
        DeviceCapabilities {
            has_buttons_remapping: true,
            has_pointer_settings: true,
            has_battery_reader: true,
            can_read_dpi: true,
            can_set_dpi: false,
            can_read_polling_rate: true,
            can_set_polling_rate: false,
            svg_asset_name: None,
        }
    }
}

/// How the device is connected.
#[derive(Debug, Clone, Copy, PartialEq, Eq, Structural)]
pub enum ConnectionType {
    /// Wired USB cable connection
    UsbCable,
    /// Wired USB connection (alias)
    UsbWired,
    /// 2.4 GHz wireless via USB dongle
    TwoPointFourGhz,
    /// Bluetooth 5.0
    Bluetooth,
    /// NearLink (limited Linux support)
    NearLink,
    /// Charging dock
    Dock,
    Disconnected,
    /// Could not determine connection type
    Unknown,
}

impl Default for ConnectionType {
    fn default() -> (r: Self)
        ensures
            r == ConnectionType::Unknown,
    {
        ConnectionType::Unknown
    }
}

impl ConnectionType {
    pub open spec fn spec_name(self) -> Seq<char> {
        match self {
            ConnectionType::UsbCable | ConnectionType::UsbWired => "USB por cabo"@,
            ConnectionType::TwoPointFourGhz => "Dongle USB / 2.4 GHz"@,
            ConnectionType::Bluetooth => "Bluetooth"@,
            ConnectionType::NearLink => "NearLink"@,
            ConnectionType::Dock => "Dock de Carregamento"@,
            ConnectionType::Disconnected => "Desconectado"@,
            ConnectionType::Unknown => "Conexão sem fio / Desconhecida"@,
        }
    }

    /// The user-facing name (the `Display` text).
    pub fn to_display_string(&self) -> (r: String)
        ensures
            r@ == self.spec_name(),
    {
        match self {
            ConnectionType::UsbCable | ConnectionType::UsbWired => owned("USB por cabo"),
            ConnectionType::TwoPointFourGhz => owned("Dongle USB / 2.4 GHz"),
            ConnectionType::Bluetooth => owned("Bluetooth"),
            ConnectionType::NearLink => owned("NearLink"),
            ConnectionType::Dock => owned("Dock de Carregamento"),
            ConnectionType::Disconnected => owned("Desconectado"),
            ConnectionType::Unknown => owned("Conexão sem fio / Desconhecida"),
        }
    }

    /// The variant name (what `{:?}` prints).
    pub open spec fn spec_variant_name(self) -> Seq<char> {
        match self {
            ConnectionType::UsbCable => "UsbCable"@,
            ConnectionType::UsbWired => "UsbWired"@,
            ConnectionType::TwoPointFourGhz => "TwoPointFourGhz"@,
            ConnectionType::Bluetooth => "Bluetooth"@,
            ConnectionType::NearLink => "NearLink"@,
            ConnectionType::Dock => "Dock"@,
            ConnectionType::Disconnected => "Disconnected"@,
            ConnectionType::Unknown => "Unknown"@,
        }
    }

    /// The variant name (what `{:?}` prints).
    pub fn variant_name(&self) -> (r: String)
        ensures
            r@ == self.spec_variant_name(),
    {
        match self {
            ConnectionType::UsbCable => owned("UsbCable"),
            ConnectionType::UsbWired => owned("UsbWired"),
            ConnectionType::TwoPointFourGhz => owned("TwoPointFourGhz"),
            ConnectionType::Bluetooth => owned("Bluetooth"),
            ConnectionType::NearLink => owned("NearLink"),
            ConnectionType::Dock => owned("Dock"),
            ConnectionType::Disconnected => owned("Disconnected"),
            ConnectionType::Unknown => owned("Unknown"),
        }
    }
}

/// Known Rapoo device models.
#[derive(Debug, Clone, Copy, PartialEq, Eq, Structural)]
pub enum KnownDevice {
    /// Rapoo MT760 Pro — target mouse device
    RapooMt760Pro,
    /// Rapoo E9050L — ultra-slim multi-device keyboard
    RapooE9050L,
    /// Unknown Rapoo device (still detected by its vendor id)
    UnknownRapoo,
}

impl Default for KnownDevice {
    fn default() -> (r: Self)
        ensures
            r == KnownDevice::UnknownRapoo,
    {
        KnownDevice::UnknownRapoo
    }
}

impl KnownDevice {
    pub open spec fn spec_name(self) -> Seq<char> {
        match self {
            KnownDevice::RapooMt760Pro => "Rapoo MT760 Pro"@,
            KnownDevice::RapooE9050L => "Rapoo E9050L"@,
            KnownDevice::UnknownRapoo => "Dispositivo Rapoo Genérico"@,
        }
    }

    /// The user-facing name (the `Display` text).
    pub fn to_display_string(&self) -> (r: String)
        ensures
            r@ == self.spec_name(),
    {
        match self {
            KnownDevice::RapooMt760Pro => owned("Rapoo MT760 Pro"),
            KnownDevice::RapooE9050L => owned("Rapoo E9050L"),
            KnownDevice::UnknownRapoo => owned("Dispositivo Rapoo Genérico"),
        }
    }
}

/// A detected Rapoo device. Device node paths are held as text.
#[derive(Debug, Clone)]
pub struct RapooDevice {
    /// USB vendor id (always `0x24AE` for Rapoo)
    pub vendor_id: u16,
    /// USB product id (model-specific)
    pub product_id: u16,
    /// Human-readable device name
    pub name: String,
    pub device_type: DeviceType,
    pub connection_state: DeviceConnectionState,
    pub connection: ConnectionType,
    /// Detailed receiver state
    pub receiver_state: ReceiverState,
    pub battery_status: BatteryStatus,
    pub capabilities: DeviceCapabilities,
    /// Known device model, if recognised
    pub model: KnownDevice,
    /// Path to the evdev event node (e.g. `/dev/input/event5`)
    pub evdev_path: Option<String>,
    /// Path to the hidraw node (e.g. `/dev/hidraw2`)
    pub hidraw_path: Option<String>,
    /// Physical location string from the kernel (e.g. `usb-0000:00:14.0-1/input0`)
    pub phys: Option<String>,
    /// Bluetooth MAC address, if connected via Bluetooth
    pub bluetooth_address: Option<String>,
    /// Unique identifier from the kernel
    pub uniq: Option<String>,
}

impl Default for RapooDevice {
    fn default() -> (r: Self)
        ensures
            r.vendor_id == 0,
            r.product_id == 0,
            r.name@ == Seq::<char>::empty(),
            r.device_type == DeviceType::Mouse,
            r.connection_state == DeviceConnectionState::Connected,
            r.connection == ConnectionType::Unknown,
            r.receiver_state == ReceiverState::Unknown,
            r.battery_status is Unknown,
            r.model == KnownDevice::UnknownRapoo,
            r.evdev_path is None,
            r.hidraw_path is None,
            r.phys is None,
            r.bluetooth_address is None,
            r.uniq is None,
    {
        RapooDevice {
            vendor_id: 0,
            product_id: 0,
            name: String::new(),
            device_type: DeviceType::Mouse,
            connection_state: DeviceConnectionState::Connected,
            connection: ConnectionType::Unknown,
            receiver_state: ReceiverState::Unknown,
            battery_status: BatteryStatus::Unknown,
            capabilities: DeviceCapabilities::default(),
            model: KnownDevice::UnknownRapoo,
            evdev_path: None,
            hidraw_path: None,
            phys: None,
            bluetooth_address: None,
            uniq: None,
        }
    }
}

/// Calls `std::path::Path::exists`. The answer depends on the file system at the moment
/// of the call, so nothing is promised of it beyond that it is false for the empty path,
/// which names no file.
#[verifier::external_body]
pub(crate) fn path_exists(p: &str) -> (r: bool)
    ensures
        p@.len() == 0 ==> !r,
{
    std::path::Path::new(p).exists()
}

impl RapooDevice {
    /// The identity handed to battery providers.
    pub fn to_device_identity(&self) -> (id: DeviceIdentity)
        ensures
            id.name@ == self.name@,
            id.device_type == self.device_type,
            id.transport == self.connection,
            id.vendor_id == self.vendor_id,
            id.product_id == self.product_id,
            opt_str_equiv(id.phys, self.phys),
            opt_str_equiv(id.bluetooth_address, self.bluetooth_address),
            opt_str_equiv(id.hidraw_path, self.hidraw_path),
            opt_str_equiv(id.hid_uniq, self.uniq),
            id.upower_path is None,
            id.bluez_path is None,
            opt_str_equiv(id.serial, self.bluetooth_address),
    {
        DeviceIdentity {
            name: self.name.clone(),
            device_type: self.device_type,
            transport: self.connection,
            vendor_id: self.vendor_id,
            product_id: self.product_id,
            phys: clone_opt_string(&self.phys),
            bluetooth_address: clone_opt_string(&self.bluetooth_address),
            hidraw_path: clone_opt_string(&self.hidraw_path),
            hid_uniq: clone_opt_string(&self.uniq),
            upower_path: None,
            bluez_path: None,
            serial: clone_opt_string(&self.bluetooth_address),
        }
    }

    /// Whether this device is the primary target (MT760 Pro).
    pub fn is_mt760_pro(&self) -> (r: bool)
        ensures
            r == (self.model == KnownDevice::RapooMt760Pro),
    {
        self.model == KnownDevice::RapooMt760Pro
    }

    /// Whether the evdev node exists; false when the device has none.
    pub fn evdev_accessible(&self) -> (r: bool)
        ensures
            self.evdev_path is None ==> !r,
            (self.evdev_path matches Some(p) && p@.len() == 0) ==> !r,
    {
        match &self.evdev_path {
            Some(p) => path_exists(p.as_str()),
            None => false,
        }
    }

    /// Whether the hidraw node exists; false when the device has none.
    pub fn hidraw_accessible(&self) -> (r: bool)
        ensures
            self.hidraw_path is None ==> !r,
            (self.hidraw_path matches Some(p) && p@.len() == 0) ==> !r,
    {
        match &self.hidraw_path {
            Some(p) => path_exists(p.as_str()),
            None => false,
        }
    }

    pub open spec fn spec_firmware_version(self) -> Seq<char> {
        if self.product_id == MT760_PRO_BT {
            "v1.0.4 (Bluetooth LE Stack)"@
        } else if self.product_id == MT760_PRO_WIRED {
            "v1.0.4 (USB Wired HID)"@
        } else if self.product_id == MT760_PRO_NEARLINK {
            "v1.0.4 (2.4G RF / NearLink)"@
        } else {
            "v1.0.0 (Rapoo Standard Firmware)"@
        }
    }

    /// The firmware version string for this device's product id.
    pub fn firmware_version(&self) -> (r: &'static str)
        ensures
            r@ == self.spec_firmware_version(),
    {
        if self.product_id == MT760_PRO_BT {
            "v1.0.4 (Bluetooth LE Stack)"
        } else if self.product_id == MT760_PRO_WIRED {
            "v1.0.4 (USB Wired HID)"
        } else if self.product_id == MT760_PRO_NEARLINK {
            "v1.0.4 (2.4G RF / NearLink)"
        } else {
            "v1.0.0 (Rapoo Standard Firmware)"
        }
    }
}

} // verus!
