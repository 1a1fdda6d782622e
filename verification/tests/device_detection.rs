use openrapoo::battery::{BatterySource, BatteryStatus};
use openrapoo::device::{
    ConnectionType, DeviceCapabilities, DeviceConnectionState, DeviceType, RapooDevice,
    ReceiverState,
};
use openrapoo::{KnownDevice, RAPOO_VENDOR_ID};

fn mt760_capabilities() -> DeviceCapabilities {
    DeviceCapabilities {
        has_buttons_remapping: true,
        has_pointer_settings: true,
        has_battery_reader: true,
        can_read_dpi: true,
        can_set_dpi: false,
        can_read_polling_rate: true,
        can_set_polling_rate: false,
        svg_asset_name: Some("openrapoo-mt760-pro.svg".to_string()),
    }
}

#[test]
fn test_vendor_id_constant() {
    assert_eq!(RAPOO_VENDOR_ID, 0x24AE);
}

#[test]
fn test_rapoo_device_fields() {
    let device = RapooDevice {
        vendor_id: 0x24AE,
        product_id: 0x186A,
        name: "Rapoo MT760 Pro".to_string(),
        device_type: DeviceType::Mouse,
        connection_state: DeviceConnectionState::Connected,
        connection: ConnectionType::TwoPointFourGhz,
        receiver_state: ReceiverState::ReceiverActive,
        battery_status: BatteryStatus::Available {
            percentage: 85,
            charging: false,
            source: Some(BatterySource::Sysfs),
            timestamp: None,
            diagnostic_message: None,
        },
        capabilities: mt760_capabilities(),
        model: KnownDevice::RapooMt760Pro,
        evdev_path: Some("/dev/input/event5".to_string()),
        hidraw_path: Some("/dev/hidraw2".to_string()),
        phys: Some("usb-0000:00:14.0-1/input0".to_string()),
        ..Default::default()
    };

    assert!(device.is_mt760_pro());
    assert_eq!(device.vendor_id, RAPOO_VENDOR_ID);
    assert_eq!(device.connection.to_display_string(), "Dongle USB / 2.4 GHz");
    assert_eq!(device.model.to_display_string(), "Rapoo MT760 Pro");
    assert_eq!(device.device_type.to_display_string(), "Mouse");
    assert_eq!(device.connection_state.to_display_string(), "Conectado");
    assert_eq!(
        device.capabilities.svg_asset_name,
        Some("openrapoo-mt760-pro.svg".to_string())
    );
}

#[test]
fn test_non_rapoo_device_not_mt760_pro() {
    let device = RapooDevice {
        vendor_id: 0x24AE,
        product_id: 0x9999,
        name: "Rapoo Unknown".to_string(),
        device_type: DeviceType::Other,
        connection_state: DeviceConnectionState::Disconnected,
        connection: ConnectionType::Unknown,
        receiver_state: ReceiverState::Disconnected,
        battery_status: BatteryStatus::Unknown,
        capabilities: DeviceCapabilities::default(),
        model: KnownDevice::UnknownRapoo,
        evdev_path: None,
        hidraw_path: None,
        phys: None,
        ..Default::default()
    };

    assert!(!device.is_mt760_pro());
    assert_eq!(device.connection_state.to_display_string(), "Desconectado");
}

#[test]
fn test_mouse_and_keyboard_simultaneous_types() {
    let mouse = RapooDevice {
        vendor_id: 0x24AE,
        product_id: 0x186A,
        name: "Rapoo MT760 Pro Mouse".to_string(),
        device_type: DeviceType::Mouse,
        connection_state: DeviceConnectionState::Connected,
        connection: ConnectionType::TwoPointFourGhz,
        receiver_state: ReceiverState::ReceiverActive,
        battery_status: BatteryStatus::Available {
            percentage: 90,
            charging: false,
            source: Some(BatterySource::Sysfs),
            timestamp: None,
            diagnostic_message: None,
        },
        capabilities: mt760_capabilities(),
        model: KnownDevice::RapooMt760Pro,
        evdev_path: Some("/dev/input/event5".to_string()),
        hidraw_path: Some("/dev/hidraw2".to_string()),
        phys: Some("usb-0000:00:14.0-1/input0".to_string()),
        ..Default::default()
    };

    let keyboard = RapooDevice {
        vendor_id: 0x24AE,
        product_id: 0x2019,
        name: "Rapoo E9500M Keyboard".to_string(),
        device_type: DeviceType::Keyboard,
        connection_state: DeviceConnectionState::Connected,
        connection: ConnectionType::Bluetooth,
        receiver_state: ReceiverState::BluetoothConnected,
        battery_status: BatteryStatus::Available {
            percentage: 60,
            charging: false,
            source: Some(BatterySource::BlueZ),
            timestamp: None,
            diagnostic_message: None,
        },
        capabilities: DeviceCapabilities {
            has_buttons_remapping: true,
            has_pointer_settings: false,
            has_battery_reader: true,
            can_read_dpi: false,
            can_set_dpi: false,
            can_read_polling_rate: false,
            can_set_polling_rate: false,
            svg_asset_name: None,
        },
        model: KnownDevice::UnknownRapoo,
        evdev_path: Some("/dev/input/event6".to_string()),
        hidraw_path: Some("/dev/hidraw3".to_string()),
        phys: Some("bluetooth/hci0:12345".to_string()),
        ..Default::default()
    };

    assert_eq!(mouse.device_type, DeviceType::Mouse);
    assert_eq!(keyboard.device_type, DeviceType::Keyboard);
    assert!(mouse.capabilities.has_pointer_settings);
    assert!(!keyboard.capabilities.has_pointer_settings);
    assert_eq!(mouse.connection.to_display_string(), "Dongle USB / 2.4 GHz");
    assert_eq!(keyboard.connection.to_display_string(), "Bluetooth");
}

#[test]
fn test_rapoo_device_evdev_accessible_false_when_path_not_set() {
    let device = RapooDevice {
        vendor_id: 0x24AE,
        product_id: 0x2018,
        name: "Test".to_string(),
        device_type: DeviceType::Mouse,
        connection_state: DeviceConnectionState::Connected,
        connection: ConnectionType::Unknown,
        receiver_state: ReceiverState::Unknown,
        battery_status: BatteryStatus::Unknown,
        capabilities: DeviceCapabilities::default(),
        model: KnownDevice::RapooMt760Pro,
        evdev_path: None,
        hidraw_path: None,
        phys: None,
        ..Default::default()
    };

    assert!(!device.evdev_accessible());
    assert!(!device.hidraw_accessible());
}

#[test]
fn test_rapoo_device_evdev_accessible_false_when_path_does_not_exist() {
    let device = RapooDevice {
        vendor_id: 0x24AE,
        product_id: 0x2018,
        name: "Test".to_string(),
        device_type: DeviceType::Mouse,
        connection_state: DeviceConnectionState::Connected,
        connection: ConnectionType::Unknown,
        receiver_state: ReceiverState::Unknown,
        battery_status: BatteryStatus::Unknown,
        capabilities: DeviceCapabilities::default(),
        model: KnownDevice::RapooMt760Pro,
        evdev_path: Some("/dev/input/event_does_not_exist_99999".to_string()),
        hidraw_path: Some("/dev/hidraw_does_not_exist_99999".to_string()),
        phys: None,
        ..Default::default()
    };

    assert!(!device.evdev_accessible());
    assert!(!device.hidraw_accessible());
}

#[test]
fn test_bluetooth_pid_0x4510_recognition() {
    let dev = RapooDevice {
        vendor_id: 0x24AE,
        product_id: 0x4510,
        name: "Rapoo BT Mouse".to_string(),
        device_type: DeviceType::Mouse,
        connection_state: DeviceConnectionState::Connected,
        connection: ConnectionType::Bluetooth,
        receiver_state: ReceiverState::BluetoothConnected,
        battery_status: BatteryStatus::Available {
            percentage: 70,
            charging: false,
            source: Some(BatterySource::BlueZ),
            timestamp: Some(1000),
            diagnostic_message: None,
        },
        capabilities: DeviceCapabilities::default(),
        model: KnownDevice::RapooMt760Pro,
        evdev_path: None,
        hidraw_path: None,
        phys: Some("bluetooth/hci1:dev_DE_ED_DC_41_7C_51".to_string()),
        ..Default::default()
    };

    assert!(dev.is_mt760_pro());
    assert_eq!(dev.connection, ConnectionType::Bluetooth);
    assert_eq!(dev.battery_status.percentage(), Some(70));
}
