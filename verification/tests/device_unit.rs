use openrapoo::detection::{deduplicate_entries, guess_connection_type, ProcInputEntry};
use openrapoo::device::{ConnectionType, KnownDevice};

#[test]
fn test_connection_type_display() {
    assert_eq!(ConnectionType::UsbWired.to_display_string(), "USB por cabo");
    assert_eq!(ConnectionType::UsbCable.to_display_string(), "USB por cabo");
    assert_eq!(
        ConnectionType::TwoPointFourGhz.to_display_string(),
        "Dongle USB / 2.4 GHz"
    );
    assert_eq!(ConnectionType::Bluetooth.to_display_string(), "Bluetooth");
    assert_eq!(ConnectionType::NearLink.to_display_string(), "NearLink");
    assert_eq!(
        ConnectionType::Unknown.to_display_string(),
        "Conexão sem fio / Desconhecida"
    );
}

#[test]
fn test_known_device_display() {
    assert_eq!(KnownDevice::RapooMt760Pro.to_display_string(), "Rapoo MT760 Pro");
    assert_eq!(
        KnownDevice::UnknownRapoo.to_display_string(),
        "Dispositivo Rapoo Genérico"
    );
}

#[test]
fn test_guess_connection_bluetooth() {
    let conn = guess_connection_type(
        "Rapoo BT Mouse",
        0x4510,
        &Some("bluetooth/hci0:1a2b3c".to_string()),
        0x0005,
    );
    assert_eq!(conn, ConnectionType::Bluetooth);
}

#[test]
fn test_guess_connection_usb() {
    let conn = guess_connection_type(
        "Rapoo NearLink Mouse",
        0x186A,
        &Some("usb-0000:00:14.0-1/input0".to_string()),
        0x0003,
    );
    assert_eq!(conn, ConnectionType::TwoPointFourGhz);
}

#[test]
fn test_guess_connection_usb_cable() {
    let conn = guess_connection_type(
        "ITON Corp. Rapoo Composite Device",
        0x4510,
        &Some("usb-0000:04:00.0-3/input0".to_string()),
        0x0003,
    );
    assert_eq!(conn, ConnectionType::UsbCable);
}

#[test]
fn test_proc_input_entry_parse() {
    let entry = ProcInputEntry::from_info_line("Bus=0003 Vendor=24ae Product=2018 Version=0111");
    assert_eq!(entry.vendor_id, 0x24AE);
    assert_eq!(entry.product_id, 0x2018);
}

#[test]
fn test_deduplicate_entries_dongle_sub_interfaces() {
    let e1 = ProcInputEntry {
        bus_type: 0x0003,
        vendor_id: 0x24AE,
        product_id: 0x186A,
        name: "ITON Corp. Rapoo NearLink Mouse".to_string(),
        phys: Some("usb-0000:04:00.0-3/input0".to_string()),
        sysfs: Some("/devices/pci.../input/input7".to_string()),
        uniq: Some("34F993C06DAC".to_string()),
        handlers_str: "mouse0 event4".to_string(),
        event_node: Some("/dev/input/event4".to_string()),
    };

    let e2 = ProcInputEntry {
        bus_type: 0x0003,
        vendor_id: 0x24AE,
        product_id: 0x186A,
        name: "ITON Corp. Rapoo NearLink Mouse Keyboard".to_string(),
        phys: Some("usb-0000:04:00.0-3/input1".to_string()),
        sysfs: Some("/devices/pci.../input/input8".to_string()),
        uniq: Some("34F993C06DAC".to_string()),
        handlers_str: "sysrq kbd event5 leds".to_string(),
        event_node: Some("/dev/input/event5".to_string()),
    };

    let e3 = ProcInputEntry {
        bus_type: 0x0003,
        vendor_id: 0x24AE,
        product_id: 0x186A,
        name: "ITON Corp. Rapoo NearLink Mouse".to_string(),
        phys: Some("usb-0000:04:00.0-3/input1".to_string()),
        sysfs: Some("/devices/pci.../input/input9".to_string()),
        uniq: Some("34F993C06DAC".to_string()),
        handlers_str: "event6".to_string(),
        event_node: Some("/dev/input/event6".to_string()),
    };

    let deduplicated = deduplicate_entries(vec![e1.clone(), e2, e3]);
    assert_eq!(deduplicated.len(), 1);
    assert_eq!(deduplicated[0].name, "ITON Corp. Rapoo NearLink Mouse");
    assert_eq!(
        deduplicated[0].event_node,
        Some("/dev/input/event4".to_string())
    );
}
