use openrapoo::battery::bluez::is_bluez_match;
use openrapoo::battery::upower::is_upower_device_match;
use openrapoo::battery::DeviceIdentity;
use openrapoo::detection::receiver_state_for;
use openrapoo::device::{ConnectionType, DeviceType, RapooDevice, ReceiverState};

#[test]
fn mouse_never_takes_keyboard_upower_entry() {
    let mouse = DeviceIdentity {
        name: "Rapoo MT760 Pro".to_string(),
        device_type: DeviceType::Mouse,
        transport: ConnectionType::Bluetooth,
        ..Default::default()
    };
    assert!(!is_upower_device_match(&mouse, "Rapoo E9050L", "", "", "/org/freedesktop/UPower/devices/keyboard_dev_D1", 6));
    assert!(is_upower_device_match(&mouse, "Rapoo MT760 Pro", "", "", "/org/freedesktop/UPower/devices/mouse_dev_DE", 5));
}

#[test]
fn known_address_decides_the_match() {
    let mouse = DeviceIdentity {
        name: "Rapoo MT760 Pro".to_string(),
        device_type: DeviceType::Mouse,
        transport: ConnectionType::Bluetooth,
        bluetooth_address: Some("DE:ED:DC:41:7C:51".to_string()),
        ..Default::default()
    };
    assert!(!is_upower_device_match(&mouse, "Rapoo MT760 Pro", "AA:BB:CC:11:22:33", "", "/org/freedesktop/UPower/devices/mouse_dev_AA", 5));
    assert!(is_upower_device_match(&mouse, "Rapoo MT760 Pro", "DE:ED:DC:41:7C:51", "", "/org/freedesktop/UPower/devices/mouse_dev_DE", 5));
    assert!(is_bluez_match(&mouse, "rapoo mt760 pro rapoo de:ed:dc:41:7c:51 /org/bluez/hci0/dev_de_ed_dc_41_7c_51", "DE:ED:DC:41:7C:51"));
    assert!(!is_bluez_match(&mouse, "rapoo mt760 pro rapoo aa:bb:cc:11:22:33 /org/bluez/hci0/dev_aa_bb_cc_11_22_33", "AA:BB:CC:11:22:33"));
    assert!(!is_bluez_match(&mouse, "rapoo keyboard de:ed:dc:41:7c:51", "DE:ED:DC:41:7C:51"));
}

#[test]
fn receiver_state_rule() {
    let dongle = RapooDevice { connection: ConnectionType::TwoPointFourGhz, device_type: DeviceType::Mouse, ..Default::default() };
    assert_eq!(receiver_state_for(&dongle, false, true), ReceiverState::ReceiverActive);
    assert_eq!(receiver_state_for(&dongle, false, false), ReceiverState::ReceiverPresent);
    assert_eq!(receiver_state_for(&dongle, true, true), ReceiverState::ReceiverPresent);
    let bt = RapooDevice { connection: ConnectionType::Bluetooth, ..Default::default() };
    assert_eq!(receiver_state_for(&bt, true, false), ReceiverState::BluetoothConnected);
    let kbd = RapooDevice { connection: ConnectionType::TwoPointFourGhz, device_type: DeviceType::Keyboard, ..Default::default() };
    assert_eq!(receiver_state_for(&kbd, true, false), ReceiverState::ReceiverActive);
}
