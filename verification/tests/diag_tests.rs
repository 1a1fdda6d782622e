use openrapoo::capture::{decode_event, describe_event, event_type_name, identify_event, rel_axis_name};
use openrapoo::event::{Axis, ButtonCode, MouseEventKind, ScrollAxis};
use openrapoo::hid_report::{hex_dump_lines, hid_info_lines, parse_hid_descriptor, HidReportEntry};
use openrapoo::listing::{device_listing_lines, first_evdev_path};
use openrapoo::device::{ConnectionType, KnownDevice, RapooDevice};

#[test]
fn decoding_raw_events() {
    let b = decode_event(10, 1, 0x110, 1);
    assert!(matches!(b.kind, MouseEventKind::Button(e) if e.button == ButtonCode::Left && e.pressed));
    let m = decode_event(11, 2, 1, -4);
    assert_eq!(m.kind, MouseEventKind::Movement { axis: Axis::Y, delta: -4 });
    let s = decode_event(12, 2, 6, 1);
    assert_eq!(s.kind, MouseEventKind::Scroll { axis: ScrollAxis::Horizontal, delta: 1 });
    assert_eq!(decode_event(0, 0, 0, 0).kind, MouseEventKind::Sync);
    assert_eq!(decode_event(0, 4, 4, 9).kind, MouseEventKind::Unknown);
}

#[test]
fn describing_events() {
    assert_eq!(describe_event(&decode_event(0, 1, 0x113, 0)), ("Button: Side Back (BTN_SIDE)".to_string(), "release (code=0x0113)".to_string()));
    assert_eq!(describe_event(&decode_event(0, 2, 0, -5)), ("Move X".to_string(), "delta=-5".to_string()));
    assert_eq!(describe_event(&decode_event(0, 2, 8, 1)), ("Scroll Vertical ↓".to_string(), "delta=1".to_string()));
    assert_eq!(describe_event(&decode_event(0, 2, 6, -1)), ("Scroll Horizontal ←".to_string(), "delta=-1".to_string()));
    assert_eq!(describe_event(&decode_event(0, 0, 0, 0)), ("SYNC".to_string(), String::new()));
    assert_eq!(describe_event(&decode_event(0, 4, 4, -9)), ("Unknown".to_string(), "type=4 code=4 value=-9".to_string()));
    assert_eq!(event_type_name(3), "EV_ABS");
    assert_eq!(event_type_name(17), "EV_???");
    assert_eq!(rel_axis_name(11), "Scroll Vertical Discreto (REL_WHEEL_HI_RES)");
    assert_eq!(rel_axis_name(12), "Scroll Horizontal Discreto (REL_HWHEEL_HI_RES)");
}

#[test]
fn identifying_inputs() {
    let i = identify_event(1, 0x114, 1).unwrap();
    assert_eq!((i.map_key.as_str(), i.name.as_str()), ("KEY:276", "Side Forward (BTN_EXTRA)"));
    let u = identify_event(1, 0x118, 1).unwrap();
    assert_eq!(u.name, "Botão desconhecido (0x0118)");
    assert!(identify_event(1, 0x110, 0).is_none());
    assert!(identify_event(2, 1, 3).is_none());
    assert_eq!(identify_event(2, 8, -1).unwrap().name, "Scroll Vertical (REL_WHEEL)");
}

#[test]
fn walking_a_mouse_descriptor() {
    let d = [0x05, 0x01, 0x09, 0x02, 0xA1, 0x01, 0x85, 0x02, 0x75, 0x08, 0x95, 0x04, 0x81, 0x02, 0xC0,
             0x06, 0x00, 0xFF, 0xA1, 0x01, 0xB1, 0x02, 0x96];
    let info = parse_hid_descriptor("/dev/hidraw2", &d);
    assert_eq!(info.descriptor_bytes, 23);
    assert_eq!(info.collections.len(), 2);
    assert_eq!((info.collections[0].usage_page, info.collections[0].usage), (1, 2));
    assert_eq!(info.collections[0].description, "Mouse");
    assert_eq!(info.collections[1].description, "Vendor Defined");
    assert_eq!(info.input_reports, vec![HidReportEntry { report_id: 2, size_bits: 32 }]);
    assert_eq!(info.feature_reports, vec![HidReportEntry { report_id: 2, size_bits: 32 }]);
    assert!(info.output_reports.is_empty());
    assert!(info.descriptor_hex.starts_with("05 01 09 02 A1"));
    let lines = hid_info_lines(&info);
    assert_eq!(lines[0], "  Coleções HID detectadas: 2");
    assert_eq!(lines[1], "    Usage Page: 0x0001  Usage: 0x0002  → Mouse");
    assert!(lines.contains(&"    ID=0x02  32 bits (4 bytes)".to_string()));
    assert!(lines.contains(&"  Feature reports: 1".to_string()));
    assert_eq!(lines.last().unwrap(), "     O protocolo exato precisa de engenharia reversa (Fase 8).");
}

#[test]
fn hex_dump_layout() {
    let data: Vec<u8> = (0x30u8..0x42).collect();
    let lines = hex_dump_lines(&data, 2);
    assert_eq!(lines.len(), 2);
    assert_eq!(lines[0], format!("  0000  {}  |0123456789:;<=>?|", "30 31 32 33 34 35 36 37 38 39 3A 3B 3C 3D 3E 3F "));
    assert_eq!(lines[1], format!("  0010  {:<48}  |@A|", "40 41 "));
    assert!(hex_dump_lines(&[], 4).is_empty());
}

#[test]
fn listing_devices() {
    assert_eq!(device_listing_lines(&vec![], &vec![]).len(), 12);
    let d = RapooDevice {
        name: "Rapoo MT760 Pro".into(),
        vendor_id: 0x24AE,
        product_id: 0x186A,
        model: KnownDevice::RapooMt760Pro,
        connection: ConnectionType::TwoPointFourGhz,
        evdev_path: Some("/dev/input/event5".into()),
        ..Default::default()
    };
    let lines = device_listing_lines(&vec![d.clone()], &vec![(false, false)]);
    assert_eq!(lines[1], "  Dispositivos Rapoo detectados: 1");
    assert_eq!(lines[4], "  [1] Rapoo MT760 Pro ← alvo");
    assert_eq!(lines[6], "      VID:PID:    0x24AE:0x186A");
    assert_eq!(lines[8], "      evdev:      /dev/input/event5  ✗ (sem permissão)");
    assert_eq!(lines[9], "      hidraw:     (não encontrado)");
    assert_eq!(lines[11], "  ⚠ Problema de permissão detectado. Para corrigir:");
    assert_eq!(first_evdev_path(&vec![RapooDevice::default(), d]), Some("/dev/input/event5".to_string()));
}
