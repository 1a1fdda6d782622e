use openrapoo::error::OpenRapooError;
use openrapoo::hardware::{
    decode_hardware_state, dpi_reports, frame_report, polling_rate_code, polling_rate_report,
    rapoo_hidraw_nodes, with_report_id,
};

#[test]
fn dpi_reports_carry_value_gear_and_checksum() {
    let (value, active) = dpi_reports(1600, 3).expect("valid dpi");
    assert_eq!(value.len(), 64);
    assert_eq!(&value[0..8], &[0x07, 0x02, 0x02, 3, 0x40, 0x06, 0x40, 0x06]);
    assert_eq!(value[14], 0x02 ^ 0x02 ^ 3 ^ 0x40 ^ 0x06 ^ 0x40 ^ 0x06);
    assert!(value[15..].iter().all(|b| *b == 0));
    assert_eq!(&active[0..4], &[0x07, 0x02, 0x01, 3]);
    assert_eq!(active[14], 0x02 ^ 0x01 ^ 3);
}

#[test]
fn dpi_gear_is_clamped() {
    let (value, _) = dpi_reports(800, 0).unwrap();
    assert_eq!(value[3], 1);
    let (value, active) = dpi_reports(800, 9).unwrap();
    assert_eq!(value[3], 7);
    assert_eq!(active[3], 7);
}

#[test]
fn invalid_dpi_is_refused_with_message() {
    match dpi_reports(55, 1) {
        Err(OpenRapooError::Config(m)) => {
            assert_eq!(m, "DPI 55 is invalid. Must be between 50 and 26000 in steps of 50.")
        }
        other => panic!("unexpected {:?}", other.is_ok()),
    }
}

#[test]
fn polling_report_uses_rate_code() {
    assert_eq!(polling_rate_code(125), Some(0x01));
    assert_eq!(polling_rate_code(1000), Some(0x08));
    assert_eq!(polling_rate_code(300), None);
    let r = polling_rate_report(500).unwrap();
    assert_eq!(&r[0..4], &[0x07, 0x03, 0x04, 0x00]);
    assert_eq!(r[14], 0x03 ^ 0x04);
    assert!(matches!(polling_rate_report(300), Err(OpenRapooError::Config(_))));
}

#[test]
fn checksum_zeroes_the_xor_of_the_frame() {
    let r = frame_report(&[0x02, 0x02, 4, 0x90, 0x01, 0x90, 0x01]);
    let x = r[1..15].iter().fold(0u8, |a, b| a ^ b);
    assert_eq!(x, 0);
}

#[test]
fn report_id_replaced() {
    let r = polling_rate_report(250).unwrap();
    let a0 = with_report_id(&r, 0xA0);
    assert_eq!(a0[0], 0xA0);
    assert_eq!(&a0[1..], &r[1..]);
}

#[test]
fn hardware_state_decoding() {
    let mut rep = [0u8; 64];
    rep[0] = 0x07;
    assert_eq!(decode_hardware_state(&rep), (1200, 1000));
    rep[2] = 0x02;
    rep[3] = 5;
    assert_eq!(decode_hardware_state(&rep), (2400, 250));
    rep[4] = 0x40;
    rep[5] = 0x06;
    assert_eq!(decode_hardware_state(&rep), (1600, 250));
    rep[3] = 9;
    rep[4] = 0;
    rep[5] = 0;
    assert_eq!(decode_hardware_state(&rep), (1200, 250));
}

#[test]
fn written_dpi_reads_back() {
    let (value, _) = dpi_reports(26000, 2).unwrap();
    assert_eq!(decode_hardware_state(&value).0, 26000);
    let p = polling_rate_report(125).unwrap();
    assert_eq!(decode_hardware_state(&p).1, 125);
}

#[test]
fn hidraw_nodes_from_uevents() {
    let entries = vec![
        ("hidraw1".to_string(), "HID_ID=0003:0000046D:0000C52B\nHID_NAME=Logitech".to_string()),
        ("hidraw3".to_string(), "HID_ID=0003:000024AE:0000186A\nHID_NAME=ITON".to_string()),
        ("hidraw4".to_string(), "HID_NAME=Rapoo Keyboard".to_string()),
    ];
    let nodes = rapoo_hidraw_nodes(Some("/dev/hidraw3"), &entries);
    assert_eq!(nodes, vec!["/dev/hidraw3".to_string(), "/dev/hidraw4".to_string()]);
    let none = rapoo_hidraw_nodes(None, &vec![entries[0].clone()]);
    assert_eq!(none, vec!["/dev/hidraw0".to_string()]);
}
