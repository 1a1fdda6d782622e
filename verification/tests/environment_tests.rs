use openrapoo::battery::environment::{
    distro_name, first_line_trimmed, hidraw_interface_line, is_rapoo_hid_dir, is_relevant_udev_rule,
    rapoo_input_names, user_group_names,
};
use openrapoo::permissions::{target_username, udev_rules_target};
use openrapoo::error::OpenRapooError;

#[test]
fn os_release_pretty_name() {
    assert_eq!(distro_name(Some("NAME=Fedora\nPRETTY_NAME=\"Fedora Linux 40\"\n")), "Fedora Linux 40");
    assert_eq!(distro_name(Some("NAME=x\n")), "Linux Genérico");
    assert_eq!(distro_name(None), "Linux Genérico");
}

#[test]
fn input_names_and_filters() {
    let proc = "I: Bus=0003\nN: Name=\"ITON Corp. RAPOO NearLink Mouse\"\nN: Name=\"Logitech\"\n";
    assert_eq!(rapoo_input_names(proc), vec!["ITON Corp. RAPOO NearLink Mouse".to_string()]);
    assert!(is_rapoo_hid_dir("0003:24AE:186A.0004"));
    assert!(!is_rapoo_hid_dir("0003:046D:C52B.0001"));
    assert!(is_relevant_udev_rule("99-openrapoo.rules"));
    assert!(is_relevant_udev_rule("60-input-id.rules"));
    assert!(!is_relevant_udev_rule("70-power.rules"));
    assert_eq!(hidraw_interface_line("/dev/hidraw2", 0x24AE, 0x186A, true), "/dev/hidraw2 (VID: 24AE, PID: 186A, Vendor: true)");
    assert_eq!(user_group_names(" wheel  input\n"), vec!["wheel".to_string(), "input".to_string()]);
    assert_eq!(first_line_trimmed(" UPower 1.90\nextra\n"), "UPower 1.90");
    assert_eq!(first_line_trimmed(""), "");
}

#[test]
fn udev_target_and_user() {
    assert!(matches!(udev_rules_target(false, None), Err(OpenRapooError::PermissionDenied(_))));
    assert_eq!(udev_rules_target(false, Some("/tmp/rules")).unwrap(), "/tmp/rules/99-openrapoo.rules");
    assert_eq!(udev_rules_target(true, None).unwrap(), "/etc/udev/rules.d/99-openrapoo.rules");
    assert_eq!(target_username(Some("  bob "), Some("root"), None, 0), "bob");
    assert_eq!(target_username(Some("  "), Some("alice"), Some("x"), 0), "alice");
    assert_eq!(target_username(None, None, Some("carol"), 0), "carol");
    assert_eq!(target_username(None, None, None, 1000), "1000");
}
