use openrapoo::battery::bluez::{extract_u8_value, DbusValue};
use openrapoo::battery::diagnostic::{generate_battery_diagnostic, SystemEnvironment};
use openrapoo::battery::{BatteryAggregator, BatteryProvider, BatteryReading, BatterySource, DeviceIdentity};

struct Silent;

impl BatteryProvider for Silent {
    /// The source this provider stands for, as `source` reports it.
    fn spec_source(&self) -> BatterySource {
        self.source()
    }

    /// The priority of this provider, as `priority` reports it.
    fn spec_priority(&self) -> u8 {
        self.priority()
    }

    /// The name of this provider, as `name` reports it.
    fn spec_name(&self) -> String {
        self.name().to_string()
    }

    /// Every answer is possible: what the provider finds depends on the system when asked.
    fn answers(&self, _device: DeviceIdentity, _r: Option<BatteryReading>) -> bool {
        true
    }

    /// Either answer is possible: availability depends on the environment when asked.
    fn reports_available(&self, _r: bool) -> bool {
        true
    }

    fn name(&self) -> &str {
        "Silent"
    }
    fn source(&self) -> BatterySource {
        BatterySource::BlueZ
    }
    fn priority(&self) -> u8 {
        1
    }
    fn query(&self, _device: &DeviceIdentity, _log: &mut Vec<String>) -> Option<BatteryReading> {
        None
    }
    fn is_available(&self) -> bool {
        true
    }
}

fn env() -> SystemEnvironment {
    SystemEnvironment {
        distro: "Fedora".into(),
        kernel_version: "6.9".into(),
        upower_version: None,
        bluez_version: Some("5.7".into()),
        desktop_environment: "GNOME".into(),
        session_type: "wayland".into(),
        bluetooth_controllers: vec!["hci0".into()],
        upower_devices: vec![],
        bluez_devices: vec![],
        hid_devices: vec![],
        evdev_interfaces: vec![],
        hidraw_interfaces: vec!["/dev/hidraw2 (VID: 24AE, PID: 186A, Vendor: true)".into()],
        user_groups: vec!["wheel".into(), "input".into()],
        udev_rules_found: vec![],
    }
}

#[test]
fn diagnostic_report_markdown() {
    let agg = BatteryAggregator::new(vec![Silent]);
    let mut log = vec!["before".to_string()];
    let rep = generate_battery_diagnostic(&agg, env(), "Rapoo MT760 Pro (Bluetooth)", None, Some("/dev/hidraw2"), &mut log);
    assert_eq!(rep.consulted_sources.len(), 6);
    assert_eq!(rep.hidraw_path, Some("/dev/hidraw2".to_string()));
    assert_eq!(log[0], "before");
    assert_eq!(log.len(), 1 + rep.diagnostic_log.len());
    let md = rep.to_markdown();
    assert!(md.starts_with("# 🔋 Relatório Técnico de Diagnóstico de Bateria — OpenRapoo\n\n"));
    assert!(md.contains("- **Dispositivo Target**: Rapoo MT760 Pro (Bluetooth)\n"));
    assert!(md.contains("- **Percentual Bruto**: N/A / Ausente\n"));
    assert!(md.contains("- **Validação do Percentual**: Rejeitada / Invalidade\n"));
    assert!(md.contains("- **UPower Versão**: Não disponível\n"));
    assert!(md.contains("- **BlueZ Versão**: 5.7\n"));
    assert!(md.contains("- **Controladores Bluetooth**: [\"hci0\"]\n"));
    assert!(md.contains("- **Grupos do Usuário**: [\"wheel\", \"input\"]\n\n"));
    assert!(md.contains("- /dev/hidraw2 (VID: 24AE, PID: 186A, Vendor: true)\n"));
    assert!(md.contains("> [!WARNING]\n"));
    assert!(md.ends_with("(Categoria `0x01`).\n"));
}

#[test]
fn test_bluez_extract_u8_value_variants() {
    assert_eq!(extract_u8_value(&DbusValue::U8(70)), Some(70));
    assert_eq!(extract_u8_value(&DbusValue::U32(85)), Some(85));
    assert_eq!(extract_u8_value(&DbusValue::U32(300)), Some(44));
    assert_eq!(extract_u8_value(&DbusValue::I32(90)), Some(90));
    assert_eq!(extract_u8_value(&DbusValue::I32(-5)), None);
    assert_eq!(extract_u8_value(&DbusValue::Other("\"100\"".to_string())), Some(100));
    assert_eq!(extract_u8_value(&DbusValue::Other("( 42 )".to_string())), Some(42));
    assert_eq!(extract_u8_value(&DbusValue::Other("abc".to_string())), None);
}
