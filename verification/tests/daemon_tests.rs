use openrapoo::daemon::{
    apply_profile_response, bluetooth_refusal, hardware_refusal, request_step, request_text,
    runtime_socket_dir, socket_path_from, RequestStep, dpi_write_response, hardware_state_response,
    hardware_target, invalid_message_response, polling_write_response, restore_response,
    snapshot_before_change, snapshot_file_path,
};
use openrapoo::device::{ConnectionType, KnownDevice, RapooDevice};
use openrapoo::ipc::{ApplyMode, ApplyStatus, DaemonIpcMessage, DaemonIpcResponse, HardwareConfigSnapshot};

#[test]
fn target_is_first_mt760_or_name_match() {
    let other = RapooDevice { name: "Rapoo Keyboard".into(), connection: ConnectionType::Bluetooth, ..Default::default() };
    let mouse = RapooDevice {
        name: "Rapoo MT760 Pro".into(),
        model: KnownDevice::RapooMt760Pro,
        connection: ConnectionType::TwoPointFourGhz,
        hidraw_path: Some("/dev/hidraw5".into()),
        ..Default::default()
    };
    let devs = vec![other.clone(), mouse];
    assert_eq!(hardware_target(&devs, "zzz"), ("/dev/hidraw5".to_string(), ConnectionType::TwoPointFourGhz));
    assert_eq!(hardware_target(&devs, "Keyboard"), ("/dev/hidraw0".to_string(), ConnectionType::Bluetooth));
    assert_eq!(hardware_target(&vec![other], "none"), ("/dev/hidraw0".to_string(), ConnectionType::UsbCable));
}

#[test]
fn responses_after_writes() {
    match dpi_write_response("tx1".into(), Ok(1600)) {
        DaemonIpcResponse::HardwareOp(h) => {
            assert_eq!(h.transaction_id, "tx1");
            assert_eq!(h.status, ApplyStatus::AppliedSucceeded);
            assert_eq!(h.confirmed_dpi, Some(1600));
            assert_eq!(h.message, "DPI alterado para 1600 e confirmado no mouse.");
        }
        _ => panic!("hardware op expected"),
    }
    match polling_write_response("tx2".into(), Err("boom".into())) {
        DaemonIpcResponse::HardwareOp(h) => {
            assert_eq!(h.status, ApplyStatus::Failed { reason: "boom".into() });
            assert_eq!(h.confirmed_polling_rate, None);
            assert_eq!(h.message, "Falha ao aplicar Polling Rate ao hardware: boom");
        }
        _ => panic!("hardware op expected"),
    }
    match bluetooth_refusal("tx3".into()) {
        DaemonIpcResponse::HardwareOp(h) => {
            assert_eq!(h.status, ApplyStatus::FeatureUnsupported);
            assert_eq!(h.message, "Não suportado no modo Bluetooth.");
        }
        _ => panic!("hardware op expected"),
    }
}

#[test]
fn apply_and_restore_responses() {
    match apply_profile_response("t".into(), None, 4, 99) {
        DaemonIpcResponse::ApplyProfile(a) => {
            assert_eq!(a.active_rules_count, 4);
            assert_eq!(a.applied_mode, ApplyMode::SoftwareSession);
            assert_eq!(a.daemon_pid, 99);
        }
        _ => panic!("apply expected"),
    }
    match apply_profile_response("t".into(), Some("disk full".into()), 4, 99) {
        DaemonIpcResponse::ApplyProfile(a) => {
            assert_eq!(a.active_rules_count, 0);
            assert_eq!(a.message, "Erro ao salvar perfil em disco no daemon.");
        }
        _ => panic!("apply expected"),
    }
    let snap = HardwareConfigSnapshot {
        device_id: "m".into(),
        transport: "USB por cabo".into(),
        original_dpi: 800,
        original_polling_rate: 500,
        timestamp: 42,
    };
    match restore_response(Ok(snap.clone()), true, true) {
        DaemonIpcResponse::HardwareOp(h) => {
            assert_eq!(h.transaction_id, "restore-42");
            assert_eq!(h.confirmed_dpi, Some(800));
        }
        _ => panic!(),
    }
    match restore_response(Ok(snap), true, false) {
        DaemonIpcResponse::HardwareOp(h) => assert_eq!(h.transaction_id, "restore-failed"),
        _ => panic!(),
    }
    match restore_response(Err("nada".into()), true, true) {
        DaemonIpcResponse::HardwareOp(h) => assert_eq!(h.message, "Nenhum snapshot encontrado: nada"),
        _ => panic!(),
    }
}

#[test]
fn state_snapshot_and_errors() {
    let s = snapshot_before_change("dev", ConnectionType::UsbCable, None, 5);
    assert_eq!((s.original_dpi, s.original_polling_rate), (1200, 1000));
    assert_eq!(s.transport, "USB por cabo");
    match hardware_state_response(Some((1600, 500)), ConnectionType::Bluetooth) {
        DaemonIpcResponse::HardwareState { confirmed_dpi, confirmed_polling_rate, transport } => {
            assert_eq!((confirmed_dpi, confirmed_polling_rate), (1600, 500));
            assert_eq!(transport, "Bluetooth");
        }
        _ => panic!(),
    }
    assert_eq!(invalid_message_response("eof"), DaemonIpcResponse::Error("Invalid IPC JSON message: eof".into()));
}

#[test]
fn snapshot_names_stay_in_directory() {
    assert_eq!(
        snapshot_file_path("/tmp/snaps", "Rapoo MT760/Pro"),
        "/tmp/snaps/device_snapshot_Rapoo_MT760_Pro.json"
    );
    assert_eq!(snapshot_file_path("/tmp/snaps/", "ação"), "/tmp/snaps/device_snapshot_ação.json");
}

#[test]
fn ping_and_status_answered_at_once() {
    match request_step(DaemonIpcMessage::Ping, 42, "0.1.0", 3, "/run/x.sock") {
        RequestStep::Answer(DaemonIpcResponse::Pong { pid, version, active_rules }) => {
            assert_eq!((pid, version.as_str(), active_rules), (42, "0.1.0", 3));
        }
        _ => panic!("ping not answered"),
    }
    match request_step(DaemonIpcMessage::GetStatus, 42, "0.1.0", 3, "/run/x.sock") {
        RequestStep::Answer(DaemonIpcResponse::StatusInfo(i)) => {
            assert_eq!(i.socket_path, "/run/x.sock");
            assert!(i.is_grabbed && i.active_device_nodes.is_empty());
            assert_eq!(i.active_rules_count, 3);
        }
        _ => panic!("status not answered"),
    }
    match request_step(DaemonIpcMessage::ReadHardwareState { device_id: "m".into() }, 1, "v", 0, "") {
        RequestStep::ReadHardwareState(d) => assert_eq!(d, "m"),
        _ => panic!("read request not passed on"),
    }
}

#[test]
fn bluetooth_hardware_requests_refused() {
    match hardware_refusal("t1".into(), ConnectionType::Bluetooth) {
        Some(DaemonIpcResponse::HardwareOp(h)) => assert_eq!(h.status, ApplyStatus::FeatureUnsupported),
        _ => panic!("bluetooth not refused"),
    }
    assert!(hardware_refusal("t2".into(), ConnectionType::TwoPointFourGhz).is_none());
}

#[test]
fn socket_lines_and_paths() {
    assert_eq!(request_text("  {\"Ping\"}\n"), Some("{\"Ping\"}".to_string()));
    assert_eq!(request_text(" \n"), None);
    assert_eq!(runtime_socket_dir(Some(" /run/user/1000 ")), Some("/run/user/1000".to_string()));
    assert_eq!(runtime_socket_dir(Some("  ")), None);
    assert_eq!(socket_path_from(Some("/run/user/1000"), None, 1000), "/run/user/1000/openrapoo.sock");
    assert_eq!(socket_path_from(None, Some("/home/u/.config/openrapoo"), 1000), "/home/u/.config/openrapoo/daemon.sock");
    assert_eq!(socket_path_from(None, None, 1000), "/tmp/openrapoo-user-1000.sock");
}

#[test]
fn test_socket_path_resolution() {
    for path in [
        socket_path_from(Some("/run/user/1000"), None, 1000),
        socket_path_from(None, Some("/home/u/.config/openrapoo"), 1000),
        socket_path_from(None, None, 1000),
    ] {
        assert!(path.contains("openrapoo"));
    }
}
