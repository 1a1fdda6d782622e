//! The daemon's answers to IPC requests, given what the hardware and the disk said,
//! and where hardware snapshots are kept.

use vstd::prelude::*;
use crate::config::{path_join, join_path};
use crate::device::{ConnectionType, KnownDevice, RapooDevice};
use crate::ipc::{
    ApplyMode, ApplyProfileRequest, ApplyProfileResponse, ApplyStatus, DaemonIpcMessage, DaemonIpcResponse,
    DaemonStatusInfo, HardwareConfigSnapshot, HardwareOpResponse, SetDpiRequest, SetPollingRateRequest,
};
use crate::text::{append_dec, append_str, chars_of, dec, has_sub, owned, push_char, str_contains, string_of, trim, trim_str};

verus! {

/// The device a hardware request is for: the first detected device that is an MT760
/// Pro or whose name contains the requested id.
pub open spec fn target_index(ds: Seq<RapooDevice>, device_id: Seq<char>, i: int) -> bool {
    &&& 0 <= i < ds.len()
    &&& ds[i].model == KnownDevice::RapooMt760Pro || has_sub(ds[i].name@, device_id)
    &&& forall|j: int| 0 <= j < i ==> !((#[trigger] ds[j]).model == KnownDevice::RapooMt760Pro || has_sub(ds[j].name@, device_id))
}

/// The hidraw node and transport a hardware request goes to: those of the target
/// device (`/dev/hidraw0` when it has no node); `/dev/hidraw0` over a USB cable when no
/// device is the target.
pub open spec fn spec_hardware_target(ds: Seq<RapooDevice>, device_id: Seq<char>) -> (Seq<char>, ConnectionType) {
    if exists|i: int| target_index(ds, device_id, i) {
        let d = ds[choose|i: int| target_index(ds, device_id, i)];
        (match d.hidraw_path { Some(p) => p@, None => "/dev/hidraw0"@ }, d.connection)
    } else {
        ("/dev/hidraw0"@, ConnectionType::UsbCable)
    }
}

proof fn lemma_target_unique(ds: Seq<RapooDevice>, id: Seq<char>, i: int, j: int)
    requires
        target_index(ds, id, i),
        target_index(ds, id, j),
    ensures
        i == j,
{
    if i < j {
        assert(!(ds[i].model == KnownDevice::RapooMt760Pro || has_sub(ds[i].name@, id)));
    } else if j < i {
        assert(!(ds[j].model == KnownDevice::RapooMt760Pro || has_sub(ds[j].name@, id)));
    }
}

/// The hidraw node and transport of the device a hardware request names.
pub fn hardware_target(devices: &Vec<RapooDevice>, device_id: &str) -> (r: (String, ConnectionType))
    ensures
        (r.0@, r.1) == spec_hardware_target(devices@, device_id@),
{
    let mut i: usize = 0;
    while i < devices.len()
        invariant
            i <= devices@.len(),
            forall|j: int| 0 <= j < i ==> !((#[trigger] devices@[j]).model == KnownDevice::RapooMt760Pro
                || has_sub(devices@[j].name@, device_id@)),
        decreases devices.len() - i,
    {
        let d = &devices[i];
        if d.is_mt760_pro() || str_contains(d.name.as_str(), device_id) {
            assert(target_index(devices@, device_id@, i as int));
            proof {
                let k = choose|k: int| target_index(devices@, device_id@, k);
                lemma_target_unique(devices@, device_id@, i as int, k);
            }
            let path = match &d.hidraw_path {
                Some(p) => p.clone(),
                None => owned("/dev/hidraw0"),
            };
            return (path, d.connection);
        }
        i = i + 1;
    }
    (owned("/dev/hidraw0"), ConnectionType::UsbCable)
}

/// Whether a hardware request can be carried out over this transport (not over Bluetooth).
pub open spec fn hardware_supported(t: ConnectionType) -> bool {
    t != ConnectionType::Bluetooth
}

/// The answer to a hardware request over Bluetooth.
pub fn bluetooth_refusal(transaction_id: String) -> (r: DaemonIpcResponse)
    ensures
        r matches DaemonIpcResponse::HardwareOp(h) && h.transaction_id@ == transaction_id@
            && h.status == ApplyStatus::FeatureUnsupported && h.confirmed_dpi is None
            && h.confirmed_polling_rate is None && h.message@ == "Não suportado no modo Bluetooth."@,
{
    DaemonIpcResponse::HardwareOp(HardwareOpResponse {
        transaction_id,
        status: ApplyStatus::FeatureUnsupported,
        confirmed_dpi: None,
        confirmed_polling_rate: None,
        message: owned("Não suportado no modo Bluetooth."),
    })
}

/// The answer to a hardware request before it is carried out: over a transport that does not support it
/// (Bluetooth, where the kernel manages the mouse) the request is refused with
/// `bluetooth_refusal`'s answer; otherwise it goes on (`None`).
pub fn hardware_refusal(transaction_id: String, transport: ConnectionType) -> (r: Option<DaemonIpcResponse>)
    ensures
        r is Some <==> !hardware_supported(transport),
        r matches Some(x) ==> (x matches DaemonIpcResponse::HardwareOp(h) && h.transaction_id@ == transaction_id@
            && h.status == ApplyStatus::FeatureUnsupported && h.confirmed_dpi is None
            && h.confirmed_polling_rate is None && h.message@ == "Não suportado no modo Bluetooth."@),
{
    if transport == ConnectionType::Bluetooth {
        Some(bluetooth_refusal(transaction_id))
    } else {
        None
    }
}

/// What the daemon does with a request: the answers that need neither the hardware nor
/// the disk are given at once; the other requests go on to their handlers.
pub enum RequestStep {
    /// Reply with this answer.
    Answer(DaemonIpcResponse),
    /// Replace the active profile's mappings and save the store.
    ApplyProfile(ApplyProfileRequest),
    /// Write a DPI to the mouse.
    SetDpi(SetDpiRequest),
    /// Write a polling rate to the mouse.
    SetPollingRate(SetPollingRateRequest),
    /// Write back the settings saved for a device.
    RestoreSnapshot(String),
    /// Read the mouse's settings.
    ReadHardwareState(String),
}

/// The step for a request: `Ping` is answered with the process id, the version and the
/// number of mappings of the active profile; `GetStatus` with those, no device nodes,
/// the grab flag set and the socket path; the others go to their handlers unchanged.
pub fn request_step(msg: DaemonIpcMessage, pid: u32, version: &str, active_rules: usize, socket_path: &str) -> (r: RequestStep)
    ensures
        match msg {
            DaemonIpcMessage::Ping => r matches RequestStep::Answer(DaemonIpcResponse::Pong { pid: p, version: v, active_rules: a })
                && p == pid && v@ == version@ && a == active_rules,
            DaemonIpcMessage::GetStatus => r matches RequestStep::Answer(DaemonIpcResponse::StatusInfo(i))
                && i.pid == pid && i.version@ == version@ && i.active_device_nodes@.len() == 0
                && i.active_rules_count == active_rules && i.is_grabbed && i.socket_path@ == socket_path@,
            DaemonIpcMessage::ApplyProfile(q) => r == RequestStep::ApplyProfile(q),
            DaemonIpcMessage::SetDpi(q) => r == RequestStep::SetDpi(q),
            DaemonIpcMessage::SetPollingRate(q) => r == RequestStep::SetPollingRate(q),
            DaemonIpcMessage::RestoreSnapshot { device_id } => r == RequestStep::RestoreSnapshot(device_id),
            DaemonIpcMessage::ReadHardwareState { device_id } => r == RequestStep::ReadHardwareState(device_id),
        },
{
    match msg {
        DaemonIpcMessage::Ping => RequestStep::Answer(DaemonIpcResponse::Pong {
            pid,
            version: owned(version),
            active_rules,
        }),
        DaemonIpcMessage::GetStatus => RequestStep::Answer(DaemonIpcResponse::StatusInfo(DaemonStatusInfo {
            pid,
            version: owned(version),
            active_device_nodes: Vec::new(),
            active_rules_count: active_rules,
            is_grabbed: true,
            socket_path: owned(socket_path),
        })),
        DaemonIpcMessage::ApplyProfile(q) => RequestStep::ApplyProfile(q),
        DaemonIpcMessage::SetDpi(q) => RequestStep::SetDpi(q),
        DaemonIpcMessage::SetPollingRate(q) => RequestStep::SetPollingRate(q),
        DaemonIpcMessage::RestoreSnapshot { device_id } => RequestStep::RestoreSnapshot(device_id),
        DaemonIpcMessage::ReadHardwareState { device_id } => RequestStep::ReadHardwareState(device_id),
    }
}

/// The request text of a line read from the socket: the line without surrounding
/// whitespace, or none for a blank line (which the daemon skips).
pub fn request_text(line: &str) -> (r: Option<String>)
    ensures
        match r {
            Some(t) => t@ == trim(line@) && t@.len() > 0,
            None => trim(line@).len() == 0,
        },
{
    let t = trim_str(line);
    if t.len() == 0 {
        None
    } else {
        Some(string_of(t.as_slice()))
    }
}

/// The runtime directory as configured (trimmed), when it is not blank; the socket goes
/// there if it is a directory.
pub fn runtime_socket_dir(runtime_dir: Option<&str>) -> (r: Option<String>)
    ensures
        match runtime_dir {
            Some(d) => if trim(d@).len() > 0 { r matches Some(x) && x@ == trim(d@) } else { r is None },
            None => r is None,
        },
{
    match runtime_dir {
        Some(d) => request_text(d),
        None => None,
    }
}

/// The socket under `/tmp` named by the user id.
pub open spec fn uid_socket_name(uid: u32) -> Seq<char> {
    "/tmp/openrapoo-user-"@ + dec(uid as nat) + ".sock"@
}

/// The daemon's socket: `openrapoo.sock` in the runtime directory when it is one;
/// else `daemon.sock` in the configuration directory when it could be created; else a
/// socket under `/tmp` named by the user id.
pub fn socket_path_from(runtime_dir: Option<&str>, config_dir: Option<&str>, uid: u32) -> (r: String)
    ensures
        r@ == match (runtime_dir, config_dir) {
            (Some(d), _) => path_join(d@, "openrapoo.sock"@),
            (None, Some(c)) => path_join(c@, "daemon.sock"@),
            (None, None) => uid_socket_name(uid),
        },
{
    match runtime_dir {
        Some(d) => join_path(d, "openrapoo.sock"),
        None => match config_dir {
            Some(c) => join_path(c, "daemon.sock"),
            None => {
                let mut s = owned("/tmp/openrapoo-user-");
                append_dec(&mut s, uid as u64);
                append_str(&mut s, ".sock");
                s
            },
        },
    }
}

/// The settings saved before a hardware change: the device id, the transport's display
/// name, and the DPI and rate read from the device (1200 and 1000 when unreadable).
pub fn snapshot_before_change(device_id: &str, transport: ConnectionType, state: Option<(u32, u32)>, timestamp: u64) -> (r: HardwareConfigSnapshot)
    ensures
        r.device_id@ == device_id@,
        r.transport@ == transport.spec_name(),
        (r.original_dpi, r.original_polling_rate) == match state { Some(s) => s, None => (1200u32, 1000u32) },
        r.timestamp == timestamp,
{
    let (dpi, hz) = match state {
        Some(s) => s,
        None => (1200u32, 1000u32),
    };
    HardwareConfigSnapshot {
        device_id: owned(device_id),
        transport: transport.to_display_string(),
        original_dpi: dpi,
        original_polling_rate: hz,
        timestamp,
    }
}

/// The answer to a DPI request once the write was tried: success with the DPI written,
/// or failure with the error's text.
pub fn dpi_write_response(transaction_id: String, outcome: Result<u32, String>) -> (r: DaemonIpcResponse)
    ensures
        r matches DaemonIpcResponse::HardwareOp(h) && h.transaction_id@ == transaction_id@
            && h.confirmed_polling_rate is None
            && match outcome {
                Ok(dpi) => h.status == ApplyStatus::AppliedSucceeded && h.confirmed_dpi == Some(dpi)
                    && h.message@ == "DPI alterado para "@ + dec(dpi as nat) + " e confirmado no mouse."@,
                Err(e) => (h.status matches ApplyStatus::Failed { reason } && reason@ == e@)
                    && h.confirmed_dpi is None
                    && h.message@ == "Falha ao aplicar DPI ao hardware: "@ + e@,
            },
{
    match outcome {
        Ok(dpi) => {
            let mut m = owned("DPI alterado para ");
            append_dec(&mut m, dpi as u64);
            append_str(&mut m, " e confirmado no mouse.");
            DaemonIpcResponse::HardwareOp(HardwareOpResponse {
                transaction_id,
                status: ApplyStatus::AppliedSucceeded,
                confirmed_dpi: Some(dpi),
                confirmed_polling_rate: None,
                message: m,
            })
        },
        Err(e) => {
            let mut m = owned("Falha ao aplicar DPI ao hardware: ");
            append_str(&mut m, e.as_str());
            DaemonIpcResponse::HardwareOp(HardwareOpResponse {
                transaction_id,
                status: ApplyStatus::Failed { reason: e },
                confirmed_dpi: None,
                confirmed_polling_rate: None,
                message: m,
            })
        },
    }
}

/// The answer to a polling-rate request once the write was tried.
pub fn polling_write_response(transaction_id: String, outcome: Result<u32, String>) -> (r: DaemonIpcResponse)
    ensures
        r matches DaemonIpcResponse::HardwareOp(h) && h.transaction_id@ == transaction_id@
            && h.confirmed_dpi is None
            && match outcome {
                Ok(hz) => h.status == ApplyStatus::AppliedSucceeded && h.confirmed_polling_rate == Some(hz)
                    && h.message@ == "Polling Rate alterado para "@ + dec(hz as nat) + " Hz e confirmado no mouse."@,
                Err(e) => (h.status matches ApplyStatus::Failed { reason } && reason@ == e@)
                    && h.confirmed_polling_rate is None
                    && h.message@ == "Falha ao aplicar Polling Rate ao hardware: "@ + e@,
            },
{
    match outcome {
        Ok(hz) => {
            let mut m = owned("Polling Rate alterado para ");
            append_dec(&mut m, hz as u64);
            append_str(&mut m, " Hz e confirmado no mouse.");
            DaemonIpcResponse::HardwareOp(HardwareOpResponse {
                transaction_id,
                status: ApplyStatus::AppliedSucceeded,
                confirmed_dpi: None,
                confirmed_polling_rate: Some(hz),
                message: m,
            })
        },
        Err(e) => {
            let mut m = owned("Falha ao aplicar Polling Rate ao hardware: ");
            append_str(&mut m, e.as_str());
            DaemonIpcResponse::HardwareOp(HardwareOpResponse {
                transaction_id,
                status: ApplyStatus::Failed { reason: e },
                confirmed_dpi: None,
                confirmed_polling_rate: None,
                message: m,
            })
        },
    }
}

/// The answer to a profile request once the store was saved: success with the number
/// of active rules, or failure with the save error (and no rules).
pub fn apply_profile_response(transaction_id: String, save_error: Option<String>, active_rules_count: usize, pid: u32) -> (r: DaemonIpcResponse)
    ensures
        r matches DaemonIpcResponse::ApplyProfile(a) && a.transaction_id@ == transaction_id@
            && a.applied_mode == ApplyMode::SoftwareSession && a.daemon_pid == pid
            && match save_error {
                Some(e) => (a.status matches ApplyStatus::Failed { reason } && reason@ == e@)
                    && a.active_rules_count == 0
                    && a.message@ == "Erro ao salvar perfil em disco no daemon."@,
                None => a.status == ApplyStatus::AppliedSucceeded && a.active_rules_count == active_rules_count
                    && a.message@ == "Configuração aplicada pelo OpenRapoo nesta sessão (evdev/uinput). Ela não foi gravada na memória do mouse."@,
            },
{
    match save_error {
        Some(e) => DaemonIpcResponse::ApplyProfile(ApplyProfileResponse {
            transaction_id,
            status: ApplyStatus::Failed { reason: e },
            active_rules_count: 0,
            applied_mode: ApplyMode::SoftwareSession,
            daemon_pid: pid,
            message: owned("Erro ao salvar perfil em disco no daemon."),
        }),
        None => DaemonIpcResponse::ApplyProfile(ApplyProfileResponse {
            transaction_id,
            status: ApplyStatus::AppliedSucceeded,
            active_rules_count,
            applied_mode: ApplyMode::SoftwareSession,
            daemon_pid: pid,
            message: owned("Configuração aplicada pelo OpenRapoo nesta sessão (evdev/uinput). Ela não foi gravada na memória do mouse."),
        }),
    }
}

/// The answer to a restore request: success when both writes of the saved settings
/// succeeded, a failure otherwise, and an error when no snapshot could be loaded.
pub fn restore_response(snapshot: Result<HardwareConfigSnapshot, String>, dpi_ok: bool, rate_ok: bool) -> (r: DaemonIpcResponse)
    ensures
        r matches DaemonIpcResponse::HardwareOp(h) && match snapshot {
            Ok(s) => if dpi_ok && rate_ok {
                h.transaction_id@ == "restore-"@ + dec(s.timestamp as nat)
                    && h.status == ApplyStatus::AppliedSucceeded
                    && h.confirmed_dpi == Some(s.original_dpi)
                    && h.confirmed_polling_rate == Some(s.original_polling_rate)
                    && h.message@ == "Configurações originais restauradas com sucesso."@
            } else {
                h.transaction_id@ == "restore-failed"@
                    && (h.status matches ApplyStatus::Failed { reason } && reason@ == "Erro ao reescrever configurações no mouse."@)
                    && h.confirmed_dpi is None && h.confirmed_polling_rate is None
                    && h.message@ == "Erro ao restaurar snapshot original no hardware."@
            },
            Err(e) => h.transaction_id@ == "restore-error"@
                && (h.status matches ApplyStatus::Failed { reason } && reason@ == e@)
                && h.confirmed_dpi is None && h.confirmed_polling_rate is None
                && h.message@ == "Nenhum snapshot encontrado: "@ + e@,
        },
{
    match snapshot {
        Ok(s) => {
            if dpi_ok && rate_ok {
                let mut tid = owned("restore-");
                append_dec(&mut tid, s.timestamp);
                DaemonIpcResponse::HardwareOp(HardwareOpResponse {
                    transaction_id: tid,
                    status: ApplyStatus::AppliedSucceeded,
                    confirmed_dpi: Some(s.original_dpi),
                    confirmed_polling_rate: Some(s.original_polling_rate),
                    message: owned("Configurações originais restauradas com sucesso."),
                })
            } else {
                DaemonIpcResponse::HardwareOp(HardwareOpResponse {
                    transaction_id: owned("restore-failed"),
                    status: ApplyStatus::Failed { reason: owned("Erro ao reescrever configurações no mouse.") },
                    confirmed_dpi: None,
                    confirmed_polling_rate: None,
                    message: owned("Erro ao restaurar snapshot original no hardware."),
                })
            }
        },
        Err(e) => {
            let mut m = owned("Nenhum snapshot encontrado: ");
            append_str(&mut m, e.as_str());
            DaemonIpcResponse::HardwareOp(HardwareOpResponse {
                transaction_id: owned("restore-error"),
                status: ApplyStatus::Failed { reason: e },
                confirmed_dpi: None,
                confirmed_polling_rate: None,
                message: m,
            })
        },
    }
}

/// The answer to a state request: what was read (1200 and 1000 when unreadable) and
/// the transport's display name.
pub fn hardware_state_response(state: Option<(u32, u32)>, transport: ConnectionType) -> (r: DaemonIpcResponse)
    ensures
        r matches DaemonIpcResponse::HardwareState { confirmed_dpi, confirmed_polling_rate, transport: t }
            && (confirmed_dpi, confirmed_polling_rate) == match state { Some(s) => s, None => (1200u32, 1000u32) }
            && t@ == transport.spec_name(),
{
    let (dpi, hz) = match state {
        Some(s) => s,
        None => (1200u32, 1000u32),
    };
    DaemonIpcResponse::HardwareState {
        confirmed_dpi: dpi,
        confirmed_polling_rate: hz,
        transport: transport.to_display_string(),
    }
}

/// The answer to a line that is not a valid message.
pub fn invalid_message_response(error: &str) -> (r: DaemonIpcResponse)
    ensures
        r matches DaemonIpcResponse::Error(m) && m@ == "Invalid IPC JSON message: "@ + error@,
{
    let mut m = owned("Invalid IPC JSON message: ");
    append_str(&mut m, error);
    DaemonIpcResponse::Error(m)
}

/// The character kept in a snapshot file name: letters and digits stay, anything else
/// becomes `_`.
pub open spec fn sanitized(s: Seq<char>) -> Seq<char> {
    s.map_values(|c: char| if crate::text::alnum(c) { c } else { '_' })
}

/// The file a device's snapshot is kept in, inside `dir`: `device_snapshot_<id>.json`
/// with every character of the id that is not a letter or digit replaced by `_`.
pub fn snapshot_file_path(dir: &str, device_id: &str) -> (r: String)
    ensures
        r@ == path_join(dir@, "device_snapshot_"@ + sanitized(device_id@) + ".json"@),
        forall|k: int| 0 <= k < sanitized(device_id@).len() ==> sanitized(device_id@)[k] != '/',
{
    let cs = chars_of(device_id);
    let mut name = owned("device_snapshot_");
    let ghost base = name@;
    let mut i: usize = 0;
    while i < cs.len()
        invariant
            i <= cs@.len(),
            cs@ == device_id@,
            base == "device_snapshot_"@,
            name@ == base + sanitized(cs@.take(i as int)),
            forall|j: int| 0 <= j < i ==> sanitized(cs@)[j] != '/',
        decreases cs.len() - i,
    {
        let c = cs[i];
        let alnum_c = crate::text::is_alphanumeric(c);
        let k = if alnum_c { c } else { '_' };
        assert(sanitized(cs@)[i as int] == k);
        push_char(&mut name, k);
        assert(sanitized(cs@.take(i + 1)) =~= sanitized(cs@.take(i as int)).push(k));
        i = i + 1;
    }
    assert(cs@.take(cs@.len() as int) =~= cs@);
    assert(forall|j: int| 0 <= j < sanitized(device_id@).len() ==> sanitized(device_id@)[j] == sanitized(cs@)[j]);
    append_str(&mut name, ".json");
    join_path(dir, name.as_str())
}

} // verus!
