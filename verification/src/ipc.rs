//! The messages exchanged between the GUI and the daemon.

use vstd::prelude::*;
use crate::config::ButtonAction;

verus! {

/// A request to apply a profile's button actions.
#[derive(Debug, Clone, PartialEq)]
pub struct ApplyProfileRequest {
    pub transaction_id: String,
    pub device_name: String,
    /// The profile's UUID value
    pub profile_id: u128,
    pub profile_version: u32,
    /// Button code and action; each code at most once
    pub actions: Vec<(String, ButtonAction)>,
    pub timestamp: u64,
}

/// Where a request stands.
#[derive(Debug, Clone, PartialEq, Eq)]
pub enum ApplyStatus {
    Received,
    Applying,
    AppliedSucceeded,
    Failed { reason: String },
    DeviceDisconnected,
    FeatureUnsupported,
}

/// How a profile is applied.
#[derive(Debug, Clone, Copy, PartialEq, Eq, Structural)]
pub enum ApplyMode {
    SoftwareSession,
    HardwareFirmware,
}

/// The daemon's answer to an apply request.
#[derive(Debug, Clone, PartialEq)]
pub struct ApplyProfileResponse {
    pub transaction_id: String,
    pub status: ApplyStatus,
    pub active_rules_count: usize,
    pub applied_mode: ApplyMode,
    pub daemon_pid: u32,
    pub message: String,
}

/// A request to set the DPI.
#[derive(Debug, Clone, PartialEq)]
pub struct SetDpiRequest {
    pub transaction_id: String,
    pub device_id: String,
    pub dpi: u32,
    pub gear: u8,
    pub timestamp: u64,
}

/// A request to set the polling rate.
#[derive(Debug, Clone, PartialEq)]
pub struct SetPollingRateRequest {
    pub transaction_id: String,
    pub device_id: String,
    pub rate_hz: u32,
    pub timestamp: u64,
}

/// The hardware settings saved before a change.
#[derive(Debug, Clone, PartialEq)]
pub struct HardwareConfigSnapshot {
    pub device_id: String,
    pub transport: String,
    pub original_dpi: u32,
    pub original_polling_rate: u32,
    pub timestamp: u64,
}

/// The daemon's answer to a hardware request.
#[derive(Debug, Clone, PartialEq)]
pub struct HardwareOpResponse {
    pub transaction_id: String,
    pub status: ApplyStatus,
    pub confirmed_dpi: Option<u32>,
    pub confirmed_polling_rate: Option<u32>,
    pub message: String,
}

/// The daemon's state.
#[derive(Debug, Clone, PartialEq)]
pub struct DaemonStatusInfo {
    pub pid: u32,
    pub version: String,
    pub active_device_nodes: Vec<String>,
    pub active_rules_count: usize,
    pub is_grabbed: bool,
    pub socket_path: String,
}

/// A message sent to the daemon.
#[derive(Debug, Clone, PartialEq)]
pub enum DaemonIpcMessage {
    ApplyProfile(ApplyProfileRequest),
    SetDpi(SetDpiRequest),
    SetPollingRate(SetPollingRateRequest),
    RestoreSnapshot { device_id: String },
    ReadHardwareState { device_id: String },
    Ping,
    GetStatus,
}

/// A reply from the daemon.
#[derive(Debug, Clone, PartialEq)]
pub enum DaemonIpcResponse {
    ApplyProfile(ApplyProfileResponse),
    HardwareOp(HardwareOpResponse),
    HardwareState { confirmed_dpi: u32, confirmed_polling_rate: u32, transport: String },
    Pong { pid: u32, version: String, active_rules: usize },
    StatusInfo(DaemonStatusInfo),
    Error(String),
}

} // verus!
