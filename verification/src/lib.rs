//! Verified core logic of the OpenRapoo Rapoo-device configuration suite.

pub mod battery;
pub mod capture;
pub mod config;
pub mod daemon;
pub mod detection;
pub mod device;
pub mod error;
pub mod event;
pub mod hardware;
pub mod hid_report;
pub mod ipc;
pub mod known_pids;
pub mod listing;
pub mod permissions;
pub mod remap;
pub mod text;

pub use device::{ConnectionType, KnownDevice, RapooDevice};

use vstd::prelude::*;

verus! {

/// Rapoo vendor id (Shenzhen Rapoo Technology Co., Ltd.).
pub const RAPOO_VENDOR_ID: u16 = 0x24AE;

} // verus!
