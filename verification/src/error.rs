//! The library's error type.

use vstd::prelude::*;
use crate::text::{append_str, owned};

verus! {

/// What can go wrong in OpenRapoo operations.
#[derive(Debug)]
pub enum OpenRapooError {
    /// Cannot access a device file (permissions or not found)
    DeviceAccess(String),
    /// No Rapoo device on the system
    DeviceNotFound,
    /// An I/O error, by its message
    Io(String),
    /// Error parsing HID data
    HidParse(String),
    /// evdev-related error
    Evdev(String),
    /// Permission denied (usually udev rules or group membership)
    PermissionDenied(String),
    /// Configuration error
    Config(String),
    /// Serialization error, by its message
    Serde(String),
    /// Feature not yet supported
    NotSupported(String),
}

impl OpenRapooError {
    /// The text shown for the error.
    pub open spec fn spec_message(&self) -> Seq<char> {
        match self {
            OpenRapooError::DeviceAccess(m) => "Device access error: "@ + m@,
            OpenRapooError::DeviceNotFound => "No Rapoo device found. Is the mouse connected?"@,
            OpenRapooError::Io(m) => "IO error: "@ + m@,
            OpenRapooError::HidParse(m) => "HID parse error: "@ + m@,
            OpenRapooError::Evdev(m) => "evdev error: "@ + m@,
            OpenRapooError::PermissionDenied(m) => "Permission denied: "@ + m@
                + "\n\nTip: run `sudo cp udev/99-openrapoo.rules /etc/udev/rules.d/ && sudo udevadm control --reload-rules && sudo usermod -aG input $USER` then log out and back in."@,
            OpenRapooError::Config(m) => "Configuration error: "@ + m@,
            OpenRapooError::Serde(m) => "Serialization error: "@ + m@,
            OpenRapooError::NotSupported(m) => "Feature not yet supported: "@ + m@,
        }
    }

    /// The text shown for the error (its `Display` text).
    pub fn message(&self) -> (r: String)
        ensures
            r@ == self.spec_message(),
    {
        match self {
            OpenRapooError::DeviceAccess(m) => {
                let mut r = owned("Device access error: ");
                append_str(&mut r, m.as_str());
                r
            },
            OpenRapooError::DeviceNotFound => owned("No Rapoo device found. Is the mouse connected?"),
            OpenRapooError::Io(m) => {
                let mut r = owned("IO error: ");
                append_str(&mut r, m.as_str());
                r
            },
            OpenRapooError::HidParse(m) => {
                let mut r = owned("HID parse error: ");
                append_str(&mut r, m.as_str());
                r
            },
            OpenRapooError::Evdev(m) => {
                let mut r = owned("evdev error: ");
                append_str(&mut r, m.as_str());
                r
            },
            OpenRapooError::PermissionDenied(m) => {
                let mut r = owned("Permission denied: ");
                append_str(&mut r, m.as_str());
                append_str(&mut r, "\n\nTip: run `sudo cp udev/99-openrapoo.rules /etc/udev/rules.d/ && sudo udevadm control --reload-rules && sudo usermod -aG input $USER` then log out and back in.");
                r
            },
            OpenRapooError::Config(m) => {
                let mut r = owned("Configuration error: ");
                append_str(&mut r, m.as_str());
                r
            },
            OpenRapooError::Serde(m) => {
                let mut r = owned("Serialization error: ");
                append_str(&mut r, m.as_str());
                r
            },
            OpenRapooError::NotSupported(m) => {
                let mut r = owned("Feature not yet supported: ");
                append_str(&mut r, m.as_str());
                r
            },
        }
    }
}

} // verus!
