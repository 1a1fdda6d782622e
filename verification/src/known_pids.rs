//! Known Rapoo product ids. The NearLink/2.4 GHz receiver exposes several HID
//! interfaces under the same product id.

use vstd::prelude::*;

verus! {

/// MT760 Pro via the NearLink / 2.4 GHz USB receiver.
pub const MT760_PRO_NEARLINK: u16 = 0x186A;
/// MT760 Pro via Bluetooth.
pub const MT760_PRO_BT: u16 = 0x4510;
/// MT760 Pro wired over USB-C.
pub const MT760_PRO_WIRED: u16 = 0x186C;
/// E9050L keyboard via its 2.4 GHz receiver.
pub const E9050L_24G: u16 = 0x1008;
/// E9050L keyboard via Bluetooth.
pub const E9050L_BT: u16 = 0x1009;

} // verus!
