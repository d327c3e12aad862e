//! Identity that every backend reports to the host.

use vstd::prelude::*;

verus! {

/// Product id of the emulated device.
pub const NUT_HID_PID: u16 = 0xFEED;

/// Vendor id of the emulated device.
pub const NUT_HID_VID: u16 = 0xDEED;

/// Version number of the emulated device, in binary-coded decimal.
pub const NUT_HID_VERSION: u16 = 0x0101;

pub const NUT_HID_MANUFACTURER: &'static str = "MLC Microline Consulting AB";

pub const NUT_HID_SERIALNUMBER: &'static str = "0";

pub const NUT_HID_PRODUCT: &'static str = "nut hid device";

} // verus!
