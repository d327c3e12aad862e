//! The ids of the reports and of the strings that the power device knows.

use vstd::prelude::*;

verus! {

pub const STRING_ID_MANUFACTURER: u8 = 0x01;

pub const STRING_ID_PRODUCT: u8 = 0x02;

pub const STRING_ID_SERIAL: u8 = 0x03;

pub const STRING_ID_DEVICECHEMISTRY: u8 = 0x04;

pub const STRING_ID_OEMVENDOR: u8 = 0x05;

/// Feature only.
pub const REPORT_ID_IDENTIFICATION: u8 = 0x01;

/// Feature only.
pub const REPORT_ID_RECHARGEABLE: u8 = 0x06;

/// Input or feature.
pub const REPORT_ID_PRESENTSTATUS: u8 = 0x07;

pub const REPORT_ID_REMAINTIMELIMIT: u8 = 0x08;

pub const REPORT_ID_MANUFACTUREDATE: u8 = 0x09;

/// Feature only.
pub const REPORT_ID_CONFIGVOLTAGE: u8 = 0x0A;

/// Feature.
pub const REPORT_ID_VOLTAGE: u8 = 0x0B;

/// Input or feature.
pub const REPORT_ID_REMAININGCAPACITY: u8 = 0x0C;

pub const REPORT_ID_RUNTIMETOEMPTY: u8 = 0x0D;

/// Feature only: the capacity at the last full charge.
pub const REPORT_ID_FULLCHRGECAPACITY: u8 = 0x0E;

pub const REPORT_ID_WARNCAPACITYLIMIT: u8 = 0x0F;

pub const REPORT_ID_CPCTYGRANULARITY1: u8 = 0x10;

pub const REPORT_ID_REMNCAPACITYLIMIT: u8 = 0x11;

/// Feature only.
pub const REPORT_ID_DELAYBE4SHUTDOWN: u8 = 0x12;

pub const REPORT_ID_DELAYBE4REBOOT: u8 = 0x13;

/// Input or feature.
pub const REPORT_ID_AUDIBLEALARMCTRL: u8 = 0x14;

/// Feature only.
pub const REPORT_ID_CURRENT: u8 = 0x15;

pub const REPORT_ID_CAPACITYMODE: u8 = 0x16;

pub const REPORT_ID_DESIGNCAPACITY: u8 = 0x17;

pub const REPORT_ID_CPCTYGRANULARITY2: u8 = 0x18;

pub const REPORT_ID_AVERAGETIME2FULL: u8 = 0x1A;

pub const REPORT_ID_AVERAGECURRENT: u8 = 0x1B;

pub const REPORT_ID_AVERAGETIME2EMPTY: u8 = 0x1C;

/// Feature.
pub const REPORT_ID_IDEVICECHEMISTRY: u8 = 0x1F;

/// Feature.
pub const REPORT_ID_IOEMINFORMATION: u8 = 0x20;

/// The value of the capacity-mode report that says capacities are given in
/// percent.
pub const CAPACITY_MODE_PERCENT: u8 = 2;

} // verus!
