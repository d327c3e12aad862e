//! The static backend: a vendor-defined device with a fixed identity, for
//! tests of the host's side.  It never has a report to read.

use crate::backend::{Action, ActionView, Device, Event, EventView};
use crate::constants::{
    NUT_HID_MANUFACTURER, NUT_HID_PID, NUT_HID_PRODUCT, NUT_HID_SERIALNUMBER, NUT_HID_VERSION,
    NUT_HID_VID,
};
use crate::device::{DeviceData, DeviceDataView};
use crate::status::Packed;
use crate::wire::{serialize_u16, serialize_u32, table_to_vec, u16_le, u32_le};
use std::collections::HashMap;
use vstd::prelude::*;

verus! {

broadcast use vstd::std_specs::hash::group_hash_axioms;

/// The feature report by which the device is controlled.  On the wire its
/// fields follow one another without padding.
#[derive(Debug, Clone, Copy)]
pub struct HidMiniControlInfo {
    pub report_id: u8,
    pub control_code: u8,
    pub dummy1: u32,
    pub dummy2: u32,
}

/// The input report of the device.
#[derive(Debug, Clone, Copy)]
pub struct HidMiniInputReport {
    pub report_id: u8,
    pub data: u8,
}

/// The output report of the device.
#[derive(Debug, Clone, Copy)]
pub struct HidMiniOutputReport {
    pub report_id: u8,
    pub data: u8,
    pub pad1: u16,
    pub pad2: u32,
}

impl Packed for HidMiniControlInfo {
    /// Ten bytes: the report id, the control code and the two 32-bit
    /// fields, each with its lowest byte first.
    open spec fn wire(&self) -> Seq<u8> {
        seq![self.report_id, self.control_code] + u32_le(self.dummy1) + u32_le(self.dummy2)
    }

    fn pack(&self) -> (bytes: Vec<u8>) {
        let mut bytes: Vec<u8> = Vec::new();
        bytes.push(self.report_id);
        bytes.push(self.control_code);
        assert(bytes@ =~= seq![self.report_id, self.control_code]);
        let mut dummy1 = serialize_u32(self.dummy1);
        bytes.append(&mut dummy1);
        let mut dummy2 = serialize_u32(self.dummy2);
        bytes.append(&mut dummy2);
        bytes
    }
}

impl Packed for HidMiniInputReport {
    /// Two bytes: the report id and the data.
    open spec fn wire(&self) -> Seq<u8> {
        seq![self.report_id, self.data]
    }

    fn pack(&self) -> (bytes: Vec<u8>) {
        let mut bytes: Vec<u8> = Vec::new();
        bytes.push(self.report_id);
        bytes.push(self.data);
        assert(bytes@ =~= self.wire());
        bytes
    }
}

impl Packed for HidMiniOutputReport {
    /// Eight bytes: the report id, the data and the two padding fields,
    /// each with its lowest byte first.
    open spec fn wire(&self) -> Seq<u8> {
        seq![self.report_id, self.data] + u16_le(self.pad1) + u32_le(self.pad2)
    }

    fn pack(&self) -> (bytes: Vec<u8>) {
        let mut bytes: Vec<u8> = Vec::new();
        bytes.push(self.report_id);
        bytes.push(self.data);
        assert(bytes@ =~= seq![self.report_id, self.data]);
        let mut pad1 = serialize_u16(self.pad1);
        bytes.append(&mut pad1);
        let mut pad2 = serialize_u32(self.pad2);
        bytes.append(&mut pad2);
        bytes
    }
}

/// The id of the feature report by which the device is controlled.
pub const CONTROL_FEATURE_REPORT_ID: u8 = 0x01;

/// The size of a feature report without its report id, in bytes.
pub const FEATURE_REPORT_SIZE_CB: u16 = 9;

/// The size of an input report without its report id, in bytes.
pub const INPUT_REPORT_SIZE_CB: u16 = 9;

/// The size of an output report without its report id, in bytes.
pub const OUTPUT_REPORT_SIZE_CB: u16 = 9;

/// The report descriptor of the vendor-defined device.  Its three report
/// counts are the sizes above, low byte first.
pub const HID_MINI_REPORT_DESCRIPTOR: [u8; 42] = [
    0x06, 0x00, 0xFF,                 // USAGE_PAGE (Vendor Defined)
    0x09, 0x01,                       // USAGE (Vendor Usage 0x01)
    0xA1, 0x01,                       // COLLECTION (Application)
    0x85, CONTROL_FEATURE_REPORT_ID,  // REPORT_ID
    0x09, 0x01,                       // USAGE (Vendor Usage 0x01)
    0x15, 0x00,                       // LOGICAL_MINIMUM (0)
    0x26, 0xFF, 0x00,                 // LOGICAL_MAXIMUM (255)
    0x75, 0x08,                       // REPORT_SIZE (8)
    0x96, 0x09, 0x00,                 // REPORT_COUNT (9)
    0xB1, 0x00,                       // FEATURE (Data, Array, Absolute)
    0x09, 0x01,                       // USAGE (Vendor Usage 0x01)
    0x75, 0x08,                       // REPORT_SIZE (8)
    0x96, 0x09, 0x00,                 // REPORT_COUNT (9)
    0x81, 0x00,                       // INPUT (Data, Array, Absolute)
    0x09, 0x01,                       // USAGE (Vendor Usage 0x01)
    0x75, 0x08,                       // REPORT_SIZE (8)
    0x96, 0x09, 0x00,                 // REPORT_COUNT (9)
    0x91, 0x00,                       // OUTPUT (Data, Array, Absolute)
    0xC0,                             // END_COLLECTION
];

/// The report counts of the descriptor are the size of the control report
/// less its report id.
pub proof fn lemma_report_sizes(info: HidMiniControlInfo)
    ensures
        info.wire().len() == FEATURE_REPORT_SIZE_CB + 1,
        HID_MINI_REPORT_DESCRIPTOR@[18] == 0x96,
        u16_le(FEATURE_REPORT_SIZE_CB) == seq![
            HID_MINI_REPORT_DESCRIPTOR@[19],
            HID_MINI_REPORT_DESCRIPTOR@[20],
        ],
        HID_MINI_REPORT_DESCRIPTOR@[27] == 0x96,
        u16_le(INPUT_REPORT_SIZE_CB) == seq![
            HID_MINI_REPORT_DESCRIPTOR@[28],
            HID_MINI_REPORT_DESCRIPTOR@[29],
        ],
        HID_MINI_REPORT_DESCRIPTOR@[36] == 0x96,
        u16_le(OUTPUT_REPORT_SIZE_CB) == seq![
            HID_MINI_REPORT_DESCRIPTOR@[37],
            HID_MINI_REPORT_DESCRIPTOR@[38],
        ],
{
}

/// The static backend.
pub struct MiniDevice {
    device: DeviceData,
}

/// The mathematical content of a [`MiniDevice`].
pub struct MiniDeviceView {
    pub data: DeviceDataView,
}

impl View for MiniDevice {
    type V = MiniDeviceView;

    closed spec fn view(&self) -> MiniDeviceView {
        MiniDeviceView { data: self.device@ }
    }
}

/// The device that the static backend presents: it has an identity and a
/// descriptor, and no report.
pub open spec fn mini_initial_data() -> DeviceDataView {
    DeviceDataView {
        reports: Map::empty(),
        strings: Map::empty(),
        vendor_id: NUT_HID_VID,
        product_id: NUT_HID_PID,
        version: NUT_HID_VERSION,
        manufacturer: NUT_HID_MANUFACTURER@,
        serial_number: NUT_HID_SERIALNUMBER@,
        product: NUT_HID_PRODUCT@,
        report_descriptor: HID_MINI_REPORT_DESCRIPTOR@,
    }
}

impl MiniDevice {
    /// The device, to store a report in it.
    pub fn data_mut(&mut self) -> (data: &mut DeviceData)
        ensures
            data@ == old(self)@.data,
            final(self)@ == (MiniDeviceView { data: final(data)@ }),
    {
        &mut self.device
    }
}

impl Device for MiniDevice {
    open spec fn data_of(state: MiniDeviceView) -> DeviceDataView {
        state.data
    }

    /// There is never a report to read.
    open spec fn begun(state: MiniDeviceView) -> (MiniDeviceView, ActionView) {
        (state, ActionView::Deliver(None))
    }

    open spec fn stepped(state: MiniDeviceView, event: EventView) -> (MiniDeviceView, ActionView) {
        (state, ActionView::Deliver(None))
    }

    fn data(&self) -> (data: &DeviceData) {
        &self.device
    }

    fn read(&mut self) -> (action: Action) {
        Action::Deliver(None)
    }

    fn read_step(&mut self, event: Event) -> (action: Action) {
        Action::Deliver(None)
    }
}

/// The static backend.
pub fn new_mini_device() -> (device: MiniDevice)
    ensures
        device@ == (MiniDeviceView { data: mini_initial_data() }),
{
    let device = DeviceData {
        reports: HashMap::new(),
        strings: HashMap::new(),
        vendor_id: NUT_HID_VID,
        product_id: NUT_HID_PID,
        version: NUT_HID_VERSION,
        manufacturer: String::from_str(NUT_HID_MANUFACTURER),
        serial_number: String::from_str(NUT_HID_SERIALNUMBER),
        product: String::from_str(NUT_HID_PRODUCT),
        report_descriptor: table_to_vec(&HID_MINI_REPORT_DESCRIPTOR),
    };
    assert(device@.reports =~= Map::<u8, Seq<u8>>::empty());
    assert(device@.strings =~= Map::<u8, Seq<char>>::empty());
    assert(device@ =~= mini_initial_data());
    MiniDevice { device }
}

} // verus!
