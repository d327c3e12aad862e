//! The backend that plays back a script of capacity readings.

use crate::backend::{queue_view, Action, ActionView, Device, Event, EventView, ReportView};
use crate::constants::{
    NUT_HID_MANUFACTURER, NUT_HID_PID, NUT_HID_PRODUCT, NUT_HID_SERIALNUMBER, NUT_HID_VERSION,
    NUT_HID_VID,
};
use crate::device::{DeviceConfig, DeviceData, DeviceDataView};
use crate::reports::{
    CAPACITY_MODE_PERCENT, REPORT_ID_AUDIBLEALARMCTRL, REPORT_ID_AVERAGETIME2EMPTY,
    REPORT_ID_AVERAGETIME2FULL, REPORT_ID_CAPACITYMODE, REPORT_ID_CONFIGVOLTAGE,
    REPORT_ID_CPCTYGRANULARITY1, REPORT_ID_CPCTYGRANULARITY2, REPORT_ID_DELAYBE4REBOOT,
    REPORT_ID_DELAYBE4SHUTDOWN, REPORT_ID_DESIGNCAPACITY, REPORT_ID_FULLCHRGECAPACITY,
    REPORT_ID_IDENTIFICATION, REPORT_ID_IDEVICECHEMISTRY, REPORT_ID_IOEMINFORMATION,
    REPORT_ID_MANUFACTUREDATE, REPORT_ID_PRESENTSTATUS, REPORT_ID_RECHARGEABLE,
    REPORT_ID_REMAININGCAPACITY, REPORT_ID_REMAINTIMELIMIT, REPORT_ID_REMNCAPACITYLIMIT,
    REPORT_ID_RUNTIMETOEMPTY, REPORT_ID_VOLTAGE, REPORT_ID_WARNCAPACITYLIMIT,
    STRING_ID_DEVICECHEMISTRY, STRING_ID_MANUFACTURER, STRING_ID_OEMVENDOR, STRING_ID_PRODUCT,
    STRING_ID_SERIAL,
};
use crate::status::{struct_to_vec, Identification, Packed, PresentStatus};
use crate::wire::table_to_vec;
use std::collections::HashMap;
use std::collections::VecDeque;
use vstd::prelude::*;

verus! {

broadcast use vstd::std_specs::hash::group_hash_axioms;

/// The report descriptor of the power device that the scripted backend
/// presents.
pub const UPS_REPORT_DESCRIPTOR: [u8; 396] = [
    0x05, 0x84,                         // USAGE_PAGE (Power Device)
    0x09, 0x04,                         // USAGE (UPS)
    0xA1, 0x01,                         // COLLECTION (Application)
    0x09, 0x24,                         // USAGE (PowerSummary)
    0xA1, 0x02,                         // COLLECTION (Logical)
    0x75, 0x08,                         // REPORT_SIZE (8)
    0x95, 0x01,                         // REPORT_COUNT (1)
    0x15, 0x00,                         // LOGICAL_MINIMUM (0)
    0x26, 0xFF, 0x00,                   // LOGICAL_MAXIMUM (255)
    0x85, REPORT_ID_IDENTIFICATION,    // REPORT_ID
    0x09, 0xFE,                         // USAGE (iProduct)
    0x79, STRING_ID_PRODUCT,            // STRING_INDEX
    0xB1, 0x23,                         // FEATURE (Constant, Variable, Absolute, Nonvolatile)
    0x09, 0xFF,                         // USAGE (iSerialNumber)
    0x79, STRING_ID_SERIAL,             // STRING_INDEX
    0xB1, 0x23,                         // FEATURE (Constant, Variable, Absolute, Nonvolatile)
    0x09, 0xFD,                         // USAGE (iManufacturer)
    0x79, STRING_ID_MANUFACTURER,       // STRING_INDEX
    0xB1, 0x23,                         // FEATURE (Constant, Variable, Absolute, Nonvolatile)
    0x05, 0x85,                         // USAGE_PAGE (Battery System)
    0x85, REPORT_ID_RECHARGEABLE,  // REPORT_ID
    0x09, 0x8B,                         // USAGE (Rechargeable)
    0xB1, 0x23,                         // FEATURE (Constant, Variable, Absolute, Nonvolatile)
    0x85, REPORT_ID_IDEVICECHEMISTRY,   // REPORT_ID
    0x09, 0x89,                         // USAGE (iDeviceChemistry)
    0x79, STRING_ID_DEVICECHEMISTRY,    // STRING_INDEX
    0xB1, 0x23,                         // FEATURE (Constant, Variable, Absolute, Nonvolatile)
    0x85, REPORT_ID_IOEMINFORMATION,    // REPORT_ID
    0x09, 0x8F,                         // USAGE (iOEMInformation)
    0x79, STRING_ID_OEMVENDOR,          // STRING_INDEX
    0xB1, 0x23,                         // FEATURE (Constant, Variable, Absolute, Nonvolatile)
    0x85, REPORT_ID_CAPACITYMODE,       // REPORT_ID
    0x09, 0x2C,                         // USAGE (CapacityMode)
    0xB1, 0x23,                         // FEATURE (Constant, Variable, Absolute, Nonvolatile)
    0x85, REPORT_ID_CPCTYGRANULARITY1,  // REPORT_ID
    0x09, 0x8D,                         // USAGE (CapacityGranularity1)
    0x26, 0x64, 0x00,                   // LOGICAL_MAXIMUM (100)
    0xB1, 0x22,                         // FEATURE (Data, Variable, Absolute, Nonvolatile)
    0x85, REPORT_ID_CPCTYGRANULARITY2,  // REPORT_ID
    0x09, 0x8E,                         // USAGE (CapacityGranularity2)
    0xB1, 0x23,                         // FEATURE (Constant, Variable, Absolute, Nonvolatile)
    0x85, REPORT_ID_FULLCHRGECAPACITY,  // REPORT_ID
    0x09, 0x67,                         // USAGE (FullChargeCapacity)
    0xB1, 0x83,                         // FEATURE (Constant, Variable, Absolute, Volatile)
    0x85, REPORT_ID_DESIGNCAPACITY,     // REPORT_ID
    0x09, 0x83,                         // USAGE (DesignCapacity)
    0xB1, 0x83,                         // FEATURE (Constant, Variable, Absolute, Volatile)
    0x85, REPORT_ID_REMAININGCAPACITY,  // REPORT_ID
    0x09, 0x66,                         // USAGE (RemainingCapacity)
    0x81, 0xA3,                         // INPUT (Constant, Variable, Absolute)
    0x09, 0x66,                         // USAGE (RemainingCapacity)
    0xB1, 0xA3,                         // FEATURE (Constant, Variable, Absolute, Volatile)
    0x85, REPORT_ID_WARNCAPACITYLIMIT,  // REPORT_ID
    0x09, 0x8C,                         // USAGE (WarningCapacityLimit)
    0xB1, 0xA2,                         // FEATURE (Data, Variable, Absolute, Volatile)
    0x85, REPORT_ID_REMNCAPACITYLIMIT,  // REPORT_ID
    0x09, 0x29,                         // USAGE (RemainingCapacityLimit)
    0xB1, 0xA2,                         // FEATURE (Data, Variable, Absolute, Volatile)
    0x85, REPORT_ID_MANUFACTUREDATE,    // REPORT_ID
    0x09, 0x85,                         // USAGE (ManufacturerDate)
    0x75, 0x10,                         // REPORT_SIZE (16)
    0x27, 0xFF, 0xFF, 0x00, 0x00,       // LOGICAL_MAXIMUM (65534)
    0xB1, 0xA3,                         // FEATURE (Constant, Variable, Absolute, Volatile)
    0x85, REPORT_ID_AVERAGETIME2FULL,   // REPORT_ID
    0x09, 0x6A,                         // USAGE (AverageTimeToFull)
    0x27, 0xFF, 0xFF, 0x00, 0x00,       // LOGICAL_MAXIMUM (65534)
    0x66, 0x01, 0x10,                   // UNIT (Seconds)
    0x55, 0x00,                         // UNIT_EXPONENT (0)
    0xB1, 0xA3,                         // FEATURE (Constant, Variable, Absolute, Volatile)
    0x85, REPORT_ID_AVERAGETIME2EMPTY,  // REPORT_ID
    0x09, 0x69,                         // USAGE (AverageTimeToEmpty)
    0x81, 0xA3,                         // INPUT (Constant, Variable, Absolute)
    0x09, 0x69,                         // USAGE (AverageTimeToEmpty)
    0xB1, 0xA3,                         // FEATURE (Constant, Variable, Absolute, Volatile)
    0x85, REPORT_ID_RUNTIMETOEMPTY,     // REPORT_ID
    0x09, 0x68,                         // USAGE (RunTimeToEmpty)
    0x81, 0xA3,                         // INPUT (Constant, Variable, Absolute)
    0x09, 0x68,                         // USAGE (RunTimeToEmpty)
    0xB1, 0xA3,                         // FEATURE (Constant, Variable, Absolute, Volatile)
    0x85, REPORT_ID_REMAINTIMELIMIT,    // REPORT_ID
    0x09, 0x2A,                         // USAGE (RemainingTimeLimit)
    0x75, 0x10,                         // REPORT_SIZE (16)
    0x27, 0x64, 0x05, 0x00, 0x00,       // LOGICAL_MAXIMUM (1380)
    0x16, 0x78, 0x00,                   // LOGICAL_MINIMUM (120)
    0x81, 0x22,                         // INPUT (Data, Variable, Absolute)
    0x09, 0x2A,                         // USAGE (RemainingTimeLimit)
    0xB1, 0xA2,                         // FEATURE (Data, Variable, Absolute, Volatile)
    0x05, 0x84,                         // USAGE_PAGE (Power Device)
    0x85, REPORT_ID_DELAYBE4SHUTDOWN,   // REPORT_ID
    0x09, 0x57,                         // USAGE (DelayBeforeShutdown)
    0x16, 0x00, 0x80,                   // LOGICAL_MINIMUM (-32768)
    0x27, 0xFF, 0x7F, 0x00, 0x00,       // LOGICAL_MAXIMUM (32767)
    0xB1, 0xA2,                         // FEATURE (Data, Variable, Absolute, Volatile)
    0x85, REPORT_ID_DELAYBE4REBOOT,     // REPORT_ID
    0x09, 0x55,                         // USAGE (DelayBeforeReboot)
    0xB1, 0xA2,                         // FEATURE (Data, Variable, Absolute, Volatile)
    0x85, REPORT_ID_CONFIGVOLTAGE,      // REPORT_ID
    0x09, 0x40,                         // USAGE (ConfigVoltage)
    0x15, 0x00,                         // LOGICAL_MINIMUM (0)
    0x27, 0xFF, 0xFF, 0x00, 0x00,       // LOGICAL_MAXIMUM (65535)
    0x67, 0x21, 0xD1, 0xF0, 0x00,       // UNIT (Centivolts)
    0x55, 0x05,                         // UNIT_EXPONENT (5)
    0xB1, 0x23,                         // FEATURE (Constant, Variable, Absolute, Nonvolatile)
    0x85, REPORT_ID_VOLTAGE,            // REPORT_ID
    0x09, 0x30,                         // USAGE (Voltage)
    0x81, 0xA3,                         // INPUT (Constant, Variable, Absolute)
    0x09, 0x30,                         // USAGE (Voltage)
    0xB1, 0xA3,                         // FEATURE (Constant, Variable, Absolute, Volatile)
    0x85, REPORT_ID_AUDIBLEALARMCTRL,   // REPORT_ID
    0x09, 0x5A,                         // USAGE (AudibleAlarmControl)
    0x75, 0x08,                         // REPORT_SIZE (8)
    0x15, 0x01,                         // LOGICAL_MINIMUM (1)
    0x25, 0x03,                         // LOGICAL_MAXIMUM (3)
    0x65, 0x00,                         // UNIT (0)
    0x55, 0x00,                         // UNIT_EXPONENT (0)
    0x81, 0x22,                         // INPUT (Data, Variable, Absolute)
    0x09, 0x5A,                         // USAGE (AudibleAlarmControl)
    0xB1, 0xA2,                         // FEATURE (Data, Variable, Absolute, Volatile)
    0x09, 0x02,                         // USAGE (PresentStatus)
    0xA1, 0x02,                         // COLLECTION (Logical)
    0x85, REPORT_ID_PRESENTSTATUS,      // REPORT_ID
    0x05, 0x85,                         // USAGE_PAGE (Battery System)
    0x09, 0x44,                         // USAGE (Charging)
    0x75, 0x01,                         // REPORT_SIZE (1)
    0x15, 0x00,                         // LOGICAL_MINIMUM (0)
    0x25, 0x01,                         // LOGICAL_MAXIMUM (1)
    0x81, 0xA3,                         // INPUT (Constant, Variable, Absolute)
    0x09, 0x44,                         // USAGE (Charging)
    0xB1, 0xA3,                         // FEATURE (Constant, Variable, Absolute, Volatile)
    0x09, 0x45,                         // USAGE (Discharging)
    0x81, 0xA3,                         // INPUT (Constant, Variable, Absolute)
    0x09, 0x45,                         // USAGE (Discharging)
    0xB1, 0xA3,                         // FEATURE (Constant, Variable, Absolute, Volatile)
    0x09, 0xD0,                         // USAGE (ACPresent)
    0x81, 0xA3,                         // INPUT (Constant, Variable, Absolute)
    0x09, 0xD0,                         // USAGE (ACPresent)
    0xB1, 0xA3,                         // FEATURE (Constant, Variable, Absolute, Volatile)
    0x09, 0xD1,                         // USAGE (BatteryPresent)
    0x81, 0xA3,                         // INPUT (Constant, Variable, Absolute)
    0x09, 0xD1,                         // USAGE (BatteryPresent)
    0xB1, 0xA3,                         // FEATURE (Constant, Variable, Absolute, Volatile)
    0x09, 0x42,                         // USAGE (BelowRemainingCapacityLimit)
    0x81, 0xA3,                         // INPUT (Constant, Variable, Absolute)
    0x09, 0x42,                         // USAGE (BelowRemainingCapacityLimit)
    0xB1, 0xA3,                         // FEATURE (Constant, Variable, Absolute, Volatile)
    0x09, 0x43,                         // USAGE (RemainingTimeLimitExpired)
    0x81, 0xA2,                         // INPUT (Data, Variable, Absolute)
    0x09, 0x43,                         // USAGE (RemainingTimeLimitExpired)
    0xB1, 0xA2,                         // FEATURE (Data, Variable, Absolute, Volatile)
    0x09, 0x4B,                         // USAGE (NeedReplacement)
    0x81, 0xA3,                         // INPUT (Constant, Variable, Absolute)
    0x09, 0x4B,                         // USAGE (NeedReplacement)
    0xB1, 0xA3,                         // FEATURE (Constant, Variable, Absolute, Volatile)
    0x09, 0xDB,                         // USAGE (VoltageNotRegulated)
    0x81, 0xA3,                         // INPUT (Constant, Variable, Absolute)
    0x09, 0xDB,                         // USAGE (VoltageNotRegulated)
    0xB1, 0xA3,                         // FEATURE (Constant, Variable, Absolute, Volatile)
    0x09, 0x46,                         // USAGE (FullyCharged)
    0x81, 0xA3,                         // INPUT (Constant, Variable, Absolute)
    0x09, 0x46,                         // USAGE (FullyCharged)
    0xB1, 0xA3,                         // FEATURE (Constant, Variable, Absolute, Volatile)
    0x09, 0x47,                         // USAGE (FullyDischarged)
    0x81, 0xA3,                         // INPUT (Constant, Variable, Absolute)
    0x09, 0x47,                         // USAGE (FullyDischarged)
    0xB1, 0xA3,                         // FEATURE (Constant, Variable, Absolute, Volatile)
    0x05, 0x84,                         // USAGE_PAGE (Power Device)
    0x09, 0x68,                         // USAGE (ShutdownRequested)
    0x81, 0xA2,                         // INPUT (Data, Variable, Absolute)
    0x09, 0x68,                         // USAGE (ShutdownRequested)
    0xB1, 0xA2,                         // FEATURE (Data, Variable, Absolute, Volatile)
    0x09, 0x69,                         // USAGE (ShutdownImminent)
    0x81, 0xA3,                         // INPUT (Constant, Variable, Absolute)
    0x09, 0x69,                         // USAGE (ShutdownImminent)
    0xB1, 0xA3,                         // FEATURE (Constant, Variable, Absolute, Volatile)
    0x09, 0x73,                         // USAGE (CommunicationLost)
    0x81, 0xA3,                         // INPUT (Constant, Variable, Absolute)
    0x09, 0x73,                         // USAGE (CommunicationLost)
    0xB1, 0xA3,                         // FEATURE (Constant, Variable, Absolute, Volatile)
    0x09, 0x65,                         // USAGE (Overload)
    0x81, 0xA3,                         // INPUT (Constant, Variable, Absolute)
    0x09, 0x65,                         // USAGE (Overload)
    0xB1, 0xA3,                         // FEATURE (Constant, Variable, Absolute, Volatile)
    0x95, 0x02,                         // REPORT_COUNT (2)
    0x81, 0x01,                         // INPUT (Constant, Array, Absolute)
    0xB1, 0x01,                         // FEATURE (Constant, Array, Absolute, Nonvolatile)
    0xC0,                               // END_COLLECTION
    0xC0,                               // END_COLLECTION
    0xC0,                               // END_COLLECTION
];

/// The remaining capacity at the start, in percent.
pub const INITIAL_REMAINING_CAPACITY: u8 = 90;

/// The runtime to empty at the start, in minutes.
pub const INITIAL_RUNTIME_TO_EMPTY: u8 = 121;

/// The capacity readings that the backend plays back, in percent.
pub const CAPACITY_SCRIPT: [u8; 6] = [80, 70, 60, 50, 60, 70];

/// The scripted backend: the device it presents and the readings of the
/// script that are still to come.
pub struct DummyDevice {
    device: DeviceData,
    pending: VecDeque<(u8, Vec<u8>)>,
    sleeping: bool,
}

/// The mathematical content of a [`DummyDevice`].
#[verifier::ext_equal]
pub struct DummyDeviceView {
    pub data: DeviceDataView,
    /// The readings that are still to come, the next one first.
    pub pending: Seq<ReportView>,
    /// Whether a read is under way and waits for the poll interval.
    pub sleeping: bool,
}

impl View for DummyDevice {
    type V = DummyDeviceView;

    closed spec fn view(&self) -> DummyDeviceView {
        DummyDeviceView {
            data: self.device@,
            pending: queue_view(self.pending@),
            sleeping: self.sleeping,
        }
    }
}

/// The script as reports: each reading is a report of the remaining
/// capacity.
pub open spec fn script_reports() -> Seq<ReportView> {
    Seq::new(6, |i: int| (REPORT_ID_REMAININGCAPACITY, seq![CAPACITY_SCRIPT[i]]))
}

/// The reports that the scripted backend holds at the start: who it is, that
/// it runs on mains with a battery present, and its capacities and runtime.
pub open spec fn dummy_initial_reports() -> Map<u8, Seq<u8>> {
    Map::<u8, Seq<u8>>::empty().insert(
        REPORT_ID_IDENTIFICATION,
        seq![STRING_ID_PRODUCT, STRING_ID_MANUFACTURER, STRING_ID_SERIAL],
    ).insert(
        REPORT_ID_PRESENTSTATUS,
        (PresentStatus { ac_present: true, battery_present: true, ..PresentStatus::cleared() }).wire(),
    ).insert(REPORT_ID_CAPACITYMODE, seq![CAPACITY_MODE_PERCENT]).insert(
        REPORT_ID_DESIGNCAPACITY,
        seq![100u8],
    ).insert(REPORT_ID_FULLCHRGECAPACITY, seq![100u8]).insert(
        REPORT_ID_REMAININGCAPACITY,
        seq![INITIAL_REMAINING_CAPACITY],
    ).insert(REPORT_ID_RUNTIMETOEMPTY, seq![INITIAL_RUNTIME_TO_EMPTY])
}

/// The device that the scripted backend presents at the start.
pub open spec fn dummy_initial_data() -> DeviceDataView {
    DeviceDataView {
        reports: dummy_initial_reports(),
        strings: Map::empty(),
        vendor_id: NUT_HID_VID,
        product_id: NUT_HID_PID,
        version: NUT_HID_VERSION,
        manufacturer: NUT_HID_MANUFACTURER@,
        serial_number: NUT_HID_SERIALNUMBER@,
        product: NUT_HID_PRODUCT@,
        report_descriptor: UPS_REPORT_DESCRIPTOR@,
    }
}

impl DummyDeviceView {
    /// What holds of every state that the backend reaches: the readings
    /// still to come are the end of the script.
    pub open spec fn wf(self) -> bool {
        exists|played: int| 1 <= played <= 6 && self.pending == #[trigger] script_reports().skip(played)
    }

    /// What the backend waits for.
    pub open spec fn awaited(self) -> ActionView {
        if self.sleeping {
            ActionView::Sleep
        } else {
            ActionView::Deliver(None)
        }
    }

    /// A read begins: every reading is delayed by the poll interval.
    pub open spec fn begin(self) -> (DummyDeviceView, ActionView) {
        (DummyDeviceView { sleeping: true, ..self }, ActionView::Sleep)
    }

    /// The readings from which the next one is taken: those still to come,
    /// or the whole script again once it has been played to its end.
    pub open spec fn refilled(self) -> Seq<ReportView> {
        if self.pending.len() > 0 {
            self.pending
        } else {
            script_reports()
        }
    }

    /// The poll interval has passed: the next reading of the script is
    /// delivered.  Any other event, and any event while no read is under
    /// way, changes nothing.
    pub open spec fn step(self, event: EventView) -> (DummyDeviceView, ActionView) {
        if self.sleeping && event is Slept {
            (
                DummyDeviceView { pending: self.refilled().drop_first(), sleeping: false, ..self },
                ActionView::Deliver(Some(self.refilled()[0])),
            )
        } else {
            (self, self.awaited())
        }
    }
}

impl DummyDevice {
    /// How many readings are still to come before the script starts again.
    pub fn pending_len(&self) -> (len: usize)
        ensures
            len == self@.pending.len(),
    {
        self.pending.len()
    }

    /// The device, to store a report in it.
    pub fn data_mut(&mut self) -> (data: &mut DeviceData)
        ensures
            data@ == old(self)@.data,
            final(self)@ == (DummyDeviceView { data: final(data)@, ..old(self)@ }),
    {
        &mut self.device
    }

    /// Puts the script into the queue.
    fn refill(&mut self)
        requires
            old(self)@.pending.len() == 0,
        ensures
            final(self)@ == (DummyDeviceView { pending: script_reports(), ..old(self)@ }),
    {
        let mut i: usize = 0;
        while i < 6
            invariant
                i <= 6,
                self@.data == old(self)@.data,
                self@.sleeping == old(self)@.sleeping,
                self@.pending == script_reports().take(i as int),
            decreases 6 - i,
        {
            let ghost before = self@.pending;
            let reading = vec![CAPACITY_SCRIPT[i]];
            assert(reading@ =~= seq![CAPACITY_SCRIPT[i as int]]);
            self.pending.push_back((REPORT_ID_REMAININGCAPACITY, reading));
            assert(self@.pending =~= before.push(
                (REPORT_ID_REMAININGCAPACITY, seq![CAPACITY_SCRIPT[i as int]]),
            ));
            assert(script_reports()[i as int] == (
                REPORT_ID_REMAININGCAPACITY,
                seq![CAPACITY_SCRIPT[i as int]],
            ));
            assert(self@.pending =~= script_reports().take(i + 1));
            i = i + 1;
        }
        assert(script_reports().take(6) =~= script_reports());
    }
}

impl Device for DummyDevice {
    open spec fn data_of(state: DummyDeviceView) -> DeviceDataView {
        state.data
    }

    open spec fn begun(state: DummyDeviceView) -> (DummyDeviceView, ActionView) {
        state.begin()
    }

    open spec fn stepped(state: DummyDeviceView, event: EventView) -> (
        DummyDeviceView,
        ActionView,
    ) {
        state.step(event)
    }

    fn data(&self) -> (data: &DeviceData) {
        &self.device
    }

    fn read(&mut self) -> (action: Action) {
        self.sleeping = true;
        Action::Sleep
    }

    fn read_step(&mut self, event: Event) -> (action: Action) {
        match event {
            Event::Slept => {
                if self.sleeping {
                    if self.pending.len() == 0 {
                        self.refill();
                    }
                    let report = self.pending.pop_front();
                    self.sleeping = false;
                    assert(self@ =~= old(self)@.step(event@).0);
                    Action::Deliver(report)
                } else {
                    Action::Deliver(None)
                }
            },
            _ => {
                if self.sleeping {
                    Action::Sleep
                } else {
                    Action::Deliver(None)
                }
            },
        }
    }
}

/// The scripted backend at the start.  It presents the same device whatever
/// the configuration says.
pub fn new_dummy_device(_device_config: DeviceConfig) -> (device: DummyDevice)
    ensures
        device@ == (DummyDeviceView {
            data: dummy_initial_data(),
            pending: Seq::empty(),
            sleeping: false,
        }),
{
    let mut device = DeviceData {
        reports: HashMap::new(),
        strings: HashMap::new(),
        vendor_id: NUT_HID_VID,
        product_id: NUT_HID_PID,
        version: NUT_HID_VERSION,
        manufacturer: String::from_str(NUT_HID_MANUFACTURER),
        serial_number: String::from_str(NUT_HID_SERIALNUMBER),
        product: String::from_str(NUT_HID_PRODUCT),
        report_descriptor: table_to_vec(&UPS_REPORT_DESCRIPTOR),
    };

    let identification = Identification {
        i_product: STRING_ID_PRODUCT,
        i_serial: STRING_ID_SERIAL,
        i_manufacturer: STRING_ID_MANUFACTURER,
    };
    device.reports.insert(REPORT_ID_IDENTIFICATION, struct_to_vec(identification));

    let mut status = PresentStatus::default();
    status.ac_present = true;
    status.battery_present = true;
    device.reports.insert(REPORT_ID_PRESENTSTATUS, struct_to_vec(status));

    let mode = vec![CAPACITY_MODE_PERCENT];
    assert(mode@ =~= seq![CAPACITY_MODE_PERCENT]);
    device.reports.insert(REPORT_ID_CAPACITYMODE, mode);
    let design = vec![100u8];
    assert(design@ =~= seq![100u8]);
    device.reports.insert(REPORT_ID_DESIGNCAPACITY, design);
    let full = vec![100u8];
    assert(full@ =~= seq![100u8]);
    device.reports.insert(REPORT_ID_FULLCHRGECAPACITY, full);
    let remaining = vec![INITIAL_REMAINING_CAPACITY];
    assert(remaining@ =~= seq![INITIAL_REMAINING_CAPACITY]);
    device.reports.insert(REPORT_ID_REMAININGCAPACITY, remaining);
    let runtime = vec![INITIAL_RUNTIME_TO_EMPTY];
    assert(runtime@ =~= seq![INITIAL_RUNTIME_TO_EMPTY]);
    device.reports.insert(REPORT_ID_RUNTIMETOEMPTY, runtime);
    assert(device@.reports =~= dummy_initial_reports());
    assert(device@.strings =~= Map::<u8, Seq<char>>::empty());
    assert(device@ =~= dummy_initial_data());

    let device = DummyDevice { device, pending: VecDeque::new(), sleeping: false };
    assert(device@ =~= (DummyDeviceView {
        data: dummy_initial_data(),
        pending: Seq::empty(),
        sleeping: false,
    }));
    device
}

/// The readings come in the order of the script and start again after the
/// last: a read that finds `played` readings of the round delivered delivers
/// the next one, and after the sixth the round starts again.
pub proof fn lemma_script_loops(state: DummyDeviceView, played: int)
    requires
        0 <= played < 6,
        state.refilled() == script_reports().skip(played),
    ensures
        state.begin().0.step(EventView::Slept).1 == ActionView::Deliver(
            Some((REPORT_ID_REMAININGCAPACITY, seq![CAPACITY_SCRIPT[played]])),
        ),
        state.begin().0.step(EventView::Slept).0.pending == script_reports().skip(played + 1),
        played == 5 ==> state.begin().0.step(EventView::Slept).0.refilled() == script_reports(),
{
    let queue = script_reports().skip(played);
    assert(queue[0] == script_reports()[played]);
    assert(queue.drop_first() =~= script_reports().skip(played + 1));
}

/// At the start the backend has played nothing of its script.
pub proof fn lemma_script_at_the_start()
    ensures
        (DummyDeviceView {
            data: dummy_initial_data(),
            pending: Seq::empty(),
            sleeping: false,
        }).wf(),
{
    assert(script_reports().skip(6) =~= Seq::<ReportView>::empty());
}

/// The backend keeps to its script: after every read, the readings still to
/// come are the end of the script.
pub proof fn lemma_script_is_kept(state: DummyDeviceView, event: EventView)
    requires
        state.wf(),
    ensures
        state.begin().0.wf(),
        state.step(event).0.wf(),
        state.step(event).0.pending.len() <= 6,
{
    let played = choose|played: int|
        1 <= played <= 6 && state.pending == #[trigger] script_reports().skip(played);
    if state.sleeping && event is Slept {
        if state.pending.len() > 0 {
            assert(state.pending.drop_first() =~= script_reports().skip(played + 1));
        } else {
            assert(script_reports().drop_first() =~= script_reports().skip(1));
        }
    }
}

} // verus!
