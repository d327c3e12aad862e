//! The backend that polls a server of the network UPS protocol.
//!
//! The backend keeps a queue of reports.  A read takes the front of the
//! queue; where the queue is empty it waits for the poll interval, opens a
//! session if none is open, asks the server for the variables the reports are
//! made of, and fills the queue again.  A fault ends the session and empties
//! the queue, and the read is answered with a report of lost communication.

use crate::backend::{
    queue_view, reply_view, Action, ActionView, Device, Event, EventView, QueryError,
    QueryErrorView, Reply, ReplyView, ReportView, Variable,
};
use crate::constants::{
    NUT_HID_MANUFACTURER, NUT_HID_PID, NUT_HID_PRODUCT, NUT_HID_SERIALNUMBER, NUT_HID_VERSION,
    NUT_HID_VID,
};
use crate::device::{DeviceConfig, DeviceConfigView, DeviceData, DeviceDataView};
use crate::reports::{
    CAPACITY_MODE_PERCENT, REPORT_ID_CAPACITYMODE, REPORT_ID_DESIGNCAPACITY,
    REPORT_ID_FULLCHRGECAPACITY, REPORT_ID_IDENTIFICATION, REPORT_ID_MANUFACTUREDATE,
    REPORT_ID_PRESENTSTATUS, REPORT_ID_REMAININGCAPACITY, REPORT_ID_REMNCAPACITYLIMIT,
    REPORT_ID_RUNTIMETOEMPTY, STRING_ID_MANUFACTURER, STRING_ID_PRODUCT, STRING_ID_SERIAL,
};
use crate::status::{struct_to_vec, Identification, Packed, PresentStatus};
use crate::text::{contains, decimal, decimal_up_to, has_infix, parse_decimal, to_chars};
use crate::wire::table_to_vec;
use std::collections::HashMap;
use std::collections::VecDeque;
use vstd::prelude::*;

verus! {

broadcast use vstd::std_specs::hash::group_hash_axioms;

/// The report descriptor of the power device that the network backend
/// presents.
pub const UPS_REPORT_DESCRIPTOR: [u8; 237] = [
    0x05, 0x84,                         // USAGE_PAGE (Power Device)
    0x09, 0x04,                         // USAGE (UPS)
    0xA1, 0x01,                         // COLLECTION (Application)
    0x09, 0x24,                         // USAGE (PowerSummary)
    0xA1, 0x02,                         // COLLECTION (Logical)
    0x75, 0x08,                         // REPORT_SIZE (8)
    0x95, 0x01,                         // REPORT_COUNT (1)
    0x15, 0x00,                         // LOGICAL_MINIMUM (0)
    0x26, 0xFF, 0x00,                   // LOGICAL_MAXIMUM (255)
    0x85, REPORT_ID_IDENTIFICATION,    // REPORT_ID
    0x09, 0xFE,                         // USAGE (iProduct)
    0x79, STRING_ID_PRODUCT,            // STRING_INDEX
    0xB1, 0x23,                         // FEATURE (Constant, Variable, Absolute, Nonvolatile)
    0x09, 0xFF,                         // USAGE (iSerialNumber)
    0x79, STRING_ID_SERIAL,             // STRING_INDEX
    0xB1, 0x23,                         // FEATURE (Constant, Variable, Absolute, Nonvolatile)
    0x09, 0xFD,                         // USAGE (iManufacturer)
    0x79, STRING_ID_MANUFACTURER,       // STRING_INDEX
    0xB1, 0x23,                         // FEATURE (Constant, Variable, Absolute, Nonvolatile)
    0x05, 0x85,                         // USAGE_PAGE (Battery System)
    0x85, REPORT_ID_CAPACITYMODE,       // REPORT_ID
    0x09, 0x2C,                         // USAGE (CapacityMode)
    0xB1, 0x23,                         // FEATURE (Constant, Variable, Absolute, Nonvolatile)
    0x85, REPORT_ID_FULLCHRGECAPACITY,  // REPORT_ID
    0x09, 0x67,                         // USAGE (FullChargeCapacity)
    0xB1, 0x83,                         // FEATURE (Constant, Variable, Absolute, Volatile)
    0x85, REPORT_ID_DESIGNCAPACITY,     // REPORT_ID
    0x09, 0x83,                         // USAGE (DesignCapacity)
    0xB1, 0x83,                         // FEATURE (Constant, Variable, Absolute, Volatile)
    0x85, REPORT_ID_REMAININGCAPACITY,  // REPORT_ID
    0x09, 0x66,                         // USAGE (RemainingCapacity)
    0x81, 0xA3,                         // INPUT (Constant, Variable, Absolute)
    0x09, 0x66,                         // USAGE (RemainingCapacity)
    0xB1, 0xA3,                         // FEATURE (Constant, Variable, Absolute, Volatile)
    0x85, REPORT_ID_REMNCAPACITYLIMIT,  // REPORT_ID
    0x09, 0x29,                         // USAGE (RemainingCapacityLimit)
    0xB1, 0xA2,                         // FEATURE (Data, Variable, Absolute, Volatile)
    0x85, REPORT_ID_MANUFACTUREDATE,    // REPORT_ID
    0x09, 0x85,                         // USAGE (ManufacturerDate)
    0x75, 0x10,                         // REPORT_SIZE (16)
    0x27, 0xFF, 0xFF, 0x00, 0x00,       // LOGICAL_MAXIMUM (65534)
    0xB1, 0xA3,                         // FEATURE (Constant, Variable, Absolute, Volatile)
    0x85, REPORT_ID_RUNTIMETOEMPTY,     // REPORT_ID
    0x09, 0x68,                         // USAGE (RunTimeToEmpty)
    0x81, 0xA3,                         // INPUT (Constant, Variable, Absolute)
    0x09, 0x68,                         // USAGE (RunTimeToEmpty)
    0xB1, 0xA3,                         // FEATURE (Constant, Variable, Absolute, Volatile)
    0x05, 0x84,                         // USAGE_PAGE (Power Device)
    0x09, 0x02,                         // USAGE (PresentStatus)
    0xA1, 0x02,                         // COLLECTION (Logical)
    0x85, REPORT_ID_PRESENTSTATUS,      // REPORT_ID
    0x05, 0x85,                         // USAGE_PAGE (Battery System)
    0x09, 0x44,                         // USAGE (Charging)
    0x75, 0x01,                         // REPORT_SIZE (1)
    0x15, 0x00,                         // LOGICAL_MINIMUM (0)
    0x25, 0x01,                         // LOGICAL_MAXIMUM (1)
    0x81, 0xA3,                         // INPUT (Constant, Variable, Absolute)
    0x09, 0x44,                         // USAGE (Charging)
    0xB1, 0xA3,                         // FEATURE (Constant, Variable, Absolute, Volatile)
    0x09, 0x45,                         // USAGE (Discharging)
    0x81, 0xA3,                         // INPUT (Constant, Variable, Absolute)
    0x09, 0x45,                         // USAGE (Discharging)
    0xB1, 0xA3,                         // FEATURE (Constant, Variable, Absolute, Volatile)
    0x09, 0xD0,                         // USAGE (ACPresent)
    0x81, 0xA3,                         // INPUT (Constant, Variable, Absolute)
    0x09, 0xD0,                         // USAGE (ACPresent)
    0xB1, 0xA3,                         // FEATURE (Constant, Variable, Absolute, Volatile)
    0x09, 0xD1,                         // USAGE (BatteryPresent)
    0x81, 0xA3,                         // INPUT (Constant, Variable, Absolute)
    0x09, 0xD1,                         // USAGE (BatteryPresent)
    0xB1, 0xA3,                         // FEATURE (Constant, Variable, Absolute, Volatile)
    0x09, 0x42,                         // USAGE (BelowRemainingCapacityLimit)
    0x81, 0xA3,                         // INPUT (Constant, Variable, Absolute)
    0x09, 0x42,                         // USAGE (BelowRemainingCapacityLimit)
    0xB1, 0xA3,                         // FEATURE (Constant, Variable, Absolute, Volatile)
    0x09, 0x43,                         // USAGE (RemainingTimeLimitExpired)
    0x81, 0xA2,                         // INPUT (Data, Variable, Absolute)
    0x09, 0x43,                         // USAGE (RemainingTimeLimitExpired)
    0xB1, 0xA2,                         // FEATURE (Data, Variable, Absolute, Volatile)
    0x09, 0x4B,                         // USAGE (NeedReplacement)
    0x81, 0xA3,                         // INPUT (Constant, Variable, Absolute)
    0x09, 0x4B,                         // USAGE (NeedReplacement)
    0xB1, 0xA3,                         // FEATURE (Constant, Variable, Absolute, Volatile)
    0x09, 0xDB,                         // USAGE (VoltageNotRegulated)
    0x81, 0xA3,                         // INPUT (Constant, Variable, Absolute)
    0x09, 0xDB,                         // USAGE (VoltageNotRegulated)
    0xB1, 0xA3,                         // FEATURE (Constant, Variable, Absolute, Volatile)
    0x09, 0x46,                         // USAGE (FullyCharged)
    0x81, 0xA3,                         // INPUT (Constant, Variable, Absolute)
    0x09, 0x46,                         // USAGE (FullyCharged)
    0xB1, 0xA3,                         // FEATURE (Constant, Variable, Absolute, Volatile)
    0x09, 0x47,                         // USAGE (FullyDischarged)
    0x81, 0xA3,                         // INPUT (Constant, Variable, Absolute)
    0x09, 0x47,                         // USAGE (FullyDischarged)
    0xB1, 0xA3,                         // FEATURE (Constant, Variable, Absolute, Volatile)
    0x05, 0x84,                         // USAGE_PAGE (Power Device)
    0x09, 0x68,                         // USAGE (ShutdownRequested)
    0x81, 0xA2,                         // INPUT (Data, Variable, Absolute)
    0x09, 0x68,                         // USAGE (ShutdownRequested)
    0xB1, 0xA2,                         // FEATURE (Data, Variable, Absolute, Volatile)
    0x09, 0x69,                         // USAGE (ShutdownImminent)
    0x81, 0xA3,                         // INPUT (Constant, Variable, Absolute)
    0x09, 0x69,                         // USAGE (ShutdownImminent)
    0xB1, 0xA3,                         // FEATURE (Constant, Variable, Absolute, Volatile)
    0x09, 0x73,                         // USAGE (CommunicationLost)
    0x81, 0xA3,                         // INPUT (Constant, Variable, Absolute)
    0x09, 0x73,                         // USAGE (CommunicationLost)
    0xB1, 0xA3,                         // FEATURE (Constant, Variable, Absolute, Volatile)
    0x09, 0x65,                         // USAGE (Overload)
    0x81, 0xA3,                         // INPUT (Constant, Variable, Absolute)
    0x09, 0x65,                         // USAGE (Overload)
    0xB1, 0xA3,                         // FEATURE (Constant, Variable, Absolute, Volatile)
    0x95, 0x02,                         // REPORT_COUNT (2)
    0x81, 0x01,                         // INPUT (Constant, Array, Absolute)
    0xB1, 0x01,                         // FEATURE (Constant, Array, Absolute, Nonvolatile)
    0xC0,                               // END_COLLECTION
    0xC0,                               // END_COLLECTION
    0xC0,                               // END_COLLECTION
];

/// The largest runtime, in seconds, that is less than 256 whole minutes.
pub const RUNTIME_SECONDS_MAX: u64 = 15359;

/// Why a poll cycle was given up.
#[derive(Debug, Clone, Copy, PartialEq, Eq, Structural)]
pub enum PollError {
    /// The server answered a query with an error other than that the
    /// variable is not supported.
    Protocol,
    /// The session failed.
    Connection,
}

/// Where a read stands.
#[derive(Debug, Clone, Copy, PartialEq, Eq, Structural)]
pub enum Phase {
    /// No read is under way.
    Idle,
    /// The poll interval is being waited for.
    Sleeping,
    /// A session is being opened.
    Connecting,
    /// The server has been asked for the variable.
    Querying(Variable),
    /// The session is being closed after a fault.
    Closing,
}

/// What the network backend remembers from one read to the next.
pub struct NutState {
    pending: VecDeque<(u8, Vec<u8>)>,
    connection: bool,
    name: String,
    phase: Phase,
    ups_status: String,
}

/// The mathematical content of a [`NutState`].
#[verifier::ext_equal]
pub struct NutStateView {
    /// The reports that wait to be read, the next one first.
    pub pending: Seq<ReportView>,
    /// Whether a session is open.
    pub connected: bool,
    /// The name of the power supply that the backend reports on.
    pub name: Seq<char>,
    pub phase: Phase,
    /// The status text of the cycle under way, once it is known.
    pub ups_status: Seq<char>,
}

impl View for NutState {
    type V = NutStateView;

    closed spec fn view(&self) -> NutStateView {
        NutStateView {
            pending: queue_view(self.pending@),
            connected: self.connection,
            name: self.name@,
            phase: self.phase,
            ups_status: self.ups_status@,
        }
    }
}

/// The text of a reply, `None` where the power supply does not have the
/// variable, or the fault that the reply stands for.
pub open spec fn spec_get_str(reply: ReplyView) -> Result<Option<Seq<char>>, PollError> {
    match reply {
        Ok(text) => Ok(Some(text)),
        Err(QueryErrorView::VarNotSupported) => Ok(None),
        Err(QueryErrorView::Generic(message)) => if has_infix(message, "VAR-NOT-SUPPORTED"@) {
            Ok(None)
        } else {
            Err(PollError::Protocol)
        },
        Err(QueryErrorView::Protocol) => Err(PollError::Protocol),
        Err(QueryErrorView::Connection) => Err(PollError::Connection),
    }
}

/// The content of a text that was read, that is missing, or that could not be
/// read.
pub open spec fn reading_view(reading: Result<Option<String>, PollError>) -> Result<
    Option<Seq<char>>,
    PollError,
> {
    match reading {
        Ok(Some(text)) => Ok(Some(text@)),
        Ok(None) => Ok(None),
        Err(e) => Err(e),
    }
}

/// The number below 256 that a text writes in decimal.
pub open spec fn spec_parse_u8(text: Seq<char>) -> Option<u8> {
    match decimal_up_to(text, 255) {
        Some(n) => Some(n as u8),
        None => None,
    }
}

/// The number below 256 that a reply holds.  A text that writes no such
/// number counts as no value.
pub open spec fn spec_get_u8(reply: ReplyView) -> Result<Option<u8>, PollError> {
    match spec_get_str(reply) {
        Ok(Some(text)) => Ok(spec_parse_u8(text)),
        Ok(None) => Ok(None),
        Err(e) => Err(e),
    }
}

/// The whole minutes of a runtime that a text gives in seconds, where they
/// are fewer than 256.
pub open spec fn spec_runtime_minutes(text: Seq<char>) -> Option<u8> {
    match decimal(text) {
        Some(seconds) => if seconds / 60 <= 255 {
            Some((seconds / 60) as u8)
        } else {
            None
        },
        None => None,
    }
}

/// The whole minutes of the runtime that a reply gives in seconds.
pub open spec fn spec_get_runtime(reply: ReplyView) -> Result<Option<u8>, PollError> {
    match spec_get_str(reply) {
        Ok(Some(text)) => Ok(spec_runtime_minutes(text)),
        Ok(None) => Ok(None),
        Err(e) => Err(e),
    }
}

/// The text that stands for a value that may be missing.
pub open spec fn text_or_empty(text: Option<Seq<char>>) -> Seq<char> {
    match text {
        Some(t) => t,
        None => Seq::empty(),
    }
}

/// The variable that is asked for after `variable`, if any.
pub open spec fn spec_next_variable(variable: Variable) -> Option<Variable> {
    match variable {
        Variable::BatteryCharge => Some(Variable::BatteryChargeLow),
        Variable::BatteryChargeLow => Some(Variable::BatteryRuntime),
        Variable::BatteryRuntime => Some(Variable::UpsStatus),
        Variable::UpsStatus => Some(Variable::BatteryChargerStatus),
        Variable::BatteryChargerStatus => None,
    }
}

/// The report that says that communication is lost.
pub open spec fn spec_lost_connection_report() -> ReportView {
    (REPORT_ID_PRESENTSTATUS, PresentStatus::lost().wire())
}

/// The port number that a session is opened to: the low sixteen bits of the
/// configured port.
pub open spec fn spec_port(port: u32) -> u16 {
    (port % 65536) as u16
}

/// A queue with one more report at its end, where there is a value to
/// report.
pub open spec fn with_value(pending: Seq<ReportView>, id: u8, value: Option<u8>) -> Seq<
    ReportView,
> {
    match value {
        Some(v) => pending.push((id, seq![v])),
        None => pending,
    }
}

impl NutStateView {
    /// The state of a backend that has not read anything yet.
    pub open spec fn initial() -> NutStateView {
        NutStateView {
            pending: Seq::empty(),
            connected: false,
            name: Seq::empty(),
            phase: Phase::Idle,
            ups_status: Seq::empty(),
        }
    }

    /// What holds of every state that the backend reaches: the queue never
    /// holds more than the four reports of one cycle, it is empty whenever
    /// the backend turns to the network, a variable is asked for only while
    /// a session is open, and a status text is kept only until the status of
    /// the charger is known.
    pub open spec fn wf(self) -> bool {
        &&& self.phase != Phase::Querying(Variable::BatteryChargerStatus)
            ==> self.ups_status.len() == 0
        &&& match self.phase {
            Phase::Idle => self.pending.len() <= 4,
            Phase::Sleeping => self.pending.len() == 0,
            Phase::Connecting => self.pending.len() == 0 && !self.connected,
            Phase::Querying(Variable::BatteryCharge) => self.pending.len() == 0 && self.connected,
            Phase::Querying(Variable::BatteryChargeLow) => self.pending.len() <= 1
                && self.connected,
            Phase::Querying(Variable::BatteryRuntime) => self.pending.len() <= 2
                && self.connected,
            Phase::Querying(Variable::UpsStatus) => self.pending.len() <= 3 && self.connected,
            Phase::Querying(Variable::BatteryChargerStatus) => self.pending.len() <= 3
                && self.connected,
            Phase::Closing => self.pending.len() == 0 && !self.connected,
        }
    }

    /// What the backend waits for: the action that it asked for last and
    /// whose outcome it has not had yet.  While no read is under way it
    /// waits for nothing and has nothing to deliver.
    pub open spec fn awaited(self, config: DeviceConfigView) -> ActionView {
        match self.phase {
            Phase::Idle => ActionView::Deliver(None),
            Phase::Sleeping => ActionView::Sleep,
            Phase::Connecting => ActionView::Connect {
                host: config.host,
                port: spec_port(config.port),
            },
            Phase::Querying(variable) => ActionView::Query { ups: self.name, variable },
            Phase::Closing => ActionView::Close,
        }
    }

    /// The backend after it has turned to `phase`, and what it then waits
    /// for.
    pub open spec fn turn(self, config: DeviceConfigView, phase: Phase) -> (
        NutStateView,
        ActionView,
    ) {
        let next = NutStateView { phase, ..self };
        (next, next.awaited(config))
    }

    /// The backend after a fault: the session counts as lost, the queue is
    /// empty, and the session is to be closed.
    pub open spec fn fail(self) -> (NutStateView, ActionView) {
        (
            NutStateView {
                pending: Seq::empty(),
                connected: false,
                phase: Phase::Closing,
                ups_status: Seq::empty(),
                ..self
            },
            ActionView::Close,
        )
    }

    /// The backend after it has delivered the front of a queue that is not
    /// empty.
    pub open spec fn deliver_front(self, queue: Seq<ReportView>) -> (NutStateView, ActionView) {
        (
            NutStateView {
                pending: queue.drop_first(),
                phase: Phase::Idle,
                ups_status: Seq::empty(),
                ..self
            },
            ActionView::Deliver(Some(queue[0])),
        )
    }

    /// The backend after it has delivered the report of lost communication.
    pub open spec fn deliver_lost(self) -> (NutStateView, ActionView) {
        (
            NutStateView { phase: Phase::Idle, ..self },
            ActionView::Deliver(Some(spec_lost_connection_report())),
        )
    }

    /// A read begins.  It takes the front of the queue.  Where the queue is
    /// empty, the poll interval is waited for first.  A read that is under
    /// way already goes on.
    pub open spec fn begin(self, config: DeviceConfigView) -> (NutStateView, ActionView) {
        if self.phase != Phase::Idle {
            (self, self.awaited(config))
        } else if self.pending.len() > 0 {
            self.deliver_front(self.pending)
        } else {
            self.turn(config, Phase::Sleeping)
        }
    }

    /// The answer to the query of `variable` has come.  A fault ends the
    /// cycle.  Otherwise the value, where there is one, becomes a report at
    /// the end of the queue, and the next variable is asked for; after the
    /// last one the present status joins the queue and the front of the
    /// queue is delivered.
    pub open spec fn update(self, config: DeviceConfigView, variable: Variable, reply: ReplyView)
        -> (NutStateView, ActionView) {
        match variable {
            Variable::BatteryCharge => match spec_get_u8(reply) {
                Ok(value) => NutStateView {
                    pending: with_value(self.pending, REPORT_ID_REMAININGCAPACITY, value),
                    ..self
                }.turn(config, Phase::Querying(Variable::BatteryChargeLow)),
                Err(_) => self.fail(),
            },
            Variable::BatteryChargeLow => match spec_get_u8(reply) {
                Ok(value) => NutStateView {
                    pending: with_value(self.pending, REPORT_ID_REMNCAPACITYLIMIT, value),
                    ..self
                }.turn(config, Phase::Querying(Variable::BatteryRuntime)),
                Err(_) => self.fail(),
            },
            Variable::BatteryRuntime => match spec_get_runtime(reply) {
                Ok(value) => NutStateView {
                    pending: with_value(self.pending, REPORT_ID_RUNTIMETOEMPTY, value),
                    ..self
                }.turn(config, Phase::Querying(Variable::UpsStatus)),
                Err(_) => self.fail(),
            },
            Variable::UpsStatus => match spec_get_str(reply) {
                Ok(text) => NutStateView { ups_status: text_or_empty(text), ..self }.turn(
                    config,
                    Phase::Querying(Variable::BatteryChargerStatus),
                ),
                Err(_) => self.fail(),
            },
            Variable::BatteryChargerStatus => match spec_get_str(reply) {
                Ok(text) => {
                    let status = PresentStatus::spec_from_status(
                        self.ups_status,
                        text_or_empty(text),
                    );
                    self.deliver_front(self.pending.push((REPORT_ID_PRESENTSTATUS, status.wire())))
                },
                Err(_) => self.fail(),
            },
        }
    }

    /// The caller has done what the backend waited for, and this came of it.
    /// An event that the backend does not wait for changes nothing.
    pub open spec fn step(self, config: DeviceConfigView, event: EventView) -> (
        NutStateView,
        ActionView,
    ) {
        match (self.phase, event) {
            (Phase::Sleeping, EventView::Slept) => if self.connected {
                self.turn(config, Phase::Querying(Variable::BatteryCharge))
            } else {
                self.turn(config, Phase::Connecting)
            },
            (Phase::Connecting, EventView::Connected(names)) => if names.len() > 0 {
                NutStateView { connected: true, name: names[0], ..self }.turn(
                    config,
                    Phase::Querying(Variable::BatteryCharge),
                )
            } else {
                self.fail()
            },
            (Phase::Connecting, EventView::ConnectFailed) => self.deliver_lost(),
            (Phase::Querying(variable), EventView::Reply(reply)) => self.update(
                config,
                variable,
                reply,
            ),
            (Phase::Closing, EventView::Closed) => self.deliver_lost(),
            _ => (self, self.awaited(config)),
        }
    }
}

impl NutState {
    /// The state of a backend that has not read anything yet.
    fn new() -> (state: NutState)
        ensures
            state@ == NutStateView::initial(),
    {
        let state = NutState {
            pending: VecDeque::new(),
            connection: false,
            name: String::new(),
            phase: Phase::Idle,
            ups_status: String::new(),
        };
        assert(state@ =~= NutStateView::initial());
        state
    }

    /// Whether a session is open.
    pub fn is_connected(&self) -> (connected: bool)
        ensures
            connected == self@.connected,
    {
        self.connection
    }

    /// How many reports wait to be read.
    pub fn pending_len(&self) -> (len: usize)
        ensures
            len == self@.pending.len(),
    {
        self.pending.len()
    }

    /// Where the read stands.
    pub fn phase(&self) -> (phase: Phase)
        ensures
            phase == self@.phase,
    {
        self.phase
    }

    /// The text of the server's reply, `None` where the power supply does
    /// not have the variable, or the fault that ends the cycle.
    pub fn get_str(reply: Reply) -> (text: Result<Option<String>, PollError>)
        ensures
            reading_view(text) == spec_get_str(reply_view(reply)),
    {
        match reply {
            Ok(status) => Ok(Some(status)),
            Err(QueryError::VarNotSupported) => Ok(None),
            Err(QueryError::Generic(err)) => {
                let message = to_chars(err.as_str());
                let marker = to_chars("VAR-NOT-SUPPORTED");
                if contains(&message, &marker) {
                    Ok(None)
                } else {
                    Err(PollError::Protocol)
                }
            },
            Err(QueryError::Protocol) => Err(PollError::Protocol),
            Err(QueryError::Connection) => Err(PollError::Connection),
        }
    }

    /// The number below 256 that the server's reply holds.
    pub fn get_u8(reply: Reply) -> (value: Result<Option<u8>, PollError>)
        ensures
            value == spec_get_u8(reply_view(reply)),
    {
        match Self::get_str(reply) {
            Ok(Some(text)) => {
                let chars = to_chars(text.as_str());
                match parse_decimal(&chars, 255) {
                    Some(n) => Ok(Some(n as u8)),
                    None => Ok(None),
                }
            },
            Ok(None) => Ok(None),
            Err(e) => Err(e),
        }
    }

    /// The whole minutes of the runtime that the server's reply gives in
    /// seconds.
    pub fn get_runtime(reply: Reply) -> (value: Result<Option<u8>, PollError>)
        ensures
            value == spec_get_runtime(reply_view(reply)),
    {
        match Self::get_str(reply) {
            Ok(Some(text)) => {
                let chars = to_chars(text.as_str());
                match parse_decimal(&chars, RUNTIME_SECONDS_MAX) {
                    Some(seconds) => Ok(Some((seconds / 60) as u8)),
                    None => Ok(None),
                }
            },
            Ok(None) => Ok(None),
            Err(e) => Err(e),
        }
    }
}

/// The network backend: the device it presents, where its server is, and what
/// it remembers from one read to the next.
pub struct NutDevice {
    device: DeviceData,
    device_config: DeviceConfig,
    state: NutState,
}

/// The mathematical content of a [`NutDevice`].
pub struct NutDeviceView {
    pub data: DeviceDataView,
    pub config: DeviceConfigView,
    pub state: NutStateView,
}

impl View for NutDevice {
    type V = NutDeviceView;

    closed spec fn view(&self) -> NutDeviceView {
        NutDeviceView { data: self.device@, config: self.device_config@, state: self.state@ }
    }
}

impl NutDeviceView {
    /// The backend after a read has begun, and the first thing to do for it.
    pub open spec fn begin(self) -> (NutDeviceView, ActionView) {
        let (state, action) = self.state.begin(self.config);
        (NutDeviceView { state, ..self }, action)
    }

    /// The backend after an event, and the next thing to do.
    pub open spec fn step(self, event: EventView) -> (NutDeviceView, ActionView) {
        let (state, action) = self.state.step(self.config, event);
        (NutDeviceView { state, ..self }, action)
    }
}

/// The reports that the network backend holds before it has heard from the
/// server: who it is, that communication is lost, and that capacities are
/// given in percent of a design capacity and a full-charge capacity of 100.
pub open spec fn nut_initial_reports() -> Map<u8, Seq<u8>> {
    Map::<u8, Seq<u8>>::empty().insert(
        REPORT_ID_IDENTIFICATION,
        seq![STRING_ID_PRODUCT, STRING_ID_MANUFACTURER, STRING_ID_SERIAL],
    ).insert(REPORT_ID_PRESENTSTATUS, PresentStatus::lost().wire()).insert(
        REPORT_ID_CAPACITYMODE,
        seq![CAPACITY_MODE_PERCENT],
    ).insert(REPORT_ID_DESIGNCAPACITY, seq![100u8]).insert(REPORT_ID_FULLCHRGECAPACITY, seq![100u8])
}

/// The device that the network backend presents before it has heard from the
/// server.
pub open spec fn nut_initial_data() -> DeviceDataView {
    DeviceDataView {
        reports: nut_initial_reports(),
        strings: Map::empty(),
        vendor_id: NUT_HID_VID,
        product_id: NUT_HID_PID,
        version: NUT_HID_VERSION,
        manufacturer: NUT_HID_MANUFACTURER@,
        serial_number: NUT_HID_SERIALNUMBER@,
        product: NUT_HID_PRODUCT@,
        report_descriptor: UPS_REPORT_DESCRIPTOR@,
    }
}

/// What is to be done to reach the server of a configuration.
pub fn connect(config: &DeviceConfig) -> (action: Action)
    ensures
        action@ == (ActionView::Connect { host: config@.host, port: spec_port(config@.port) }),
{
    Action::Connect { host: config.host.clone(), port: (config.port % 65536) as u16 }
}

impl NutDevice {
    /// The report that says that communication is lost.
    pub fn lost_connection_report() -> (report: (u8, Vec<u8>))
        ensures
            (report.0, report.1@) == spec_lost_connection_report(),
    {
        let mut status = PresentStatus::default();
        status.communication_lost = true;
        (REPORT_ID_PRESENTSTATUS, struct_to_vec(status))
    }

    /// What the backend remembers from one read to the next.
    pub fn state(&self) -> (state: &NutState)
        ensures
            state@ == self@.state,
    {
        &self.state
    }

    /// Where the server is.
    pub fn config(&self) -> (config: &DeviceConfig)
        ensures
            config@ == self@.config,
    {
        &self.device_config
    }

    /// The device, to store a report in it.
    pub fn data_mut(&mut self) -> (data: &mut DeviceData)
        ensures
            data@ == old(self)@.data,
            final(self)@ == (NutDeviceView { data: final(data)@, ..old(self)@ }),
    {
        &mut self.device
    }

    /// What the backend waits for.
    fn awaited(&self) -> (action: Action)
        ensures
            action@ == self@.state.awaited(self@.config),
    {
        match self.state.phase {
            Phase::Idle => Action::Deliver(None),
            Phase::Sleeping => Action::Sleep,
            Phase::Connecting => connect(&self.device_config),
            Phase::Querying(variable) => Action::Query { ups: self.state.name.clone(), variable },
            Phase::Closing => Action::Close,
        }
    }

    /// Turns to `phase`.
    fn turn(&mut self, phase: Phase) -> (action: Action)
        ensures
            (final(self)@.state, action@) == old(self)@.state.turn(old(self)@.config, phase),
            final(self)@.data == old(self)@.data,
            final(self)@.config == old(self)@.config,
    {
        self.state.phase = phase;
        self.awaited()
    }

    /// Gives the cycle up.
    fn fail(&mut self) -> (action: Action)
        ensures
            (final(self)@.state, action@) == old(self)@.state.fail(),
            final(self)@.data == old(self)@.data,
            final(self)@.config == old(self)@.config,
    {
        self.state.pending.clear();
        self.state.connection = false;
        self.state.phase = Phase::Closing;
        self.state.ups_status = String::new();
        assert(self@.state =~= old(self)@.state.fail().0);
        Action::Close
    }

    /// Ends the read with the front of the queue.
    fn deliver_front(&mut self) -> (action: Action)
        requires
            old(self)@.state.pending.len() > 0,
        ensures
            (final(self)@.state, action@) == old(self)@.state.deliver_front(
                old(self)@.state.pending,
            ),
            final(self)@.data == old(self)@.data,
            final(self)@.config == old(self)@.config,
    {
        let report = self.state.pending.pop_front();
        self.state.phase = Phase::Idle;
        self.state.ups_status = String::new();
        assert(self@.state =~= old(self)@.state.deliver_front(old(self)@.state.pending).0);
        Action::Deliver(report)
    }

    /// Ends the read with the report of lost communication.
    fn deliver_lost(&mut self) -> (action: Action)
        ensures
            (final(self)@.state, action@) == old(self)@.state.deliver_lost(),
            final(self)@.data == old(self)@.data,
            final(self)@.config == old(self)@.config,
    {
        self.state.phase = Phase::Idle;
        Action::Deliver(Some(Self::lost_connection_report()))
    }

    /// Puts the report of a value at the end of the queue, where there is a
    /// value.
    fn push_value(&mut self, id: u8, value: Option<u8>)
        ensures
            final(self)@ == (NutDeviceView {
                state: NutStateView {
                    pending: with_value(old(self)@.state.pending, id, value),
                    ..old(self)@.state
                },
                ..old(self)@
            }),
    {
        if let Some(v) = value {
            let bytes = vec![v];
            assert(bytes@ =~= seq![v]);
            self.state.pending.push_back((id, bytes));
            assert(self@.state.pending =~= with_value(old(self)@.state.pending, id, value));
        }
    }

    /// Takes the server's answer to the query of `variable`.
    fn update(&mut self, variable: Variable, reply: Reply) -> (action: Action)
        ensures
            (final(self)@.state, action@) == old(self)@.state.update(
                old(self)@.config,
                variable,
                reply_view(reply),
            ),
            final(self)@.data == old(self)@.data,
            final(self)@.config == old(self)@.config,
    {
        match variable {
            Variable::BatteryCharge => match NutState::get_u8(reply) {
                Ok(value) => {
                    self.push_value(REPORT_ID_REMAININGCAPACITY, value);
                    self.turn(Phase::Querying(Variable::BatteryChargeLow))
                },
                Err(_) => self.fail(),
            },
            Variable::BatteryChargeLow => match NutState::get_u8(reply) {
                Ok(value) => {
                    self.push_value(REPORT_ID_REMNCAPACITYLIMIT, value);
                    self.turn(Phase::Querying(Variable::BatteryRuntime))
                },
                Err(_) => self.fail(),
            },
            Variable::BatteryRuntime => match NutState::get_runtime(reply) {
                Ok(value) => {
                    self.push_value(REPORT_ID_RUNTIMETOEMPTY, value);
                    self.turn(Phase::Querying(Variable::UpsStatus))
                },
                Err(_) => self.fail(),
            },
            Variable::UpsStatus => match NutState::get_str(reply) {
                Ok(text) => {
                    self.state.ups_status = match text {
                        Some(t) => t,
                        None => String::new(),
                    };
                    self.turn(Phase::Querying(Variable::BatteryChargerStatus))
                },
                Err(_) => self.fail(),
            },
            Variable::BatteryChargerStatus => match NutState::get_str(reply) {
                Ok(text) => {
                    let battery_charger_status = match text {
                        Some(t) => t,
                        None => String::new(),
                    };
                    let present_status = PresentStatus::from_status(
                        self.state.ups_status.as_str(),
                        battery_charger_status.as_str(),
                    );
                    self.state.pending.push_back(
                        (REPORT_ID_PRESENTSTATUS, struct_to_vec(present_status)),
                    );
                    assert(self@.state.pending =~= old(self)@.state.pending.push(
                        (REPORT_ID_PRESENTSTATUS, present_status.wire()),
                    ));
                    self.deliver_front()
                },
                Err(_) => self.fail(),
            },
        }
    }
}

impl Device for NutDevice {
    open spec fn data_of(state: NutDeviceView) -> DeviceDataView {
        state.data
    }

    open spec fn begun(state: NutDeviceView) -> (NutDeviceView, ActionView) {
        state.begin()
    }

    open spec fn stepped(state: NutDeviceView, event: EventView) -> (NutDeviceView, ActionView) {
        state.step(event)
    }

    fn data(&self) -> (data: &DeviceData) {
        &self.device
    }

    fn read(&mut self) -> (action: Action) {
        match self.state.phase {
            Phase::Idle => {
                if self.state.pending.len() > 0 {
                    self.deliver_front()
                } else {
                    self.turn(Phase::Sleeping)
                }
            },
            _ => self.awaited(),
        }
    }

    fn read_step(&mut self, event: Event) -> (action: Action) {
        match (self.state.phase, event) {
            (Phase::Sleeping, Event::Slept) => {
                if self.state.connection {
                    self.turn(Phase::Querying(Variable::BatteryCharge))
                } else {
                    self.turn(Phase::Connecting)
                }
            },
            (Phase::Connecting, Event::Connected(names)) => {
                if names.len() > 0 {
                    self.state.connection = true;
                    self.state.name = names[0].clone();
                    self.turn(Phase::Querying(Variable::BatteryCharge))
                } else {
                    self.fail()
                }
            },
            (Phase::Connecting, Event::ConnectFailed) => self.deliver_lost(),
            (Phase::Querying(variable), Event::Reply(reply)) => self.update(variable, reply),
            (Phase::Closing, Event::Closed) => self.deliver_lost(),
            _ => self.awaited(),
        }
    }
}

/// The network backend for a server, before it has heard from the server.
pub fn new_nut_device(device_config: DeviceConfig) -> (device: NutDevice)
    ensures
        device@ == (NutDeviceView {
            data: nut_initial_data(),
            config: device_config@,
            state: NutStateView::initial(),
        }),
{
    let mut device = DeviceData {
        reports: HashMap::new(),
        strings: HashMap::new(),
        vendor_id: NUT_HID_VID,
        product_id: NUT_HID_PID,
        version: NUT_HID_VERSION,
        manufacturer: String::from_str(NUT_HID_MANUFACTURER),
        serial_number: String::from_str(NUT_HID_SERIALNUMBER),
        product: String::from_str(NUT_HID_PRODUCT),
        report_descriptor: table_to_vec(&UPS_REPORT_DESCRIPTOR),
    };

    let identification = Identification {
        i_product: STRING_ID_PRODUCT,
        i_serial: STRING_ID_SERIAL,
        i_manufacturer: STRING_ID_MANUFACTURER,
    };
    device.reports.insert(REPORT_ID_IDENTIFICATION, struct_to_vec(identification));

    let mut status = PresentStatus::default();
    status.communication_lost = true;
    device.reports.insert(REPORT_ID_PRESENTSTATUS, struct_to_vec(status));

    let mode = vec![CAPACITY_MODE_PERCENT];
    assert(mode@ =~= seq![CAPACITY_MODE_PERCENT]);
    device.reports.insert(REPORT_ID_CAPACITYMODE, mode);
    let design = vec![100u8];
    assert(design@ =~= seq![100u8]);
    device.reports.insert(REPORT_ID_DESIGNCAPACITY, design);
    let full = vec![100u8];
    assert(full@ =~= seq![100u8]);
    device.reports.insert(REPORT_ID_FULLCHRGECAPACITY, full);
    assert(device@.reports =~= nut_initial_reports());
    assert(device@.strings =~= Map::<u8, Seq<char>>::empty());
    assert(device@ =~= nut_initial_data());

    NutDevice { device, device_config, state: NutState::new() }
}

/// The outcome of a read: `None` while it is not over, else what it
/// delivered.
pub type Outcome = Option<Option<ReportView>>;

impl NutStateView {
    /// Whether an event is a failure of the network: no session could be
    /// opened, the server manages no power supply, or a query ended in a
    /// fault.
    pub open spec fn fails(self, event: EventView) -> bool {
        match (self.phase, event) {
            (Phase::Connecting, EventView::ConnectFailed) => true,
            (Phase::Connecting, EventView::Connected(names)) => names.len() == 0,
            (Phase::Querying(_), EventView::Reply(reply)) => spec_get_str(reply) is Err,
            _ => false,
        }
    }

    /// The backend after the caller has done what `action` and the actions
    /// after it asked for, with the outcomes `events` in this order; and what
    /// the read delivered, if the events were enough to end it.
    pub open spec fn feed(self, config: DeviceConfigView, action: ActionView, events: Seq<EventView>)
        -> (NutStateView, Outcome)
        decreases events.len(),
    {
        match action {
            ActionView::Deliver(report) => (self, Some(report)),
            _ => if events.len() == 0 {
                (self, None)
            } else {
                let (next, then) = self.step(config, events[0]);
                next.feed(config, then, events.drop_first())
            },
        }
    }

    /// The backend after a whole read during which the caller's actions had
    /// the outcomes `events`, and what the read delivered.
    pub open spec fn read(self, config: DeviceConfigView, events: Seq<EventView>) -> (
        NutStateView,
        Outcome,
    ) {
        let (begun, action) = self.begin(config);
        begun.feed(config, action, events)
    }

    /// The backend after one read for each of `scripts`, and what the reads
    /// delivered.
    pub open spec fn reads(self, config: DeviceConfigView, scripts: Seq<Seq<EventView>>) -> (
        NutStateView,
        Seq<Outcome>,
    )
        decreases scripts.len(),
    {
        if scripts.len() == 0 {
            (self, Seq::empty())
        } else {
            let (next, outcome) = self.read(config, scripts[0]);
            let (last, outcomes) = next.reads(config, scripts.drop_first());
            (last, seq![outcome] + outcomes)
        }
    }

    /// Whether no session is open and nothing waits to be read or done.
    pub open spec fn disconnected(self) -> bool {
        self.phase == Phase::Idle && !self.connected && self.pending.len() == 0
            && self.ups_status.len() == 0
    }
}

/// The events of a read during which no session could be opened.
pub open spec fn no_connection() -> Seq<EventView> {
    seq![EventView::Slept, EventView::ConnectFailed]
}

/// The events of a cycle in which the server answered the five queries with
/// these replies.
pub open spec fn cycle(
    charge: ReplyView,
    low: ReplyView,
    runtime: ReplyView,
    status: ReplyView,
    charger: ReplyView,
) -> Seq<EventView> {
    seq![
        EventView::Slept,
        EventView::Reply(charge),
        EventView::Reply(low),
        EventView::Reply(runtime),
        EventView::Reply(status),
        EventView::Reply(charger),
    ]
}

/// The value of a reading that is no fault.
pub open spec fn value_of<T>(reading: Result<Option<T>, PollError>) -> Option<T> {
    match reading {
        Ok(value) => value,
        Err(_) => None,
    }
}

/// The reports of a cycle without a fault, in the order in which they are
/// read: one for each of the three values that the server gave, then the
/// present status.
pub open spec fn cycle_reports(
    charge: ReplyView,
    low: ReplyView,
    runtime: ReplyView,
    status: ReplyView,
    charger: ReplyView,
) -> Seq<ReportView> {
    with_value(
        with_value(
            with_value(Seq::empty(), REPORT_ID_REMAININGCAPACITY, value_of(spec_get_u8(charge))),
            REPORT_ID_REMNCAPACITYLIMIT,
            value_of(spec_get_u8(low)),
        ),
        REPORT_ID_RUNTIMETOEMPTY,
        value_of(spec_get_runtime(runtime)),
    ).push(
        (
            REPORT_ID_PRESENTSTATUS,
            PresentStatus::spec_from_status(
                text_or_empty(value_of(spec_get_str(status))),
                text_or_empty(value_of(spec_get_str(charger))),
            ).wire(),
        ),
    )
}

/// The report of lost communication is report 7 with the bytes 0x00 and 0x10:
/// bit 12 of the bitfield, and no other.
pub proof fn lemma_lost_connection_report()
    ensures
        spec_lost_connection_report() == (0x07u8, seq![0x00u8, 0x10u8]),
{
    assert(PresentStatus::lost().wire() =~= seq![0x00u8, 0x10u8]);
}

/// A backend that has not read anything yet is well formed.
pub proof fn lemma_initial_wf()
    ensures
        NutStateView::initial().wf(),
        NutStateView::initial().disconnected(),
{
}

/// The beginning of a read keeps the backend well formed.
pub proof fn lemma_begin_keeps_wf(state: NutStateView, config: DeviceConfigView)
    requires
        state.wf(),
    ensures
        state.begin(config).0.wf(),
        state.begin(config).0.pending.len() <= 4,
{
}

/// Every event keeps the backend well formed: whatever the network does, the
/// queue never holds more than the four reports of one cycle.
pub proof fn lemma_step_keeps_wf(state: NutStateView, config: DeviceConfigView, event: EventView)
    requires
        state.wf(),
    ensures
        state.step(config, event).0.wf(),
        state.step(config, event).0.pending.len() <= 4,
{
}

/// After any failure of the network the queue is empty and no session counts
/// as open; the read ends with the report of lost communication, at once or
/// as soon as the session is closed.
pub proof fn lemma_failure_empties_queue(
    state: NutStateView,
    config: DeviceConfigView,
    event: EventView,
)
    requires
        state.wf(),
        state.fails(event),
    ensures
        state.step(config, event).0.pending.len() == 0,
        !state.step(config, event).0.connected,
        state.step(config, event).1 == ActionView::Deliver(Some(spec_lost_connection_report()))
            || state.step(config, event).1 == ActionView::Close,
        state.step(config, event).0.feed(
            config,
            state.step(config, event).1,
            seq![EventView::Closed],
        ).1 == Some(Some(spec_lost_connection_report())),
        state.step(config, event).0.feed(
            config,
            state.step(config, event).1,
            seq![EventView::Closed],
        ).0.disconnected(),
{
    reveal_with_fuel(NutStateView::feed, 3);
    let (next, action) = state.step(config, event);
    if action == ActionView::Close {
        assert(next.phase == Phase::Closing);
        assert(seq![EventView::Closed][0] == EventView::Closed);
    }
}

/// A read that finds no session open and cannot open one delivers the report
/// of lost communication and leaves the backend as it was.
pub proof fn lemma_no_connection_read(state: NutStateView, config: DeviceConfigView)
    requires
        state.disconnected(),
    ensures
        state.read(config, no_connection()) == (
            state,
            Some(Some(spec_lost_connection_report())),
        ),
{
    reveal_with_fuel(NutStateView::feed, 3);
    let events = no_connection();
    assert(events[0] == EventView::Slept);
    assert(events.drop_first()[0] == EventView::ConnectFailed);
    let (begun, first) = state.begin(config);
    let (connecting, second) = begun.step(config, events[0]);
    let (ended, third) = connecting.step(config, events.drop_first()[0]);
    assert(ended =~= state);
}

/// As long as no session can be opened, every read delivers the report of
/// lost communication, however many reads follow one another, and the queue
/// stays empty.
pub proof fn lemma_reads_without_connection(
    state: NutStateView,
    config: DeviceConfigView,
    scripts: Seq<Seq<EventView>>,
)
    requires
        state.disconnected(),
        forall|i: int| 0 <= i < scripts.len() ==> #[trigger] scripts[i] == no_connection(),
    ensures
        state.reads(config, scripts).0 == state,
        state.reads(config, scripts).1.len() == scripts.len(),
        forall|i: int|
            0 <= i < scripts.len() ==> #[trigger] state.reads(config, scripts).1[i] == Some(
                Some(spec_lost_connection_report()),
            ),
    decreases scripts.len(),
{
    if scripts.len() > 0 {
        assert(scripts[0] == no_connection());
        lemma_no_connection_read(state, config);
        let rest = scripts.drop_first();
        assert forall|i: int| 0 <= i < rest.len() implies #[trigger] rest[i] == no_connection() by {
            assert(rest[i] == scripts[i + 1]);
        }
        lemma_reads_without_connection(state, config, rest);
    }
}

/// Once a session can be opened again, the read that opens it polls the
/// server: where no query ends in a fault, it delivers the first report of
/// the cycle, keeps the others in the queue and leaves the session open.
pub proof fn lemma_read_after_reconnect(
    state: NutStateView,
    config: DeviceConfigView,
    names: Seq<Seq<char>>,
    charge: ReplyView,
    low: ReplyView,
    runtime: ReplyView,
    status: ReplyView,
    charger: ReplyView,
)
    requires
        state.disconnected(),
        names.len() > 0,
        spec_get_str(charge) is Ok,
        spec_get_str(low) is Ok,
        spec_get_str(runtime) is Ok,
        spec_get_str(status) is Ok,
        spec_get_str(charger) is Ok,
    ensures
        ({
            let events = seq![EventView::Slept, EventView::Connected(names)] + cycle(
                charge,
                low,
                runtime,
                status,
                charger,
            ).drop_first();
            let reports = cycle_reports(charge, low, runtime, status, charger);
            state.read(config, events) == (
                NutStateView {
                    pending: reports.drop_first(),
                    connected: true,
                    name: names[0],
                    ..state
                },
                Some(Some(reports[0])),
            )
        }),
{
    reveal_with_fuel(NutStateView::feed, 8);
    let events = seq![EventView::Slept, EventView::Connected(names)] + cycle(
        charge,
        low,
        runtime,
        status,
        charger,
    ).drop_first();
    let e1 = events.drop_first();
    let e2 = e1.drop_first();
    let e3 = e2.drop_first();
    let e4 = e3.drop_first();
    let e5 = e4.drop_first();
    let e6 = e5.drop_first();
    assert(events[0] == EventView::Slept);
    assert(e1[0] == EventView::Connected(names));
    assert(e2[0] == EventView::Reply(charge));
    assert(e3[0] == EventView::Reply(low));
    assert(e4[0] == EventView::Reply(runtime));
    assert(e5[0] == EventView::Reply(status));
    assert(e6[0] == EventView::Reply(charger));
    let reports = cycle_reports(charge, low, runtime, status, charger);
    let (s0, a0) = state.begin(config);
    let (s1, a1) = s0.step(config, events[0]);
    let (s2, a2) = s1.step(config, e1[0]);
    let (s3, a3) = s2.step(config, e2[0]);
    let (s4, a4) = s3.step(config, e3[0]);
    let (s5, a5) = s4.step(config, e4[0]);
    let (s6, a6) = s5.step(config, e5[0]);
    let (s7, a7) = s6.step(config, e6[0]);
    assert(s7 =~= NutStateView {
        pending: reports.drop_first(),
        connected: true,
        name: names[0],
        ..state
    });
}

/// A cycle over an open session in which no query ends in a fault delivers
/// the first of its reports and keeps the others in the queue, whichever of
/// the variables the power supply does not have.
pub proof fn lemma_cycle(
    state: NutStateView,
    config: DeviceConfigView,
    charge: ReplyView,
    low: ReplyView,
    runtime: ReplyView,
    status: ReplyView,
    charger: ReplyView,
)
    requires
        state.phase == Phase::Idle,
        state.connected,
        state.pending.len() == 0,
        state.ups_status.len() == 0,
        spec_get_str(charge) is Ok,
        spec_get_str(low) is Ok,
        spec_get_str(runtime) is Ok,
        spec_get_str(status) is Ok,
        spec_get_str(charger) is Ok,
    ensures
        ({
            let reports = cycle_reports(charge, low, runtime, status, charger);
            state.read(config, cycle(charge, low, runtime, status, charger)) == (
                NutStateView { pending: reports.drop_first(), ..state },
                Some(Some(reports[0])),
            )
        }),
{
    reveal_with_fuel(NutStateView::feed, 7);
    let events = cycle(charge, low, runtime, status, charger);
    let e1 = events.drop_first();
    let e2 = e1.drop_first();
    let e3 = e2.drop_first();
    let e4 = e3.drop_first();
    let e5 = e4.drop_first();
    assert(events[0] == EventView::Slept);
    assert(e1[0] == EventView::Reply(charge));
    assert(e2[0] == EventView::Reply(low));
    assert(e3[0] == EventView::Reply(runtime));
    assert(e4[0] == EventView::Reply(status));
    assert(e5[0] == EventView::Reply(charger));
    let reports = cycle_reports(charge, low, runtime, status, charger);
    let (s0, a0) = state.begin(config);
    let (s1, a1) = s0.step(config, events[0]);
    let (s2, a2) = s1.step(config, e1[0]);
    let (s3, a3) = s2.step(config, e2[0]);
    let (s4, a4) = s3.step(config, e3[0]);
    let (s5, a5) = s4.step(config, e4[0]);
    let (s6, a6) = s5.step(config, e5[0]);
    assert(s6 =~= NutStateView { pending: reports.drop_first(), ..state });
}

/// A variable that the power supply does not have costs its own report and
/// nothing else: the queue and the session stay as they are, and the cycle
/// goes on with the next variable, or ends with the present status where
/// the variable was the last.
pub proof fn lemma_unsupported_variable_is_skipped(
    state: NutStateView,
    config: DeviceConfigView,
    variable: Variable,
    reply: ReplyView,
)
    requires
        state.phase == Phase::Querying(variable),
        spec_get_str(reply) == Ok::<Option<Seq<char>>, PollError>(None),
    ensures
        state.step(config, EventView::Reply(reply)).0.connected == state.connected,
        state.step(config, EventView::Reply(reply)).0.name == state.name,
        match spec_next_variable(variable) {
            Some(next) => {
                &&& state.step(config, EventView::Reply(reply)).0.pending == state.pending
                &&& state.step(config, EventView::Reply(reply)).0.phase == Phase::Querying(next)
                &&& state.step(config, EventView::Reply(reply)).1 == (ActionView::Query {
                    ups: state.name,
                    variable: next,
                })
            },
            None => {
                let queue = state.pending.push(
                    (
                        REPORT_ID_PRESENTSTATUS,
                        PresentStatus::spec_from_status(state.ups_status, Seq::empty()).wire(),
                    ),
                );
                &&& state.step(config, EventView::Reply(reply)).0.pending == queue.drop_first()
                &&& state.step(config, EventView::Reply(reply)).0.phase == Phase::Idle
                &&& state.step(config, EventView::Reply(reply)).1 == ActionView::Deliver(
                    Some(queue[0]),
                )
            },
        },
{
}

} // verus!
