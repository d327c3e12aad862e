//! What a backend and the loop that drives it say to each other.
//!
//! A backend never blocks.  To read a report the caller asks the backend to
//! begin; the backend answers with an [`Action`].  The caller performs it,
//! hands the outcome back as an [`Event`] and gets the next action, until the
//! action is to deliver the outcome of the read.

use crate::device::{DeviceData, DeviceDataView};
use vstd::prelude::*;

verus! {

/// The poll interval: for how many seconds a backend has the caller wait
/// before it turns to its source again.
pub const POLL_INTERVAL_SECONDS: u64 = 2;

/// A report: its id and its bytes.
pub type ReportView = (u8, Seq<u8>);

/// The variables that the network backend asks the server for.
#[derive(Debug, Clone, Copy, PartialEq, Eq, Structural)]
pub enum Variable {
    BatteryCharge,
    BatteryChargeLow,
    BatteryRuntime,
    UpsStatus,
    BatteryChargerStatus,
}

impl Variable {
    /// The name by which the server knows the variable.
    pub open spec fn spec_name(self) -> Seq<char> {
        match self {
            Variable::BatteryCharge => "battery.charge"@,
            Variable::BatteryChargeLow => "battery.charge.low"@,
            Variable::BatteryRuntime => "battery.runtime"@,
            Variable::UpsStatus => "ups.status"@,
            Variable::BatteryChargerStatus => "battery_charger_status"@,
        }
    }

    /// The name by which the server knows the variable.
    pub fn name(&self) -> (name: &'static str)
        ensures
            name@ == self.spec_name(),
    {
        match self {
            Variable::BatteryCharge => "battery.charge",
            Variable::BatteryChargeLow => "battery.charge.low",
            Variable::BatteryRuntime => "battery.runtime",
            Variable::UpsStatus => "ups.status",
            Variable::BatteryChargerStatus => "battery_charger_status",
        }
    }
}

/// Why the server gave no value for a variable.
#[derive(Debug, PartialEq, Eq)]
pub enum QueryError {
    /// The server says that the power supply does not have the variable.
    VarNotSupported,
    /// The server answered with an error that the client does not know; the
    /// text is the server's.
    Generic(String),
    /// The server answered with any other error.
    Protocol,
    /// The session failed.
    Connection,
}

/// The mathematical content of a [`QueryError`].
pub enum QueryErrorView {
    VarNotSupported,
    Generic(Seq<char>),
    Protocol,
    Connection,
}

impl View for QueryError {
    type V = QueryErrorView;

    open spec fn view(&self) -> QueryErrorView {
        match self {
            QueryError::VarNotSupported => QueryErrorView::VarNotSupported,
            QueryError::Generic(text) => QueryErrorView::Generic(text@),
            QueryError::Protocol => QueryErrorView::Protocol,
            QueryError::Connection => QueryErrorView::Connection,
        }
    }
}

/// The server's answer to the query of a variable.
pub type Reply = Result<String, QueryError>;

/// The mathematical content of a [`Reply`].
pub type ReplyView = Result<Seq<char>, QueryErrorView>;

/// The content of a reply.
pub open spec fn reply_view(reply: Reply) -> ReplyView {
    match reply {
        Ok(text) => Ok(text@),
        Err(e) => Err(e@),
    }
}

/// What the caller is to do next.
#[derive(Debug, PartialEq, Eq)]
pub enum Action {
    /// The read is over: this is its outcome.
    Deliver(Option<(u8, Vec<u8>)>),
    /// Wait for the poll interval, then report `Event::Slept`.
    Sleep,
    /// Open a session with the server and list the power supplies it
    /// manages, then report `Event::Connected` with their names, or
    /// `Event::ConnectFailed`.
    Connect { host: String, port: u16 },
    /// Ask the server for a variable of a power supply, then report
    /// `Event::Reply`.
    Query { ups: String, variable: Variable },
    /// Close the session, then report `Event::Closed`.
    Close,
}

/// The mathematical content of an [`Action`].
pub enum ActionView {
    Deliver(Option<ReportView>),
    Sleep,
    Connect { host: Seq<char>, port: u16 },
    Query { ups: Seq<char>, variable: Variable },
    Close,
}

/// The content of a report that may be there.
pub open spec fn report_view(report: Option<(u8, Vec<u8>)>) -> Option<ReportView> {
    match report {
        Some(r) => Some((r.0, r.1@)),
        None => None,
    }
}

impl View for Action {
    type V = ActionView;

    open spec fn view(&self) -> ActionView {
        match self {
            Action::Deliver(report) => ActionView::Deliver(report_view(*report)),
            Action::Sleep => ActionView::Sleep,
            Action::Connect { host, port } => ActionView::Connect { host: host@, port: *port },
            Action::Query { ups, variable } => ActionView::Query { ups: ups@, variable: *variable },
            Action::Close => ActionView::Close,
        }
    }
}

/// What came of the action that the caller performed.
#[derive(Debug, PartialEq, Eq)]
pub enum Event {
    /// The poll interval has passed.
    Slept,
    /// A session is open; these are the names of the power supplies that the
    /// server manages.
    Connected(Vec<String>),
    /// No session could be opened.
    ConnectFailed,
    /// The server's answer to a query.
    Reply(Reply),
    /// The session is closed.
    Closed,
}

/// The mathematical content of an [`Event`].
pub enum EventView {
    Slept,
    Connected(Seq<Seq<char>>),
    ConnectFailed,
    Reply(ReplyView),
    Closed,
}

/// The names in a list of names.
pub open spec fn names_view(names: Seq<String>) -> Seq<Seq<char>> {
    names.map_values(|name: String| name@)
}

impl View for Event {
    type V = EventView;

    open spec fn view(&self) -> EventView {
        match self {
            Event::Slept => EventView::Slept,
            Event::Connected(names) => EventView::Connected(names_view(names@)),
            Event::ConnectFailed => EventView::ConnectFailed,
            Event::Reply(reply) => EventView::Reply(reply_view(*reply)),
            Event::Closed => EventView::Closed,
        }
    }
}

/// The reports of a queue.
pub open spec fn queue_view(queue: Seq<(u8, Vec<u8>)>) -> Seq<ReportView> {
    queue.map_values(|r: (u8, Vec<u8>)| (r.0, r.1@))
}

/// A source of reports.
pub trait Device: View {
    /// The identity and the reports of a device in a given state.
    spec fn data_of(state: Self::V) -> DeviceDataView;

    /// The state in which a read leaves the device once it has begun, and the
    /// first thing to do for it.
    spec fn begun(state: Self::V) -> (Self::V, ActionView);

    /// The state in which an event leaves the device, and the next thing to
    /// do.
    spec fn stepped(state: Self::V, event: EventView) -> (Self::V, ActionView);

    /// The identity and the reports of the device.
    fn data(&self) -> (data: &DeviceData)
        ensures
            data@ == Self::data_of(self@),
    ;

    /// Begins to read a report.
    fn read(&mut self) -> (action: Action)
        ensures
            (final(self)@, action@) == Self::begun(old(self)@),
    ;

    /// Goes on with the read after the caller has done what the last action
    /// asked for.
    fn read_step(&mut self, event: Event) -> (action: Action)
        ensures
            (final(self)@, action@) == Self::stepped(old(self)@, event@),
    ;
}

} // verus!
