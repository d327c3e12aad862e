//! A battery-backed power supply presented as a HID power device.
//!
//! The crate holds the report store of such a device, the encoding of its
//! present-status bitfield, the backends that produce its reports and the
//! dispatch of the host's requests against them.  Whatever blocks (the network
//! session, the poll interval, the worker thread) is left to the caller: the
//! backends say what to do next and take the outcome back.

pub mod backend;
pub mod backports;
pub mod constants;
pub mod device;
pub mod device_enum;
pub mod driver;
pub mod dummy;
pub mod mini;
pub mod nut;
pub mod properties;
pub mod reports;
pub mod status;
pub mod text;
pub mod wdf;
pub mod wire;

pub use backend::{Action, Device, Event, QueryError, Variable};
pub use device_enum::{DeviceEnum, DeviceEnumView};
pub use device::{
    DeviceConfig, DeviceConfigView, DeviceData, DeviceDataView, DeviceError, StoreError,
};
