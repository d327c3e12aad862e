//! The choice of a backend.

use crate::backend::{Action, ActionView, Device, Event, EventView};
use crate::device::{DeviceConfig, DeviceConfigView, DeviceData, DeviceDataView, DeviceError};
use crate::dummy::{dummy_initial_data, new_dummy_device, DummyDevice, DummyDeviceView};
use crate::mini::{mini_initial_data, new_mini_device, MiniDevice, MiniDeviceView};
use crate::nut::{new_nut_device, nut_initial_data, NutDevice, NutDeviceView, NutStateView};
use crate::text::str_eq;
use vstd::prelude::*;

verus! {

/// One of the backends.
pub enum DeviceEnum {
    NutDevice(NutDevice),
    DummyDevice(DummyDevice),
    MiniDevice(MiniDevice),
}

/// The mathematical content of a [`DeviceEnum`].
pub enum DeviceEnumView {
    NutDevice(NutDeviceView),
    DummyDevice(DummyDeviceView),
    MiniDevice(MiniDeviceView),
}

impl View for DeviceEnum {
    type V = DeviceEnumView;

    open spec fn view(&self) -> DeviceEnumView {
        match self {
            DeviceEnum::NutDevice(device) => DeviceEnumView::NutDevice(device@),
            DeviceEnum::DummyDevice(device) => DeviceEnumView::DummyDevice(device@),
            DeviceEnum::MiniDevice(device) => DeviceEnumView::MiniDevice(device@),
        }
    }
}

impl DeviceEnumView {
    /// The identity and the reports of the device.
    pub open spec fn data(self) -> DeviceDataView {
        match self {
            DeviceEnumView::NutDevice(device) => device.data,
            DeviceEnumView::DummyDevice(device) => device.data,
            DeviceEnumView::MiniDevice(device) => device.data,
        }
    }

    /// The same backend with the device `data`.
    pub open spec fn with_data(self, data: DeviceDataView) -> DeviceEnumView {
        match self {
            DeviceEnumView::NutDevice(device) => DeviceEnumView::NutDevice(
                NutDeviceView { data, ..device },
            ),
            DeviceEnumView::DummyDevice(device) => DeviceEnumView::DummyDevice(
                DummyDeviceView { data, ..device },
            ),
            DeviceEnumView::MiniDevice(device) => DeviceEnumView::MiniDevice(
                MiniDeviceView { data },
            ),
        }
    }

    /// The backend after a read has begun, and the first thing to do for it.
    pub open spec fn begin(self) -> (DeviceEnumView, ActionView) {
        match self {
            DeviceEnumView::NutDevice(device) => (
                DeviceEnumView::NutDevice(device.begin().0),
                device.begin().1,
            ),
            DeviceEnumView::DummyDevice(device) => (
                DeviceEnumView::DummyDevice(device.begin().0),
                device.begin().1,
            ),
            DeviceEnumView::MiniDevice(device) => (self, ActionView::Deliver(None)),
        }
    }

    /// The backend after an event, and the next thing to do.
    pub open spec fn step(self, event: EventView) -> (DeviceEnumView, ActionView) {
        match self {
            DeviceEnumView::NutDevice(device) => (
                DeviceEnumView::NutDevice(device.step(event).0),
                device.step(event).1,
            ),
            DeviceEnumView::DummyDevice(device) => (
                DeviceEnumView::DummyDevice(device.step(event).0),
                device.step(event).1,
            ),
            DeviceEnumView::MiniDevice(device) => (self, ActionView::Deliver(None)),
        }
    }

    /// The backend that a configuration names, as it is when it has just
    /// been made: `nut`, `dummy` or `mini`.  Any other name is an error.
    pub open spec fn from_config(config: DeviceConfigView) -> Result<DeviceEnumView, DeviceError> {
        if config.backend == "nut"@ {
            Ok(
                DeviceEnumView::NutDevice(
                    NutDeviceView {
                        data: nut_initial_data(),
                        config,
                        state: NutStateView::initial(),
                    },
                ),
            )
        } else if config.backend == "dummy"@ {
            Ok(
                DeviceEnumView::DummyDevice(
                    DummyDeviceView {
                        data: dummy_initial_data(),
                        pending: Seq::empty(),
                        sleeping: false,
                    },
                ),
            )
        } else if config.backend == "mini"@ {
            Ok(DeviceEnumView::MiniDevice(MiniDeviceView { data: mini_initial_data() }))
        } else {
            Err(DeviceError::InvalidBackend)
        }
    }
}

/// The content of a backend that may have been made.
pub open spec fn made(r: Result<DeviceEnum, DeviceError>) -> Result<DeviceEnumView, DeviceError> {
    match r {
        Ok(device) => Ok(device@),
        Err(e) => Err(e),
    }
}

impl DeviceEnum {
    /// Makes the backend that the configuration names.
    pub fn from_config(config: DeviceConfig) -> (device: Result<DeviceEnum, DeviceError>)
        ensures
            made(device) == DeviceEnumView::from_config(config@),
    {
        if str_eq(config.backend.as_str(), "nut") {
            Ok(DeviceEnum::NutDevice(new_nut_device(config)))
        } else if str_eq(config.backend.as_str(), "dummy") {
            Ok(DeviceEnum::DummyDevice(new_dummy_device(config)))
        } else if str_eq(config.backend.as_str(), "mini") {
            Ok(DeviceEnum::MiniDevice(new_mini_device()))
        } else {
            Err(DeviceError::InvalidBackend)
        }
    }

    /// The device, to store a report in it.
    pub fn data_mut(&mut self) -> (data: &mut DeviceData)
        ensures
            data@ == old(self)@.data(),
            final(self)@ == old(self)@.with_data(final(data)@),
    {
        match self {
            DeviceEnum::NutDevice(device) => device.data_mut(),
            DeviceEnum::DummyDevice(device) => device.data_mut(),
            DeviceEnum::MiniDevice(device) => device.data_mut(),
        }
    }
}

impl Device for DeviceEnum {
    open spec fn data_of(state: DeviceEnumView) -> DeviceDataView {
        state.data()
    }

    open spec fn begun(state: DeviceEnumView) -> (DeviceEnumView, ActionView) {
        state.begin()
    }

    open spec fn stepped(state: DeviceEnumView, event: EventView) -> (DeviceEnumView, ActionView) {
        state.step(event)
    }

    fn data(&self) -> (data: &DeviceData) {
        match self {
            DeviceEnum::NutDevice(device) => device.data(),
            DeviceEnum::DummyDevice(device) => device.data(),
            DeviceEnum::MiniDevice(device) => device.data(),
        }
    }

    fn read(&mut self) -> (action: Action) {
        match self {
            DeviceEnum::NutDevice(device) => device.read(),
            DeviceEnum::DummyDevice(device) => device.read(),
            DeviceEnum::MiniDevice(device) => device.read(),
        }
    }

    fn read_step(&mut self, event: Event) -> (action: Action) {
        match self {
            DeviceEnum::NutDevice(device) => device.read_step(event),
            DeviceEnum::DummyDevice(device) => device.read_step(event),
            DeviceEnum::MiniDevice(device) => device.read_step(event),
        }
    }
}

} // verus!
