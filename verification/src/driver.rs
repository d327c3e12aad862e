//! The dispatch of the host's requests.
//!
//! Requests that only look at the device or store a report in it are served
//! at once.  A request to read a report may have to wait for the backend:
//! it says what the caller is to do next and is taken up again with what
//! came of it.  The caller hands such requests, one at a time and in the
//! order in which they came, to the one worker of the device.

use crate::backend::{report_view, Action, ActionView, Device, Event, EventView, ReportView};
use crate::device::{DeviceConfig, DeviceConfigView, DeviceData, DeviceDataView, DeviceError};
use crate::device_enum::{DeviceEnum, DeviceEnumView};
use crate::status::Packed;
use crate::text::{encode_utf16, utf16};
use crate::wdf::{copied, Status, WdfMemory, WdfRequest, WdfRequestView};
use crate::wire::{serialize_u16, serialize_u32, u16_le, u16s_le, u16s_to_le, u32_le};
use vstd::prelude::*;
use vstd::slice::{slice_subrange, slice_to_vec};

verus! {

/// What the host asks for.
#[derive(Debug, Clone, Copy, PartialEq, Eq, Structural)]
pub enum IoControl {
    GetDeviceDescriptor,
    GetDeviceAttributes,
    GetReportDescriptor,
    GetString,
    GetIndexedString,
    ReadReport,
    WriteReport,
    GetFeature,
    SetFeature,
    GetInputReport,
    SetOutputReport,
    /// Any control code that the device does not know.
    Unrecognized,
}

/// Who serves a request.
#[derive(Debug, Clone, Copy, PartialEq, Eq, Structural)]
pub enum Route {
    /// The thread that brought the request: it does not have to wait.
    Inline,
    /// The worker of the device: the backend may have to wait for the
    /// network.
    Worker,
}

/// How far a request has come.
#[derive(Debug, PartialEq, Eq)]
pub enum Progress {
    /// The request is served, or refused with a status.
    Done(Result<(), Status>),
    /// The backend waits for the caller to do this.
    Pending(Action),
}

/// The mathematical content of a [`Progress`].
pub enum ProgressView {
    Done(Result<(), Status>),
    Pending(ActionView),
}

impl View for Progress {
    type V = ProgressView;

    open spec fn view(&self) -> ProgressView {
        match self {
            Progress::Done(result) => ProgressView::Done(*result),
            Progress::Pending(action) => ProgressView::Pending(action@),
        }
    }
}

/// The descriptor of the device as a HID device.
#[derive(Debug, Clone, Copy, PartialEq, Eq, Structural)]
pub struct HidDescriptor {
    pub b_length: u8,
    pub b_descriptor_type: u8,
    pub bcd_hid: u16,
    pub b_country: u8,
    pub b_num_descriptors: u8,
    /// The type of the one descriptor that follows: a report descriptor.
    pub b_report_type: u8,
    /// The length of the report descriptor.
    pub w_report_length: u16,
}

/// The attributes of the device.
#[derive(Debug, Clone, Copy, PartialEq, Eq, Structural)]
pub struct HidDeviceAttributes {
    /// The size of the record on the wire.
    pub size: u32,
    pub vendor_id: u16,
    pub product_id: u16,
    pub version_number: u16,
}

/// The size of the device descriptor on the wire.
pub const HID_DESCRIPTOR_SIZE: u8 = 9;

/// The type of a HID descriptor.
pub const HID_DESCRIPTOR_TYPE: u8 = 0x21;

/// The type of a report descriptor.
pub const HID_REPORT_DESCRIPTOR_TYPE: u8 = 0x22;

/// The version of the HID specification that the device follows, in
/// binary-coded decimal.
pub const HID_REVISION: u16 = 0x0100;

/// The size of the device attributes on the wire.
pub const HID_DEVICE_ATTRIBUTES_SIZE: u32 = 32;

impl Packed for HidDescriptor {
    /// Nine bytes without padding, the 16-bit fields with their low byte
    /// first.
    open spec fn wire(&self) -> Seq<u8> {
        seq![self.b_length, self.b_descriptor_type] + u16_le(self.bcd_hid) + seq![
            self.b_country,
            self.b_num_descriptors,
            self.b_report_type,
        ] + u16_le(self.w_report_length)
    }

    fn pack(&self) -> (bytes: Vec<u8>) {
        let mut bytes: Vec<u8> = Vec::new();
        bytes.push(self.b_length);
        bytes.push(self.b_descriptor_type);
        assert(bytes@ =~= seq![self.b_length, self.b_descriptor_type]);
        let mut revision = serialize_u16(self.bcd_hid);
        bytes.append(&mut revision);
        let ghost head = bytes@;
        bytes.push(self.b_country);
        bytes.push(self.b_num_descriptors);
        bytes.push(self.b_report_type);
        assert(bytes@ =~= head + seq![
            self.b_country,
            self.b_num_descriptors,
            self.b_report_type,
        ]);
        let mut length = serialize_u16(self.w_report_length);
        bytes.append(&mut length);
        bytes
    }
}

/// The bytes that are kept free at the end of the device attributes.
pub open spec fn reserved() -> Seq<u8> {
    Seq::new(22, |i: int| 0u8)
}

impl Packed for HidDeviceAttributes {
    /// Thirty-two bytes: the size, the three ids, each with its lowest byte
    /// first, and twenty-two bytes that are zero.
    open spec fn wire(&self) -> Seq<u8> {
        u32_le(self.size) + u16_le(self.vendor_id) + u16_le(self.product_id) + u16_le(
            self.version_number,
        ) + reserved()
    }

    fn pack(&self) -> (bytes: Vec<u8>) {
        let mut bytes = serialize_u32(self.size);
        let mut vendor = serialize_u16(self.vendor_id);
        bytes.append(&mut vendor);
        let mut product = serialize_u16(self.product_id);
        bytes.append(&mut product);
        let mut version = serialize_u16(self.version_number);
        bytes.append(&mut version);
        let ghost head = bytes@;
        let mut i: usize = 0;
        while i < 22
            invariant
                i <= 22,
                bytes@ == head + reserved().take(i as int),
            decreases 22 - i,
        {
            bytes.push(0u8);
            assert(bytes@ =~= head + reserved().take(i + 1));
            i = i + 1;
        }
        assert(reserved().take(22) =~= reserved());
        bytes
    }
}

/// What the dispatcher knows of a device.
pub struct DeviceContext {
    pub hid_device: DeviceEnum,
    pub hid_device_desc: HidDescriptor,
    pub hid_device_attr: HidDeviceAttributes,
}

/// The mathematical content of a [`DeviceContext`].
pub struct DeviceContextView {
    pub hid_device: DeviceEnumView,
    pub hid_device_desc: HidDescriptor,
    pub hid_device_attr: HidDeviceAttributes,
}

impl View for DeviceContext {
    type V = DeviceContextView;

    open spec fn view(&self) -> DeviceContextView {
        DeviceContextView {
            hid_device: self.hid_device@,
            hid_device_desc: self.hid_device_desc,
            hid_device_attr: self.hid_device_attr,
        }
    }
}

/// The device descriptor of a device: one report descriptor follows it, and
/// its length is that of the device's report descriptor, as far as sixteen
/// bits hold it.
pub open spec fn spec_hid_descriptor(data: DeviceDataView) -> HidDescriptor {
    HidDescriptor {
        b_length: HID_DESCRIPTOR_SIZE,
        b_descriptor_type: HID_DESCRIPTOR_TYPE,
        bcd_hid: HID_REVISION,
        b_country: 0,
        b_num_descriptors: 1,
        b_report_type: HID_REPORT_DESCRIPTOR_TYPE,
        w_report_length: (data.report_descriptor.len() % 65536) as u16,
    }
}

/// The attributes of a device.
pub open spec fn spec_hid_attributes(data: DeviceDataView) -> HidDeviceAttributes {
    HidDeviceAttributes {
        size: HID_DEVICE_ATTRIBUTES_SIZE,
        vendor_id: data.vendor_id,
        product_id: data.product_id,
        version_number: data.version,
    }
}

/// What the dispatcher knows of the device that a configuration names, when
/// the device has just been made.
pub open spec fn spec_device_add(config: DeviceConfigView) -> Result<DeviceContextView, Status> {
    match DeviceEnumView::from_config(config) {
        Ok(device) => Ok(
            DeviceContextView {
                hid_device: device,
                hid_device_desc: spec_hid_descriptor(device.data()),
                hid_device_attr: spec_hid_attributes(device.data()),
            },
        ),
        Err(_) => Err(Status::NotSupported),
    }
}

/// The content of a context that may have been made.
pub open spec fn added(r: Result<DeviceContext, Status>) -> Result<DeviceContextView, Status> {
    match r {
        Ok(context) => Ok(context@),
        Err(e) => Err(e),
    }
}

/// Makes the device that a configuration names, with its descriptor and its
/// attributes.  A configuration that names no backend is refused.
pub fn evt_driver_device_add(device_config: DeviceConfig) -> (context: Result<
    DeviceContext,
    Status,
>)
    ensures
        added(context) == spec_device_add(device_config@),
{
    let hid_device = match DeviceEnum::from_config(device_config) {
        Err(_error) => return Err(Status::NotSupported),
        Ok(device) => device,
    };
    let hid_data = hid_device.data();

    let hid_device_desc = HidDescriptor {
        b_length: HID_DESCRIPTOR_SIZE,
        b_descriptor_type: HID_DESCRIPTOR_TYPE,
        bcd_hid: HID_REVISION,
        b_country: 0x00,
        b_num_descriptors: 0x01,
        b_report_type: HID_REPORT_DESCRIPTOR_TYPE,
        w_report_length: (hid_data.report_descriptor.len() % 65536) as u16,
    };

    let hid_device_attr = HidDeviceAttributes {
        size: HID_DEVICE_ATTRIBUTES_SIZE,
        vendor_id: hid_data.vendor_id,
        product_id: hid_data.product_id,
        version_number: hid_data.version,
    };

    Ok(DeviceContext { hid_device, hid_device_desc, hid_device_attr })
}

/// Who serves a request: reading and writing a report is the worker's,
/// everything else is served at once.
pub open spec fn spec_route(io_control: IoControl) -> Route {
    match io_control {
        IoControl::ReadReport | IoControl::WriteReport => Route::Worker,
        _ => Route::Inline,
    }
}

/// Who serves a request.
pub fn evt_io_device_control(io_control: IoControl) -> (route: Route)
    ensures
        route == spec_route(io_control),
{
    match io_control {
        IoControl::ReadReport | IoControl::WriteReport => Route::Worker,
        _ => Route::Inline,
    }
}

/// The report id and the report that came with a request.
pub fn get_report<'a>(memory: &'a WdfMemory) -> (report: Result<(u8, &'a [u8]), Status>)
    ensures
        match report {
            Ok((id, bytes)) => {
                &&& memory@.len() >= 1
                &&& id == memory@[0]
                &&& bytes@ == memory@.subrange(1, memory@.len() as int)
            },
            Err(e) => memory@.len() < 1 && e == Status::InvalidBufferSize,
        },
{
    let buffer = memory.get_buffer();
    let len = buffer.len();
    if len < 1 {
        return Err(Status::InvalidBufferSize);
    }
    Ok((buffer[0], slice_subrange(buffer, 1, len)))
}

/// The string id and the language id that a request holds: the low and the
/// high sixteen bits of a 32-bit number that is written lowest byte first.
pub open spec fn spec_string_id(input: Seq<u8>) -> Result<(u32, u32), Status> {
    if input.len() < 4 {
        Err(Status::InvalidBufferSize)
    } else {
        Ok(((input[0] + 256 * input[1]) as u32, (input[2] + 256 * input[3]) as u32))
    }
}

/// The string id and the language id that came with a request.
pub fn get_string_id(memory: &WdfMemory) -> (ids: Result<(u32, u32), Status>)
    ensures
        ids == spec_string_id(memory@),
{
    let buffer = memory.get_buffer();
    if buffer.len() < 4 {
        return Err(Status::InvalidBufferSize);
    }
    let string_id: u32 = buffer[0] as u32 + 256 * (buffer[1] as u32);
    let language_id: u32 = buffer[2] as u32 + 256 * (buffer[3] as u32);
    Ok((string_id, language_id))
}

/// A request after `data` has been copied to the start of its output buffer
/// as its answer, and whether that was possible: a request without an
/// output buffer ends with the host's status, and an answer that does not
/// fit is refused.
pub open spec fn spec_request_copy(request: WdfRequestView, data: Seq<u8>) -> (
    WdfRequestView,
    Result<(), Status>,
) {
    match request.output {
        Err(e) => (request, Err(e)),
        Ok(buffer) => if data.len() > buffer.len() {
            (request, Err(Status::BufferTooSmall))
        } else {
            (
                WdfRequestView {
                    output: Ok(copied(buffer, data, 0)),
                    information: data.len(),
                    ..request
                },
                Ok(()),
            )
        },
    }
}

/// Answers a request with `data`.
pub fn request_copy_from_slice(request: &mut WdfRequest, data: &[u8]) -> (result: Result<
    (),
    Status,
>)
    ensures
        (final(request)@, result) == spec_request_copy(old(request)@, data@),
{
    let memory = match request.get_output_memory() {
        Ok(memory) => memory,
        Err(e) => return Err(e),
    };
    let len = match memory.copy_from_slice(data, 0) {
        Ok(len) => len,
        Err(e) => return Err(e),
    };
    request.set_information(len);
    Ok(())
}

/// A string as the host reads it: in UTF-16 with a unit of zero at its end,
/// every unit with its low byte first.
pub open spec fn spec_string_bytes(text: Seq<char>) -> Seq<u8> {
    u16s_le(utf16(text).push(0u16))
}

/// Answers a request with a string.
pub fn request_copy_from_string(request: &mut WdfRequest, data: &str) -> (result: Result<
    (),
    Status,
>)
    ensures
        (final(request)@, result) == spec_request_copy(old(request)@, spec_string_bytes(data@)),
{
    let mut encoded = encode_utf16(data);
    encoded.push(0u16);
    let bytes = u16s_to_le(&encoded);
    request_copy_from_slice(request, bytes.as_slice())
}

/// The string id that a request asks for.
pub open spec fn spec_requested_string(request: WdfRequestView) -> Result<u32, Status> {
    match request.input {
        Err(e) => Err(e),
        Ok(input) => match spec_string_id(input) {
            Ok((string_id, _)) => Ok(string_id),
            Err(e) => Err(e),
        },
    }
}

/// The string id that a request asks for.
fn requested_string(request: &WdfRequest) -> (id: Result<u32, Status>)
    ensures
        id == spec_requested_string(request@),
{
    let memory = match request.get_input_memory() {
        Ok(memory) => memory,
        Err(e) => return Err(e),
    };
    match get_string_id(memory) {
        Ok((string_id, _)) => Ok(string_id),
        Err(e) => Err(e),
    }
}

/// A request for an identity string after it has been served: the answer is
/// the string that the id names; an id that names none is not served.
pub open spec fn spec_get_string(request: WdfRequestView, data: DeviceDataView) -> (
    WdfRequestView,
    Result<(), Status>,
) {
    match spec_requested_string(request) {
        Err(e) => (request, Err(e)),
        Ok(string_id) => match data.get_string(string_id) {
            Err(_) => (request, Err(Status::NotImplemented)),
            Ok(text) => spec_request_copy(request, spec_string_bytes(text)),
        },
    }
}

/// Serves a request for an identity string.
pub fn get_string(request: &mut WdfRequest, data: &DeviceData) -> (result: Result<(), Status>)
    ensures
        (final(request)@, result) == spec_get_string(old(request)@, data@),
{
    let string_id = match requested_string(request) {
        Ok(id) => id,
        Err(e) => return Err(e),
    };
    match data.get_string(string_id) {
        Ok(value) => request_copy_from_string(request, value.as_str()),
        Err(_) => Err(Status::NotImplemented),
    }
}

/// A request for an indexed string after it has been served: the answer is
/// the string stored under the index; an index under which none is stored
/// is refused.
pub open spec fn spec_get_indexed_string(request: WdfRequestView, data: DeviceDataView) -> (
    WdfRequestView,
    Result<(), Status>,
) {
    match spec_requested_string(request) {
        Err(e) => (request, Err(e)),
        Ok(string_id) => match data.get_indexed_string(string_id) {
            Err(_) => (request, Err(Status::InvalidParameter)),
            Ok(text) => spec_request_copy(request, spec_string_bytes(text)),
        },
    }
}

/// Serves a request for an indexed string.
pub fn get_indexed_string(request: &mut WdfRequest, data: &DeviceData) -> (result: Result<
    (),
    Status,
>)
    ensures
        (final(request)@, result) == spec_get_indexed_string(old(request)@, data@),
{
    let string_id = match requested_string(request) {
        Ok(id) => id,
        Err(e) => return Err(e),
    };
    match data.get_indexed_string(string_id) {
        Ok(value) => request_copy_from_string(request, value.as_str()),
        Err(_) => Err(Status::InvalidParameter),
    }
}

/// A request after a report has been copied to its output buffer as its
/// answer: the report id, then the report.  The report id is copied first,
/// so it is in the buffer also where the report does not fit behind it.
pub open spec fn spec_copy_report(request: WdfRequestView, report_id: u8, report: Seq<u8>) -> (
    WdfRequestView,
    Result<(), Status>,
) {
    match request.output {
        Err(e) => (request, Err(e)),
        Ok(buffer) => {
            let begun = copied(buffer, seq![report_id], 0);
            if 1 + report.len() > buffer.len() {
                (WdfRequestView { output: Ok(begun), ..request }, Err(Status::BufferTooSmall))
            } else {
                (
                    WdfRequestView {
                        output: Ok(copied(begun, report, 1)),
                        information: 1 + report.len(),
                        ..request
                    },
                    Ok(()),
                )
            }
        },
    }
}

/// Answers a request with a report.
pub fn copy_report_to_output(request: &mut WdfRequest, report_id: u8, report: &[u8]) -> (result:
    Result<(), Status>)
    ensures
        (final(request)@, result) == spec_copy_report(old(request)@, report_id, report@),
{
    let mut offset: usize = 0;
    let memory = match request.get_output_memory() {
        Ok(memory) => memory,
        Err(e) => return Err(e),
    };
    let id = [report_id];
    assert(id@ =~= seq![report_id]);
    match memory.copy_from_slice(id.as_slice(), offset) {
        Ok(len) => {
            offset = offset + len;
        },
        Err(e) => return Err(e),
    }
    match memory.copy_from_slice(report, offset) {
        Ok(len) => {
            offset = offset + len;
        },
        Err(e) => return Err(e),
    }
    request.set_information(offset);
    Ok(())
}

/// A request for a stored report after it has been served: the first byte
/// that came with the request is the report id; the answer is that id and
/// the report stored under it.  A request without an input buffer ends with
/// the host's status, one whose input buffer holds no byte with
/// `InvalidBufferSize`.
pub open spec fn spec_get_report_internal(request: WdfRequestView, data: DeviceDataView) -> (
    WdfRequestView,
    Result<(), Status>,
) {
    match request.input {
        Err(e) => (request, Err(e)),
        Ok(input) => if input.len() < 1 {
            (request, Err(Status::InvalidBufferSize))
        } else {
            match data.get_report(input[0]) {
                Err(_) => (request, Err(Status::InvalidParameter)),
                Ok(report) => spec_copy_report(request, input[0], report),
            }
        },
    }
}

/// Serves a request for a stored report.
pub fn get_report_internal(request: &mut WdfRequest, device_data: &DeviceData) -> (result: Result<
    (),
    Status,
>)
    ensures
        (final(request)@, result) == spec_get_report_internal(old(request)@, device_data@),
{
    let report_id = match request.get_input_memory() {
        Ok(input_memory) => match get_report(input_memory) {
            Ok((report_id, _)) => report_id,
            Err(e) => return Err(e),
        },
        Err(e) => return Err(e),
    };
    let data = match device_data.get_report(report_id) {
        Ok(data) => data,
        Err(_) => return Err(Status::InvalidParameter),
    };
    copy_report_to_output(request, report_id, data.as_slice())
}

/// Serves a request for a feature report.
pub fn get_feature(request: &mut WdfRequest, device_data: &DeviceData) -> (result: Result<
    (),
    Status,
>)
    ensures
        (final(request)@, result) == spec_get_report_internal(old(request)@, device_data@),
{
    get_report_internal(request, device_data)
}

/// Serves a request for an input report.
pub fn get_input_report(request: &mut WdfRequest, device_data: &DeviceData) -> (result: Result<
    (),
    Status,
>)
    ensures
        (final(request)@, result) == spec_get_report_internal(old(request)@, device_data@),
{
    get_report_internal(request, device_data)
}

/// The device after a request to store a report has been served: the first
/// byte that came with the request is the report id, the bytes after it are
/// the report.  A request without an input buffer ends with the host's
/// status, one whose input buffer holds no byte with `InvalidBufferSize`.
pub open spec fn spec_set_report_internal(request: WdfRequestView, data: DeviceDataView) -> (
    DeviceDataView,
    Result<(), Status>,
) {
    match request.input {
        Err(e) => (data, Err(e)),
        Ok(input) => if input.len() < 1 {
            (data, Err(Status::InvalidBufferSize))
        } else {
            (data.set_report(input[0], input.subrange(1, input.len() as int)), Ok(()))
        },
    }
}

/// Serves a request to store a report.
pub fn set_report_internal(request: &WdfRequest, device_data: &mut DeviceData) -> (result: Result<
    (),
    Status,
>)
    ensures
        (final(device_data)@, result) == spec_set_report_internal(request@, old(device_data)@),
{
    let input_memory = match request.get_input_memory() {
        Ok(memory) => memory,
        Err(e) => return Err(e),
    };
    let (report_id, report) = match get_report(input_memory) {
        Ok(found) => found,
        Err(e) => return Err(e),
    };
    device_data.set_report(report_id, slice_to_vec(report));
    Ok(())
}

/// Serves a request to store an output report.
pub fn set_output_report(request: &WdfRequest, device_data: &mut DeviceData) -> (result: Result<
    (),
    Status,
>)
    ensures
        (final(device_data)@, result) == spec_set_report_internal(request@, old(device_data)@),
{
    set_report_internal(request, device_data)
}

/// Serves a request to store a feature report.
pub fn set_feature(request: &WdfRequest, device_data: &mut DeviceData) -> (result: Result<
    (),
    Status,
>)
    ensures
        (final(device_data)@, result) == spec_set_report_internal(request@, old(device_data)@),
{
    set_report_internal(request, device_data)
}

/// A request to read a report and the device after the backend has
/// delivered: a report that was delivered is the answer and is stored in the
/// device; a report that does not fit into the buffer of the request is not
/// stored.  Where the backend had no report there is no answer.
pub open spec fn spec_finish_read(
    request: WdfRequestView,
    data: DeviceDataView,
    report: Option<ReportView>,
) -> (WdfRequestView, DeviceDataView, Result<(), Status>) {
    match report {
        Some((report_id, bytes)) => {
            let (answered, result) = spec_copy_report(request, report_id, bytes);
            if result is Ok {
                (answered, data.set_report(report_id, bytes), result)
            } else {
                (answered, data, result)
            }
        },
        None => (request, data, Err(Status::NotImplemented)),
    }
}

/// Ends a request to read a report with what the backend delivered.
pub fn finish_read(
    request: &mut WdfRequest,
    device_data: &mut DeviceData,
    report: Option<(u8, Vec<u8>)>,
) -> (result: Result<(), Status>)
    ensures
        (final(request)@, final(device_data)@, result) == spec_finish_read(
            old(request)@,
            old(device_data)@,
            report_view(report),
        ),
{
    match report {
        Some((report_id, report)) => {
            match copy_report_to_output(request, report_id, report.as_slice()) {
                Ok(()) => {},
                Err(e) => return Err(e),
            }
            device_data.set_report(report_id, report);
            Ok(())
        },
        None => Err(Status::NotImplemented),
    }
}

/// A request to read a report, the device and how far the request has come
/// once the backend has said what is next: the request ends where the read
/// is over, else it waits for the caller.
pub open spec fn spec_read_progress(
    request: WdfRequestView,
    device: DeviceEnumView,
    action: ActionView,
) -> (WdfRequestView, DeviceEnumView, ProgressView) {
    match action {
        ActionView::Deliver(report) => {
            let (answered, data, result) = spec_finish_read(request, device.data(), report);
            (answered, device.with_data(data), ProgressView::Done(result))
        },
        _ => (request, device, ProgressView::Pending(action)),
    }
}

/// Takes up a request to read a report when the backend has said what is
/// next.
fn read_progress(request: &mut WdfRequest, device: &mut DeviceEnum, action: Action) -> (progress:
    Progress)
    ensures
        (final(request)@, final(device)@, progress@) == spec_read_progress(
            old(request)@,
            old(device)@,
            action@,
        ),
{
    match action {
        Action::Deliver(report) => Progress::Done(finish_read(request, device.data_mut(), report)),
        other => Progress::Pending(other),
    }
}

/// Begins to serve a request to read a report.
pub fn read_report(request: &mut WdfRequest, device: &mut DeviceEnum) -> (progress: Progress)
    ensures
        (final(request)@, final(device)@, progress@) == spec_read_progress(
            old(request)@,
            old(device)@.begin().0,
            old(device)@.begin().1,
        ),
{
    let action = device.read();
    read_progress(request, device, action)
}

/// Goes on with a request to read a report after the caller has done what
/// the backend waited for.
pub fn read_report_step(request: &mut WdfRequest, device: &mut DeviceEnum, event: Event) -> (progress:
    Progress)
    ensures
        (final(request)@, final(device)@, progress@) == spec_read_progress(
            old(request)@,
            old(device)@.step(event@).0,
            old(device)@.step(event@).1,
        ),
{
    let action = device.read_step(event);
    read_progress(request, device, action)
}

/// Refuses a request to write a report: no backend takes one.
pub fn write_report(_request: &mut WdfRequest, _device: &DeviceEnum) -> (result: Result<(), Status>)
    ensures
        result == Err::<(), Status>(Status::NotImplemented),
        final(_request)@ == old(_request)@,
{
    Err(Status::NotImplemented)
}

/// A request, the device and how far the request has come after the
/// dispatcher has taken the request to the device.
pub open spec fn spec_device_control(
    request: WdfRequestView,
    io_control: IoControl,
    device: DeviceEnumView,
) -> (WdfRequestView, DeviceEnumView, ProgressView) {
    match io_control {
        IoControl::GetReportDescriptor => {
            let (answered, result) = spec_request_copy(request, device.data().report_descriptor);
            (answered, device, ProgressView::Done(result))
        },
        IoControl::GetString => {
            let (answered, result) = spec_get_string(request, device.data());
            (answered, device, ProgressView::Done(result))
        },
        IoControl::GetIndexedString => {
            let (answered, result) = spec_get_indexed_string(request, device.data());
            (answered, device, ProgressView::Done(result))
        },
        IoControl::ReadReport => spec_read_progress(request, device.begin().0, device.begin().1),
        IoControl::GetFeature | IoControl::GetInputReport => {
            let (answered, result) = spec_get_report_internal(request, device.data());
            (answered, device, ProgressView::Done(result))
        },
        IoControl::SetFeature | IoControl::SetOutputReport => {
            let (data, result) = spec_set_report_internal(request, device.data());
            (request, device.with_data(data), ProgressView::Done(result))
        },
        _ => (request, device, ProgressView::Done(Err(Status::NotImplemented))),
    }
}

/// Takes a request to the device.
pub fn evt_io_device_control_device(
    request: &mut WdfRequest,
    io_control: IoControl,
    device: &mut DeviceEnum,
) -> (progress: Progress)
    ensures
        (final(request)@, final(device)@, progress@) == spec_device_control(
            old(request)@,
            io_control,
            old(device)@,
        ),
{
    match io_control {
        IoControl::GetReportDescriptor => {
            Progress::Done(
                request_copy_from_slice(request, device.data().report_descriptor.as_slice()),
            )
        },
        IoControl::GetString => { Progress::Done(get_string(request, device.data())) },
        IoControl::GetIndexedString => {
            Progress::Done(get_indexed_string(request, device.data()))
        },
        IoControl::ReadReport => { read_report(request, device) },
        IoControl::WriteReport => { Progress::Done(write_report(request, device)) },
        IoControl::GetFeature => { Progress::Done(get_feature(request, device.data())) },
        IoControl::SetFeature => {
            let result = set_feature(request, device.data_mut());
            proof {
                lemma_with_data(old(device)@, device@.data());
            }
            Progress::Done(result)
        },
        IoControl::GetInputReport => { Progress::Done(get_input_report(request, device.data())) },
        IoControl::SetOutputReport => {
            let result = set_output_report(request, device.data_mut());
            proof {
                lemma_with_data(old(device)@, device@.data());
            }
            Progress::Done(result)
        },
        _ => { Progress::Done(Err(Status::NotImplemented)) },
    }
}

/// A backend that is given the device it has is the backend it was.
pub proof fn lemma_with_data(device: DeviceEnumView, data: DeviceDataView)
    ensures
        device.with_data(device.data()) == device,
        device.with_data(data).data() == data,
{
}

/// A request, the device and how far the request has come after the
/// dispatcher has taken the request: the descriptor and the attributes of
/// the device are answered from what the dispatcher knows, everything else
/// goes to the device.
pub open spec fn spec_device_control_internal(
    request: WdfRequestView,
    io_control: IoControl,
    context: DeviceContextView,
) -> (WdfRequestView, DeviceContextView, ProgressView) {
    match io_control {
        IoControl::GetDeviceDescriptor => {
            let (answered, result) = spec_request_copy(request, context.hid_device_desc.wire());
            (answered, context, ProgressView::Done(result))
        },
        IoControl::GetDeviceAttributes => {
            let (answered, result) = spec_request_copy(request, context.hid_device_attr.wire());
            (answered, context, ProgressView::Done(result))
        },
        _ => {
            let (answered, device, progress) = spec_device_control(
                request,
                io_control,
                context.hid_device,
            );
            (answered, DeviceContextView { hid_device: device, ..context }, progress)
        },
    }
}

/// Takes a request.
pub fn evt_io_device_control_internal(
    request: &mut WdfRequest,
    io_control: IoControl,
    device_context: &mut DeviceContext,
) -> (progress: Progress)
    ensures
        (final(request)@, final(device_context)@, progress@) == spec_device_control_internal(
            old(request)@,
            io_control,
            old(device_context)@,
        ),
{
    match io_control {
        IoControl::GetDeviceDescriptor => {
            let bytes = device_context.hid_device_desc.pack();
            Progress::Done(request_copy_from_slice(request, bytes.as_slice()))
        },
        IoControl::GetDeviceAttributes => {
            let bytes = device_context.hid_device_attr.pack();
            Progress::Done(request_copy_from_slice(request, bytes.as_slice()))
        },
        _ => evt_io_device_control_device(request, io_control, &mut device_context.hid_device),
    }
}

/// A request that is served at once never waits for the backend, and leaves
/// the backend as it was: at most the reports of the device change.
pub proof fn lemma_inline_requests_never_wait(
    request: WdfRequestView,
    io_control: IoControl,
    context: DeviceContextView,
)
    requires
        spec_route(io_control) == Route::Inline,
    ensures
        spec_device_control_internal(request, io_control, context).2 is Done,
        spec_device_control_internal(request, io_control, context).1.hid_device
            == context.hid_device.with_data(
            spec_device_control_internal(request, io_control, context).1.hid_device.data(),
        ),
        spec_device_control_internal(request, io_control, context).1.hid_device_desc
            == context.hid_device_desc,
        spec_device_control_internal(request, io_control, context).1.hid_device_attr
            == context.hid_device_attr,
{
    lemma_with_data(context.hid_device, context.hid_device.data());
    let data = spec_set_report_internal(request, context.hid_device.data()).0;
    lemma_with_data(context.hid_device, data);
}

/// A request to write a report is refused, whatever the backend, and changes
/// nothing.
pub proof fn lemma_write_report_is_refused(request: WdfRequestView, device: DeviceEnumView)
    ensures
        spec_device_control(request, IoControl::WriteReport, device) == (
            request,
            device,
            ProgressView::Done(Err(Status::NotImplemented)),
        ),
{
}

/// A report that the host has stored is the report that the host gets back:
/// the answer to a request for the report is, byte for byte, what came with
/// the request that stored it.
pub proof fn lemma_stored_report_is_read_back(
    set: WdfRequestView,
    get: WdfRequestView,
    data: DeviceDataView,
)
    requires
        set.input matches Ok(stored_bytes) && stored_bytes.len() > 0,
        get.input matches Ok(asked) && asked.len() > 0 && asked[0] == set.input->Ok_0[0],
        get.output matches Ok(buffer) && buffer.len() >= set.input->Ok_0.len(),
    ensures
        spec_set_report_internal(set, data).1 is Ok,
        ({
            let stored = spec_set_report_internal(set, data).0;
            let (answered, result) = spec_get_report_internal(get, stored);
            &&& result is Ok
            &&& answered.information == set.input->Ok_0.len()
            &&& answered.output is Ok
            &&& answered.output->Ok_0.len() == get.output->Ok_0.len()
            &&& answered.output->Ok_0.subrange(0, set.input->Ok_0.len() as int)
                == set.input->Ok_0
        }),
{
    let stored = spec_set_report_internal(set, data).0;
    let (answered, result) = spec_get_report_internal(get, stored);
    assert(answered.output->Ok_0.subrange(0, set.input->Ok_0.len() as int)
        =~= set.input->Ok_0);
}

/// A request for a report that was never stored is refused and changes
/// nothing.
pub proof fn lemma_unknown_report_is_refused(request: WdfRequestView, data: DeviceDataView)
    requires
        request.input matches Ok(input) && input.len() > 0 && !data.reports.contains_key(
            input[0],
        ),
    ensures
        spec_get_report_internal(request, data) == (
            request,
            Err::<(), Status>(Status::InvalidParameter),
        ),
{
}

/// A request for a string index under which no string is stored is refused
/// and changes nothing.  The index is the whole of the low sixteen bits that
/// came with the request: index 0x0101 is not index 1.
pub proof fn lemma_unknown_indexed_string_is_refused(request: WdfRequestView, data: DeviceDataView)
    requires
        request.input matches Ok(input) && input.len() >= 4 && (input[1] != 0
            || !data.strings.contains_key(input[0])),
    ensures
        spec_get_indexed_string(request, data) == (
            request,
            Err::<(), Status>(Status::InvalidParameter),
        ),
{
    let input = request.input->Ok_0;
    let string_id = (input[0] + 256 * input[1]) as u32;
    assert(spec_requested_string(request) == Ok::<u32, Status>(string_id));
    if input[1] == 0 {
        assert(string_id as u8 == input[0]);
    } else {
        assert(string_id > 255);
    }
}

/// A report that the backend delivers is the answer to the request that
/// read it and, from then on, the report that the device holds under its
/// id.
pub proof fn lemma_read_report_is_stored(
    request: WdfRequestView,
    data: DeviceDataView,
    report_id: u8,
    report: Seq<u8>,
)
    requires
        request.output matches Ok(buffer) && buffer.len() >= 1 + report.len(),
    ensures
        spec_finish_read(request, data, Some((report_id, report))).2 is Ok,
        spec_finish_read(request, data, Some((report_id, report))).1.get_report(report_id) == Ok::<
            Seq<u8>,
            crate::device::StoreError,
        >(report),
        spec_finish_read(request, data, Some((report_id, report))).0.information == 1
            + report.len(),
        spec_finish_read(request, data, Some((report_id, report))).0.output is Ok,
        spec_finish_read(request, data, Some((report_id, report))).0.output->Ok_0.subrange(
            0,
            1 + report.len() as int,
        ) == seq![report_id] + report,
{
    let answered = spec_finish_read(request, data, Some((report_id, report))).0;
    assert(answered.output->Ok_0.subrange(0, 1 + report.len() as int) =~= seq![report_id]
        + report);
}

/// No request changes who the device is: whatever the host asks for, and
/// whatever the backend delivers, only reports change.
pub proof fn lemma_identity_is_read_only(
    request: WdfRequestView,
    io_control: IoControl,
    context: DeviceContextView,
    event: EventView,
)
    ensures
        spec_device_control_internal(request, io_control, context).1.hid_device.data().identity()
            == context.hid_device.data().identity(),
        spec_read_progress(
            request,
            context.hid_device.step(event).0,
            context.hid_device.step(event).1,
        ).1.data().identity() == context.hid_device.data().identity(),
{
    let device = context.hid_device;
    let set = spec_set_report_internal(request, device.data()).0;
    lemma_with_data(device, set);
    assert(device.begin().0.data() == device.data());
    assert(device.step(event).0.data() == device.data());
    let begun = device.begin().0;
    lemma_with_data(begun, begun.data());
    let stepped = device.step(event).0;
    lemma_with_data(stepped, stepped.data());
    match device.begin().1 {
        ActionView::Deliver(report) => {
            lemma_with_data(begun, spec_finish_read(request, begun.data(), report).1);
        },
        _ => {},
    }
    match device.step(event).1 {
        ActionView::Deliver(report) => {
            lemma_with_data(stepped, spec_finish_read(request, stepped.data(), report).1);
        },
        _ => {},
    }
}

} // verus!
