//! A request of the host as the dispatcher sees it: the bytes that came with
//! it, the buffer that the answer goes to, and how much of that buffer the
//! answer fills.  Either buffer may be missing: the host then says so with a
//! status of its own, and the request ends with that status as soon as the
//! buffer is needed.

use crate::backports::{chars_from_utf16le_lossy, spec_from_utf16le_lossy, string_from_chars};
use vstd::prelude::*;
use vstd::slice::slice_subrange;

verus! {

/// Why a request was not served.
#[derive(Debug, Clone, Copy, PartialEq, Eq, Structural)]
pub enum Status {
    /// The request names a report or a string that the device does not
    /// have.
    InvalidParameter,
    /// The device does not serve the request.
    NotImplemented,
    /// No device can be made from the configuration.
    NotSupported,
    /// The answer does not fit into the buffer of the request.
    BufferTooSmall,
    /// The bytes that came with the request are too few to say what is
    /// asked for.
    InvalidBufferSize,
    /// A property of the device does not hold what it should.
    BadData,
    /// A status of the host's own: what the host said when it was asked
    /// for a buffer that the request does not have.  It is handed on as it
    /// came.
    Host(i32),
}

/// A buffer of fixed size.
pub struct WdfMemory {
    buffer: Vec<u8>,
}

impl View for WdfMemory {
    type V = Seq<u8>;

    closed spec fn view(&self) -> Seq<u8> {
        self.buffer@
    }
}

/// Whether `size` bytes from `offset` on lie within a buffer.
pub open spec fn fits(buffer: Seq<u8>, size: nat, offset: int) -> bool {
    0 <= offset && offset + size <= buffer.len()
}

/// A buffer after `data` has been copied to it from `offset` on: the other
/// bytes stay, and so does the size.  Data that does not fit is not copied
/// at all.
pub open spec fn copied(buffer: Seq<u8>, data: Seq<u8>, offset: int) -> Seq<u8> {
    if fits(buffer, data.len(), offset) {
        buffer.subrange(0, offset) + data + buffer.subrange(
            offset + data.len(),
            buffer.len() as int,
        )
    } else {
        buffer
    }
}

impl WdfMemory {
    /// A buffer with the given content.
    pub fn new(buffer: Vec<u8>) -> (memory: WdfMemory)
        ensures
            memory@ == buffer@,
    {
        WdfMemory { buffer }
    }

    /// The content of the buffer.
    pub fn get_buffer(&self) -> (buffer: &[u8])
        ensures
            buffer@ == self@,
    {
        self.buffer.as_slice()
    }

    /// The content of the buffer, to change it in place.
    pub fn get_buffer_mut(&mut self) -> (buffer: &mut [u8])
        ensures
            buffer@ == old(self)@,
            final(self)@ == final(buffer)@,
    {
        self.buffer.as_mut_slice()
    }

    /// The content of the buffer, where the buffer is no longer needed.
    pub fn into_buffer(self) -> (buffer: Vec<u8>)
        ensures
            buffer@ == self@,
    {
        self.buffer
    }

    /// Copies `data` into the buffer from `offset` on, and says how many
    /// bytes were copied.  Data that does not fit is refused.
    pub fn copy_from_slice(&mut self, data: &[u8], offset: usize) -> (copied_len: Result<
        usize,
        Status,
    >)
        ensures
            final(self)@ == copied(old(self)@, data@, offset as int),
            match copied_len {
                Ok(len) => {
                    &&& fits(old(self)@, data@.len(), offset as int)
                    &&& len == data@.len()
                    &&& offset + len <= usize::MAX
                },
                Err(e) => !fits(old(self)@, data@.len(), offset as int) && e
                    == Status::BufferTooSmall,
            },
    {
        let len = data.len();
        if len > self.buffer.len() || offset > self.buffer.len() - len {
            return Err(Status::BufferTooSmall);
        }
        let size: usize = self.buffer.len();
        let mut i: usize = 0;
        while i < len
            invariant
                i <= len,
                len == data@.len(),
                offset + len <= size,
                size == self.buffer@.len(),
                self.buffer@.len() == old(self)@.len(),
                forall|k: int| 0 <= k < offset ==> self.buffer@[k] == old(self)@[k],
                forall|k: int| offset <= k < offset + i ==> self.buffer@[k] == data@[k - offset],
                forall|k: int|
                    offset + i <= k < self.buffer@.len() ==> self.buffer@[k] == old(self)@[k],
            decreases len - i,
        {
            self.buffer.set(offset + i, data[i]);
            i = i + 1;
        }
        assert(self@ =~= copied(old(self)@, data@, offset as int));
        Ok(len)
    }
}

/// A request of the host.  The host may hand out a buffer or refuse it with
/// a status of its own.
pub struct WdfRequest {
    input: Result<WdfMemory, Status>,
    output: Result<WdfMemory, Status>,
    information: usize,
}

/// The mathematical content of a [`WdfRequest`].
pub struct WdfRequestView {
    /// The bytes that came with the request, or the status with which the
    /// host refuses the input buffer.
    pub input: Result<Seq<u8>, Status>,
    /// The buffer for the answer, or the status with which the host refuses
    /// the output buffer.
    pub output: Result<Seq<u8>, Status>,
    /// How many bytes of the output buffer hold the answer.
    pub information: nat,
}

/// The content of a buffer that the host handed out, or the status with
/// which it refused the buffer.
pub open spec fn buffer_view(buffer: Result<Vec<u8>, Status>) -> Result<Seq<u8>, Status> {
    match buffer {
        Ok(bytes) => Ok(bytes@),
        Err(e) => Err(e),
    }
}

/// The content of a buffer of a request.
spec fn memory_view(memory: Result<WdfMemory, Status>) -> Result<Seq<u8>, Status> {
    match memory {
        Ok(m) => Ok(m@),
        Err(e) => Err(e),
    }
}

impl View for WdfRequest {
    type V = WdfRequestView;

    closed spec fn view(&self) -> WdfRequestView {
        WdfRequestView {
            input: memory_view(self.input),
            output: memory_view(self.output),
            information: self.information as nat,
        }
    }
}

/// A request that has been answered.
#[derive(Debug, PartialEq, Eq)]
pub struct Completion {
    /// Whether the request was served, or why not.
    pub status: Result<(), Status>,
    /// How many bytes of the output buffer hold the answer.
    pub information: usize,
    /// The output buffer, where the host handed one out.
    pub output: Option<Vec<u8>>,
}

/// The content of an output buffer that may be there.
pub open spec fn output_view(output: Option<Vec<u8>>) -> Option<Seq<u8>> {
    match output {
        Some(bytes) => Some(bytes@),
        None => None,
    }
}

/// The buffer that a request had, if it had one.
pub open spec fn handed_out(buffer: Result<Seq<u8>, Status>) -> Option<Seq<u8>> {
    match buffer {
        Ok(bytes) => Some(bytes),
        Err(_) => None,
    }
}

impl WdfRequest {
    /// A request with the input buffer and the output buffer that the host
    /// handed out, or with the status with which it refused one.
    pub fn new(input: Result<Vec<u8>, Status>, output: Result<Vec<u8>, Status>) -> (request:
        WdfRequest)
        ensures
            request@ == (WdfRequestView {
                input: buffer_view(input),
                output: buffer_view(output),
                information: 0,
            }),
    {
        let input = match input {
            Ok(bytes) => Ok(WdfMemory::new(bytes)),
            Err(e) => Err(e),
        };
        let output = match output {
            Ok(bytes) => Ok(WdfMemory::new(bytes)),
            Err(e) => Err(e),
        };
        WdfRequest { input, output, information: 0 }
    }

    /// The input buffer, or the status with which the host refuses it.
    pub fn get_input_memory(&self) -> (memory: Result<&WdfMemory, Status>)
        ensures
            match memory {
                Ok(m) => self@.input == Ok::<Seq<u8>, Status>(m@),
                Err(e) => self@.input == Err::<Seq<u8>, Status>(e),
            },
    {
        match &self.input {
            Ok(memory) => Ok(memory),
            Err(e) => Err(*e),
        }
    }

    /// The output buffer, or the status with which the host refuses it.
    pub fn get_output_memory(&mut self) -> (memory: Result<&mut WdfMemory, Status>)
        ensures
            match memory {
                Ok(m) => {
                    &&& old(self)@.output == Ok::<Seq<u8>, Status>(m@)
                    &&& final(self)@ == (WdfRequestView {
                        output: Ok(final(m)@),
                        ..old(self)@
                    })
                },
                Err(e) => {
                    &&& old(self)@.output == Err::<Seq<u8>, Status>(e)
                    &&& final(self)@ == old(self)@
                },
            },
    {
        match &mut self.output {
            Ok(memory) => Ok(memory),
            Err(e) => Err(*e),
        }
    }

    /// Records how many bytes of the output buffer hold the answer.
    pub fn set_information(&mut self, len: usize)
        ensures
            final(self)@ == (WdfRequestView { information: len as nat, ..old(self)@ }),
    {
        self.information = len;
    }

    /// Ends the request with a status.
    pub fn complete(self, status: Result<(), Status>) -> (completion: Completion)
        ensures
            completion.status == status,
            completion.information == self@.information,
            output_view(completion.output) == handed_out(self@.output),
    {
        let output = match self.output {
            Ok(memory) => Some(memory.into_buffer()),
            Err(_) => None,
        };
        Completion { status, information: self.information, output }
    }
}

/// The type of a device property that holds a string: UTF-16 with a unit of
/// zero at its end, every unit with its low byte first.
pub const DEVPROP_TYPE_STRING: u32 = 0x12;

/// The type of a device property that holds a 32-bit number, lowest byte
/// first.
pub const DEVPROP_TYPE_UINT32: u32 = 0x07;

/// Whether the first character of `text` that is zero stands at `at`.
pub open spec fn first_nul_at(text: Seq<char>, at: int) -> bool {
    &&& 0 <= at < text.len()
    &&& text[at] == '\0'
    &&& forall|k: int| 0 <= k < at ==> text[k] != '\0'
}

/// The string that a device property holds: what its bytes write in UTF-16
/// before the first character that is zero.  A property of another type, and
/// one without such a character, holds none.
pub open spec fn property_holds_string(data: Seq<u8>, property_type: u32, text: Seq<char>) -> bool {
    &&& property_type == DEVPROP_TYPE_STRING
    &&& exists|at: int| #[trigger]
        first_nul_at(spec_from_utf16le_lossy(data), at) && text == spec_from_utf16le_lossy(
            data,
        ).take(at)
}

/// The string that a device property of the given type and content holds.
pub fn wdf_device_query_property_string(data: &[u8], property_type: u32) -> (text: Result<
    String,
    Status,
>)
    ensures
        match text {
            Ok(t) => property_holds_string(data@, property_type, t@),
            Err(e) => e == Status::BadData && forall|t: Seq<char>|
                !property_holds_string(data@, property_type, t),
        },
{
    if property_type != DEVPROP_TYPE_STRING {
        return Err(Status::BadData);
    }
    let result = chars_from_utf16le_lossy(data);
    let mut at: usize = 0;
    while at < result.len()
        invariant
            at <= result.len(),
            property_type == DEVPROP_TYPE_STRING,
            result@ == spec_from_utf16le_lossy(data@),
            forall|k: int| 0 <= k < at ==> result@[k] != '\0',
        decreases result.len() - at,
    {
        if result[at] == '\0' {
            let text = string_from_chars(slice_subrange(result.as_slice(), 0, at));
            assert(first_nul_at(result@, at as int));
            assert(text@ =~= result@.take(at as int));
            return Ok(text);
        }
        at = at + 1;
    }
    assert forall|t: Seq<char>| !property_holds_string(data@, property_type, t) by {
        assert forall|k: int| !first_nul_at(result@, k) by {}
    }
    Err(Status::BadData)
}

/// The number that a device property holds: the four bytes of a property of
/// the type for 32-bit numbers, lowest byte first.  A property of another
/// type or size holds none.
pub open spec fn spec_property_u32(data: Seq<u8>, property_type: u32) -> Result<u32, Status> {
    if property_type == DEVPROP_TYPE_UINT32 && data.len() == 4 {
        Ok((data[0] + 256 * data[1] + 65536 * data[2] + 16777216 * data[3]) as u32)
    } else {
        Err(Status::BadData)
    }
}

/// The number that a device property of the given type and content holds.
pub fn wdf_device_query_property_u32(data: &[u8], property_type: u32) -> (value: Result<
    u32,
    Status,
>)
    ensures
        value == spec_property_u32(data@, property_type),
{
    if property_type != DEVPROP_TYPE_UINT32 {
        return Err(Status::BadData);
    }
    if data.len() != 4 {
        return Err(Status::BadData);
    }
    Ok(
        data[0] as u32 + 256 * (data[1] as u32) + 65536 * (data[2] as u32) + 16777216 * (
        data[3] as u32),
    )
}

} // verus!
