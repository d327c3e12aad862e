//! Device identity and the report store.

use std::collections::HashMap;
use vstd::prelude::*;

verus! {

broadcast use vstd::std_specs::hash::group_hash_axioms;

/// String id by which the host asks for the manufacturer string.
pub const HID_STRING_ID_IMANUFACTURER: u32 = 14;

/// String id by which the host asks for the product string.
pub const HID_STRING_ID_IPRODUCT: u32 = 15;

/// String id by which the host asks for the serial number string.
pub const HID_STRING_ID_ISERIALNUMBER: u32 = 16;

/// Why a lookup in the store found nothing.
#[derive(Debug, Clone, Copy, PartialEq, Eq, Structural)]
pub enum StoreError {
    /// No report is stored under the report id.
    NotFound,
    /// The string id names none of the identity strings.
    NotSupported,
    /// No string is stored under the index.
    InvalidParameter,
}

/// Why no device could be built from a configuration.
#[derive(Debug, Clone, Copy, PartialEq, Eq, Structural)]
pub enum DeviceError {
    /// The configuration names a backend that does not exist.
    InvalidBackend,
}

/// What the creator of the device hands to the backend's constructor.
#[derive(Debug)]
pub struct DeviceConfig {
    pub host: String,
    pub port: u32,
    pub backend: String,
}

/// The mathematical content of a [`DeviceConfig`].
pub struct DeviceConfigView {
    pub host: Seq<char>,
    pub port: u32,
    pub backend: Seq<char>,
}

impl View for DeviceConfig {
    type V = DeviceConfigView;

    open spec fn view(&self) -> DeviceConfigView {
        DeviceConfigView { host: self.host@, port: self.port, backend: self.backend@ }
    }
}

impl Default for DeviceConfig {
    fn default() -> (config: DeviceConfig)
        ensures
            config.host@ == Seq::<char>::empty(),
            config.port == 0,
            config.backend@ == Seq::<char>::empty(),
    {
        DeviceConfig { host: String::new(), port: 0, backend: String::new() }
    }
}

/// Identity of a device and its current reports.
pub struct DeviceData {
    pub reports: HashMap<u8, Vec<u8>>,
    pub strings: HashMap<u8, String>,
    pub vendor_id: u16,
    pub product_id: u16,
    pub version: u16,
    pub manufacturer: String,
    pub serial_number: String,
    pub product: String,
    pub report_descriptor: Vec<u8>,
}

/// The mathematical content of a [`DeviceData`].
#[verifier::ext_equal]
pub struct DeviceDataView {
    pub reports: Map<u8, Seq<u8>>,
    pub strings: Map<u8, Seq<char>>,
    pub vendor_id: u16,
    pub product_id: u16,
    pub version: u16,
    pub manufacturer: Seq<char>,
    pub serial_number: Seq<char>,
    pub product: Seq<char>,
    pub report_descriptor: Seq<u8>,
}

impl DeviceDataView {
    /// The store of a device that has no identity and no report yet.
    pub open spec fn empty() -> DeviceDataView {
        DeviceDataView {
            reports: Map::empty(),
            strings: Map::empty(),
            vendor_id: 0,
            product_id: 0,
            version: 0,
            manufacturer: Seq::empty(),
            serial_number: Seq::empty(),
            product: Seq::empty(),
            report_descriptor: Seq::empty(),
        }
    }

    /// Who the device is: everything but its reports.
    pub open spec fn identity(self) -> DeviceDataView {
        DeviceDataView { reports: Map::empty(), ..self }
    }

    /// The bytes stored under a report id.
    pub open spec fn get_report(self, id: u8) -> Result<Seq<u8>, StoreError> {
        if self.reports.contains_key(id) {
            Ok(self.reports[id])
        } else {
            Err(StoreError::NotFound)
        }
    }

    /// The store after `bytes` have replaced whatever stood under `id`.
    pub open spec fn set_report(self, id: u8, bytes: Seq<u8>) -> DeviceDataView {
        DeviceDataView { reports: self.reports.insert(id, bytes), ..self }
    }

    /// The identity string that a string id names.
    pub open spec fn get_string(self, string_id: u32) -> Result<Seq<char>, StoreError> {
        if string_id == HID_STRING_ID_IMANUFACTURER {
            Ok(self.manufacturer)
        } else if string_id == HID_STRING_ID_IPRODUCT {
            Ok(self.product)
        } else if string_id == HID_STRING_ID_ISERIALNUMBER {
            Ok(self.serial_number)
        } else {
            Err(StoreError::NotSupported)
        }
    }

    /// The string stored under an index.  The store keeps strings under the
    /// indices 0 to 255; no string is stored under any other index.
    pub open spec fn get_indexed_string(self, index: u32) -> Result<Seq<char>, StoreError> {
        if index <= 255 && self.strings.contains_key(index as u8) {
            Ok(self.strings[index as u8])
        } else {
            Err(StoreError::InvalidParameter)
        }
    }
}

/// The bytes of a looked-up report, or the error of the lookup.
pub open spec fn bytes_of(r: Result<Vec<u8>, StoreError>) -> Result<Seq<u8>, StoreError> {
    match r {
        Ok(bytes) => Ok(bytes@),
        Err(e) => Err(e),
    }
}

/// The characters of a looked-up string, or the error of the lookup.
pub open spec fn chars_of(r: Result<&String, StoreError>) -> Result<Seq<char>, StoreError> {
    match r {
        Ok(s) => Ok(s@),
        Err(e) => Err(e),
    }
}

impl View for DeviceData {
    type V = DeviceDataView;

    open spec fn view(&self) -> DeviceDataView {
        DeviceDataView {
            reports: self.reports@.map_values(|bytes: Vec<u8>| bytes@),
            strings: self.strings@.map_values(|s: String| s@),
            vendor_id: self.vendor_id,
            product_id: self.product_id,
            version: self.version,
            manufacturer: self.manufacturer@,
            serial_number: self.serial_number@,
            product: self.product@,
            report_descriptor: self.report_descriptor@,
        }
    }
}

impl Default for DeviceData {
    fn default() -> (data: DeviceData)
        ensures
            data@ == DeviceDataView::empty(),
    {
        let data = DeviceData {
            reports: HashMap::new(),
            strings: HashMap::new(),
            vendor_id: 0,
            product_id: 0,
            version: 0,
            manufacturer: String::new(),
            serial_number: String::new(),
            product: String::new(),
            report_descriptor: Vec::new(),
        };
        assert(data@ =~= DeviceDataView::empty());
        data
    }
}

impl DeviceData {
    /// A copy of the report stored under `id`.
    pub fn get_report(&self, id: u8) -> (r: Result<Vec<u8>, StoreError>)
        ensures
            bytes_of(r) == self@.get_report(id),
    {
        match self.reports.get(&id) {
            Some(bytes) => Ok(bytes.clone()),
            None => Err(StoreError::NotFound),
        }
    }

    /// Stores `bytes` under `id`, in place of what was there.
    pub fn set_report(&mut self, id: u8, bytes: Vec<u8>)
        ensures
            final(self)@ == old(self)@.set_report(id, bytes@),
    {
        self.reports.remove(&id);
        self.reports.insert(id, bytes);
        assert(self@ =~= old(self)@.set_report(id, bytes@));
    }

    /// The identity string that the host asks for by `string_id`.
    pub fn get_string(&self, string_id: u32) -> (r: Result<&String, StoreError>)
        ensures
            chars_of(r) == self@.get_string(string_id),
    {
        if string_id == HID_STRING_ID_IMANUFACTURER {
            Ok(&self.manufacturer)
        } else if string_id == HID_STRING_ID_IPRODUCT {
            Ok(&self.product)
        } else if string_id == HID_STRING_ID_ISERIALNUMBER {
            Ok(&self.serial_number)
        } else {
            Err(StoreError::NotSupported)
        }
    }

    /// The string stored under `index`.
    pub fn get_indexed_string(&self, index: u32) -> (r: Result<&String, StoreError>)
        ensures
            chars_of(r) == self@.get_indexed_string(index),
    {
        if index > 255 {
            return Err(StoreError::InvalidParameter);
        }
        let key: u8 = index as u8;
        match self.strings.get(&key) {
            Some(s) => Ok(s),
            None => Err(StoreError::InvalidParameter),
        }
    }

    /// The report descriptor of the device.
    pub fn descriptor(&self) -> (bytes: &Vec<u8>)
        ensures
            bytes@ == self@.report_descriptor,
    {
        &self.report_descriptor
    }
}

/// A report read back after it was stored is the report that was stored.
pub proof fn lemma_get_after_set(store: DeviceDataView, id: u8, bytes: Seq<u8>)
    ensures
        store.set_report(id, bytes).get_report(id) == Ok::<Seq<u8>, StoreError>(bytes),
{
}

/// Storing a report leaves the reports under every other id as they were.
pub proof fn lemma_set_keeps_others(store: DeviceDataView, id: u8, bytes: Seq<u8>, other: u8)
    requires
        other != id,
    ensures
        store.set_report(id, bytes).get_report(other) == store.get_report(other),
{
}

/// Storing a report does not change who the device is.
pub proof fn lemma_set_keeps_identity(store: DeviceDataView, id: u8, bytes: Seq<u8>)
    ensures
        store.set_report(id, bytes).identity() == store.identity(),
{
}

/// Storing the same report a second time changes nothing.
pub proof fn lemma_set_idempotent(store: DeviceDataView, id: u8, bytes: Seq<u8>)
    ensures
        store.set_report(id, bytes).set_report(id, bytes) == store.set_report(id, bytes),
{
    assert(store.set_report(id, bytes).set_report(id, bytes) =~= store.set_report(id, bytes));
}

/// An index under which no string is stored is answered with
/// `InvalidParameter`: an index that the store does not hold, and every
/// index above 255.
pub proof fn lemma_unknown_index(store: DeviceDataView, index: u32)
    requires
        index > 255 || !store.strings.contains_key(index as u8),
    ensures
        store.get_indexed_string(index) == Err::<Seq<char>, StoreError>(
            StoreError::InvalidParameter,
        ),
{
}

/// A report id under which nothing was stored is answered with `NotFound`.
pub proof fn lemma_get_unwritten(store: DeviceDataView, id: u8)
    requires
        !store.reports.contains_key(id),
    ensures
        store.get_report(id) == Err::<Seq<u8>, StoreError>(StoreError::NotFound),
{
}

} // verus!
