//! The properties by which the configuration of a device travels from the
//! tool that creates the device to the driver that serves it.

use crate::backports::{
    is_high_surrogate, is_low_surrogate, le_units, pair_char, spec_from_utf16le_lossy,
    utf16_lossy,
};
use crate::text::{utf16, utf16_units};
use crate::wdf::{
    first_nul_at, property_holds_string, spec_property_u32, Status, DEVPROP_TYPE_STRING,
    DEVPROP_TYPE_UINT32,
};
use crate::wire::{serialize_u32, u16_le, u16s_le, u16s_to_le, u32_le};
use vstd::prelude::*;

verus! {

/// A globally unique id.
#[derive(Debug, Clone, Copy, PartialEq, Eq)]
pub struct Guid {
    pub data1: u32,
    pub data2: u16,
    pub data3: u16,
    pub data4: [u8; 8],
}

/// The store that keeps a property.
#[derive(Debug, Clone, Copy, PartialEq, Eq, Structural)]
pub enum PropertyStore {
    /// The store of the system.
    System,
}

/// The full name of a property: its store, the id of its category, its
/// number within the category, and no locale.
#[derive(Debug, Clone, Copy, PartialEq, Eq)]
pub struct CompKey {
    pub store: PropertyStore,
    pub fmtid: Guid,
    pub pid: u32,
}

/// A property: its name, its type and its content.
#[derive(Debug, PartialEq, Eq)]
pub struct Property {
    pub comp_key: CompKey,
    pub property_type: u32,
    pub buffer: Vec<u8>,
}

/// The number of the property that holds the host of the server.
pub const DEVPROP_NUTHID_KEY_HOST: u32 = 2;

/// The number of the property that holds the port of the server.
pub const DEVPROP_NUTHID_KEY_PORT: u32 = 3;

/// The category of the device's properties:
/// 53c0d411-cfb1-4d29-8f81-e705f3ac17a1.
pub fn devprop_nuthid_guid() -> (guid: Guid)
    ensures
        guid.data1 == 0x53c0d411,
        guid.data2 == 0xcfb1,
        guid.data3 == 0x4d29,
        guid.data4@ == seq![0x8fu8, 0x81u8, 0xe7u8, 0x05u8, 0xf3u8, 0xacu8, 0x17u8, 0xa1u8],
{
    let data4 = [0x8f, 0x81, 0xe7, 0x05, 0xf3, 0xac, 0x17, 0xa1];
    assert(data4@ =~= seq![0x8fu8, 0x81u8, 0xe7u8, 0x05u8, 0xf3u8, 0xacu8, 0x17u8, 0xa1u8]);
    Guid { data1: 0x53c0d411, data2: 0xcfb1, data3: 0x4d29, data4 }
}

/// The full name of a property in the store of the system.
pub fn get_comp_key(fmtid: Guid, pid: u32) -> (key: CompKey)
    ensures
        key == (CompKey { store: PropertyStore::System, fmtid, pid }),
{
    CompKey { store: PropertyStore::System, fmtid, pid }
}

/// Whether a character of `text` other than its last is zero.
pub open spec fn interior_nul(text: Seq<char>) -> bool {
    exists|i: int| 0 <= i < text.len() - 1 && text[i] == '\0'
}

/// A text as a wide C string: in UTF-16 with one unit of zero at its end.  A
/// text that ends in a zero already gets no second one.
pub open spec fn wide_c_string(text: Seq<char>) -> Seq<u16> {
    if text.len() > 0 && text.last() == '\0' {
        utf16(text)
    } else {
        utf16(text).push(0u16)
    }
}

/// The content of a string property.
pub open spec fn string_property_bytes(text: Seq<char>) -> Seq<u8> {
    u16s_le(wide_c_string(text))
}

/// Calls `U16CString::from_str` of `widestring` and, on what it gives,
/// `into_vec_with_nul`.  Trusted: a text with a zero before its last
/// character is refused; any other text is encoded in UTF-16 and ends in
/// exactly one unit of zero.
#[verifier::external_body]
fn to_wide_c_string(value: &str) -> (units: Option<Vec<u16>>)
    ensures
        match units {
            Some(u) => !interior_nul(value@) && u@ == wide_c_string(value@),
            None => interior_nul(value@),
        },
{
    match widestring::U16CString::from_str(value) {
        Ok(wide) => Some(wide.into_vec_with_nul()),
        Err(_) => None,
    }
}

/// The properties of a device that is about to be created.
#[derive(Debug)]
pub struct PropertiesStore {
    properties: Vec<Property>,
}

/// The mathematical content of a [`Property`].
pub struct PropertyView {
    pub comp_key: CompKey,
    pub property_type: u32,
    pub buffer: Seq<u8>,
}

impl View for Property {
    type V = PropertyView;

    open spec fn view(&self) -> PropertyView {
        PropertyView {
            comp_key: self.comp_key,
            property_type: self.property_type,
            buffer: self.buffer@,
        }
    }
}

impl View for PropertiesStore {
    type V = Seq<PropertyView>;

    closed spec fn view(&self) -> Seq<PropertyView> {
        self.properties@.map_values(|p: Property| p@)
    }
}

impl PropertiesStore {
    /// A store without properties.
    pub fn new() -> (store: PropertiesStore)
        ensures
            store@ == Seq::<PropertyView>::empty(),
    {
        let store = PropertiesStore { properties: Vec::new() };
        assert(store@ =~= Seq::<PropertyView>::empty());
        store
    }

    /// Whether `value` can be stored as a string property: no character but
    /// its last may be zero.
    pub fn accepts(value: &str) -> (accepted: bool)
        ensures
            accepted == !interior_nul(value@),
    {
        to_wide_c_string(value).is_some()
    }

    /// Adds a string property.
    pub fn add_string(&mut self, fmtid: Guid, pid: u32, value: &str)
        requires
            !interior_nul(value@),
        ensures
            final(self)@ == old(self)@.push(
                PropertyView {
                    comp_key: CompKey { store: PropertyStore::System, fmtid, pid },
                    property_type: DEVPROP_TYPE_STRING,
                    buffer: string_property_bytes(value@),
                },
            ),
    {
        let key = get_comp_key(fmtid, pid);
        let buffer = match to_wide_c_string(value) {
            Some(units) => u16s_to_le(&units),
            None => Vec::new(),
        };
        let property = Property { comp_key: key, property_type: DEVPROP_TYPE_STRING, buffer };
        self.properties.push(property);
        assert(self@ =~= old(self)@.push(property@));
    }

    /// Adds a property that holds a 32-bit number.
    pub fn add_u32(&mut self, fmtid: Guid, pid: u32, value: u32)
        ensures
            final(self)@ == old(self)@.push(
                PropertyView {
                    comp_key: CompKey { store: PropertyStore::System, fmtid, pid },
                    property_type: DEVPROP_TYPE_UINT32,
                    buffer: u32_le(value),
                },
            ),
    {
        let key = get_comp_key(fmtid, pid);
        let property = Property {
            comp_key: key,
            property_type: DEVPROP_TYPE_UINT32,
            buffer: serialize_u32(value),
        };
        self.properties.push(property);
        assert(self@ =~= old(self)@.push(property@));
    }

    /// The properties, in the order in which they were added.
    pub fn get(&self) -> (properties: &Vec<Property>)
        ensures
            properties@.map_values(|p: Property| p@) == self@,
    {
        &self.properties
    }
}

/// The bytes of units hold these units again.
pub proof fn lemma_units_of_bytes(units: Seq<u16>)
    ensures
        u16s_le(units).len() == 2 * units.len(),
        le_units(u16s_le(units)) == units,
    decreases units.len(),
{
    if units.len() > 0 {
        let front = units.drop_last();
        lemma_units_of_bytes(front);
        let bytes = u16s_le(units);
        assert(bytes == u16s_le(front) + u16_le(units.last()));
        assert forall|i: int| 0 <= i < units.len() implies le_units(bytes)[i] == units[i] by {
            if i < front.len() {
                assert(le_units(u16s_le(front))[i] == front[i]);
                assert(bytes[2 * i] == u16s_le(front)[2 * i]);
                assert(bytes[2 * i + 1] == u16s_le(front)[2 * i + 1]);
            } else {
                assert(bytes[2 * i] == u16_le(units.last())[0]);
                assert(bytes[2 * i + 1] == u16_le(units.last())[1]);
            }
        }
        assert(le_units(bytes) =~= units);
    } else {
        assert(le_units(u16s_le(units)) =~= units);
    }
}

/// The units of a character, read again, are the character, whatever
/// follows them.
pub proof fn lemma_read_character(c: char, rest: Seq<u16>)
    ensures
        utf16_lossy(utf16_units(c) + rest) == seq![c] + utf16_lossy(rest),
{
    let units = utf16_units(c) + rest;
    let code = c as u32;
    if code < 0x10000 {
        assert(units[0] == code as u16);
        assert(!is_high_surrogate(units[0]) && !is_low_surrogate(units[0]));
        assert(units[0] as char == c);
        assert(units.drop_first() =~= rest);
    } else {
        let high = (0xD800 + (code - 0x10000) / 0x400) as u16;
        let low = (0xDC00 + (code - 0x10000) % 0x400) as u16;
        assert(units[0] == high);
        assert(units[1] == low);
        assert(is_high_surrogate(high));
        assert(is_low_surrogate(low));
        assert(pair_char(high, low) == c);
        assert(units.skip(2) =~= rest);
    }
}

/// A text in UTF-16, read again, is the text, whatever follows it.
pub proof fn lemma_read_text(text: Seq<char>, rest: Seq<u16>)
    ensures
        utf16_lossy(utf16(text) + rest) == text + utf16_lossy(rest),
    decreases text.len(),
{
    if text.len() == 0 {
        assert(utf16(text) + rest =~= rest);
        assert(text + utf16_lossy(rest) =~= utf16_lossy(rest));
    } else {
        let front = text.drop_last();
        let c = text.last();
        assert(utf16(text) + rest =~= utf16(front) + (utf16_units(c) + rest));
        lemma_read_text(front, utf16_units(c) + rest);
        lemma_read_character(c, rest);
        assert(text + utf16_lossy(rest) =~= front + (seq![c] + utf16_lossy(rest)));
    }
}

/// What the tool stores, the driver reads: a string property that was made
/// of a text without a zero holds that text.
pub proof fn lemma_string_property_round_trip(text: Seq<char>)
    requires
        forall|i: int| 0 <= i < text.len() ==> text[i] != '\0',
    ensures
        property_holds_string(string_property_bytes(text), DEVPROP_TYPE_STRING, text),
{
    let units = utf16(text).push(0u16);
    assert(wide_c_string(text) == units);
    let bytes = string_property_bytes(text);
    lemma_units_of_bytes(units);
    assert(bytes.len() % 2 == 0);
    assert(units =~= utf16(text) + seq![0u16]);
    lemma_read_text(text, seq![0u16]);
    assert(utf16_lossy(seq![0u16]) =~= seq!['\0']) by {
        assert(seq![0u16].drop_first() =~= Seq::<u16>::empty());
        assert(utf16_lossy(Seq::<u16>::empty()) =~= Seq::<char>::empty());
        assert(0u16 as char == '\0');
    }
    let read = spec_from_utf16le_lossy(bytes);
    assert(read == text + seq!['\0']);
    assert(first_nul_at(read, text.len() as int));
    assert(read.take(text.len() as int) =~= text);
}

/// A number property that was made of a number holds that number.
pub proof fn lemma_u32_property_round_trip(value: u32)
    ensures
        spec_property_u32(u32_le(value), DEVPROP_TYPE_UINT32) == Ok::<u32, Status>(value),
{
}

} // verus!
