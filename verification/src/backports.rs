//! UTF-16 as the host stores it in bytes, read without failing: whatever is
//! no UTF-16 becomes the replacement character.

use vstd::prelude::*;

verus! {

/// The character that stands for what could not be read.
pub const REPLACEMENT_CHARACTER: char = '\u{FFFD}';

/// Whether a unit is the first half of a pair.
pub open spec fn is_high_surrogate(unit: u16) -> bool {
    0xD800 <= unit <= 0xDBFF
}

/// Whether a unit is the second half of a pair.
pub open spec fn is_low_surrogate(unit: u16) -> bool {
    0xDC00 <= unit <= 0xDFFF
}

/// The character that a pair of units writes.
pub open spec fn pair_char(high: u16, low: u16) -> char {
    (0x10000 + (high - 0xD800) * 0x400 + (low - 0xDC00)) as char
}

/// The text that units of UTF-16 write.  A unit that is no half of a pair is
/// a character; a first half with a second half behind it is a character;
/// a half without its other half is the replacement character.
pub open spec fn utf16_lossy(units: Seq<u16>) -> Seq<char>
    decreases units.len(),
{
    if units.len() == 0 {
        Seq::empty()
    } else if !is_high_surrogate(units[0]) && !is_low_surrogate(units[0]) {
        seq![units[0] as char] + utf16_lossy(units.drop_first())
    } else if is_high_surrogate(units[0]) && units.len() > 1 && is_low_surrogate(units[1]) {
        seq![pair_char(units[0], units[1])] + utf16_lossy(units.skip(2))
    } else {
        seq![REPLACEMENT_CHARACTER] + utf16_lossy(units.drop_first())
    }
}

/// The units that bytes hold, two bytes to a unit with the low byte first.
/// A last byte without a partner holds no unit.
pub open spec fn le_units(bytes: Seq<u8>) -> Seq<u16> {
    Seq::new(bytes.len() / 2, |i: int| (bytes[2 * i] + 256 * bytes[2 * i + 1]) as u16)
}

/// The text that bytes of UTF-16 write: the text of their units, and the
/// replacement character for a last byte without a partner.
pub open spec fn spec_from_utf16le_lossy(bytes: Seq<u8>) -> Seq<char> {
    if bytes.len() % 2 == 1 {
        utf16_lossy(le_units(bytes)).push(REPLACEMENT_CHARACTER)
    } else {
        utf16_lossy(le_units(bytes))
    }
}

/// Calls `char::from_u32`.  Trusted: it gives the character with the given
/// number, and none where the number is that of a surrogate or lies above
/// 0x10FFFF.
#[verifier::external_body]
fn char_from_u32(code: u32) -> (c: Option<char>)
    ensures
        c is None <==> 0xD800 <= code <= 0xDFFF || code > 0x10FFFF,
        c matches Some(found) ==> found as u32 == code,
{
    char::from_u32(code)
}

/// Calls `String::from_iter` on the characters of a slice.  Trusted: the
/// string holds these characters in their order, and nothing else.
#[verifier::external_body]
pub(crate) fn string_from_chars(chars: &[char]) -> (text: String)
    ensures
        text@ == chars@,
{
    String::from_iter(chars)
}

/// The character with the given number, or the replacement character where
/// there is none.
fn char_or_replacement(code: u32) -> (c: char)
    ensures
        !(0xD800 <= code <= 0xDFFF || code > 0x10FFFF) ==> c as u32 == code,
        (0xD800 <= code <= 0xDFFF || code > 0x10FFFF) ==> c == REPLACEMENT_CHARACTER,
{
    match char_from_u32(code) {
        Some(c) => c,
        None => REPLACEMENT_CHARACTER,
    }
}

/// The units that bytes hold.
pub fn units_of(bytes: &[u8]) -> (units: Vec<u16>)
    ensures
        units@ == le_units(bytes@),
{
    let len = bytes.len();
    let count = len / 2;
    let mut units: Vec<u16> = Vec::new();
    let mut i: usize = 0;
    while i < count
        invariant
            i <= count,
            len == bytes@.len(),
            count == len / 2,
            units@ == le_units(bytes@).take(i as int),
        decreases count - i,
    {
        let unit: u16 = bytes[2 * i] as u16 + 256 * (bytes[2 * i + 1] as u16);
        units.push(unit);
        assert(units@ =~= le_units(bytes@).take(i + 1));
        i = i + 1;
    }
    assert(le_units(bytes@).take(count as int) =~= le_units(bytes@));
    units
}

/// Reads units of UTF-16.
pub fn decode_utf16_lossy(units: &Vec<u16>) -> (chars: Vec<char>)
    ensures
        chars@ == utf16_lossy(units@),
{
    let mut chars: Vec<char> = Vec::new();
    let mut i: usize = 0;
    assert(units@.skip(0) =~= units@);
    while i < units.len()
        invariant
            i <= units.len(),
            utf16_lossy(units@) == chars@ + utf16_lossy(units@.skip(i as int)),
        decreases units.len() - i,
    {
        let ghost rest = units@.skip(i as int);
        let ghost before = chars@;
        let unit = units[i];
        assert(rest[0] == unit);
        assert(rest.drop_first() =~= units@.skip(i + 1));
        if unit < 0xD800 || unit > 0xDFFF {
            let c = char_or_replacement(unit as u32);
            assert(c == unit as char);
            chars.push(c);
            assert(chars@ + utf16_lossy(units@.skip(i + 1)) =~= before + (seq![c] + utf16_lossy(
                units@.skip(i + 1),
            )));
            i = i + 1;
        } else if unit <= 0xDBFF && i + 1 < units.len() && units[i + 1] >= 0xDC00 && units[i + 1]
            <= 0xDFFF {
            let low = units[i + 1];
            assert(rest[1] == low);
            assert(rest.skip(2) =~= units@.skip(i + 2));
            let code: u32 = 0x10000 + (unit as u32 - 0xD800) * 0x400 + (low as u32 - 0xDC00);
            let c = char_or_replacement(code);
            assert(c == pair_char(unit, low));
            chars.push(c);
            assert(chars@ + utf16_lossy(units@.skip(i + 2)) =~= before + (seq![c] + utf16_lossy(
                units@.skip(i + 2),
            )));
            i = i + 2;
        } else {
            chars.push(REPLACEMENT_CHARACTER);
            assert(chars@ + utf16_lossy(units@.skip(i + 1)) =~= before + (seq![
                REPLACEMENT_CHARACTER,
            ] + utf16_lossy(units@.skip(i + 1))));
            i = i + 1;
        }
    }
    assert(units@.skip(units.len() as int) =~= Seq::<u16>::empty());
    assert(chars@ + Seq::<char>::empty() =~= chars@);
    chars
}

/// Reads bytes of UTF-16 as the characters they write.
pub fn chars_from_utf16le_lossy(v: &[u8]) -> (chars: Vec<char>)
    ensures
        chars@ == spec_from_utf16le_lossy(v@),
{
    let units = units_of(v);
    let mut chars = decode_utf16_lossy(&units);
    if v.len() % 2 == 1 {
        chars.push(REPLACEMENT_CHARACTER);
    }
    chars
}

/// Reads bytes of UTF-16 as a string.
pub fn from_utf16le_lossy(v: &[u8]) -> (text: String)
    ensures
        text@ == spec_from_utf16le_lossy(v@),
{
    let chars = chars_from_utf16le_lossy(v);
    string_from_chars(chars.as_slice())
}

} // verus!
