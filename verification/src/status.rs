//! The present-status bitfield and the identification record, with their
//! layout on the wire.

use crate::text::{range_is, str_eq, to_chars};
use crate::wire::{serialize_u16, u16_le};
use vstd::prelude::*;

verus! {

/// A record that is sent as a fixed sequence of bytes.
pub trait Packed {
    /// The bytes of the record, in the order in which they are sent.
    spec fn wire(&self) -> Seq<u8>;

    /// Lays the record out as bytes.
    fn pack(&self) -> (bytes: Vec<u8>)
        ensures
            bytes@ == self.wire(),
    ;
}

/// The bytes of a record.
pub fn struct_to_vec<T: Packed>(data: T) -> (bytes: Vec<u8>)
    ensures
        bytes@ == data.wire(),
{
    data.pack()
}

/// The flags of the present-status report.  The first field is bit 0 of the
/// first byte, the ninth is bit 0 of the second byte.
#[derive(Debug, Clone, Copy, PartialEq, Eq, Structural)]
pub struct PresentStatus {
    pub charging: bool,
    pub discharging: bool,
    pub ac_present: bool,
    pub battery_present: bool,
    pub below_remaining_capacity_limit: bool,
    pub remaining_time_limit_expired: bool,
    pub need_replacement: bool,
    pub voltage_not_regulated: bool,
    pub fully_charged: bool,
    pub fully_discharged: bool,
    pub shutdown_requested: bool,
    pub shutdown_imminent: bool,
    pub communication_lost: bool,
    pub overload: bool,
    pub unused1: bool,
    pub unused2: bool,
}

/// What a flag adds to the bitfield: its weight where it is set, else
/// nothing.
pub open spec fn flag(set: bool, weight: int) -> int {
    if set {
        weight
    } else {
        0
    }
}

impl PresentStatus {
    /// The status in which no flag is set.
    pub open spec fn cleared() -> PresentStatus {
        PresentStatus {
            charging: false,
            discharging: false,
            ac_present: false,
            battery_present: false,
            below_remaining_capacity_limit: false,
            remaining_time_limit_expired: false,
            need_replacement: false,
            voltage_not_regulated: false,
            fully_charged: false,
            fully_discharged: false,
            shutdown_requested: false,
            shutdown_imminent: false,
            communication_lost: false,
            overload: false,
            unused1: false,
            unused2: false,
        }
    }

    /// The status that reports nothing but lost communication.
    pub open spec fn lost() -> PresentStatus {
        PresentStatus { communication_lost: true, ..Self::cleared() }
    }

    /// The first byte on the wire: the first eight flags, the first of them
    /// at bit 0.
    pub open spec fn low_byte(self) -> int {
        flag(self.charging, 0x01) + flag(self.discharging, 0x02) + flag(self.ac_present, 0x04)
            + flag(self.battery_present, 0x08) + flag(self.below_remaining_capacity_limit, 0x10)
            + flag(self.remaining_time_limit_expired, 0x20) + flag(self.need_replacement, 0x40)
            + flag(self.voltage_not_regulated, 0x80)
    }

    /// The second byte on the wire: the last eight flags, the first of them
    /// at bit 0.
    pub open spec fn high_byte(self) -> int {
        flag(self.fully_charged, 0x01) + flag(self.fully_discharged, 0x02) + flag(
            self.shutdown_requested,
            0x04,
        ) + flag(self.shutdown_imminent, 0x08) + flag(self.communication_lost, 0x10) + flag(
            self.overload,
            0x20,
        ) + flag(self.unused1, 0x40) + flag(self.unused2, 0x80)
    }

    /// The flags as a 16-bit number: the first field is bit 0, the last is
    /// bit 15.
    pub open spec fn bits(self) -> int {
        self.low_byte() + 256 * self.high_byte()
    }

    /// The first byte on the wire.
    fn to_low_byte(&self) -> (byte: u16)
        ensures
            byte == self.low_byte(),
            byte <= 0xff,
    {
        let a: u16 = weigh(self.charging, 0x01) + weigh(self.discharging, 0x02);
        let b: u16 = weigh(self.ac_present, 0x04) + weigh(self.battery_present, 0x08);
        let c: u16 = weigh(self.below_remaining_capacity_limit, 0x10) + weigh(
            self.remaining_time_limit_expired,
            0x20,
        );
        let d: u16 = weigh(self.need_replacement, 0x40) + weigh(self.voltage_not_regulated, 0x80);
        a + b + c + d
    }

    /// The second byte on the wire.
    fn to_high_byte(&self) -> (byte: u16)
        ensures
            byte == self.high_byte(),
            byte <= 0xff,
    {
        let a: u16 = weigh(self.fully_charged, 0x01) + weigh(self.fully_discharged, 0x02);
        let b: u16 = weigh(self.shutdown_requested, 0x04) + weigh(self.shutdown_imminent, 0x08);
        let c: u16 = weigh(self.communication_lost, 0x10) + weigh(self.overload, 0x20);
        let d: u16 = weigh(self.unused1, 0x40) + weigh(self.unused2, 0x80);
        a + b + c + d
    }

    /// The flags as a 16-bit number.
    pub fn to_bits(&self) -> (bits: u16)
        ensures
            bits == self.bits(),
    {
        self.to_low_byte() + 256 * self.to_high_byte()
    }
}

/// What a flag adds to the bitfield.
fn weigh(set: bool, weight: u16) -> (w: u16)
    ensures
        w == flag(set, weight as int),
        w <= weight,
{
    if set {
        weight
    } else {
        0
    }
}

impl Default for PresentStatus {
    fn default() -> (status: PresentStatus)
        ensures
            status == PresentStatus::cleared(),
    {
        PresentStatus {
            charging: false,
            discharging: false,
            ac_present: false,
            battery_present: false,
            below_remaining_capacity_limit: false,
            remaining_time_limit_expired: false,
            need_replacement: false,
            voltage_not_regulated: false,
            fully_charged: false,
            fully_discharged: false,
            shutdown_requested: false,
            shutdown_imminent: false,
            communication_lost: false,
            overload: false,
            unused1: false,
            unused2: false,
        }
    }
}

impl Packed for PresentStatus {
    /// Two bytes: the flags as a 16-bit number, low byte first.
    open spec fn wire(&self) -> Seq<u8> {
        u16_le(self.bits() as u16)
    }

    fn pack(&self) -> (bytes: Vec<u8>) {
        serialize_u16(self.to_bits())
    }
}

/// The indices of the strings that identify the device.
#[derive(Debug, Clone, Copy, PartialEq, Eq, Structural)]
pub struct Identification {
    pub i_product: u8,
    pub i_manufacturer: u8,
    pub i_serial: u8,
}

impl Default for Identification {
    fn default() -> (id: Identification)
        ensures
            id == (Identification { i_product: 0, i_manufacturer: 0, i_serial: 0 }),
    {
        Identification { i_product: 0, i_manufacturer: 0, i_serial: 0 }
    }
}

impl Packed for Identification {
    /// Three bytes: the indices of the product, the manufacturer and the
    /// serial number string.
    open spec fn wire(&self) -> Seq<u8> {
        seq![self.i_product, self.i_manufacturer, self.i_serial]
    }

    fn pack(&self) -> (bytes: Vec<u8>) {
        let mut bytes: Vec<u8> = Vec::new();
        bytes.push(self.i_product);
        bytes.push(self.i_manufacturer);
        bytes.push(self.i_serial);
        assert(bytes@ =~= self.wire());
        bytes
    }
}

/// Whether a character separates tokens: the characters that Unicode calls
/// white space.
pub open spec fn is_space(c: char) -> bool {
    ||| '\u{0009}' <= c <= '\u{000D}'
    ||| c == ' '
    ||| c == '\u{0085}'
    ||| c == '\u{00A0}'
    ||| c == '\u{1680}'
    ||| '\u{2000}' <= c <= '\u{200A}'
    ||| c == '\u{2028}'
    ||| c == '\u{2029}'
    ||| c == '\u{202F}'
    ||| c == '\u{205F}'
    ||| c == '\u{3000}'
}

/// Whether a character separates tokens.
pub fn is_whitespace(c: char) -> (space: bool)
    ensures
        space == is_space(c),
{
    ('\u{0009}' <= c && c <= '\u{000D}') || c == ' ' || c == '\u{0085}' || c == '\u{00A0}' || c
        == '\u{1680}' || ('\u{2000}' <= c && c <= '\u{200A}') || c == '\u{2028}' || c
        == '\u{2029}' || c == '\u{202F}' || c == '\u{205F}' || c == '\u{3000}'
}

/// Whether a token of `text` reaches from `start` up to `end`: one or more
/// characters, none of them white space, with white space or an end of the
/// text on either side.
pub open spec fn token_at(text: Seq<char>, start: int, end: int) -> bool {
    &&& 0 <= start < end <= text.len()
    &&& (start == 0 || is_space(text[start - 1]))
    &&& (end == text.len() || is_space(text[end]))
    &&& forall|k: int| start <= k < end ==> !is_space(text[k])
}

/// The tokens of a status text, as a set: neither their order nor how often
/// one occurs is part of it.
pub open spec fn status_tokens(text: Seq<char>) -> Set<Seq<char>> {
    Set::new(
        |word: Seq<char>|
            exists|start: int, end: int|
                #[trigger] token_at(text, start, end) && text.subrange(start, end) == word,
    )
}

/// Whether `ranges` holds the range from `start` up to `end`.
spec fn lists(ranges: Seq<(usize, usize)>, start: int, end: int) -> bool {
    exists|k: int| 0 <= k < ranges.len() && (#[trigger] ranges[k]).0 == start && ranges[k].1 == end
}

/// Whether `ranges` holds the places of all tokens of `text`, and nothing
/// else.
spec fn places_of_tokens(ranges: Seq<(usize, usize)>, text: Seq<char>) -> bool {
    &&& forall|k: int|
        0 <= k < ranges.len() ==> token_at(text, (#[trigger] ranges[k]).0 as int, ranges[k].1 as int)
    &&& forall|start: int, end: int| #[trigger]
        token_at(text, start, end) ==> lists(ranges, start, end)
}

/// The tokens of a status text.
pub struct TokenSet {
    text: Vec<char>,
    ranges: Vec<(usize, usize)>,
}

impl View for TokenSet {
    type V = Set<Seq<char>>;

    closed spec fn view(&self) -> Set<Seq<char>> {
        status_tokens(self.text@)
    }
}

impl TokenSet {
    #[verifier::type_invariant]
    spec fn well_formed(&self) -> bool {
        places_of_tokens(self.ranges@, self.text@)
    }

    /// Splits a status text into its tokens.
    pub fn parse(status: &str) -> (tokens: TokenSet)
        ensures
            tokens@ == status_tokens(status@),
    {
        let text = to_chars(status);
        let n = text.len();
        let mut ranges: Vec<(usize, usize)> = Vec::new();
        let mut start: usize = 0;
        let mut i: usize = 0;
        while i < n
            invariant
                n == text.len(),
                start <= i <= n,
                start == 0 || is_space(text@[start - 1]),
                forall|k: int| start <= k < i ==> !is_space(text@[k]),
                forall|k: int|
                    0 <= k < ranges.len() ==> token_at(
                        text@,
                        (#[trigger] ranges[k]).0 as int,
                        ranges[k].1 as int,
                    ),
                forall|a: int, b: int| #[trigger]
                    token_at(text@, a, b) && a < start ==> lists(ranges@, a, b),
            decreases n - i,
        {
            if is_whitespace(text[i]) {
                let ghost before = ranges@;
                if start < i {
                    ranges.push((start, i));
                    assert(ranges@[before.len() as int] == (start, i));
                    assert(lists(ranges@, start as int, i as int));
                }
                assert forall|a: int, b: int| #[trigger]
                    token_at(text@, a, b) && a < i + 1 implies lists(ranges@, a, b) by {
                    if a < start {
                        assert(lists(before, a, b));
                        let k = choose|k: int|
                            0 <= k < before.len() && (#[trigger] before[k]).0 == a && before[k].1
                                == b;
                        assert(ranges@[k] == before[k]);
                    } else if a == start {
                        if b < i {
                            assert(!is_space(text@[b]));
                        }
                        if b > i {
                            assert(is_space(text@[i as int]));
                        }
                        assert(b == i);
                    } else {
                        assert(is_space(text@[a - 1]));
                    }
                }
                start = i + 1;
            }
            i = i + 1;
        }
        let ghost before = ranges@;
        if start < n {
            ranges.push((start, n));
            assert(ranges@[before.len() as int] == (start, n));
            assert(lists(ranges@, start as int, n as int));
        }
        assert forall|a: int, b: int| #[trigger] token_at(text@, a, b) implies lists(
            ranges@,
            a,
            b,
        ) by {
            if a < start {
                assert(lists(before, a, b));
                let k = choose|k: int|
                    0 <= k < before.len() && (#[trigger] before[k]).0 == a && before[k].1 == b;
                assert(ranges@[k] == before[k]);
            } else if a == start {
                if b < n {
                    assert(!is_space(text@[b]));
                }
                assert(b == n);
            } else {
                assert(is_space(text@[a - 1]));
            }
        }
        TokenSet { text, ranges }
    }

    /// Whether `word` is one of the tokens.
    pub fn contains(&self, word: &str) -> (found: bool)
        ensures
            found == self@.contains(word@),
    {
        proof {
            use_type_invariant(self);
        }
        let chars = to_chars(word);
        let mut k: usize = 0;
        while k < self.ranges.len()
            invariant
                chars@ == word@,
                k <= self.ranges.len(),
                places_of_tokens(self.ranges@, self.text@),
                forall|j: int|
                    0 <= j < k ==> self.text@.subrange(
                        (#[trigger] self.ranges[j]).0 as int,
                        self.ranges[j].1 as int,
                    ) != chars@,
            decreases self.ranges.len() - k,
        {
            let (start, end) = self.ranges[k];
            assert(token_at(self.text@, self.ranges[k as int].0 as int, self.ranges[k as int].1 as int));
            if range_is(&self.text, start, end, &chars) {
                assert(token_at(self.text@, start as int, end as int));
                assert(self@.contains(self.text@.subrange(start as int, end as int)));
                return true;
            }
            k = k + 1;
        }
        assert forall|start: int, end: int| #[trigger]
            token_at(self.text@, start, end) implies self.text@.subrange(start, end) != word@ by {
            assert(lists(self.ranges@, start, end));
        }
        false
    }

    /// Whether there is no token at all.
    pub fn is_empty(&self) -> (empty: bool)
        ensures
            empty == (self@ == Set::<Seq<char>>::empty()),
    {
        proof {
            use_type_invariant(self);
        }
        if self.ranges.len() == 0 {
            assert forall|start: int, end: int| !#[trigger] token_at(self.text@, start, end) by {
                if token_at(self.text@, start, end) {
                    assert(lists(self.ranges@, start, end));
                }
            }
            assert(self@ =~= Set::<Seq<char>>::empty());
            true
        } else {
            let ghost start = self.ranges[0].0 as int;
            let ghost end = self.ranges[0].1 as int;
            assert(token_at(self.text@, start, end));
            assert(self@.contains(self.text@.subrange(start, end)));
            false
        }
    }
}

impl PresentStatus {
    /// The status that a set of tokens and the charger's status stand for.
    /// `remaining_time_limit_expired` and the flags not named here are never
    /// set.
    pub open spec fn encode(tokens: Set<Seq<char>>, charger: Seq<char>) -> PresentStatus {
        PresentStatus {
            charging: tokens.contains("CHRG"@) || charger == "charging"@,
            discharging: tokens.contains("DISCHRG"@) || charger == "discharging"@,
            ac_present: tokens.contains("OL"@),
            battery_present: !tokens.contains("BYPASS"@),
            below_remaining_capacity_limit: tokens.contains("LB"@),
            need_replacement: tokens.contains("RB"@),
            fully_charged: tokens.contains("HB"@),
            communication_lost: tokens.contains("OFF"@) || tokens.contains("WAIT"@) || tokens
                == Set::<Seq<char>>::empty(),
            overload: tokens.contains("OVER"@),
            ..PresentStatus::cleared()
        }
    }

    /// The status that a status text and the charger's status stand for.
    pub open spec fn spec_from_status(ups_status: Seq<char>, charger: Seq<char>) -> PresentStatus {
        Self::encode(status_tokens(ups_status), charger)
    }

    /// Encodes the status text of the power supply, a list of tokens with
    /// white space between them, and the status of its charger.
    pub fn from_status(ups_status: &str, battery_charger_status: &str) -> (status: PresentStatus)
        ensures
            status == Self::spec_from_status(ups_status@, battery_charger_status@),
    {
        let values = TokenSet::parse(ups_status);
        PresentStatus {
            charging: values.contains("CHRG") || str_eq(battery_charger_status, "charging"),
            discharging: values.contains("DISCHRG") || str_eq(
                battery_charger_status,
                "discharging",
            ),
            ac_present: values.contains("OL"),
            overload: values.contains("OVER"),
            fully_charged: values.contains("HB"),
            below_remaining_capacity_limit: values.contains("LB"),
            communication_lost: values.contains("OFF") || values.contains("WAIT")
                || values.is_empty(),
            battery_present: !values.contains("BYPASS"),
            need_replacement: values.contains("RB"),
            remaining_time_limit_expired: false,
            voltage_not_regulated: false,
            fully_discharged: false,
            shutdown_requested: false,
            shutdown_imminent: false,
            unused1: false,
            unused2: false,
        }
    }
}

/// Two status texts with the same tokens, in whatever order and however often
/// repeated, are encoded alike.
pub proof fn lemma_same_tokens_same_status(a: Seq<char>, b: Seq<char>, charger: Seq<char>)
    requires
        status_tokens(a) == status_tokens(b),
    ensures
        PresentStatus::spec_from_status(a, charger) == PresentStatus::spec_from_status(b, charger),
{
}

/// Whether `word` can be a token: it has a character, and no white space.
pub open spec fn is_word(word: Seq<char>) -> bool {
    word.len() > 0 && forall|k: int| 0 <= k < word.len() ==> !is_space(word[k])
}

/// The status text that lists `words` in their order, with one space between
/// each two of them.
pub open spec fn join(words: Seq<Seq<char>>) -> Seq<char>
    decreases words.len(),
{
    if words.len() == 0 {
        Seq::empty()
    } else if words.len() == 1 {
        words[0]
    } else {
        words[0] + seq![' '] + join(words.drop_first())
    }
}

/// A text without characters has no token.
pub proof fn lemma_tokens_of_nothing()
    ensures
        status_tokens(Seq::empty()) == Set::<Seq<char>>::empty(),
{
    assert(status_tokens(Seq::empty()) =~= Set::<Seq<char>>::empty());
}

/// A text that is one word has that word as its one token.
pub proof fn lemma_tokens_of_word(word: Seq<char>)
    requires
        is_word(word),
    ensures
        status_tokens(word) == Set::<Seq<char>>::empty().insert(word),
{
    let tokens = status_tokens(word);
    assert(token_at(word, 0, word.len() as int));
    assert(word.subrange(0, word.len() as int) =~= word);
    assert(tokens.contains(word));
    assert forall|other: Seq<char>| tokens.contains(other) implies other == word by {
        let (a, b) = choose|a: int, b: int| #[trigger]
            token_at(word, a, b) && word.subrange(a, b) == other;
        if a > 0 {
            assert(!is_space(word[a - 1]));
        }
        if b < word.len() {
            assert(!is_space(word[b]));
        }
    }
    assert(tokens =~= Set::<Seq<char>>::empty().insert(word));
}

/// A word in front of a text, with a space between them, adds itself to the
/// tokens of the text and changes nothing else.
pub proof fn lemma_tokens_of_word_and_text(word: Seq<char>, rest: Seq<char>)
    requires
        is_word(word),
    ensures
        status_tokens(word + seq![' '] + rest) == status_tokens(rest).insert(word),
{
    let text = word + seq![' '] + rest;
    let n = word.len() as int;
    let tokens = status_tokens(text);
    let expected = status_tokens(rest).insert(word);
    assert(is_space(text[n]));
    assert forall|k: int| 0 <= k < n implies text[k] == word[k] by {}
    assert forall|k: int| 0 <= k < rest.len() implies text[n + 1 + k] == rest[k] by {}
    assert forall|other: Seq<char>| expected.contains(other) implies tokens.contains(other) by {
        if other == word {
            assert(token_at(text, 0, n));
            assert(text.subrange(0, n) =~= word);
        } else {
            let (a, b) = choose|a: int, b: int| #[trigger]
                token_at(rest, a, b) && rest.subrange(a, b) == other;
            assert(token_at(text, a + n + 1, b + n + 1)) by {
                if a > 0 {
                    assert(text[n + 1 + (a - 1)] == rest[a - 1]);
                }
                if b < rest.len() {
                    assert(text[n + 1 + b] == rest[b]);
                }
                assert forall|k: int| a + n + 1 <= k < b + n + 1 implies !is_space(text[k]) by {
                    assert(text[n + 1 + (k - n - 1)] == rest[k - n - 1]);
                }
            }
            assert(text.subrange(a + n + 1, b + n + 1) =~= rest.subrange(a, b)) by {
                assert forall|k: int| 0 <= k < b - a implies text.subrange(a + n + 1, b + n + 1)[k]
                    == rest.subrange(a, b)[k] by {
                    assert(text[n + 1 + (a + k)] == rest[a + k]);
                }
            }
        }
    }
    assert forall|other: Seq<char>| tokens.contains(other) implies expected.contains(other) by {
        let (a, b) = choose|a: int, b: int| #[trigger]
            token_at(text, a, b) && text.subrange(a, b) == other;
        if a <= n {
            if a > 0 {
                assert(text[a - 1] == word[a - 1]);
            }
            assert(a == 0);
            if b > n {
                assert(is_space(text[n]));
            }
            if b < n {
                assert(text[b] == word[b]);
            }
            assert(b == n);
            assert(text.subrange(0, n) =~= word);
        } else {
            assert(token_at(rest, a - n - 1, b - n - 1)) by {
                if a - n - 1 > 0 {
                    assert(text[n + 1 + (a - n - 2)] == rest[a - n - 2]);
                }
                if b - n - 1 < rest.len() {
                    assert(text[n + 1 + (b - n - 1)] == rest[b - n - 1]);
                }
                assert forall|k: int| a - n - 1 <= k < b - n - 1 implies !is_space(rest[k]) by {
                    assert(text[n + 1 + k] == rest[k]);
                }
            }
            assert(rest.subrange(a - n - 1, b - n - 1) =~= text.subrange(a, b)) by {
                assert forall|k: int| 0 <= k < b - a implies rest.subrange(a - n - 1, b - n - 1)[k]
                    == text.subrange(a, b)[k] by {
                    assert(text[n + 1 + (a - n - 1 + k)] == rest[a - n - 1 + k]);
                }
            }
            assert(status_tokens(rest).contains(other));
        }
    }
    assert(tokens =~= expected);
}

/// The tokens of a list of words are the words: the text does not remember
/// their order, nor how often a word was listed.
pub proof fn lemma_tokens_of_join(words: Seq<Seq<char>>)
    requires
        forall|i: int| 0 <= i < words.len() ==> is_word(#[trigger] words[i]),
    ensures
        status_tokens(join(words)) == words.to_set(),
    decreases words.len(),
{
    if words.len() == 0 {
        lemma_tokens_of_nothing();
        assert(words.to_set() =~= Set::<Seq<char>>::empty());
    } else if words.len() == 1 {
        lemma_tokens_of_word(words[0]);
        assert(words.to_set() =~= Set::<Seq<char>>::empty().insert(words[0])) by {
            assert(words.contains(words[0]));
        }
    } else {
        let rest = words.drop_first();
        assert forall|i: int| 0 <= i < rest.len() implies is_word(#[trigger] rest[i]) by {
            assert(rest[i] == words[i + 1]);
        }
        lemma_tokens_of_join(rest);
        lemma_tokens_of_word_and_text(words[0], join(rest));
        assert(words.to_set() =~= rest.to_set().insert(words[0])) by {
            assert forall|w: Seq<char>| words.contains(w) implies rest.to_set().insert(
                words[0],
            ).contains(w) by {
                let i = choose|i: int| 0 <= i < words.len() && words[i] == w;
                if i > 0 {
                    assert(rest[i - 1] == w);
                }
            }
            assert forall|w: Seq<char>| rest.to_set().insert(words[0]).contains(
                w,
            ) implies words.contains(w) by {
                if w == words[0] {
                    assert(words[0] == w);
                } else {
                    let i = choose|i: int| 0 <= i < rest.len() && rest[i] == w;
                    assert(words[i + 1] == w);
                }
            }
        }
    }
}

/// The encoding does not depend on the order of the tokens: two lists of the
/// same words, each in an order of its own and each word as often as it
/// likes, are encoded alike.
pub proof fn lemma_order_independent(a: Seq<Seq<char>>, b: Seq<Seq<char>>, charger: Seq<char>)
    requires
        forall|i: int| 0 <= i < a.len() ==> is_word(#[trigger] a[i]),
        forall|i: int| 0 <= i < b.len() ==> is_word(#[trigger] b[i]),
        a.to_set() == b.to_set(),
    ensures
        PresentStatus::spec_from_status(join(a), charger) == PresentStatus::spec_from_status(
            join(b),
            charger,
        ),
{
    lemma_tokens_of_join(a);
    lemma_tokens_of_join(b);
}

/// Every permutation of a list of tokens is encoded like the list.
pub proof fn lemma_permutation_same_status(
    a: Seq<Seq<char>>,
    b: Seq<Seq<char>>,
    charger: Seq<char>,
)
    requires
        forall|i: int| 0 <= i < a.len() ==> is_word(#[trigger] a[i]),
        a.to_multiset() == b.to_multiset(),
    ensures
        PresentStatus::spec_from_status(join(a), charger) == PresentStatus::spec_from_status(
            join(b),
            charger,
        ),
{
    a.to_multiset_ensures();
    b.to_multiset_ensures();
    assert forall|w: Seq<char>| a.to_set().contains(w) == b.to_set().contains(w) by {
        let in_a = a.to_multiset().count(w) > 0;
        let in_b = b.to_multiset().count(w) > 0;
        assert(in_a == in_b);
        assert(a.contains(w) == in_a);
        assert(b.contains(w) == in_b);
    }
    assert(a.to_set() =~= b.to_set());
    assert forall|i: int| 0 <= i < b.len() implies is_word(#[trigger] b[i]) by {
        assert(b.contains(b[i]));
        assert(b.to_set().contains(b[i]));
        assert(a.to_set().contains(b[i]));
        assert(a.contains(b[i]));
        let k = choose|k: int| 0 <= k < a.len() && a[k] == b[i];
        assert(is_word(a[k]));
    }
    lemma_order_independent(a, b, charger);
}

} // verus!
