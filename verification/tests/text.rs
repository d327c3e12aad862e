use nut_hid_device::text::{contains, encode_utf16, parse_decimal, range_is, str_eq, to_chars};
use nut_hid_device::wire::{table_to_vec, u16s_to_le};

fn chars(text: &str) -> Vec<char> {
    text.chars().collect()
}

#[test]
fn characters_of_a_string() {
    assert_eq!(to_chars(""), chars(""));
    assert_eq!(to_chars("OL CHRG"), vec!['O', 'L', ' ', 'C', 'H', 'R', 'G']);
    assert_eq!(to_chars("é\u{1F50B}"), vec!['é', '\u{1F50B}']);
}

#[test]
fn strings_are_compared_by_their_characters() {
    assert!(str_eq("", ""));
    assert!(str_eq("nut", "nut"));
    assert!(!str_eq("nut", "nut "));
    assert!(!str_eq("nut", "Nut"));
    assert!(!str_eq("", "a"));
}

#[test]
fn ranges_are_compared() {
    let text = chars("OL CHRG");
    assert!(range_is(&text, 0, 2, &chars("OL")));
    assert!(range_is(&text, 3, 7, &chars("CHRG")));
    assert!(range_is(&text, 2, 2, &chars("")));
    assert!(!range_is(&text, 0, 2, &chars("OB")));
    assert!(!range_is(&text, 0, 3, &chars("OL")));
    assert!(!range_is(&text, 0, 2, &chars("OL ")));
}

#[test]
fn infix_search() {
    let hay = chars("ERR VAR-NOT-SUPPORTED");
    assert!(contains(&hay, &chars("VAR-NOT-SUPPORTED")));
    assert!(contains(&hay, &chars("ERR")));
    assert!(contains(&hay, &chars("D")));
    assert!(contains(&hay, &chars("")));
    assert!(contains(&hay, &hay));
    assert!(!contains(&hay, &chars("VAR-NOT-SUPPORTED ")));
    assert!(!contains(&hay, &chars("var-not-supported")));
    assert!(!contains(&chars(""), &chars("a")));
    assert!(contains(&chars(""), &chars("")));
    assert!(contains(&chars("aab"), &chars("ab")));
}

#[test]
fn decimal_numbers() {
    assert_eq!(parse_decimal(&chars("0"), 255), Some(0));
    assert_eq!(parse_decimal(&chars("255"), 255), Some(255));
    assert_eq!(parse_decimal(&chars("256"), 255), None);
    assert_eq!(parse_decimal(&chars("+7"), 255), Some(7));
    assert_eq!(parse_decimal(&chars("007"), 7), Some(7));
    assert_eq!(parse_decimal(&chars("8"), 7), None);
    assert_eq!(parse_decimal(&chars(""), 255), None);
    assert_eq!(parse_decimal(&chars("+"), 255), None);
    assert_eq!(parse_decimal(&chars("-7"), 255), None);
    assert_eq!(parse_decimal(&chars("7+"), 255), None);
    assert_eq!(parse_decimal(&chars("٣"), 255), None);
    assert_eq!(parse_decimal(&chars("12345678901234567"), 99_999_999_999_999_999), Some(12_345_678_901_234_567));
    assert_eq!(parse_decimal(&chars("1844674407370955160"), u64::MAX / 10 - 1), Some(1844674407370955160));
    assert_eq!(parse_decimal(&chars("1844674407370955161"), u64::MAX / 10 - 1), None);
    assert_eq!(parse_decimal(&chars("18446744073709551615"), u64::MAX), Some(u64::MAX));
    assert_eq!(parse_decimal(&chars("18446744073709551616"), u64::MAX), None);
    assert_eq!(parse_decimal(&chars("184467440737095516150"), u64::MAX), None);
    assert_eq!(parse_decimal(&chars("0"), 0), Some(0));
    assert_eq!(parse_decimal(&chars("1"), 0), None);
}

#[test]
fn utf16_units() {
    assert_eq!(encode_utf16(""), Vec::<u16>::new());
    assert_eq!(encode_utf16("0"), vec![0x30]);
    assert_eq!(encode_utf16("aé€"), vec![0x61, 0xe9, 0x20ac]);
    assert_eq!(encode_utf16("\u{ffff}"), vec![0xffff]);
    assert_eq!(encode_utf16("\u{10000}"), vec![0xd800, 0xdc00]);
    assert_eq!(encode_utf16("\u{1F50B}"), vec![0xd83d, 0xdd0b]);
    assert_eq!(encode_utf16("\u{10ffff}"), vec![0xdbff, 0xdfff]);
    for text in ["nut hid device", "MLC Microline Consulting AB", "žluťoučký kůň 🐎"] {
        assert_eq!(encode_utf16(text), text.encode_utf16().collect::<Vec<u16>>());
    }
}

#[test]
fn units_are_laid_out_low_byte_first() {
    assert_eq!(u16s_to_le(&vec![]), Vec::<u8>::new());
    assert_eq!(u16s_to_le(&vec![0x1234]), vec![0x34, 0x12]);
    assert_eq!(u16s_to_le(&vec![0x00ff, 0xff00, 0]), vec![0xff, 0, 0, 0xff, 0, 0]);
}

#[test]
fn tables_are_copied() {
    assert_eq!(table_to_vec(&[]), Vec::<u8>::new());
    assert_eq!(table_to_vec(&[1, 2, 3]), vec![1, 2, 3]);
}
