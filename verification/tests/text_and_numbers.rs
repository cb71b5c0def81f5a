use tabletop::num::{i64_to_string, int_error_message, parse_i32, parse_i64, parse_int, IntErrorKind};
use tabletop::text::{contains_text, is_blank, sort_texts, str_eq, text_is_before, trim, trimmed};
use tabletop::tools::form_parsing::{parse_choice, parse_i64_optional, parse_i64_required};
use tabletop::shared::{require_non_empty_trimmed, DataError, ErrorKind};

#[test]
fn parse_i64_follows_from_str() {
    assert_eq!(parse_i64("42"), Some(42));
    assert_eq!(parse_i64("+7"), Some(7));
    assert_eq!(parse_i64("-0"), Some(0));
    assert_eq!(parse_i64("-9223372036854775808"), Some(i64::MIN));
    assert_eq!(parse_i64("9223372036854775807"), Some(i64::MAX));
    assert_eq!(parse_i64("9223372036854775808"), None);
    assert_eq!(parse_i64(""), None);
    assert_eq!(parse_i64("-"), None);
    assert_eq!(parse_i64(" 1"), None);
    assert_eq!(parse_i64("1_000"), None);
    for s in ["0", "17", "-17", "+3", "x", "", "99999999999999999999"] {
        assert_eq!(parse_i64(s), s.parse::<i64>().ok(), "input {s:?}");
    }
}

#[test]
fn parse_int_reports_the_kinds_of_from_str() {
    assert_eq!(parse_int("", -128, 127), Err(IntErrorKind::Empty));
    assert_eq!(parse_int("+", -128, 127), Err(IntErrorKind::InvalidDigit));
    assert_eq!(parse_int("12a", -128, 127), Err(IntErrorKind::InvalidDigit));
    assert_eq!(parse_int("128", -128, 127), Err(IntErrorKind::PosOverflow));
    assert_eq!(parse_int("-129", -128, 127), Err(IntErrorKind::NegOverflow));
    assert_eq!(parse_int("-128", -128, 127), Ok(-128));
    for (s, k) in [
        ("", IntErrorKind::Empty),
        ("x", IntErrorKind::InvalidDigit),
        ("300", IntErrorKind::PosOverflow),
        ("-300", IntErrorKind::NegOverflow),
    ] {
        let e = s.parse::<i8>().unwrap_err();
        assert_eq!(int_error_message(k), e.to_string());
    }
}

#[test]
fn parse_i32_bounds() {
    assert_eq!(parse_i32("2147483647"), Some(i32::MAX));
    assert_eq!(parse_i32("2147483648"), None);
    assert_eq!(parse_i32("-2147483648"), Some(i32::MIN));
}

#[test]
fn i64_to_string_matches_display_and_reads_back() {
    for v in [0i64, 7, -7, 10, 1234567890, i64::MIN, i64::MAX, -1] {
        let s = i64_to_string(v);
        assert_eq!(s, v.to_string());
        assert_eq!(parse_i64(&s), Some(v));
    }
}

#[test]
fn trimming_and_blank_text() {
    assert_eq!(trim("  a b \t\n"), "a b");
    assert_eq!(trim("\u{3000}x\u{85}"), "x");
    assert_eq!(trimmed(" y "), "y".to_string());
    assert!(is_blank(" \t\r\n"));
    assert!(is_blank(""));
    assert!(!is_blank(" . "));
    assert!(str_eq("abc", "abc"));
    assert!(!str_eq("abc", "abd"));
}

#[test]
fn contains_text_is_substring_search() {
    assert!(contains_text("fire bolt", "bolt"));
    assert!(contains_text("fire bolt", ""));
    assert!(!contains_text("bolt", "bolts"));
    assert!(!contains_text("fire bolt", "Bolt"));
}

#[test]
fn required_identifiers_are_trimmed() {
    assert_eq!(require_non_empty_trimmed("name", "  Hero ").unwrap(), "Hero");
    let e = require_non_empty_trimmed("name", "   ").unwrap_err();
    assert_eq!(e.kind, ErrorKind::Invalid);
    assert_eq!(e.message(), "name must be non-empty");
}

#[test]
fn form_integers_required_and_optional() {
    assert_eq!(parse_i64_required("Strength", " 12 ").unwrap(), 12);
    assert_eq!(
        parse_i64_required("Strength", "  ").unwrap_err().message(),
        "Strength must not be empty"
    );
    let e = parse_i64_required("Strength", "1.5").unwrap_err();
    assert_eq!(e.message(), "Strength must be an integer");
    assert_eq!(e.text(), "Strength must be an integer: invalid digit found in string");
    assert_eq!(
        parse_i64_required("Damage", "99999999999999999999").unwrap_err().text(),
        "Damage must be an integer: number too large to fit in target type"
    );
    assert_eq!(parse_i64_optional("Target", "").unwrap(), None);
    assert_eq!(parse_i64_optional("Target", " -3").unwrap(), Some(-3));
    let e = parse_i64_optional("Target", "abc").unwrap_err();
    assert_eq!(e.message(), "Target must be an integer");
    assert_eq!(e.text(), "Target must be an integer: invalid digit found in string");
}

#[test]
fn form_choices_are_trimmed_and_labelled() {
    let parse = |s: &str| -> Result<u8, DataError> {
        if s == "A" {
            Ok(1)
        } else {
            Err(DataError::invalid("not A"))
        }
    };
    assert_eq!(parse_choice("Letter", " A ", parse).unwrap(), 1);
    assert_eq!(parse_choice("Letter", " ", parse).unwrap_err().message(), "Letter must not be empty");
    let e = parse_choice("Letter", "B", parse).unwrap_err();
    assert_eq!(e.message(), "Invalid Letter");
    assert_eq!(e.text(), "Invalid Letter: not A");
}

#[test]
fn texts_order_as_str_does() {
    assert!(text_is_before("0001_a.sql", "0002_a.sql"));
    assert!(text_is_before("abc", "abcd"));
    assert!(!text_is_before("abcd", "abc"));
    assert!(!text_is_before("same", "same"));
    assert!(text_is_before("Z", "a"));
    assert!(text_is_before("é", "😀"));
    let names = vec![
        "0010_tiles.sql".to_string(),
        "0002_items.sql".to_string(),
        "0001_init.sql".to_string(),
        "0002_items.sql".to_string(),
    ];
    let sorted = sort_texts(&names);
    let mut expected = names.clone();
    expected.sort();
    assert_eq!(sorted, expected);
    assert!(sort_texts(&Vec::new()).is_empty());
}
