// Field-level decoding rules: an empty attribute value and an omitted
// attribute both mean "no value", and the boolean decoder accepts exactly
// the documented tokens.

use ib_flex::chars::chars_of_str;
use ib_flex::date::{parse_flex_date, Date};
use ib_flex::decimal::parse_decimal;
use ib_flex::decimal::Decimal;
use ib_flex::records::{opt_bool, opt_date, opt_dec, opt_str};
use ib_flex::xml::{Attr, Element};

fn elem_with(name: &str, value: &str) -> Element {
    Element {
        name: String::from("TestStruct"),
        attrs: vec![Attr { name: String::from(name), value: String::from(value) }],
        children: vec![],
    }
}

fn elem_without() -> Element {
    Element { name: String::from("TestStruct"), attrs: vec![], children: vec![] }
}

#[test]
fn test_empty_string_decimal() {
    let e = elem_with("value", "");
    let result = opt_dec(&e, "value", "TestStruct");
    assert!(result.is_ok());
    assert_eq!(result.unwrap(), None);
}

#[test]
fn test_valid_decimal() {
    let e = elem_with("value", "123.45");
    let result = opt_dec(&e, "value", "TestStruct");
    assert!(result.is_ok());
    assert_eq!(
        result.unwrap(),
        Some(Decimal { negative: false, mantissa: 12345, scale: 2 })
    );
}

#[test]
fn test_empty_string_date() {
    let e = elem_with("date", "");
    let result = opt_date(&e, "date", "TestStruct");
    assert!(result.is_ok());
    assert_eq!(result.unwrap(), None);
}

#[test]
fn test_empty_string_text() {
    let e = elem_with("text", "");
    let result = opt_str(&e, "text");
    assert_eq!(result, None);
}

#[test]
fn test_bool_y() {
    let e = elem_with("flag", "Y");
    let result = opt_bool(&e, "flag", "TestStruct");
    assert!(result.is_ok());
    assert_eq!(result.unwrap(), Some(true));
}

#[test]
fn test_bool_n() {
    let e = elem_with("flag", "N");
    let result = opt_bool(&e, "flag", "TestStruct");
    assert!(result.is_ok());
    assert_eq!(result.unwrap(), Some(false));
}

#[test]
fn test_bool_empty() {
    let e = elem_with("flag", "");
    let result = opt_bool(&e, "flag", "TestStruct");
    assert!(result.is_ok());
    assert_eq!(result.unwrap(), None);
}

#[test]
fn test_bool_missing() {
    let e = elem_without();
    let result = opt_bool(&e, "flag", "TestStruct");
    assert!(result.is_ok());
    assert_eq!(result.unwrap(), None);
}

#[test]
fn test_bool_invalid() {
    let e = elem_with("flag", "X");
    let result = opt_bool(&e, "flag", "TestStruct");
    assert!(result.is_err());
}

#[test]
fn boolean_accepts_exactly_the_documented_tokens() {
    // Exactly Y, y, N, n and the empty string are accepted; any other
    // token is an error, never a default.
    for (tok, expect) in [("Y", Some(true)), ("y", Some(true)), ("N", Some(false)),
        ("n", Some(false)), ("", None)] {
        let e = elem_with("flag", tok);
        assert_eq!(opt_bool(&e, "flag", "t").unwrap(), expect, "token {:?}", tok);
    }
    for tok in ["X", "true", "false", "YES", "NO", "1", "0", "yY", " Y"] {
        let e = elem_with("flag", tok);
        assert!(opt_bool(&e, "flag", "t").is_err(), "token {:?}", tok);
    }
}

#[test]
fn empty_and_omitted_optional_fields_decode_identically() {
    let empty = elem_with("f", "");
    let absent = elem_without();
    assert_eq!(opt_str(&empty, "f"), opt_str(&absent, "f"));
    assert_eq!(opt_dec(&empty, "f", "t").unwrap(), opt_dec(&absent, "f", "t").unwrap());
    assert_eq!(opt_date(&empty, "f", "t").unwrap(), opt_date(&absent, "f", "t").unwrap());
    assert_eq!(opt_bool(&empty, "f", "t").unwrap(), opt_bool(&absent, "f", "t").unwrap());
}

#[test]
fn date_decodes_both_textual_forms_identically() {
    let iso = chars_of_str("2025-01-15");
    let compact = chars_of_str("20250115");
    let a = parse_flex_date(&iso);
    let b = parse_flex_date(&compact);
    assert_eq!(a, b);
    assert_eq!(a, Some(Date { year: 2025, month: 1, day: 15 }));

    // A shape match that is not a real calendar date fails in both forms.
    assert_eq!(parse_flex_date(&chars_of_str("2025-02-30")), None);
    assert_eq!(parse_flex_date(&chars_of_str("20250230")), None);
    // The leap rule is honored.
    assert!(parse_flex_date(&chars_of_str("2024-02-29")).is_some());
    assert_eq!(parse_flex_date(&chars_of_str("2025-02-29")), None);
}

#[test]
fn decimal_round_trips_exactly() {
    for text in ["123456789.987654321", "0.10", "185.50", "-18551.00", "100", "0", "-0.000001"] {
        let d = parse_decimal(&chars_of_str(text)).unwrap();
        assert_eq!(d.to_text(), text, "round trip of {:?}", text);
    }
    // No binary floating-point drift on 18 significant digits.
    let d = parse_decimal(&chars_of_str("123456789.987654321")).unwrap();
    assert_eq!(d.mantissa, 123456789987654321);
    assert_eq!(d.scale, 9);
}
