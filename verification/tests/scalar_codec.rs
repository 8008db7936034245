use futures_wire::codec::{
    decode_boolean_from_string_or_native, decode_exact_number, decode_exact_number_optional,
    decode_integer_from_string_or_number, encode_exact_number, exact_number_from_parse,
};
use futures_wire::errors::Error;
use futures_wire::json::JsonValue;
use futures_wire::number::ExactNumericValue;

fn num(mantissa: i128, scale: u32) -> ExactNumericValue {
    ExactNumericValue::new(mantissa, scale).expect("a number that fits")
}

fn text(s: &str) -> JsonValue {
    JsonValue::Text(s.to_string())
}

fn number(s: &str) -> JsonValue {
    JsonValue::Number(s.to_string())
}

#[test]
fn a_quoted_number_decodes_to_its_digits_and_scale() {
    assert_eq!(decode_exact_number(&text("0.01")), Ok(num(1, 2)));
    assert_eq!(decode_exact_number(&text("100000")), Ok(num(100000, 0)));
    assert_eq!(decode_exact_number(&text("-7.250")), Ok(num(-7250, 3)));
    assert_eq!(decode_exact_number(&text("0")), Ok(num(0, 0)));
    assert_eq!(decode_exact_number(&text("0.00000000")), Ok(num(0, 8)));
}

#[test]
fn a_json_number_decodes_to_its_digits_and_scale() {
    assert_eq!(decode_exact_number(&number("0.01")), Ok(num(1, 2)));
    assert_eq!(decode_exact_number(&number("42")), Ok(num(42, 0)));
    assert_eq!(decode_exact_number(&number("-0.5")), Ok(num(-5, 1)));
}

#[test]
fn a_string_and_a_number_of_the_same_text_decode_alike() {
    for literal in ["0.01", "1", "-3.1400", "123456789.123456789", "0.000", "9999999999999999999"] {
        assert_eq!(decode_exact_number(&text(literal)), decode_exact_number(&number(literal)));
        assert!(decode_exact_number(&text(literal)).is_ok());
    }
}

#[test]
fn a_string_and_a_number_of_the_same_quantity_decode_to_the_same_value() {
    let quoted = decode_exact_number(&text("1.50")).unwrap();
    let bare = decode_exact_number(&number("1.5")).unwrap();
    assert_eq!(quoted, num(150, 2));
    assert_eq!(bare, num(15, 1));
    assert!(quoted.same_value_as(&bare));
    assert!(bare.same_value_as(&quoted));
    for (quoted, bare) in [("0.010", "0.01"), ("100", "100.000"), ("-2.50", "-2.5"), ("0", "0.00"), ("7", "7")] {
        let from_text = decode_exact_number(&text(quoted)).unwrap();
        let from_number = decode_exact_number(&number(bare)).unwrap();
        assert!(from_text.same_value_as(&from_number), "{quoted} and {bare}");
    }
    let other = decode_exact_number(&number("1.51")).unwrap();
    assert!(!quoted.same_value_as(&other));
}

#[test]
fn no_digit_is_lost_where_a_binary_fraction_would_lose_one() {
    assert_eq!(decode_exact_number(&number("0.1")), Ok(num(1, 1)));
    assert_eq!(decode_exact_number(&number("0.3")), Ok(num(3, 1)));
    assert_eq!(
        decode_exact_number(&number("1234567890.123456789012345678")),
        Ok(num(1234567890123456789012345678, 18))
    );
    assert_eq!(
        decode_exact_number(&text("0.1000000000000000055511151231")),
        Ok(num(1000000000000000055511151231, 28))
    );
}

#[test]
fn what_is_no_number_is_a_malformed_number() {
    for value in [
        JsonValue::Null,
        JsonValue::Bool(true),
        JsonValue::Array(vec![number("1")]),
        JsonValue::Object(vec![("price".to_string(), number("1"))]),
        text(""),
        text("abc"),
        text("1.2.3"),
        text("12a"),
        text("-"),
        text("."),
        text(" 1"),
        text("1 "),
        text("0x10"),
        text("NaN"),
        text("INF"),
    ] {
        assert_eq!(decode_exact_number(&value), Err(Error::MalformedNumber));
    }
}

#[test]
fn a_number_too_large_for_the_mantissa_is_malformed() {
    assert_eq!(
        decode_exact_number(&text("79228162514264337593543950335")),
        Ok(num(79228162514264337593543950335, 0))
    );
    assert_eq!(decode_exact_number(&text("79228162514264337593543950336")), Err(Error::MalformedNumber));
    assert_eq!(
        decode_exact_number(&text("100000000000000000000000000000000")),
        Err(Error::MalformedNumber)
    );
}

#[test]
fn the_outcome_of_a_parse_becomes_the_outcome_of_the_field() {
    assert_eq!(exact_number_from_parse(Some(num(5, 1))), Ok(num(5, 1)));
    assert_eq!(exact_number_from_parse(None), Err(Error::MalformedNumber));
}

#[test]
fn every_decoded_number_can_be_written_again() {
    for literal in ["0.01", "79228162514264337593543950335", "-0.0000000000000000000000000001", "1e3"] {
        let decoded = decode_exact_number(&text(literal)).unwrap();
        assert!(decoded.is_well_formed());
    }
}

#[test]
fn an_absent_key_and_a_null_are_no_value() {
    assert_eq!(decode_exact_number_optional(None), Ok(None));
    assert_eq!(decode_exact_number_optional(Some(&JsonValue::Null)), Ok(None));
}

#[test]
fn an_optional_number_that_is_there_decodes_as_a_required_one() {
    for value in [text("0.01"), number("0.01"), text("-12"), number("7"), text("0.0")] {
        let required = decode_exact_number(&value).unwrap();
        assert_eq!(decode_exact_number_optional(Some(&value)), Ok(Some(required)));
    }
}

#[test]
fn an_optional_number_that_is_malformed_still_fails() {
    assert_eq!(decode_exact_number_optional(Some(&text("abc"))), Err(Error::MalformedNumber));
    assert_eq!(decode_exact_number_optional(Some(&JsonValue::Bool(false))), Err(Error::MalformedNumber));
    assert_eq!(decode_exact_number_optional(Some(&JsonValue::Array(vec![]))), Err(Error::MalformedNumber));
}

#[test]
fn an_integer_decodes_from_a_number_and_from_a_string() {
    assert_eq!(decode_integer_from_string_or_number(&number("20")), Ok(20));
    assert_eq!(decode_integer_from_string_or_number(&text("20")), Ok(20));
    assert_eq!(decode_integer_from_string_or_number(&text("+20")), Ok(20));
    assert_eq!(decode_integer_from_string_or_number(&text("0")), Ok(0));
    assert_eq!(decode_integer_from_string_or_number(&text("007")), Ok(7));
    assert_eq!(decode_integer_from_string_or_number(&number("18446744073709551615")), Ok(u64::MAX));
    assert_eq!(decode_integer_from_string_or_number(&text("18446744073709551615")), Ok(u64::MAX));
}

#[test]
fn what_is_no_integer_is_a_malformed_number() {
    for value in [
        number("18446744073709551616"),
        text("18446744073709551616"),
        text("99999999999999999999999"),
        number("-1"),
        text("-1"),
        number("1.0"),
        text("1.0"),
        number("1e2"),
        number("+5"),
        text("++5"),
        text("+"),
        text(""),
        text("12 "),
        text("1_000"),
        text("\u{661}\u{662}"),
        text("+\u{e9}"),
        JsonValue::Null,
        JsonValue::Bool(true),
        JsonValue::Array(vec![]),
    ] {
        assert_eq!(decode_integer_from_string_or_number(&value), Err(Error::MalformedNumber));
    }
}

#[test]
fn a_flag_decodes_from_a_boolean_and_from_a_string() {
    assert_eq!(decode_boolean_from_string_or_native(&JsonValue::Bool(true)), Ok(true));
    assert_eq!(decode_boolean_from_string_or_native(&JsonValue::Bool(false)), Ok(false));
    assert_eq!(decode_boolean_from_string_or_native(&text("true")), Ok(true));
    assert_eq!(decode_boolean_from_string_or_native(&text("false")), Ok(false));
}

#[test]
fn what_is_no_flag_has_an_unexpected_shape() {
    for value in [
        text("TRUE"),
        text("True"),
        text("1"),
        text("yes"),
        text(""),
        text("true "),
        number("1"),
        number("0"),
        JsonValue::Null,
        JsonValue::Array(vec![JsonValue::Bool(true)]),
    ] {
        assert_eq!(decode_boolean_from_string_or_native(&value), Err(Error::UnexpectedShape));
    }
}

#[test]
fn a_number_is_written_without_exponent_and_with_all_its_zeros() {
    assert_eq!(encode_exact_number(&num(1, 2)), "0.01");
    assert_eq!(encode_exact_number(&num(100000, 0)), "100000");
    assert_eq!(encode_exact_number(&num(1500, 3)), "1.500");
    assert_eq!(encode_exact_number(&num(-1500, 3)), "-1.500");
    assert_eq!(encode_exact_number(&num(0, 0)), "0");
    assert_eq!(encode_exact_number(&num(0, 1)), "0.0");
    assert_eq!(encode_exact_number(&num(1, 28)), "0.0000000000000000000000000001");
    assert_eq!(encode_exact_number(&num(10_000_000_000_000_000_000_000, 0)), "10000000000000000000000");
}

#[test]
fn a_written_number_decodes_to_itself() {
    let samples = [
        num(0, 0),
        num(0, 1),
        num(0, 18),
        num(1, 0),
        num(-1, 0),
        num(1, 18),
        num(-1, 18),
        num(123456789, 4),
        num(-987654321987654321, 18),
        num(10, 1),
        num(100, 2),
        num(79228162514264337593543950335, 0),
        num(-79228162514264337593543950335, 0),
        num(79228162514264337593543950335, 18),
        num(79228162514264337593543950335, 28),
        num(1, 28),
    ];
    for value in samples {
        let written = encode_exact_number(&value);
        assert_eq!(decode_exact_number(&JsonValue::Text(written.clone())), Ok(value));
        assert_eq!(decode_exact_number(&JsonValue::Number(written)), Ok(value));
    }
}

#[test]
fn a_decoded_literal_is_written_as_it_was_read() {
    for literal in ["0.01", "100000", "1.500", "-0.000", "0", "12345678.12345678", "-42"] {
        let decoded = decode_exact_number(&text(literal)).unwrap();
        let expected = if literal == "-0.000" { "0.000" } else { literal };
        assert_eq!(encode_exact_number(&decoded), expected);
    }
}

#[test]
fn a_number_with_an_exponent_and_a_string_of_the_same_quantity_decode_to_the_same_value() {
    for (quoted, bare) in [
        ("1000", "1e3"),
        ("1000", "1E+3"),
        ("0.0015", "1.5e-3"),
        ("125", "12.50E1"),
        ("-0.5", "-5e-1"),
        ("0", "0e0"),
        ("0.00", "0.0e5"),
        ("12.5", "1250e-2"),
        ("120000", "1.2e5"),
    ] {
        let from_text = decode_exact_number(&text(quoted)).unwrap();
        let from_number = decode_exact_number(&number(bare)).unwrap();
        assert!(from_text.same_value_as(&from_number), "{quoted} and {bare}");
    }
    assert_eq!(decode_exact_number(&number("1e3")), Ok(num(1000, 0)));
    assert_eq!(decode_exact_number(&number("1.5e-3")), Ok(num(15, 4)));
    assert_eq!(decode_exact_number(&number("12.50E1")), Ok(num(1250, 1)));
    assert_eq!(decode_exact_number(&number("1e29")), Err(Error::MalformedNumber));
}

#[test]
fn zero_as_a_string_and_as_a_number_is_the_value_of_the_default() {
    let quoted = decode_exact_number(&text("0")).unwrap();
    let bare = decode_exact_number(&number("0")).unwrap();
    assert_eq!(quoted, bare);
    assert!(quoted.same_value_as(&ExactNumericValue::zero()));
    assert!(bare.same_value_as(&ExactNumericValue::zero()));
    assert_eq!(decode_exact_number(&text("0.0")), Ok(ExactNumericValue::zero()));
    assert_eq!(decode_exact_number(&number("0.0")), Ok(ExactNumericValue::zero()));
}

#[test]
fn past_twenty_eight_fractional_digits_a_string_is_rounded_and_an_exponent_is_refused() {
    assert_eq!(decode_exact_number(&text("0.00000000000000000000000000001")), Ok(num(0, 28)));
    assert_eq!(decode_exact_number(&number("1e-29")), Err(Error::MalformedNumber));
    assert_eq!(decode_exact_number(&text("0.00000000000000000000000000015")), Ok(num(2, 28)));
    assert_eq!(decode_exact_number(&number("1.5e-28")), Ok(num(2, 28)));
}
