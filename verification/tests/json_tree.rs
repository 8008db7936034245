use futures_wire::decode::{
    decode_unsigned, field, flexible_flag, flexible_integer, list_field, number_or_zero, optional_field, Decode,
};
use futures_wire::errors::Error;
use futures_wire::json::JsonValue;
use futures_wire::number::ExactNumericValue;
use futures_wire::text::{parse_digits, parse_signed, parse_unsigned, str_eq};

fn text(s: &str) -> JsonValue {
    JsonValue::Text(s.to_string())
}

fn number(s: &str) -> JsonValue {
    JsonValue::Number(s.to_string())
}

fn object(members: Vec<(&str, JsonValue)>) -> JsonValue {
    JsonValue::Object(members.into_iter().map(|(key, value)| (key.to_string(), value)).collect())
}

#[test]
fn get_finds_a_member_by_its_key() {
    let value = object(vec![("a", number("1")), ("b", text("two")), ("", JsonValue::Null)]);
    assert_eq!(value.get("a"), Some(&number("1")));
    assert_eq!(value.get("b"), Some(&text("two")));
    assert_eq!(value.get(""), Some(&JsonValue::Null));
    assert_eq!(value.get("c"), None);
    assert_eq!(value.get("A"), None);
    assert_eq!(value.get("ab"), None);
}

#[test]
fn get_takes_the_first_of_two_members_with_one_key() {
    let value = object(vec![("k", number("1")), ("k", number("2"))]);
    assert_eq!(value.get("k"), Some(&number("1")));
}

#[test]
fn get_finds_nothing_in_what_is_no_object() {
    for value in [JsonValue::Null, JsonValue::Bool(true), number("1"), text("a"), JsonValue::Array(vec![text("a")])] {
        assert_eq!(value.get("a"), None);
        assert!(!value.is_object());
    }
    assert!(object(vec![]).is_object());
    assert_eq!(object(vec![]).get("a"), None);
}

#[test]
fn str_eq_compares_character_by_character() {
    assert!(str_eq("", ""));
    assert!(str_eq("BUY", "BUY"));
    assert!(!str_eq("BUY", "BUy"));
    assert!(!str_eq("BUY", "BU"));
    assert!(!str_eq("", " "));
    assert!(str_eq("prix \u{e9}lev\u{e9}", "prix \u{e9}lev\u{e9}"));
    assert!(!str_eq("\u{e9}", "e"));
}

#[test]
fn parse_digits_reads_digits_only() {
    assert_eq!(parse_digits("0"), Some(0));
    assert_eq!(parse_digits("0042"), Some(42));
    assert_eq!(parse_digits("18446744073709551615"), Some(u64::MAX));
    assert_eq!(parse_digits("18446744073709551616"), None);
    assert_eq!(parse_digits("184467440737095516150"), None);
    assert_eq!(parse_digits(""), None);
    assert_eq!(parse_digits("+1"), None);
    assert_eq!(parse_digits("-1"), None);
    assert_eq!(parse_digits("1.0"), None);
    assert_eq!(parse_digits("12x"), None);
    assert_eq!(parse_digits("\u{ff11}"), None);
}

#[test]
fn parse_unsigned_takes_a_plus_sign() {
    assert_eq!(parse_unsigned("+7"), Some(7));
    assert_eq!(parse_unsigned("7"), Some(7));
    assert_eq!(parse_unsigned("+"), None);
    assert_eq!(parse_unsigned("++7"), None);
    assert_eq!(parse_unsigned("-7"), None);
    assert_eq!(parse_unsigned("+18446744073709551615"), Some(u64::MAX));
    assert_eq!(parse_unsigned("+18446744073709551616"), None);
}

#[test]
fn parse_signed_takes_a_minus_sign() {
    assert_eq!(parse_signed("-7"), Some(-7));
    assert_eq!(parse_signed("7"), Some(7));
    assert_eq!(parse_signed("-0"), Some(0));
    assert_eq!(parse_signed("9223372036854775807"), Some(i64::MAX));
    assert_eq!(parse_signed("9223372036854775808"), None);
    assert_eq!(parse_signed("-9223372036854775808"), Some(i64::MIN));
    assert_eq!(parse_signed("-9223372036854775809"), None);
    assert_eq!(parse_signed("-"), None);
    assert_eq!(parse_signed("+7"), None);
    assert_eq!(parse_signed("--7"), None);
    assert_eq!(parse_signed(""), None);
}

#[test]
fn the_integer_types_take_json_numbers_within_their_range() {
    assert_eq!(u64::decode(&number("18446744073709551615")), Ok(u64::MAX));
    assert_eq!(u64::decode(&number("18446744073709551616")), Err(Error::UnexpectedShape));
    assert_eq!(u16::decode(&number("65535")), Ok(u16::MAX));
    assert_eq!(u16::decode(&number("65536")), Err(Error::UnexpectedShape));
    assert_eq!(u8::decode(&number("255")), Ok(u8::MAX));
    assert_eq!(u8::decode(&number("256")), Err(Error::UnexpectedShape));
    assert_eq!(i32::decode(&number("2147483647")), Ok(i32::MAX));
    assert_eq!(i32::decode(&number("2147483648")), Err(Error::UnexpectedShape));
    assert_eq!(i32::decode(&number("-2147483648")), Ok(i32::MIN));
    assert_eq!(i32::decode(&number("-2147483649")), Err(Error::UnexpectedShape));
    assert_eq!(decode_unsigned(&number("100"), 100), Some(100));
    assert_eq!(decode_unsigned(&number("101"), 100), None);
}

#[test]
fn the_integer_types_take_no_string_and_no_fraction() {
    for value in [text("5"), number("5.0"), number("5e0"), number("-5"), JsonValue::Null, JsonValue::Bool(true)] {
        assert_eq!(u64::decode(&value), Err(Error::UnexpectedShape));
        assert_eq!(u16::decode(&value), Err(Error::UnexpectedShape));
        assert_eq!(u8::decode(&value), Err(Error::UnexpectedShape));
    }
    assert_eq!(i32::decode(&text("5")), Err(Error::UnexpectedShape));
    assert_eq!(i32::decode(&number("5.5")), Err(Error::UnexpectedShape));
}

#[test]
fn text_and_flags_take_their_own_shape_only() {
    assert_eq!(String::decode(&text("BTCUSDT")), Ok("BTCUSDT".to_string()));
    assert_eq!(String::decode(&text("")), Ok(String::new()));
    assert_eq!(String::decode(&number("1")), Err(Error::UnexpectedShape));
    assert_eq!(String::decode(&JsonValue::Null), Err(Error::UnexpectedShape));
    assert_eq!(bool::decode(&JsonValue::Bool(true)), Ok(true));
    assert_eq!(bool::decode(&JsonValue::Bool(false)), Ok(false));
    assert_eq!(bool::decode(&text("true")), Err(Error::UnexpectedShape));
    assert_eq!(bool::decode(&number("1")), Err(Error::UnexpectedShape));
}

#[test]
fn a_required_field_that_is_missing_is_named() {
    let value = object(vec![("price", text("1.5"))]);
    assert_eq!(field::<ExactNumericValue>(&value, "price"), Ok(ExactNumericValue { mantissa: 15, scale: 1 }));
    assert_eq!(field::<ExactNumericValue>(&value, "qty"), Err(Error::MissingRequiredField("qty")));
    assert_eq!(field::<String>(&value, "symbol"), Err(Error::MissingRequiredField("symbol")));
    assert_eq!(field::<String>(&value, "price"), Ok("1.5".to_string()));
    assert_eq!(field::<u64>(&value, "price"), Err(Error::UnexpectedShape));
}

#[test]
fn a_required_number_that_is_null_is_malformed() {
    let value = object(vec![("price", JsonValue::Null)]);
    assert_eq!(field::<ExactNumericValue>(&value, "price"), Err(Error::MalformedNumber));
}

#[test]
fn an_optional_field_is_nothing_where_absent_or_null() {
    let value = object(vec![("a", JsonValue::Null), ("b", text("2.5")), ("c", text("x")), ("d", number("3"))]);
    assert_eq!(optional_field::<ExactNumericValue>(&value, "a"), Ok(None));
    assert_eq!(optional_field::<ExactNumericValue>(&value, "zz"), Ok(None));
    assert_eq!(
        optional_field::<ExactNumericValue>(&value, "b"),
        Ok(Some(ExactNumericValue { mantissa: 25, scale: 1 }))
    );
    assert_eq!(optional_field::<ExactNumericValue>(&value, "c"), Err(Error::MalformedNumber));
    assert_eq!(optional_field::<String>(&value, "c"), Ok(Some("x".to_string())));
    assert_eq!(optional_field::<String>(&value, "a"), Ok(None));
    assert_eq!(optional_field::<String>(&value, "d"), Err(Error::UnexpectedShape));
}

#[test]
fn a_number_that_may_be_left_out_is_zero_where_it_is() {
    let value = object(vec![("stopPrice", text("7.10")), ("bad", text("x")), ("none", JsonValue::Null)]);
    assert_eq!(number_or_zero(&value, "stopPrice"), Ok(ExactNumericValue { mantissa: 710, scale: 2 }));
    assert_eq!(number_or_zero(&value, "activatePrice"), Ok(ExactNumericValue { mantissa: 0, scale: 1 }));
    assert_eq!(number_or_zero(&value, "bad"), Err(Error::MalformedNumber));
    assert_eq!(number_or_zero(&value, "none"), Err(Error::MalformedNumber));
}

#[test]
fn a_flexible_field_takes_both_writings() {
    let value = object(vec![
        ("a", text("20")),
        ("b", number("20")),
        ("c", text("true")),
        ("d", JsonValue::Bool(false)),
        ("e", text("maybe")),
    ]);
    assert_eq!(flexible_integer(&value, "a"), Ok(20));
    assert_eq!(flexible_integer(&value, "b"), Ok(20));
    assert_eq!(flexible_integer(&value, "c"), Err(Error::MalformedNumber));
    assert_eq!(flexible_integer(&value, "zz"), Err(Error::MissingRequiredField("zz")));
    assert_eq!(flexible_flag(&value, "c"), Ok(true));
    assert_eq!(flexible_flag(&value, "d"), Ok(false));
    assert_eq!(flexible_flag(&value, "e"), Err(Error::UnexpectedShape));
    assert_eq!(flexible_flag(&value, "a"), Err(Error::UnexpectedShape));
    assert_eq!(flexible_flag(&value, "zz"), Err(Error::MissingRequiredField("zz")));
}

#[test]
fn a_list_field_reports_the_first_item_that_fails() {
    let value = object(vec![
        ("good", JsonValue::Array(vec![number("1"), number("2"), number("3")])),
        ("bad", JsonValue::Array(vec![number("1"), text("2"), JsonValue::Null])),
        ("empty", JsonValue::Array(vec![])),
        ("scalar", number("1")),
    ]);
    assert_eq!(list_field::<u64>(&value, "good"), Ok(vec![1, 2, 3]));
    assert_eq!(list_field::<u64>(&value, "bad"), Err(Error::UnexpectedShape));
    assert_eq!(list_field::<ExactNumericValue>(&value, "bad"), Err(Error::MalformedNumber));
    assert_eq!(list_field::<u64>(&value, "empty"), Ok(vec![]));
    assert_eq!(list_field::<u64>(&value, "scalar"), Err(Error::UnexpectedShape));
    assert_eq!(list_field::<u64>(&value, "zz"), Err(Error::MissingRequiredField("zz")));
}
