use futures_wire::decode::Decode;
use futures_wire::errors::Error;
use futures_wire::futures::rest_model::{triple, Filters};
use futures_wire::json::JsonValue;
use futures_wire::number::ExactNumericValue;

fn num(mantissa: i128, scale: u32) -> ExactNumericValue {
    ExactNumericValue::new(mantissa, scale).expect("a number that fits")
}

fn convert(value: &serde_json::Value) -> JsonValue {
    match value {
        serde_json::Value::Null => JsonValue::Null,
        serde_json::Value::Bool(flag) => JsonValue::Bool(*flag),
        serde_json::Value::Number(number) => JsonValue::Number(number.to_string()),
        serde_json::Value::String(text) => JsonValue::Text(text.clone()),
        serde_json::Value::Array(items) => JsonValue::Array(items.iter().map(convert).collect()),
        serde_json::Value::Object(members) => {
            JsonValue::Object(members.iter().map(|(key, value)| (key.clone(), convert(value))).collect())
        }
    }
}

fn tree(text: &str) -> JsonValue {
    convert(&serde_json::from_str::<serde_json::Value>(text).expect("a JSON document"))
}

#[test]
fn a_price_filter_decodes_to_its_three_numbers() {
    let value = tree(r#"{"filterType":"PRICE_FILTER","minPrice":"0.01","maxPrice":"100000","tickSize":"0.01"}"#);
    assert_eq!(
        Filters::decode(&value),
        Ok(Filters::PriceFilter { min_price: num(1, 2), max_price: num(100000, 0), tick_size: num(1, 2) })
    );
}

#[test]
fn a_filter_of_a_kind_not_known_decodes_to_unknown() {
    let value = tree(r#"{"filterType":"SOME_FUTURE_FILTER","x":1}"#);
    assert_eq!(Filters::decode(&value), Ok(Filters::Unknown));
}

#[test]
fn an_unknown_filter_keeps_nothing_and_needs_nothing() {
    assert_eq!(Filters::decode(&tree(r#"{"filterType":""}"#)), Ok(Filters::Unknown));
    assert_eq!(Filters::decode(&tree(r#"{"filterType":"price_filter","minPrice":"oops"}"#)), Ok(Filters::Unknown));
    assert_eq!(Filters::decode(&tree(r#"{"minPrice":null,"filterType":"POSITION_RISK_CONTROL"}"#)), Ok(Filters::Unknown));
}

#[test]
fn a_lot_size_decodes_from_strings_and_from_numbers() {
    let quoted = tree(r#"{"filterType":"LOT_SIZE","minQty":"0.001","maxQty":"1000","stepSize":"0.001"}"#);
    let bare = tree(r#"{"stepSize":0.001,"maxQty":1000,"minQty":0.001,"filterType":"LOT_SIZE"}"#);
    let expected = Filters::LotSize { min_qty: num(1, 3), max_qty: num(1000, 0), step_size: num(1, 3) };
    assert_eq!(Filters::decode(&quoted), Ok(expected.clone()));
    assert_eq!(Filters::decode(&bare), Ok(expected));
}

#[test]
fn a_market_lot_size_keeps_its_text() {
    let value = tree(r#"{"filterType":"MARKET_LOT_SIZE","minQty":"0.001","maxQty":"590119","stepSize":"0.0010"}"#);
    assert_eq!(
        Filters::decode(&value),
        Ok(Filters::MarketLotSize {
            min_qty: "0.001".to_string(),
            max_qty: "590119".to_string(),
            step_size: "0.0010".to_string(),
        })
    );
    let bare = tree(r#"{"filterType":"MARKET_LOT_SIZE","minQty":0.001,"maxQty":"590119","stepSize":"0.001"}"#);
    assert_eq!(Filters::decode(&bare), Err(Error::UnexpectedShape));
}

#[test]
fn the_order_counts_decode_to_their_limit() {
    assert_eq!(
        Filters::decode(&tree(r#"{"filterType":"MAX_NUM_ORDERS","limit":200}"#)),
        Ok(Filters::MaxNumOrders { limit: 200 })
    );
    assert_eq!(
        Filters::decode(&tree(r#"{"filterType":"MAX_NUM_ALGO_ORDERS","limit":10}"#)),
        Ok(Filters::MaxNumAlgoOrders { limit: 10 })
    );
    assert_eq!(
        Filters::decode(&tree(r#"{"filterType":"MAX_NUM_ORDERS","limit":65536}"#)),
        Err(Error::UnexpectedShape)
    );
    assert_eq!(
        Filters::decode(&tree(r#"{"filterType":"MAX_NUM_ORDERS","limit":"200"}"#)),
        Err(Error::UnexpectedShape)
    );
    assert_eq!(
        Filters::decode(&tree(r#"{"filterType":"MAX_NUM_ALGO_ORDERS"}"#)),
        Err(Error::MissingRequiredField("limit"))
    );
}

#[test]
fn a_least_notional_and_a_percent_price_decode_to_their_numbers() {
    assert_eq!(
        Filters::decode(&tree(r#"{"filterType":"MIN_NOTIONAL","notional":"5"}"#)),
        Ok(Filters::MinNotional { notional: num(5, 0) })
    );
    assert_eq!(
        Filters::decode(&tree(
            r#"{"filterType":"PERCENT_PRICE","multiplierUp":"1.1500","multiplierDown":"0.8500","multiplierDecimal":4}"#
        )),
        Ok(Filters::PercentPrice {
            multiplier_up: num(11500, 4),
            multiplier_down: num(8500, 4),
            multiplier_decimal: num(4, 0),
        })
    );
}

#[test]
fn a_known_filter_fails_as_a_whole_on_one_bad_field() {
    assert_eq!(
        Filters::decode(&tree(r#"{"filterType":"PRICE_FILTER","minPrice":"0.01","maxPrice":"lots","tickSize":"0.01"}"#)),
        Err(Error::MalformedNumber)
    );
    assert_eq!(
        Filters::decode(&tree(r#"{"filterType":"PRICE_FILTER","minPrice":"0.01","maxPrice":"1"}"#)),
        Err(Error::MissingRequiredField("tickSize"))
    );
    assert_eq!(
        Filters::decode(&tree(r#"{"filterType":"PRICE_FILTER","maxPrice":"bad"}"#)),
        Err(Error::MissingRequiredField("minPrice"))
    );
    assert_eq!(
        Filters::decode(&tree(r#"{"filterType":"MIN_NOTIONAL","notional":null}"#)),
        Err(Error::MalformedNumber)
    );
    assert_eq!(
        Filters::decode(&tree(r#"{"filterType":"PERCENT_PRICE","multiplierUp":"1","multiplierDown":"1"}"#)),
        Err(Error::MissingRequiredField("multiplierDecimal"))
    );
}

#[test]
fn a_filter_without_a_kind_is_rejected() {
    assert_eq!(Filters::decode(&tree(r#"{"minPrice":"0.01"}"#)), Err(Error::MissingRequiredField("filterType")));
    assert_eq!(Filters::decode(&tree(r#"{"filterType":7}"#)), Err(Error::UnexpectedShape));
    assert_eq!(Filters::decode(&tree(r#"{"filterType":null}"#)), Err(Error::UnexpectedShape));
    assert_eq!(Filters::decode(&tree(r#"["PRICE_FILTER"]"#)), Err(Error::UnexpectedShape));
    assert_eq!(Filters::decode(&tree(r#""PRICE_FILTER""#)), Err(Error::UnexpectedShape));
    assert_eq!(Filters::decode(&JsonValue::Null), Err(Error::UnexpectedShape));
}

#[test]
fn three_fields_are_read_in_the_order_of_their_keys() {
    let value = tree(r#"{"a":"1","b":"x","c":"y"}"#);
    assert_eq!(
        triple::<String>(&value, ("a", "b", "c")),
        Ok(("1".to_string(), "x".to_string(), "y".to_string()))
    );
    assert_eq!(triple::<ExactNumericValue>(&value, ("a", "b", "c")), Err(Error::MalformedNumber));
    assert_eq!(triple::<ExactNumericValue>(&value, ("a", "zz", "c")), Err(Error::MissingRequiredField("zz")));
    assert_eq!(triple::<ExactNumericValue>(&value, ("zz", "b", "yy")), Err(Error::MissingRequiredField("zz")));
}
