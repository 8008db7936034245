use futures_wire::decode::{decode_batch, decode_elements, BatchError, Decode, ElementError};
use futures_wire::errors::Error;
use futures_wire::futures::rest_model::{AggTrade, AggTrades, LiquidationOrder, LiquidationOrders, Trade, Trades};
use futures_wire::json::JsonValue;
use futures_wire::number::ExactNumericValue;

fn num(mantissa: i128, scale: u32) -> ExactNumericValue {
    ExactNumericValue::new(mantissa, scale).expect("a number that fits")
}

fn convert(value: &serde_json::Value) -> JsonValue {
    match value {
        serde_json::Value::Null => JsonValue::Null,
        serde_json::Value::Bool(flag) => JsonValue::Bool(*flag),
        serde_json::Value::Number(number) => JsonValue::Number(number.to_string()),
        serde_json::Value::String(text) => JsonValue::Text(text.clone()),
        serde_json::Value::Array(items) => JsonValue::Array(items.iter().map(convert).collect()),
        serde_json::Value::Object(members) => {
            JsonValue::Object(members.iter().map(|(key, value)| (key.clone(), convert(value))).collect())
        }
    }
}

fn tree(text: &str) -> JsonValue {
    convert(&serde_json::from_str::<serde_json::Value>(text).expect("a JSON document"))
}

fn trade(id: u64, price: &str) -> String {
    format!(
        r#"{{"id": {id}, "price": "{price}", "qty": "5", "quoteQty": "20.00006", "time": 1589436922972, "isBuyerMaker": true}}"#
    )
}

fn expected_trade(id: u64, price: ExactNumericValue) -> Trade {
    Trade { id, is_buyer_maker: true, price, qty: num(5, 0), quote_qty: num(2000006, 5), time: 1589436922972 }
}

#[test]
fn three_trades_decode_in_their_order() {
    let document = format!("[{}, {}, {}]", trade(1, "4.1"), trade(2, "4.2"), trade(3, "4.3"));
    let expected = vec![expected_trade(1, num(41, 1)), expected_trade(2, num(42, 1)), expected_trade(3, num(43, 1))];
    assert_eq!(decode_batch::<Trade>(&tree(&document)), Ok(expected.clone()));
    assert_eq!(Trades::decode(&tree(&document)), Ok(Trades::AllTrades(expected)));
}

#[test]
fn a_malformed_second_trade_is_the_one_failure_of_the_batch() {
    let document = format!("[{}, {}, {}]", trade(1, "4.1"), trade(2, "four"), trade(3, "4.3"));
    assert_eq!(
        decode_batch::<Trade>(&tree(&document)),
        Err(BatchError::Element(ElementError { index: 1, error: Error::MalformedNumber }))
    );
    assert_eq!(Trades::decode(&tree(&document)), Err(Error::MalformedNumber));
}

#[test]
fn the_first_of_two_malformed_trades_is_reported() {
    let missing = r#"{"id": 2, "qty": "5", "quoteQty": "1", "time": 1, "isBuyerMaker": true}"#;
    let document = format!("[{}, {}, {}]", trade(1, "4.1"), missing, trade(3, "oops"));
    assert_eq!(
        decode_batch::<Trade>(&tree(&document)),
        Err(BatchError::Element(ElementError { index: 1, error: Error::MissingRequiredField("price") }))
    );
    let document = format!("[{}, {}, {}]", trade(1, "4.1"), trade(2, "4.2"), "7");
    assert_eq!(
        decode_batch::<Trade>(&tree(&document)),
        Err(BatchError::Element(ElementError { index: 2, error: Error::UnexpectedShape }))
    );
    let document = format!("[null, {}]", missing);
    assert_eq!(
        decode_batch::<Trade>(&tree(&document)),
        Err(BatchError::Element(ElementError { index: 0, error: Error::UnexpectedShape }))
    );
}

#[test]
fn a_trade_decodes_alike_alone_and_among_others() {
    let good = trade(9, "0.5");
    let alone = Trade::decode(&tree(&good)).unwrap();
    let document = format!("[{}, {}, {}]", trade(1, "4.1"), good, trade(3, "4.3"));
    let among = decode_batch::<Trade>(&tree(&document)).unwrap();
    assert_eq!(among[1], alone);
    let bad = trade(9, "x");
    let alone = Trade::decode(&tree(&bad)).unwrap_err();
    let document = format!("[{}, {}]", trade(1, "4.1"), bad);
    match decode_batch::<Trade>(&tree(&document)) {
        Err(BatchError::Element(failure)) => assert_eq!(failure.error, alone),
        other => panic!("{other:?}"),
    }
}

#[test]
fn an_empty_batch_is_an_empty_list() {
    assert_eq!(decode_batch::<Trade>(&tree("[]")), Ok(vec![]));
    assert_eq!(Trades::decode(&tree("[]")), Ok(Trades::AllTrades(vec![])));
    assert_eq!(decode_elements::<Trade>(&vec![]), Ok(vec![]));
}

#[test]
fn what_is_no_array_is_no_batch() {
    for document in ["{}", "null", "1", r#""trades""#, &trade(1, "4.1")] {
        assert_eq!(decode_batch::<Trade>(&tree(document)), Err(BatchError::NotAnArray));
        assert_eq!(Trades::decode(&tree(document)), Err(Error::UnexpectedShape));
        assert_eq!(AggTrades::decode(&tree(document)), Err(Error::UnexpectedShape));
        assert_eq!(LiquidationOrders::decode(&tree(document)), Err(Error::UnexpectedShape));
    }
}

#[test]
fn aggregated_trades_read_their_one_letter_keys() {
    let document = r#"[{"a": 26129, "p": "0.01633102", "q": "4.70443515", "f": 27781, "l": 27783,
        "T": 1498793709153, "m": true}]"#;
    let expected = AggTrade {
        time: 1498793709153,
        agg_id: 26129,
        first_id: 27781,
        last_id: 27783,
        maker: true,
        price: num(1633102, 8),
        qty: num(470443515, 8),
    };
    assert_eq!(AggTrades::decode(&tree(document)), Ok(AggTrades::AllAggTrades(vec![expected])));
    let long_keys = r#"[{"aggId": 26129, "price": "0.01", "qty": "4", "firstId": 1, "lastId": 2, "time": 3, "maker": true}]"#;
    assert_eq!(AggTrades::decode(&tree(long_keys)), Err(Error::MissingRequiredField("T")));
}

#[test]
fn liquidation_orders_decode() {
    let document = r#"[{"symbol": "BTCUSDT", "price": "7918.33", "origQty": "0.014", "executedQty": "0.014",
        "averagePrice": "7918.33", "status": "FILLED", "timeInForce": "IOC", "type": "LIMIT", "side": "SELL",
        "time": 1568014460893}]"#;
    let expected = LiquidationOrder {
        average_price: num(791833, 2),
        executed_qty: num(14, 3),
        orig_qty: num(14, 3),
        price: num(791833, 2),
        side: "SELL".to_string(),
        status: "FILLED".to_string(),
        symbol: "BTCUSDT".to_string(),
        time: 1568014460893,
        time_in_force: "IOC".to_string(),
        order_type: "LIMIT".to_string(),
    };
    assert_eq!(
        LiquidationOrders::decode(&tree(document)),
        Ok(LiquidationOrders::AllLiquidationOrders(vec![expected]))
    );
}
