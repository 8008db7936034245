use futures_wire::decode::Decode;
use futures_wire::errors::Error;
use futures_wire::futures::rest_model::{ContractType, MarginType, OrderType, PositionSide, WorkingType};
use futures_wire::futures::ws_model::{PriceMatch, ReasonType, SelfTradePreventionMode};
use futures_wire::json::JsonValue;
use futures_wire::rest_model::{
    ExecutionType, OrderSide, OrderStatus, RateLimitInterval, RateLimitType, SymbolStatus, TimeInForce,
};

fn text(s: &str) -> JsonValue {
    JsonValue::Text(s.to_string())
}

#[test]
fn contract_type_takes_the_empty_tag() {
    assert_eq!(ContractType::decode(&text("")), Ok(ContractType::Empty));
    assert_eq!(ContractType::from_tag(""), Some(ContractType::Empty));
    assert_eq!(ContractType::Empty.as_tag(), "");
}

#[test]
fn contract_type_decodes_perpetual() {
    assert_eq!(ContractType::decode(&text("PERPETUAL")), Ok(ContractType::Perpetual));
}

#[test]
fn contract_type_rejects_a_tag_it_does_not_know() {
    assert_eq!(ContractType::decode(&text("BOGUS")), Err(Error::UnknownEnumVariant("BOGUS".to_string())));
    assert_eq!(ContractType::from_tag("BOGUS"), None);
}

#[test]
fn contract_type_knows_every_tag() {
    let all = [
        (ContractType::Perpetual, "PERPETUAL"),
        (ContractType::CurrentMonth, "CURRENT_MONTH"),
        (ContractType::NextMonth, "NEXT_MONTH"),
        (ContractType::CurrentQuarter, "CURRENT_QUARTER"),
        (ContractType::NextQuarter, "NEXT_QUARTER"),
        (ContractType::CurrentQuarterDelivery, "CURRENT_QUARTER DELIVERING"),
        (ContractType::PerpetualDelivering, "PERPETUAL_DELIVERING"),
        (ContractType::Empty, ""),
    ];
    for (member, tag) in all {
        assert_eq!(ContractType::from_tag(tag), Some(member));
        assert_eq!(member.as_tag(), tag);
        assert_eq!(ContractType::decode(&text(tag)), Ok(member));
    }
    assert_eq!(ContractType::from_tag("CURRENT_QUARTER_DELIVERING"), None);
}

#[test]
fn order_type_knows_every_tag() {
    let all = [
        (OrderType::Limit, "LIMIT"),
        (OrderType::Market, "MARKET"),
        (OrderType::Stop, "STOP"),
        (OrderType::StopMarket, "STOP_MARKET"),
        (OrderType::TakeProfit, "TAKE_PROFIT"),
        (OrderType::TakeProfitMarket, "TAKE_PROFIT_MARKET"),
        (OrderType::TrailingStopMarket, "TRAILING_STOP_MARKET"),
    ];
    for (member, tag) in all {
        assert_eq!(OrderType::from_tag(tag), Some(member));
        assert_eq!(member.as_tag(), tag);
        assert_eq!(OrderType::decode(&text(tag)), Ok(member));
    }
}

#[test]
fn order_type_defaults_to_market() {
    assert_eq!(OrderType::default(), OrderType::Market);
}

#[test]
fn position_side_working_type_and_margin_type_know_their_tags() {
    for (member, tag) in [(PositionSide::Both, "BOTH"), (PositionSide::Long, "LONG"), (PositionSide::Short, "SHORT")] {
        assert_eq!(PositionSide::from_tag(tag), Some(member));
        assert_eq!(member.as_tag(), tag);
    }
    for (member, tag) in [(WorkingType::MarkPrice, "MARK_PRICE"), (WorkingType::ContractPrice, "CONTRACT_PRICE")] {
        assert_eq!(WorkingType::from_tag(tag), Some(member));
        assert_eq!(member.as_tag(), tag);
    }
    for (member, tag) in [(MarginType::Isolated, "isolated"), (MarginType::Cross, "cross")] {
        assert_eq!(MarginType::from_tag(tag), Some(member));
        assert_eq!(member.as_tag(), tag);
    }
}

#[test]
fn margin_type_is_lower_case_only() {
    assert_eq!(MarginType::decode(&text("ISOLATED")), Err(Error::UnknownEnumVariant("ISOLATED".to_string())));
    assert_eq!(MarginType::decode(&text("Cross")), Err(Error::UnknownEnumVariant("Cross".to_string())));
}

#[test]
fn the_other_enumerations_are_upper_case_only() {
    assert_eq!(OrderSide::decode(&text("buy")), Err(Error::UnknownEnumVariant("buy".to_string())));
    assert_eq!(PositionSide::decode(&text("Long")), Err(Error::UnknownEnumVariant("Long".to_string())));
    assert_eq!(OrderType::decode(&text("")), Err(Error::UnknownEnumVariant(String::new())));
    assert_eq!(OrderStatus::decode(&text("NEW ")), Err(Error::UnknownEnumVariant("NEW ".to_string())));
}

#[test]
fn a_tag_that_is_no_string_has_an_unexpected_shape() {
    assert_eq!(OrderSide::decode(&JsonValue::Null), Err(Error::UnexpectedShape));
    assert_eq!(OrderSide::decode(&JsonValue::Bool(true)), Err(Error::UnexpectedShape));
    assert_eq!(ContractType::decode(&JsonValue::Number("1".to_string())), Err(Error::UnexpectedShape));
    assert_eq!(ReasonType::decode(&JsonValue::Array(vec![text("ORDER")])), Err(Error::UnexpectedShape));
    assert_eq!(
        PriceMatch::decode(&JsonValue::Object(vec![("pm".to_string(), text("NONE"))])),
        Err(Error::UnexpectedShape)
    );
}

#[test]
fn the_shared_enumerations_know_their_tags() {
    for (member, tag) in [(OrderSide::Buy, "BUY"), (OrderSide::Sell, "SELL")] {
        assert_eq!(OrderSide::from_tag(tag), Some(member));
        assert_eq!(member.as_tag(), tag);
    }
    let statuses = [
        (OrderStatus::New, "NEW"),
        (OrderStatus::PartiallyFilled, "PARTIALLY_FILLED"),
        (OrderStatus::Filled, "FILLED"),
        (OrderStatus::Canceled, "CANCELED"),
        (OrderStatus::PendingCancel, "PENDING_CANCEL"),
        (OrderStatus::Rejected, "REJECTED"),
        (OrderStatus::Expired, "EXPIRED"),
        (OrderStatus::ExpiredInMatch, "EXPIRED_IN_MATCH"),
    ];
    for (member, tag) in statuses {
        assert_eq!(OrderStatus::from_tag(tag), Some(member));
        assert_eq!(member.as_tag(), tag);
    }
    let forces = [
        (TimeInForce::GTC, "GTC"),
        (TimeInForce::IOC, "IOC"),
        (TimeInForce::FOK, "FOK"),
        (TimeInForce::GTX, "GTX"),
        (TimeInForce::GTD, "GTD"),
    ];
    for (member, tag) in forces {
        assert_eq!(TimeInForce::from_tag(tag), Some(member));
        assert_eq!(member.as_tag(), tag);
    }
    let states = [
        (SymbolStatus::PreTrading, "PRE_TRADING"),
        (SymbolStatus::Trading, "TRADING"),
        (SymbolStatus::PostTrading, "POST_TRADING"),
        (SymbolStatus::EndOfDay, "END_OF_DAY"),
        (SymbolStatus::Halt, "HALT"),
        (SymbolStatus::AuctionMatch, "AUCTION_MATCH"),
        (SymbolStatus::Break, "BREAK"),
        (SymbolStatus::PendingTrading, "PENDING_TRADING"),
    ];
    for (member, tag) in states {
        assert_eq!(SymbolStatus::from_tag(tag), Some(member));
        assert_eq!(member.as_tag(), tag);
    }
    let steps = [
        (ExecutionType::New, "NEW"),
        (ExecutionType::Canceled, "CANCELED"),
        (ExecutionType::Replaced, "REPLACED"),
        (ExecutionType::Rejected, "REJECTED"),
        (ExecutionType::Trade, "TRADE"),
        (ExecutionType::Expired, "EXPIRED"),
        (ExecutionType::Calculated, "CALCULATED"),
        (ExecutionType::Amendment, "AMENDMENT"),
    ];
    for (member, tag) in steps {
        assert_eq!(ExecutionType::from_tag(tag), Some(member));
        assert_eq!(member.as_tag(), tag);
    }
    for (member, tag) in [
        (RateLimitInterval::Second, "SECOND"),
        (RateLimitInterval::Minute, "MINUTE"),
        (RateLimitInterval::Day, "DAY"),
    ] {
        assert_eq!(RateLimitInterval::from_tag(tag), Some(member));
        assert_eq!(member.as_tag(), tag);
    }
    for (member, tag) in [
        (RateLimitType::RequestWeight, "REQUEST_WEIGHT"),
        (RateLimitType::Orders, "ORDERS"),
        (RateLimitType::RawRequests, "RAW_REQUESTS"),
    ] {
        assert_eq!(RateLimitType::from_tag(tag), Some(member));
        assert_eq!(member.as_tag(), tag);
    }
}

#[test]
fn the_stream_enumerations_know_their_tags() {
    let reasons = [
        (ReasonType::Deposit, "DEPOSIT"),
        (ReasonType::Withdraw, "WITHDRAW"),
        (ReasonType::Order, "ORDER"),
        (ReasonType::FundingFee, "FUNDING_FEE"),
        (ReasonType::WithdrawReject, "WITHDRAW_REJECT"),
        (ReasonType::Adjustment, "ADJUSTMENT"),
        (ReasonType::InsuranceClear, "INSURANCE_CLEAR"),
        (ReasonType::AdminDeposit, "ADMIN_DEPOSIT"),
        (ReasonType::AdminWithdraw, "ADMIN_WITHDRAW"),
        (ReasonType::MarginTransfer, "MARGIN_TRANSFER"),
        (ReasonType::MarginTypeChange, "MARGIN_TYPE_CHANGE"),
        (ReasonType::AssetTransfer, "ASSET_TRANSFER"),
        (ReasonType::OptionsPremiumFee, "OPTIONS_PREMIUM_FEE"),
        (ReasonType::OptionsSettleProfit, "OPTIONS_SETTLE_PROFIT"),
        (ReasonType::AutoExchange, "AUTO_EXCHANGE"),
        (ReasonType::CoinSwapDeposit, "COIN_SWAP_DEPOSIT"),
        (ReasonType::CoinSwapWithdraw, "COIN_SWAP_WITHDRAW"),
    ];
    for (member, tag) in reasons {
        assert_eq!(ReasonType::from_tag(tag), Some(member));
        assert_eq!(member.as_tag(), tag);
        assert_eq!(ReasonType::decode(&text(tag)), Ok(member));
    }
    let matches = [
        (PriceMatch::NoMatch, "NONE"),
        (PriceMatch::Opponent, "OPPONENT"),
        (PriceMatch::Opponent5, "OPPONENT5"),
        (PriceMatch::Opponent10, "OPPONENT10"),
        (PriceMatch::Opponent20, "OPPONENT20"),
        (PriceMatch::Queue, "QUEUE"),
        (PriceMatch::Queue5, "QUEUE5"),
        (PriceMatch::Queue10, "QUEUE10"),
        (PriceMatch::Queue20, "QUEUE20"),
    ];
    for (member, tag) in matches {
        assert_eq!(PriceMatch::from_tag(tag), Some(member));
        assert_eq!(member.as_tag(), tag);
    }
    let modes = [
        (SelfTradePreventionMode::NoPrevention, "NONE"),
        (SelfTradePreventionMode::ExpireTaker, "EXPIRE_TAKER"),
        (SelfTradePreventionMode::ExpireBoth, "EXPIRE_BOTH"),
        (SelfTradePreventionMode::ExpireMaker, "EXPIRE_MAKER"),
    ];
    for (member, tag) in modes {
        assert_eq!(SelfTradePreventionMode::from_tag(tag), Some(member));
        assert_eq!(member.as_tag(), tag);
    }
}

#[test]
fn a_closed_enumeration_names_the_tag_it_rejects() {
    assert_eq!(OrderSide::decode(&text("HOLD")), Err(Error::UnknownEnumVariant("HOLD".to_string())));
    assert_eq!(OrderStatus::decode(&text("DONE")), Err(Error::UnknownEnumVariant("DONE".to_string())));
    assert_eq!(TimeInForce::decode(&text("DAY")), Err(Error::UnknownEnumVariant("DAY".to_string())));
    assert_eq!(SymbolStatus::decode(&text("SETTLING")), Err(Error::UnknownEnumVariant("SETTLING".to_string())));
    assert_eq!(ReasonType::decode(&text("GIFT")), Err(Error::UnknownEnumVariant("GIFT".to_string())));
    assert_eq!(PriceMatch::decode(&text("OPPONENT_5")), Err(Error::UnknownEnumVariant("OPPONENT_5".to_string())));
    assert_eq!(
        SelfTradePreventionMode::decode(&text("EXPIRE")),
        Err(Error::UnknownEnumVariant("EXPIRE".to_string()))
    );
    assert_eq!(WorkingType::decode(&text("LAST_PRICE")), Err(Error::UnknownEnumVariant("LAST_PRICE".to_string())));
}
