//! The records of the futures REST API: reference data on instruments, market
//! data, account and position state, and orders, each decoded from one JSON
//! value; and the queries that are sent for historical data.

use crate::decode::{
    all_accepted, decode_elements, field, field_accepts, field_describes, field_rejection,
    first_rejected, flexible_flag, flexible_integer, items_describe, list_accepts, list_describes,
    list_field, list_rejection, number_or_zero, optional_accepts, optional_describes,
    optional_field, spec_flexible_flag, spec_flexible_integer, spec_number_or_zero, Decode,
};
use crate::errors::Error;
use crate::json::JsonValue;
use crate::number::ExactNumericValue;
use crate::rest_model::{
    Asks, Bids, OrderSide, OrderStatus, RateLimit, SymbolStatus, TimeInForce,
};
use crate::text::str_eq;
use vstd::prelude::*;

verus! {

/// What the exchange trades and under which limits.
#[derive(Debug, Clone, PartialEq)]
pub struct ExchangeInformation {
    pub timezone: String,
    pub server_time: u64,
    pub futures_type: String,
    pub rate_limits: Vec<RateLimit>,
    pub exchange_filters: Vec<Filters>,
    pub assets: Vec<AssetDetail>,
    pub symbols: Vec<Symbol>,
}

impl Decode for ExchangeInformation {
    open spec fn accepts(value: JsonValue) -> bool {
        &&& value is Object
        &&& field_accepts::<String>(value, "timezone")
        &&& field_accepts::<u64>(value, "serverTime")
        &&& field_accepts::<String>(value, "futuresType")
        &&& list_accepts::<RateLimit>(value, "rateLimits")
        &&& list_accepts::<Filters>(value, "exchangeFilters")
        &&& list_accepts::<AssetDetail>(value, "assets")
        &&& list_accepts::<Symbol>(value, "symbols")
    }

    open spec fn rejection(value: JsonValue) -> Error {
        if !(value is Object) {
            Error::UnexpectedShape
        } else if !field_accepts::<String>(value, "timezone") {
            field_rejection::<String>(value, "timezone")
        } else if !field_accepts::<u64>(value, "serverTime") {
            field_rejection::<u64>(value, "serverTime")
        } else if !field_accepts::<String>(value, "futuresType") {
            field_rejection::<String>(value, "futuresType")
        } else if !list_accepts::<RateLimit>(value, "rateLimits") {
            list_rejection::<RateLimit>(value, "rateLimits")
        } else if !list_accepts::<Filters>(value, "exchangeFilters") {
            list_rejection::<Filters>(value, "exchangeFilters")
        } else if !list_accepts::<AssetDetail>(value, "assets") {
            list_rejection::<AssetDetail>(value, "assets")
        } else {
            list_rejection::<Symbol>(value, "symbols")
        }
    }

    open spec fn describes(value: JsonValue, decoded: Self) -> bool {
        &&& field_describes::<String>(value, "timezone", decoded.timezone)
        &&& field_describes::<u64>(value, "serverTime", decoded.server_time)
        &&& field_describes::<String>(value, "futuresType", decoded.futures_type)
        &&& list_describes::<RateLimit>(value, "rateLimits", decoded.rate_limits)
        &&& list_describes::<Filters>(value, "exchangeFilters", decoded.exchange_filters)
        &&& list_describes::<AssetDetail>(value, "assets", decoded.assets)
        &&& list_describes::<Symbol>(value, "symbols", decoded.symbols)
    }

    fn decode(value: &JsonValue) -> (outcome: Result<Self, Error>) {
        if !value.is_object() {
            return Err(Error::UnexpectedShape);
        }
        let timezone: String = field(value, "timezone")?;
        let server_time: u64 = field(value, "serverTime")?;
        let futures_type: String = field(value, "futuresType")?;
        let rate_limits: Vec<RateLimit> = list_field(value, "rateLimits")?;
        let exchange_filters: Vec<Filters> = list_field(value, "exchangeFilters")?;
        let assets: Vec<AssetDetail> = list_field(value, "assets")?;
        let symbols: Vec<Symbol> = list_field(value, "symbols")?;
        Ok(
            ExchangeInformation {
                timezone,
                server_time,
                futures_type,
                rate_limits,
                exchange_filters,
                assets,
                symbols,
            },
        )
    }
}

/// An asset that can serve as margin.
#[derive(Debug, Clone, PartialEq)]
pub struct AssetDetail {
    pub asset: String,
    pub margin_available: bool,
    pub auto_asset_exchange: ExactNumericValue,
}

impl Decode for AssetDetail {
    open spec fn accepts(value: JsonValue) -> bool {
        &&& value is Object
        &&& field_accepts::<String>(value, "asset")
        &&& field_accepts::<bool>(value, "marginAvailable")
        &&& field_accepts::<ExactNumericValue>(value, "autoAssetExchange")
    }

    open spec fn rejection(value: JsonValue) -> Error {
        if !(value is Object) {
            Error::UnexpectedShape
        } else if !field_accepts::<String>(value, "asset") {
            field_rejection::<String>(value, "asset")
        } else if !field_accepts::<bool>(value, "marginAvailable") {
            field_rejection::<bool>(value, "marginAvailable")
        } else {
            field_rejection::<ExactNumericValue>(value, "autoAssetExchange")
        }
    }

    open spec fn describes(value: JsonValue, decoded: Self) -> bool {
        &&& field_describes::<String>(value, "asset", decoded.asset)
        &&& field_describes::<bool>(value, "marginAvailable", decoded.margin_available)
        &&& field_describes::<ExactNumericValue>(value, "autoAssetExchange", decoded.auto_asset_exchange)
    }

    fn decode(value: &JsonValue) -> (outcome: Result<Self, Error>) {
        if !value.is_object() {
            return Err(Error::UnexpectedShape);
        }
        let asset: String = field(value, "asset")?;
        let margin_available: bool = field(value, "marginAvailable")?;
        let auto_asset_exchange: ExactNumericValue = field(value, "autoAssetExchange")?;
        Ok(
            AssetDetail {
                asset,
                margin_available,
                auto_asset_exchange,
            },
        )
    }
}

/// One tradable instrument: its names, precision, state and trading
/// constraints.
#[derive(Debug, Clone, PartialEq)]
pub struct Symbol {
    pub symbol: String,
    pub pair: String,
    pub contract_type: ContractType,
    pub delivery_date: u64,
    pub onboard_date: u64,
    pub status: SymbolStatus,
    pub maint_margin_percent: ExactNumericValue,
    pub required_margin_percent: ExactNumericValue,
    pub base_asset: String,
    pub quote_asset: String,
    pub price_precision: u16,
    pub quantity_precision: u16,
    pub base_asset_precision: u64,
    pub quote_precision: u64,
    pub underlying_type: String,
    pub underlying_sub_type: Vec<String>,
    pub settle_plan: u64,
    pub trigger_protect: ExactNumericValue,
    pub filters: Vec<Filters>,
    pub order_types: Vec<OrderType>,
    pub time_in_force: Vec<TimeInForce>,
}

impl Decode for Symbol {
    open spec fn accepts(value: JsonValue) -> bool {
        &&& value is Object
        &&& field_accepts::<String>(value, "symbol")
        &&& field_accepts::<String>(value, "pair")
        &&& field_accepts::<ContractType>(value, "contractType")
        &&& field_accepts::<u64>(value, "deliveryDate")
        &&& field_accepts::<u64>(value, "onboardDate")
        &&& field_accepts::<SymbolStatus>(value, "status")
        &&& field_accepts::<ExactNumericValue>(value, "maintMarginPercent")
        &&& field_accepts::<ExactNumericValue>(value, "requiredMarginPercent")
        &&& field_accepts::<String>(value, "baseAsset")
        &&& field_accepts::<String>(value, "quoteAsset")
        &&& field_accepts::<u16>(value, "pricePrecision")
        &&& field_accepts::<u16>(value, "quantityPrecision")
        &&& field_accepts::<u64>(value, "baseAssetPrecision")
        &&& field_accepts::<u64>(value, "quotePrecision")
        &&& field_accepts::<String>(value, "underlyingType")
        &&& list_accepts::<String>(value, "underlyingSubType")
        &&& field_accepts::<u64>(value, "settlePlan")
        &&& field_accepts::<ExactNumericValue>(value, "triggerProtect")
        &&& list_accepts::<Filters>(value, "filters")
        &&& list_accepts::<OrderType>(value, "orderTypes")
        &&& list_accepts::<TimeInForce>(value, "timeInForce")
    }

    open spec fn rejection(value: JsonValue) -> Error {
        if !(value is Object) {
            Error::UnexpectedShape
        } else if !field_accepts::<String>(value, "symbol") {
            field_rejection::<String>(value, "symbol")
        } else if !field_accepts::<String>(value, "pair") {
            field_rejection::<String>(value, "pair")
        } else if !field_accepts::<ContractType>(value, "contractType") {
            field_rejection::<ContractType>(value, "contractType")
        } else if !field_accepts::<u64>(value, "deliveryDate") {
            field_rejection::<u64>(value, "deliveryDate")
        } else if !field_accepts::<u64>(value, "onboardDate") {
            field_rejection::<u64>(value, "onboardDate")
        } else if !field_accepts::<SymbolStatus>(value, "status") {
            field_rejection::<SymbolStatus>(value, "status")
        } else if !field_accepts::<ExactNumericValue>(value, "maintMarginPercent") {
            field_rejection::<ExactNumericValue>(value, "maintMarginPercent")
        } else if !field_accepts::<ExactNumericValue>(value, "requiredMarginPercent") {
            field_rejection::<ExactNumericValue>(value, "requiredMarginPercent")
        } else if !field_accepts::<String>(value, "baseAsset") {
            field_rejection::<String>(value, "baseAsset")
        } else if !field_accepts::<String>(value, "quoteAsset") {
            field_rejection::<String>(value, "quoteAsset")
        } else if !field_accepts::<u16>(value, "pricePrecision") {
            field_rejection::<u16>(value, "pricePrecision")
        } else if !field_accepts::<u16>(value, "quantityPrecision") {
            field_rejection::<u16>(value, "quantityPrecision")
        } else if !field_accepts::<u64>(value, "baseAssetPrecision") {
            field_rejection::<u64>(value, "baseAssetPrecision")
        } else if !field_accepts::<u64>(value, "quotePrecision") {
            field_rejection::<u64>(value, "quotePrecision")
        } else if !field_accepts::<String>(value, "underlyingType") {
            field_rejection::<String>(value, "underlyingType")
        } else if !list_accepts::<String>(value, "underlyingSubType") {
            list_rejection::<String>(value, "underlyingSubType")
        } else if !field_accepts::<u64>(value, "settlePlan") {
            field_rejection::<u64>(value, "settlePlan")
        } else if !field_accepts::<ExactNumericValue>(value, "triggerProtect") {
            field_rejection::<ExactNumericValue>(value, "triggerProtect")
        } else if !list_accepts::<Filters>(value, "filters") {
            list_rejection::<Filters>(value, "filters")
        } else if !list_accepts::<OrderType>(value, "orderTypes") {
            list_rejection::<OrderType>(value, "orderTypes")
        } else {
            list_rejection::<TimeInForce>(value, "timeInForce")
        }
    }

    open spec fn describes(value: JsonValue, decoded: Self) -> bool {
        &&& field_describes::<String>(value, "symbol", decoded.symbol)
        &&& field_describes::<String>(value, "pair", decoded.pair)
        &&& field_describes::<ContractType>(value, "contractType", decoded.contract_type)
        &&& field_describes::<u64>(value, "deliveryDate", decoded.delivery_date)
        &&& field_describes::<u64>(value, "onboardDate", decoded.onboard_date)
        &&& field_describes::<SymbolStatus>(value, "status", decoded.status)
        &&& field_describes::<ExactNumericValue>(value, "maintMarginPercent", decoded.maint_margin_percent)
        &&& field_describes::<ExactNumericValue>(value, "requiredMarginPercent", decoded.required_margin_percent)
        &&& field_describes::<String>(value, "baseAsset", decoded.base_asset)
        &&& field_describes::<String>(value, "quoteAsset", decoded.quote_asset)
        &&& field_describes::<u16>(value, "pricePrecision", decoded.price_precision)
        &&& field_describes::<u16>(value, "quantityPrecision", decoded.quantity_precision)
        &&& field_describes::<u64>(value, "baseAssetPrecision", decoded.base_asset_precision)
        &&& field_describes::<u64>(value, "quotePrecision", decoded.quote_precision)
        &&& field_describes::<String>(value, "underlyingType", decoded.underlying_type)
        &&& list_describes::<String>(value, "underlyingSubType", decoded.underlying_sub_type)
        &&& field_describes::<u64>(value, "settlePlan", decoded.settle_plan)
        &&& field_describes::<ExactNumericValue>(value, "triggerProtect", decoded.trigger_protect)
        &&& list_describes::<Filters>(value, "filters", decoded.filters)
        &&& list_describes::<OrderType>(value, "orderTypes", decoded.order_types)
        &&& list_describes::<TimeInForce>(value, "timeInForce", decoded.time_in_force)
    }

    fn decode(value: &JsonValue) -> (outcome: Result<Self, Error>) {
        if !value.is_object() {
            return Err(Error::UnexpectedShape);
        }
        let symbol: String = field(value, "symbol")?;
        let pair: String = field(value, "pair")?;
        let contract_type: ContractType = field(value, "contractType")?;
        let delivery_date: u64 = field(value, "deliveryDate")?;
        let onboard_date: u64 = field(value, "onboardDate")?;
        let status: SymbolStatus = field(value, "status")?;
        let maint_margin_percent: ExactNumericValue = field(value, "maintMarginPercent")?;
        let required_margin_percent: ExactNumericValue = field(value, "requiredMarginPercent")?;
        let base_asset: String = field(value, "baseAsset")?;
        let quote_asset: String = field(value, "quoteAsset")?;
        let price_precision: u16 = field(value, "pricePrecision")?;
        let quantity_precision: u16 = field(value, "quantityPrecision")?;
        let base_asset_precision: u64 = field(value, "baseAssetPrecision")?;
        let quote_precision: u64 = field(value, "quotePrecision")?;
        let underlying_type: String = field(value, "underlyingType")?;
        let underlying_sub_type: Vec<String> = list_field(value, "underlyingSubType")?;
        let settle_plan: u64 = field(value, "settlePlan")?;
        let trigger_protect: ExactNumericValue = field(value, "triggerProtect")?;
        let filters: Vec<Filters> = list_field(value, "filters")?;
        let order_types: Vec<OrderType> = list_field(value, "orderTypes")?;
        let time_in_force: Vec<TimeInForce> = list_field(value, "timeInForce")?;
        Ok(
            Symbol {
                symbol,
                pair,
                contract_type,
                delivery_date,
                onboard_date,
                status,
                maint_margin_percent,
                required_margin_percent,
                base_asset,
                quote_asset,
                price_precision,
                quantity_precision,
                base_asset_precision,
                quote_precision,
                underlying_type,
                underlying_sub_type,
                settle_plan,
                trigger_protect,
                filters,
                order_types,
                time_in_force,
            },
        )
    }
}

/// The kind of contract behind an instrument.
#[derive(Debug, Clone, Copy, PartialEq, Eq, Structural)]
pub enum ContractType {
    Perpetual,
    CurrentMonth,
    NextMonth,
    CurrentQuarter,
    NextQuarter,
    /// Written with a space on the wire.
    CurrentQuarterDelivery,
    PerpetualDelivering,
    /// The empty tag, seen on delisted and placeholder instruments. It is
    /// handed on as it is and implies nothing about trading.
    Empty,
}

impl ContractType {
    /// The member that a wire tag names, if it names one.
    pub open spec fn spec_from_tag(tag: Seq<char>) -> Option<ContractType> {
        if tag == "PERPETUAL"@ {
            Some(ContractType::Perpetual)
        } else if tag == "CURRENT_MONTH"@ {
            Some(ContractType::CurrentMonth)
        } else if tag == "NEXT_MONTH"@ {
            Some(ContractType::NextMonth)
        } else if tag == "CURRENT_QUARTER"@ {
            Some(ContractType::CurrentQuarter)
        } else if tag == "NEXT_QUARTER"@ {
            Some(ContractType::NextQuarter)
        } else if tag == "CURRENT_QUARTER DELIVERING"@ {
            Some(ContractType::CurrentQuarterDelivery)
        } else if tag == "PERPETUAL_DELIVERING"@ {
            Some(ContractType::PerpetualDelivering)
        } else if tag == ""@ {
            Some(ContractType::Empty)
        } else {
            None
        }
    }

    /// The wire tag of a member.
    pub open spec fn spec_tag(self) -> Seq<char> {
        match self {
            ContractType::Perpetual => "PERPETUAL"@,
            ContractType::CurrentMonth => "CURRENT_MONTH"@,
            ContractType::NextMonth => "NEXT_MONTH"@,
            ContractType::CurrentQuarter => "CURRENT_QUARTER"@,
            ContractType::NextQuarter => "NEXT_QUARTER"@,
            ContractType::CurrentQuarterDelivery => "CURRENT_QUARTER DELIVERING"@,
            ContractType::PerpetualDelivering => "PERPETUAL_DELIVERING"@,
            ContractType::Empty => ""@,
        }
    }

    /// Finds the member that a wire tag names.
    pub fn from_tag(tag: &str) -> (member: Option<ContractType>)
        ensures
            member == Self::spec_from_tag(tag@),
    {
        if str_eq(tag, "PERPETUAL") {
            Some(ContractType::Perpetual)
        } else if str_eq(tag, "CURRENT_MONTH") {
            Some(ContractType::CurrentMonth)
        } else if str_eq(tag, "NEXT_MONTH") {
            Some(ContractType::NextMonth)
        } else if str_eq(tag, "CURRENT_QUARTER") {
            Some(ContractType::CurrentQuarter)
        } else if str_eq(tag, "NEXT_QUARTER") {
            Some(ContractType::NextQuarter)
        } else if str_eq(tag, "CURRENT_QUARTER DELIVERING") {
            Some(ContractType::CurrentQuarterDelivery)
        } else if str_eq(tag, "PERPETUAL_DELIVERING") {
            Some(ContractType::PerpetualDelivering)
        } else if str_eq(tag, "") {
            Some(ContractType::Empty)
        } else {
            None
        }
    }

    /// The tag that a member is written with on the wire.
    pub fn as_tag(&self) -> (tag: &'static str)
        ensures
            tag@ == self.spec_tag(),
    {
        match self {
            ContractType::Perpetual => "PERPETUAL",
            ContractType::CurrentMonth => "CURRENT_MONTH",
            ContractType::NextMonth => "NEXT_MONTH",
            ContractType::CurrentQuarter => "CURRENT_QUARTER",
            ContractType::NextQuarter => "NEXT_QUARTER",
            ContractType::CurrentQuarterDelivery => "CURRENT_QUARTER DELIVERING",
            ContractType::PerpetualDelivering => "PERPETUAL_DELIVERING",
            ContractType::Empty => "",
        }
    }

    /// Every member is named by its own tag, so no two members share one.
    pub proof fn lemma_tag_names_member(member: ContractType)
        ensures
            Self::spec_from_tag(member.spec_tag()) == Some(member),
    {
        reveal_strlit("PERPETUAL");
        reveal_strlit("CURRENT_MONTH");
        reveal_strlit("NEXT_MONTH");
        reveal_strlit("CURRENT_QUARTER");
        reveal_strlit("NEXT_QUARTER");
        reveal_strlit("CURRENT_QUARTER DELIVERING");
        reveal_strlit("PERPETUAL_DELIVERING");
        reveal_strlit("");
        assert("PERPETUAL"@.len() == 9);
        assert("CURRENT_MONTH"@.len() == 13);
        assert("NEXT_MONTH"@.len() == 10);
        assert("CURRENT_QUARTER"@.len() == 15);
        assert("NEXT_QUARTER"@.len() == 12);
        assert("CURRENT_QUARTER DELIVERING"@.len() == 26);
        assert("PERPETUAL_DELIVERING"@.len() == 20);
        assert(""@.len() == 0);
    }
}

impl Decode for ContractType {
    open spec fn accepts(value: JsonValue) -> bool {
        value is Text && Self::spec_from_tag(value->Text_0@) is Some
    }

    open spec fn rejection(value: JsonValue) -> Error {
        match value {
            JsonValue::Text(tag) => Error::UnknownEnumVariant(tag),
            _ => Error::UnexpectedShape,
        }
    }

    open spec fn describes(value: JsonValue, decoded: Self) -> bool {
        value is Text && Self::spec_from_tag(value->Text_0@) == Some(decoded)
    }

    fn decode(value: &JsonValue) -> (outcome: Result<Self, Error>) {
        match value {
            JsonValue::Text(tag) => match Self::from_tag(tag.as_str()) {
                Some(member) => Ok(member),
                None => Err(Error::UnknownEnumVariant(tag.clone())),
            },
            _ => Err(Error::UnexpectedShape),
        }
    }
}

/// The kind of an order.
#[derive(Debug, Clone, Copy, PartialEq, Eq, Structural)]
pub enum OrderType {
    Limit,
    Market,
    Stop,
    StopMarket,
    TakeProfit,
    TakeProfitMarket,
    TrailingStopMarket,
}

impl OrderType {
    /// The member that a wire tag names, if it names one.
    pub open spec fn spec_from_tag(tag: Seq<char>) -> Option<OrderType> {
        if tag == "LIMIT"@ {
            Some(OrderType::Limit)
        } else if tag == "MARKET"@ {
            Some(OrderType::Market)
        } else if tag == "STOP"@ {
            Some(OrderType::Stop)
        } else if tag == "STOP_MARKET"@ {
            Some(OrderType::StopMarket)
        } else if tag == "TAKE_PROFIT"@ {
            Some(OrderType::TakeProfit)
        } else if tag == "TAKE_PROFIT_MARKET"@ {
            Some(OrderType::TakeProfitMarket)
        } else if tag == "TRAILING_STOP_MARKET"@ {
            Some(OrderType::TrailingStopMarket)
        } else {
            None
        }
    }

    /// The wire tag of a member.
    pub open spec fn spec_tag(self) -> Seq<char> {
        match self {
            OrderType::Limit => "LIMIT"@,
            OrderType::Market => "MARKET"@,
            OrderType::Stop => "STOP"@,
            OrderType::StopMarket => "STOP_MARKET"@,
            OrderType::TakeProfit => "TAKE_PROFIT"@,
            OrderType::TakeProfitMarket => "TAKE_PROFIT_MARKET"@,
            OrderType::TrailingStopMarket => "TRAILING_STOP_MARKET"@,
        }
    }

    /// Finds the member that a wire tag names.
    pub fn from_tag(tag: &str) -> (member: Option<OrderType>)
        ensures
            member == Self::spec_from_tag(tag@),
    {
        if str_eq(tag, "LIMIT") {
            Some(OrderType::Limit)
        } else if str_eq(tag, "MARKET") {
            Some(OrderType::Market)
        } else if str_eq(tag, "STOP") {
            Some(OrderType::Stop)
        } else if str_eq(tag, "STOP_MARKET") {
            Some(OrderType::StopMarket)
        } else if str_eq(tag, "TAKE_PROFIT") {
            Some(OrderType::TakeProfit)
        } else if str_eq(tag, "TAKE_PROFIT_MARKET") {
            Some(OrderType::TakeProfitMarket)
        } else if str_eq(tag, "TRAILING_STOP_MARKET") {
            Some(OrderType::TrailingStopMarket)
        } else {
            None
        }
    }

    /// The tag that a member is written with on the wire.
    pub fn as_tag(&self) -> (tag: &'static str)
        ensures
            tag@ == self.spec_tag(),
    {
        match self {
            OrderType::Limit => "LIMIT",
            OrderType::Market => "MARKET",
            OrderType::Stop => "STOP",
            OrderType::StopMarket => "STOP_MARKET",
            OrderType::TakeProfit => "TAKE_PROFIT",
            OrderType::TakeProfitMarket => "TAKE_PROFIT_MARKET",
            OrderType::TrailingStopMarket => "TRAILING_STOP_MARKET",
        }
    }

    /// Every member is named by its own tag, so no two members share one.
    pub proof fn lemma_tag_names_member(member: OrderType)
        ensures
            Self::spec_from_tag(member.spec_tag()) == Some(member),
    {
        reveal_strlit("LIMIT");
        reveal_strlit("MARKET");
        reveal_strlit("STOP");
        reveal_strlit("STOP_MARKET");
        reveal_strlit("TAKE_PROFIT");
        reveal_strlit("TAKE_PROFIT_MARKET");
        reveal_strlit("TRAILING_STOP_MARKET");
        assert("LIMIT"@.len() == 5);
        assert("MARKET"@.len() == 6);
        assert("STOP"@.len() == 4);
        assert("STOP_MARKET"@.len() == 11);
        assert("TAKE_PROFIT"@.len() == 11);
        assert("TAKE_PROFIT_MARKET"@.len() == 18);
        assert("TRAILING_STOP_MARKET"@.len() == 20);
        assert("STOP_MARKET"@[0] != "TAKE_PROFIT"@[0]);
    }
}

impl Default for OrderType {
    /// A market order, for a place that must hold a kind where the payload
    /// names none.
    fn default() -> (member: OrderType)
        ensures
            member == OrderType::Market,
    {
        OrderType::Market
    }
}

impl Decode for OrderType {
    open spec fn accepts(value: JsonValue) -> bool {
        value is Text && Self::spec_from_tag(value->Text_0@) is Some
    }

    open spec fn rejection(value: JsonValue) -> Error {
        match value {
            JsonValue::Text(tag) => Error::UnknownEnumVariant(tag),
            _ => Error::UnexpectedShape,
        }
    }

    open spec fn describes(value: JsonValue, decoded: Self) -> bool {
        value is Text && Self::spec_from_tag(value->Text_0@) == Some(decoded)
    }

    fn decode(value: &JsonValue) -> (outcome: Result<Self, Error>) {
        match value {
            JsonValue::Text(tag) => match Self::from_tag(tag.as_str()) {
                Some(member) => Ok(member),
                None => Err(Error::UnknownEnumVariant(tag.clone())),
            },
            _ => Err(Error::UnexpectedShape),
        }
    }
}

/// The side of a position.
#[derive(Debug, Clone, Copy, PartialEq, Eq, Structural)]
pub enum PositionSide {
    Both,
    Long,
    Short,
}

impl PositionSide {
    /// The member that a wire tag names, if it names one.
    pub open spec fn spec_from_tag(tag: Seq<char>) -> Option<PositionSide> {
        if tag == "BOTH"@ {
            Some(PositionSide::Both)
        } else if tag == "LONG"@ {
            Some(PositionSide::Long)
        } else if tag == "SHORT"@ {
            Some(PositionSide::Short)
        } else {
            None
        }
    }

    /// The wire tag of a member.
    pub open spec fn spec_tag(self) -> Seq<char> {
        match self {
            PositionSide::Both => "BOTH"@,
            PositionSide::Long => "LONG"@,
            PositionSide::Short => "SHORT"@,
        }
    }

    /// Finds the member that a wire tag names.
    pub fn from_tag(tag: &str) -> (member: Option<PositionSide>)
        ensures
            member == Self::spec_from_tag(tag@),
    {
        if str_eq(tag, "BOTH") {
            Some(PositionSide::Both)
        } else if str_eq(tag, "LONG") {
            Some(PositionSide::Long)
        } else if str_eq(tag, "SHORT") {
            Some(PositionSide::Short)
        } else {
            None
        }
    }

    /// The tag that a member is written with on the wire.
    pub fn as_tag(&self) -> (tag: &'static str)
        ensures
            tag@ == self.spec_tag(),
    {
        match self {
            PositionSide::Both => "BOTH",
            PositionSide::Long => "LONG",
            PositionSide::Short => "SHORT",
        }
    }

    /// Every member is named by its own tag, so no two members share one.
    pub proof fn lemma_tag_names_member(member: PositionSide)
        ensures
            Self::spec_from_tag(member.spec_tag()) == Some(member),
    {
        reveal_strlit("BOTH");
        reveal_strlit("LONG");
        reveal_strlit("SHORT");
        assert("BOTH"@.len() == 4);
        assert("LONG"@.len() == 4);
        assert("SHORT"@.len() == 5);
        assert("BOTH"@[0] != "LONG"@[0]);
    }
}

impl Decode for PositionSide {
    open spec fn accepts(value: JsonValue) -> bool {
        value is Text && Self::spec_from_tag(value->Text_0@) is Some
    }

    open spec fn rejection(value: JsonValue) -> Error {
        match value {
            JsonValue::Text(tag) => Error::UnknownEnumVariant(tag),
            _ => Error::UnexpectedShape,
        }
    }

    open spec fn describes(value: JsonValue, decoded: Self) -> bool {
        value is Text && Self::spec_from_tag(value->Text_0@) == Some(decoded)
    }

    fn decode(value: &JsonValue) -> (outcome: Result<Self, Error>) {
        match value {
            JsonValue::Text(tag) => match Self::from_tag(tag.as_str()) {
                Some(member) => Ok(member),
                None => Err(Error::UnknownEnumVariant(tag.clone())),
            },
            _ => Err(Error::UnexpectedShape),
        }
    }
}

/// The price that triggers a conditional order.
#[derive(Debug, Clone, Copy, PartialEq, Eq, Structural)]
pub enum WorkingType {
    MarkPrice,
    ContractPrice,
}

impl WorkingType {
    /// The member that a wire tag names, if it names one.
    pub open spec fn spec_from_tag(tag: Seq<char>) -> Option<WorkingType> {
        if tag == "MARK_PRICE"@ {
            Some(WorkingType::MarkPrice)
        } else if tag == "CONTRACT_PRICE"@ {
            Some(WorkingType::ContractPrice)
        } else {
            None
        }
    }

    /// The wire tag of a member.
    pub open spec fn spec_tag(self) -> Seq<char> {
        match self {
            WorkingType::MarkPrice => "MARK_PRICE"@,
            WorkingType::ContractPrice => "CONTRACT_PRICE"@,
        }
    }

    /// Finds the member that a wire tag names.
    pub fn from_tag(tag: &str) -> (member: Option<WorkingType>)
        ensures
            member == Self::spec_from_tag(tag@),
    {
        if str_eq(tag, "MARK_PRICE") {
            Some(WorkingType::MarkPrice)
        } else if str_eq(tag, "CONTRACT_PRICE") {
            Some(WorkingType::ContractPrice)
        } else {
            None
        }
    }

    /// The tag that a member is written with on the wire.
    pub fn as_tag(&self) -> (tag: &'static str)
        ensures
            tag@ == self.spec_tag(),
    {
        match self {
            WorkingType::MarkPrice => "MARK_PRICE",
            WorkingType::ContractPrice => "CONTRACT_PRICE",
        }
    }

    /// Every member is named by its own tag, so no two members share one.
    pub proof fn lemma_tag_names_member(member: WorkingType)
        ensures
            Self::spec_from_tag(member.spec_tag()) == Some(member),
    {
        reveal_strlit("MARK_PRICE");
        reveal_strlit("CONTRACT_PRICE");
        assert("MARK_PRICE"@.len() == 10);
        assert("CONTRACT_PRICE"@.len() == 14);
    }
}

impl Decode for WorkingType {
    open spec fn accepts(value: JsonValue) -> bool {
        value is Text && Self::spec_from_tag(value->Text_0@) is Some
    }

    open spec fn rejection(value: JsonValue) -> Error {
        match value {
            JsonValue::Text(tag) => Error::UnknownEnumVariant(tag),
            _ => Error::UnexpectedShape,
        }
    }

    open spec fn describes(value: JsonValue, decoded: Self) -> bool {
        value is Text && Self::spec_from_tag(value->Text_0@) == Some(decoded)
    }

    fn decode(value: &JsonValue) -> (outcome: Result<Self, Error>) {
        match value {
            JsonValue::Text(tag) => match Self::from_tag(tag.as_str()) {
                Some(member) => Ok(member),
                None => Err(Error::UnknownEnumVariant(tag.clone())),
            },
            _ => Err(Error::UnexpectedShape),
        }
    }
}

/// How margin is held for a position. Its tags are lower case.
#[derive(Debug, Clone, Copy, PartialEq, Eq, Structural)]
pub enum MarginType {
    Isolated,
    Cross,
}

impl MarginType {
    /// The member that a wire tag names, if it names one.
    pub open spec fn spec_from_tag(tag: Seq<char>) -> Option<MarginType> {
        if tag == "isolated"@ {
            Some(MarginType::Isolated)
        } else if tag == "cross"@ {
            Some(MarginType::Cross)
        } else {
            None
        }
    }

    /// The wire tag of a member.
    pub open spec fn spec_tag(self) -> Seq<char> {
        match self {
            MarginType::Isolated => "isolated"@,
            MarginType::Cross => "cross"@,
        }
    }

    /// Finds the member that a wire tag names.
    pub fn from_tag(tag: &str) -> (member: Option<MarginType>)
        ensures
            member == Self::spec_from_tag(tag@),
    {
        if str_eq(tag, "isolated") {
            Some(MarginType::Isolated)
        } else if str_eq(tag, "cross") {
            Some(MarginType::Cross)
        } else {
            None
        }
    }

    /// The tag that a member is written with on the wire.
    pub fn as_tag(&self) -> (tag: &'static str)
        ensures
            tag@ == self.spec_tag(),
    {
        match self {
            MarginType::Isolated => "isolated",
            MarginType::Cross => "cross",
        }
    }

    /// Every member is named by its own tag, so no two members share one.
    pub proof fn lemma_tag_names_member(member: MarginType)
        ensures
            Self::spec_from_tag(member.spec_tag()) == Some(member),
    {
        reveal_strlit("isolated");
        reveal_strlit("cross");
        assert("isolated"@.len() == 8);
        assert("cross"@.len() == 5);
    }
}

impl Decode for MarginType {
    open spec fn accepts(value: JsonValue) -> bool {
        value is Text && Self::spec_from_tag(value->Text_0@) is Some
    }

    open spec fn rejection(value: JsonValue) -> Error {
        match value {
            JsonValue::Text(tag) => Error::UnknownEnumVariant(tag),
            _ => Error::UnexpectedShape,
        }
    }

    open spec fn describes(value: JsonValue, decoded: Self) -> bool {
        value is Text && Self::spec_from_tag(value->Text_0@) == Some(decoded)
    }

    fn decode(value: &JsonValue) -> (outcome: Result<Self, Error>) {
        match value {
            JsonValue::Text(tag) => match Self::from_tag(tag.as_str()) {
                Some(member) => Ok(member),
                None => Err(Error::UnknownEnumVariant(tag.clone())),
            },
            _ => Err(Error::UnexpectedShape),
        }
    }
}

/// Whether the object holds wire forms of `T` under all three keys.
pub open spec fn triple_accepts<T: Decode>(
    object: JsonValue,
    keys: (&'static str, &'static str, &'static str),
) -> bool {
    &&& field_accepts::<T>(object, keys.0)
    &&& field_accepts::<T>(object, keys.1)
    &&& field_accepts::<T>(object, keys.2)
}

/// Why three fields of one type are rejected: the rejection of the first of
/// them that is.
pub open spec fn triple_rejection<T: Decode>(
    object: JsonValue,
    keys: (&'static str, &'static str, &'static str),
) -> Error {
    if !field_accepts::<T>(object, keys.0) {
        field_rejection::<T>(object, keys.0)
    } else if !field_accepts::<T>(object, keys.1) {
        field_rejection::<T>(object, keys.1)
    } else {
        field_rejection::<T>(object, keys.2)
    }
}

/// Whether the three values are what the object holds under the three keys.
pub open spec fn triple_describes<T: Decode>(
    object: JsonValue,
    keys: (&'static str, &'static str, &'static str),
    decoded: (T, T, T),
) -> bool {
    &&& field_describes::<T>(object, keys.0, decoded.0)
    &&& field_describes::<T>(object, keys.1, decoded.1)
    &&& field_describes::<T>(object, keys.2, decoded.2)
}

/// Decodes three required fields of one type, in the order of the keys.
pub fn triple<T: Decode>(
    object: &JsonValue,
    keys: (&'static str, &'static str, &'static str),
) -> (outcome: Result<(T, T, T), Error>)
    ensures
        match outcome {
            Ok(decoded) => triple_accepts::<T>(*object, keys) && triple_describes::<T>(
                *object,
                keys,
                decoded,
            ),
            Err(error) => !triple_accepts::<T>(*object, keys) && error == triple_rejection::<T>(
                *object,
                keys,
            ),
        },
{
    let first: T = field(object, keys.0)?;
    let second: T = field(object, keys.1)?;
    let third: T = field(object, keys.2)?;
    Ok((first, second, third))
}

/// A trading constraint of an instrument or of the exchange, told apart by
/// the `filterType` of its object.
///
/// The exchange adds kinds of filters without notice. A `filterType` that is
/// none of those below decodes to `Unknown`, whatever else the object holds,
/// so that a new kind never fails the record around it.
#[derive(Debug, Clone, PartialEq)]
pub enum Filters {
    /// `PRICE_FILTER`: the bounds and the step of a price.
    PriceFilter { min_price: ExactNumericValue, max_price: ExactNumericValue, tick_size: ExactNumericValue },
    /// `LOT_SIZE`: the bounds and the step of a quantity.
    LotSize { min_qty: ExactNumericValue, max_qty: ExactNumericValue, step_size: ExactNumericValue },
    /// `MARKET_LOT_SIZE`: the same for market orders, kept as the text sent.
    MarketLotSize { min_qty: String, max_qty: String, step_size: String },
    /// `MAX_NUM_ORDERS`: how many orders may be open.
    MaxNumOrders { limit: u16 },
    /// `MAX_NUM_ALGO_ORDERS`: how many algorithmic orders may be open.
    MaxNumAlgoOrders { limit: u16 },
    /// `MIN_NOTIONAL`: the least value of an order.
    MinNotional { notional: ExactNumericValue },
    /// `PERCENT_PRICE`: how far a price may lie from the mark price.
    PercentPrice {
        multiplier_up: ExactNumericValue,
        multiplier_down: ExactNumericValue,
        multiplier_decimal: ExactNumericValue,
    },
    /// A kind of filter that this library does not know.
    Unknown,
}

impl Filters {
    /// The keys of a `PRICE_FILTER`.
    pub open spec fn price_keys() -> (&'static str, &'static str, &'static str) {
        ("minPrice", "maxPrice", "tickSize")
    }

    /// The keys of a `LOT_SIZE` and of a `MARKET_LOT_SIZE`.
    pub open spec fn lot_keys() -> (&'static str, &'static str, &'static str) {
        ("minQty", "maxQty", "stepSize")
    }

    /// The keys of a `PERCENT_PRICE`.
    pub open spec fn percent_keys() -> (&'static str, &'static str, &'static str) {
        ("multiplierUp", "multiplierDown", "multiplierDecimal")
    }

    /// The `filterType` of an object that has one written as a string.
    pub open spec fn spec_kind(value: JsonValue) -> Seq<char> {
        value.spec_get("filterType"@)->Some_0->Text_0@
    }

    /// Whether `kind` names one of the kinds of filter that are known.
    pub open spec fn is_known_kind(kind: Seq<char>) -> bool {
        ||| kind == "PRICE_FILTER"@
        ||| kind == "LOT_SIZE"@
        ||| kind == "MARKET_LOT_SIZE"@
        ||| kind == "MAX_NUM_ORDERS"@
        ||| kind == "MAX_NUM_ALGO_ORDERS"@
        ||| kind == "MIN_NOTIONAL"@
        ||| kind == "PERCENT_PRICE"@
    }

    /// An object whose `filterType` is a string that names no known kind is
    /// accepted whatever else it holds, and stands for `Unknown` and for
    /// nothing else.
    pub proof fn lemma_unknown_kind_is_tolerated(value: JsonValue, decoded: Filters)
        requires
            value is Object,
            field_accepts::<String>(value, "filterType"),
            !Self::is_known_kind(Self::spec_kind(value)),
        ensures
            Self::accepts(value),
            Self::describes(value, decoded) <==> decoded is Unknown,
    {
    }
}

impl Decode for Filters {
    open spec fn accepts(value: JsonValue) -> bool {
        let kind = Self::spec_kind(value);
        &&& value is Object
        &&& field_accepts::<String>(value, "filterType")
        &&& if kind == "PRICE_FILTER"@ {
            triple_accepts::<ExactNumericValue>(value, Self::price_keys())
        } else if kind == "LOT_SIZE"@ {
            triple_accepts::<ExactNumericValue>(value, Self::lot_keys())
        } else if kind == "MARKET_LOT_SIZE"@ {
            triple_accepts::<String>(value, Self::lot_keys())
        } else if kind == "MAX_NUM_ORDERS"@ || kind == "MAX_NUM_ALGO_ORDERS"@ {
            field_accepts::<u16>(value, "limit")
        } else if kind == "MIN_NOTIONAL"@ {
            field_accepts::<ExactNumericValue>(value, "notional")
        } else if kind == "PERCENT_PRICE"@ {
            triple_accepts::<ExactNumericValue>(value, Self::percent_keys())
        } else {
            true
        }
    }

    open spec fn rejection(value: JsonValue) -> Error {
        let kind = Self::spec_kind(value);
        if !(value is Object) {
            Error::UnexpectedShape
        } else if !field_accepts::<String>(value, "filterType") {
            field_rejection::<String>(value, "filterType")
        } else if kind == "PRICE_FILTER"@ {
            triple_rejection::<ExactNumericValue>(value, Self::price_keys())
        } else if kind == "LOT_SIZE"@ {
            triple_rejection::<ExactNumericValue>(value, Self::lot_keys())
        } else if kind == "MARKET_LOT_SIZE"@ {
            triple_rejection::<String>(value, Self::lot_keys())
        } else if kind == "MAX_NUM_ORDERS"@ || kind == "MAX_NUM_ALGO_ORDERS"@ {
            field_rejection::<u16>(value, "limit")
        } else if kind == "MIN_NOTIONAL"@ {
            field_rejection::<ExactNumericValue>(value, "notional")
        } else {
            triple_rejection::<ExactNumericValue>(value, Self::percent_keys())
        }
    }

    open spec fn describes(value: JsonValue, decoded: Self) -> bool {
        let kind = Self::spec_kind(value);
        if kind == "PRICE_FILTER"@ {
            decoded matches Filters::PriceFilter { min_price, max_price, tick_size }
                && triple_describes::<ExactNumericValue>(
                value,
                Self::price_keys(),
                (min_price, max_price, tick_size),
            )
        } else if kind == "LOT_SIZE"@ {
            decoded matches Filters::LotSize { min_qty, max_qty, step_size }
                && triple_describes::<ExactNumericValue>(
                value,
                Self::lot_keys(),
                (min_qty, max_qty, step_size),
            )
        } else if kind == "MARKET_LOT_SIZE"@ {
            decoded matches Filters::MarketLotSize { min_qty, max_qty, step_size }
                && triple_describes::<String>(value, Self::lot_keys(), (min_qty, max_qty, step_size))
        } else if kind == "MAX_NUM_ORDERS"@ {
            decoded matches Filters::MaxNumOrders { limit } && field_describes::<u16>(
                value,
                "limit",
                limit,
            )
        } else if kind == "MAX_NUM_ALGO_ORDERS"@ {
            decoded matches Filters::MaxNumAlgoOrders { limit } && field_describes::<u16>(
                value,
                "limit",
                limit,
            )
        } else if kind == "MIN_NOTIONAL"@ {
            decoded matches Filters::MinNotional { notional } && field_describes::<
                ExactNumericValue,
            >(value, "notional", notional)
        } else if kind == "PERCENT_PRICE"@ {
            decoded matches Filters::PercentPrice {
                multiplier_up,
                multiplier_down,
                multiplier_decimal,
            } && triple_describes::<ExactNumericValue>(
                value,
                Self::percent_keys(),
                (multiplier_up, multiplier_down, multiplier_decimal),
            )
        } else {
            decoded is Unknown
        }
    }

    fn decode(value: &JsonValue) -> (outcome: Result<Self, Error>) {
        if !value.is_object() {
            return Err(Error::UnexpectedShape);
        }
        let kind: String = field(value, "filterType")?;
        let kind = kind.as_str();
        if str_eq(kind, "PRICE_FILTER") {
            let (min_price, max_price, tick_size) = triple::<ExactNumericValue>(
                value,
                ("minPrice", "maxPrice", "tickSize"),
            )?;
            Ok(Filters::PriceFilter { min_price, max_price, tick_size })
        } else if str_eq(kind, "LOT_SIZE") {
            let (min_qty, max_qty, step_size) = triple::<ExactNumericValue>(
                value,
                ("minQty", "maxQty", "stepSize"),
            )?;
            Ok(Filters::LotSize { min_qty, max_qty, step_size })
        } else if str_eq(kind, "MARKET_LOT_SIZE") {
            let (min_qty, max_qty, step_size) = triple::<String>(
                value,
                ("minQty", "maxQty", "stepSize"),
            )?;
            Ok(Filters::MarketLotSize { min_qty, max_qty, step_size })
        } else if str_eq(kind, "MAX_NUM_ORDERS") {
            let limit: u16 = field(value, "limit")?;
            Ok(Filters::MaxNumOrders { limit })
        } else if str_eq(kind, "MAX_NUM_ALGO_ORDERS") {
            let limit: u16 = field(value, "limit")?;
            Ok(Filters::MaxNumAlgoOrders { limit })
        } else if str_eq(kind, "MIN_NOTIONAL") {
            let notional: ExactNumericValue = field(value, "notional")?;
            Ok(Filters::MinNotional { notional })
        } else if str_eq(kind, "PERCENT_PRICE") {
            let (multiplier_up, multiplier_down, multiplier_decimal) = triple::<
                ExactNumericValue,
            >(value, ("multiplierUp", "multiplierDown", "multiplierDecimal"))?;
            Ok(Filters::PercentPrice { multiplier_up, multiplier_down, multiplier_decimal })
        } else {
            Ok(Filters::Unknown)
        }
    }
}

/// The open bids and asks of an instrument at one moment.
#[derive(Debug, Clone, PartialEq)]
pub struct OrderBook {
    pub last_update_id: u64,
    pub event_time: u64,
    pub trade_order_time: u64,
    pub bids: Vec<Bids>,
    pub asks: Vec<Asks>,
}

impl Decode for OrderBook {
    open spec fn accepts(value: JsonValue) -> bool {
        &&& value is Object
        &&& field_accepts::<u64>(value, "lastUpdateId")
        &&& field_accepts::<u64>(value, "E")
        &&& field_accepts::<u64>(value, "T")
        &&& list_accepts::<Bids>(value, "bids")
        &&& list_accepts::<Asks>(value, "asks")
    }

    open spec fn rejection(value: JsonValue) -> Error {
        if !(value is Object) {
            Error::UnexpectedShape
        } else if !field_accepts::<u64>(value, "lastUpdateId") {
            field_rejection::<u64>(value, "lastUpdateId")
        } else if !field_accepts::<u64>(value, "E") {
            field_rejection::<u64>(value, "E")
        } else if !field_accepts::<u64>(value, "T") {
            field_rejection::<u64>(value, "T")
        } else if !list_accepts::<Bids>(value, "bids") {
            list_rejection::<Bids>(value, "bids")
        } else {
            list_rejection::<Asks>(value, "asks")
        }
    }

    open spec fn describes(value: JsonValue, decoded: Self) -> bool {
        &&& field_describes::<u64>(value, "lastUpdateId", decoded.last_update_id)
        &&& field_describes::<u64>(value, "E", decoded.event_time)
        &&& field_describes::<u64>(value, "T", decoded.trade_order_time)
        &&& list_describes::<Bids>(value, "bids", decoded.bids)
        &&& list_describes::<Asks>(value, "asks", decoded.asks)
    }

    fn decode(value: &JsonValue) -> (outcome: Result<Self, Error>) {
        if !value.is_object() {
            return Err(Error::UnexpectedShape);
        }
        let last_update_id: u64 = field(value, "lastUpdateId")?;
        let event_time: u64 = field(value, "E")?;
        let trade_order_time: u64 = field(value, "T")?;
        let bids: Vec<Bids> = list_field(value, "bids")?;
        let asks: Vec<Asks> = list_field(value, "asks")?;
        Ok(
            OrderBook {
                last_update_id,
                event_time,
                trade_order_time,
                bids,
                asks,
            },
        )
    }
}

/// The price statistics of an instrument over the last day.
#[derive(Debug, Clone, PartialEq)]
pub struct PriceStats {
    pub symbol: String,
    pub price_change: String,
    pub price_change_percent: String,
    pub weighted_avg_price: String,
    pub last_price: ExactNumericValue,
    pub open_price: ExactNumericValue,
    pub high_price: ExactNumericValue,
    pub low_price: ExactNumericValue,
    pub volume: ExactNumericValue,
    pub quote_volume: ExactNumericValue,
    pub last_qty: ExactNumericValue,
    pub open_time: u64,
    pub close_time: u64,
    pub first_id: u64,
    pub last_id: u64,
    pub count: u64,
}

impl Decode for PriceStats {
    open spec fn accepts(value: JsonValue) -> bool {
        &&& value is Object
        &&& field_accepts::<String>(value, "symbol")
        &&& field_accepts::<String>(value, "priceChange")
        &&& field_accepts::<String>(value, "priceChangePercent")
        &&& field_accepts::<String>(value, "weightedAvgPrice")
        &&& field_accepts::<ExactNumericValue>(value, "lastPrice")
        &&& field_accepts::<ExactNumericValue>(value, "openPrice")
        &&& field_accepts::<ExactNumericValue>(value, "highPrice")
        &&& field_accepts::<ExactNumericValue>(value, "lowPrice")
        &&& field_accepts::<ExactNumericValue>(value, "volume")
        &&& field_accepts::<ExactNumericValue>(value, "quoteVolume")
        &&& field_accepts::<ExactNumericValue>(value, "lastQty")
        &&& field_accepts::<u64>(value, "openTime")
        &&& field_accepts::<u64>(value, "closeTime")
        &&& field_accepts::<u64>(value, "firstId")
        &&& field_accepts::<u64>(value, "lastId")
        &&& field_accepts::<u64>(value, "count")
    }

    open spec fn rejection(value: JsonValue) -> Error {
        if !(value is Object) {
            Error::UnexpectedShape
        } else if !field_accepts::<String>(value, "symbol") {
            field_rejection::<String>(value, "symbol")
        } else if !field_accepts::<String>(value, "priceChange") {
            field_rejection::<String>(value, "priceChange")
        } else if !field_accepts::<String>(value, "priceChangePercent") {
            field_rejection::<String>(value, "priceChangePercent")
        } else if !field_accepts::<String>(value, "weightedAvgPrice") {
            field_rejection::<String>(value, "weightedAvgPrice")
        } else if !field_accepts::<ExactNumericValue>(value, "lastPrice") {
            field_rejection::<ExactNumericValue>(value, "lastPrice")
        } else if !field_accepts::<ExactNumericValue>(value, "openPrice") {
            field_rejection::<ExactNumericValue>(value, "openPrice")
        } else if !field_accepts::<ExactNumericValue>(value, "highPrice") {
            field_rejection::<ExactNumericValue>(value, "highPrice")
        } else if !field_accepts::<ExactNumericValue>(value, "lowPrice") {
            field_rejection::<ExactNumericValue>(value, "lowPrice")
        } else if !field_accepts::<ExactNumericValue>(value, "volume") {
            field_rejection::<ExactNumericValue>(value, "volume")
        } else if !field_accepts::<ExactNumericValue>(value, "quoteVolume") {
            field_rejection::<ExactNumericValue>(value, "quoteVolume")
        } else if !field_accepts::<ExactNumericValue>(value, "lastQty") {
            field_rejection::<ExactNumericValue>(value, "lastQty")
        } else if !field_accepts::<u64>(value, "openTime") {
            field_rejection::<u64>(value, "openTime")
        } else if !field_accepts::<u64>(value, "closeTime") {
            field_rejection::<u64>(value, "closeTime")
        } else if !field_accepts::<u64>(value, "firstId") {
            field_rejection::<u64>(value, "firstId")
        } else if !field_accepts::<u64>(value, "lastId") {
            field_rejection::<u64>(value, "lastId")
        } else {
            field_rejection::<u64>(value, "count")
        }
    }

    open spec fn describes(value: JsonValue, decoded: Self) -> bool {
        &&& field_describes::<String>(value, "symbol", decoded.symbol)
        &&& field_describes::<String>(value, "priceChange", decoded.price_change)
        &&& field_describes::<String>(value, "priceChangePercent", decoded.price_change_percent)
        &&& field_describes::<String>(value, "weightedAvgPrice", decoded.weighted_avg_price)
        &&& field_describes::<ExactNumericValue>(value, "lastPrice", decoded.last_price)
        &&& field_describes::<ExactNumericValue>(value, "openPrice", decoded.open_price)
        &&& field_describes::<ExactNumericValue>(value, "highPrice", decoded.high_price)
        &&& field_describes::<ExactNumericValue>(value, "lowPrice", decoded.low_price)
        &&& field_describes::<ExactNumericValue>(value, "volume", decoded.volume)
        &&& field_describes::<ExactNumericValue>(value, "quoteVolume", decoded.quote_volume)
        &&& field_describes::<ExactNumericValue>(value, "lastQty", decoded.last_qty)
        &&& field_describes::<u64>(value, "openTime", decoded.open_time)
        &&& field_describes::<u64>(value, "closeTime", decoded.close_time)
        &&& field_describes::<u64>(value, "firstId", decoded.first_id)
        &&& field_describes::<u64>(value, "lastId", decoded.last_id)
        &&& field_describes::<u64>(value, "count", decoded.count)
    }

    fn decode(value: &JsonValue) -> (outcome: Result<Self, Error>) {
        if !value.is_object() {
            return Err(Error::UnexpectedShape);
        }
        let symbol: String = field(value, "symbol")?;
        let price_change: String = field(value, "priceChange")?;
        let price_change_percent: String = field(value, "priceChangePercent")?;
        let weighted_avg_price: String = field(value, "weightedAvgPrice")?;
        let last_price: ExactNumericValue = field(value, "lastPrice")?;
        let open_price: ExactNumericValue = field(value, "openPrice")?;
        let high_price: ExactNumericValue = field(value, "highPrice")?;
        let low_price: ExactNumericValue = field(value, "lowPrice")?;
        let volume: ExactNumericValue = field(value, "volume")?;
        let quote_volume: ExactNumericValue = field(value, "quoteVolume")?;
        let last_qty: ExactNumericValue = field(value, "lastQty")?;
        let open_time: u64 = field(value, "openTime")?;
        let close_time: u64 = field(value, "closeTime")?;
        let first_id: u64 = field(value, "firstId")?;
        let last_id: u64 = field(value, "lastId")?;
        let count: u64 = field(value, "count")?;
        Ok(
            PriceStats {
                symbol,
                price_change,
                price_change_percent,
                weighted_avg_price,
                last_price,
                open_price,
                high_price,
                low_price,
                volume,
                quote_volume,
                last_qty,
                open_time,
                close_time,
                first_id,
                last_id,
                count,
            },
        )
    }
}

/// Recent trades, as the exchange sends them: one array, in its order. The single
/// variant leaves room for other shapes of the same answer.
#[derive(Debug, Clone, PartialEq)]
pub enum Trades {
    AllTrades(Vec<Trade>),
}

impl Decode for Trades {
    open spec fn accepts(value: JsonValue) -> bool {
        value matches JsonValue::Array(items) && all_accepted::<Trade>(items@)
    }

    open spec fn rejection(value: JsonValue) -> Error {
        match value {
            JsonValue::Array(items) => Trade::rejection(
                items@[first_rejected::<Trade>(items@) as int],
            ),
            _ => Error::UnexpectedShape,
        }
    }

    open spec fn describes(value: JsonValue, decoded: Self) -> bool {
        value matches JsonValue::Array(items) && decoded matches Trades::AllTrades(list)
            && items_describe::<Trade>(items@, list@)
    }

    fn decode(value: &JsonValue) -> (outcome: Result<Self, Error>) {
        match value {
            JsonValue::Array(items) => match decode_elements::<Trade>(items) {
                Ok(list) => Ok(Trades::AllTrades(list)),
                Err(failure) => Err(failure.error),
            },
            _ => Err(Error::UnexpectedShape),
        }
    }
}

/// One trade.
#[derive(Debug, Clone, PartialEq)]
pub struct Trade {
    pub id: u64,
    pub is_buyer_maker: bool,
    pub price: ExactNumericValue,
    pub qty: ExactNumericValue,
    pub quote_qty: ExactNumericValue,
    pub time: u64,
}

impl Decode for Trade {
    open spec fn accepts(value: JsonValue) -> bool {
        &&& value is Object
        &&& field_accepts::<u64>(value, "id")
        &&& field_accepts::<bool>(value, "isBuyerMaker")
        &&& field_accepts::<ExactNumericValue>(value, "price")
        &&& field_accepts::<ExactNumericValue>(value, "qty")
        &&& field_accepts::<ExactNumericValue>(value, "quoteQty")
        &&& field_accepts::<u64>(value, "time")
    }

    open spec fn rejection(value: JsonValue) -> Error {
        if !(value is Object) {
            Error::UnexpectedShape
        } else if !field_accepts::<u64>(value, "id") {
            field_rejection::<u64>(value, "id")
        } else if !field_accepts::<bool>(value, "isBuyerMaker") {
            field_rejection::<bool>(value, "isBuyerMaker")
        } else if !field_accepts::<ExactNumericValue>(value, "price") {
            field_rejection::<ExactNumericValue>(value, "price")
        } else if !field_accepts::<ExactNumericValue>(value, "qty") {
            field_rejection::<ExactNumericValue>(value, "qty")
        } else if !field_accepts::<ExactNumericValue>(value, "quoteQty") {
            field_rejection::<ExactNumericValue>(value, "quoteQty")
        } else {
            field_rejection::<u64>(value, "time")
        }
    }

    open spec fn describes(value: JsonValue, decoded: Self) -> bool {
        &&& field_describes::<u64>(value, "id", decoded.id)
        &&& field_describes::<bool>(value, "isBuyerMaker", decoded.is_buyer_maker)
        &&& field_describes::<ExactNumericValue>(value, "price", decoded.price)
        &&& field_describes::<ExactNumericValue>(value, "qty", decoded.qty)
        &&& field_describes::<ExactNumericValue>(value, "quoteQty", decoded.quote_qty)
        &&& field_describes::<u64>(value, "time", decoded.time)
    }

    fn decode(value: &JsonValue) -> (outcome: Result<Self, Error>) {
        if !value.is_object() {
            return Err(Error::UnexpectedShape);
        }
        let id: u64 = field(value, "id")?;
        let is_buyer_maker: bool = field(value, "isBuyerMaker")?;
        let price: ExactNumericValue = field(value, "price")?;
        let qty: ExactNumericValue = field(value, "qty")?;
        let quote_qty: ExactNumericValue = field(value, "quoteQty")?;
        let time: u64 = field(value, "time")?;
        Ok(
            Trade {
                id,
                is_buyer_maker,
                price,
                qty,
                quote_qty,
                time,
            },
        )
    }
}

/// Aggregated trades, as the exchange sends them: one array, in its order. The single
/// variant leaves room for other shapes of the same answer.
#[derive(Debug, Clone, PartialEq)]
pub enum AggTrades {
    AllAggTrades(Vec<AggTrade>),
}

impl Decode for AggTrades {
    open spec fn accepts(value: JsonValue) -> bool {
        value matches JsonValue::Array(items) && all_accepted::<AggTrade>(items@)
    }

    open spec fn rejection(value: JsonValue) -> Error {
        match value {
            JsonValue::Array(items) => AggTrade::rejection(
                items@[first_rejected::<AggTrade>(items@) as int],
            ),
            _ => Error::UnexpectedShape,
        }
    }

    open spec fn describes(value: JsonValue, decoded: Self) -> bool {
        value matches JsonValue::Array(items) && decoded matches AggTrades::AllAggTrades(list)
            && items_describe::<AggTrade>(items@, list@)
    }

    fn decode(value: &JsonValue) -> (outcome: Result<Self, Error>) {
        match value {
            JsonValue::Array(items) => match decode_elements::<AggTrade>(items) {
                Ok(list) => Ok(AggTrades::AllAggTrades(list)),
                Err(failure) => Err(failure.error),
            },
            _ => Err(Error::UnexpectedShape),
        }
    }
}

/// Trades of one order at one price, taken together. The keys on the wire are
/// single letters.
#[derive(Debug, Clone, PartialEq)]
pub struct AggTrade {
    pub time: u64,
    pub agg_id: u64,
    pub first_id: u64,
    pub last_id: u64,
    pub maker: bool,
    pub price: ExactNumericValue,
    pub qty: ExactNumericValue,
}

impl Decode for AggTrade {
    open spec fn accepts(value: JsonValue) -> bool {
        &&& value is Object
        &&& field_accepts::<u64>(value, "T")
        &&& field_accepts::<u64>(value, "a")
        &&& field_accepts::<u64>(value, "f")
        &&& field_accepts::<u64>(value, "l")
        &&& field_accepts::<bool>(value, "m")
        &&& field_accepts::<ExactNumericValue>(value, "p")
        &&& field_accepts::<ExactNumericValue>(value, "q")
    }

    open spec fn rejection(value: JsonValue) -> Error {
        if !(value is Object) {
            Error::UnexpectedShape
        } else if !field_accepts::<u64>(value, "T") {
            field_rejection::<u64>(value, "T")
        } else if !field_accepts::<u64>(value, "a") {
            field_rejection::<u64>(value, "a")
        } else if !field_accepts::<u64>(value, "f") {
            field_rejection::<u64>(value, "f")
        } else if !field_accepts::<u64>(value, "l") {
            field_rejection::<u64>(value, "l")
        } else if !field_accepts::<bool>(value, "m") {
            field_rejection::<bool>(value, "m")
        } else if !field_accepts::<ExactNumericValue>(value, "p") {
            field_rejection::<ExactNumericValue>(value, "p")
        } else {
            field_rejection::<ExactNumericValue>(value, "q")
        }
    }

    open spec fn describes(value: JsonValue, decoded: Self) -> bool {
        &&& field_describes::<u64>(value, "T", decoded.time)
        &&& field_describes::<u64>(value, "a", decoded.agg_id)
        &&& field_describes::<u64>(value, "f", decoded.first_id)
        &&& field_describes::<u64>(value, "l", decoded.last_id)
        &&& field_describes::<bool>(value, "m", decoded.maker)
        &&& field_describes::<ExactNumericValue>(value, "p", decoded.price)
        &&& field_describes::<ExactNumericValue>(value, "q", decoded.qty)
    }

    fn decode(value: &JsonValue) -> (outcome: Result<Self, Error>) {
        if !value.is_object() {
            return Err(Error::UnexpectedShape);
        }
        let time: u64 = field(value, "T")?;
        let agg_id: u64 = field(value, "a")?;
        let first_id: u64 = field(value, "f")?;
        let last_id: u64 = field(value, "l")?;
        let maker: bool = field(value, "m")?;
        let price: ExactNumericValue = field(value, "p")?;
        let qty: ExactNumericValue = field(value, "q")?;
        Ok(
            AggTrade {
                time,
                agg_id,
                first_id,
                last_id,
                maker,
                price,
                qty,
            },
        )
    }
}

/// The mark price and funding rate of an instrument.
#[derive(Debug, Clone, PartialEq)]
pub struct MarkPrice {
    pub symbol: String,
    pub mark_price: ExactNumericValue,
    pub index_price: ExactNumericValue,
    pub estimated_settle_price: ExactNumericValue,
    pub last_funding_rate: ExactNumericValue,
    pub next_funding_time: u64,
    pub interest_rate: ExactNumericValue,
    pub time: u64,
}

impl Decode for MarkPrice {
    open spec fn accepts(value: JsonValue) -> bool {
        &&& value is Object
        &&& field_accepts::<String>(value, "symbol")
        &&& field_accepts::<ExactNumericValue>(value, "markPrice")
        &&& field_accepts::<ExactNumericValue>(value, "indexPrice")
        &&& field_accepts::<ExactNumericValue>(value, "estimatedSettlePrice")
        &&& field_accepts::<ExactNumericValue>(value, "lastFundingRate")
        &&& field_accepts::<u64>(value, "nextFundingTime")
        &&& field_accepts::<ExactNumericValue>(value, "interestRate")
        &&& field_accepts::<u64>(value, "time")
    }

    open spec fn rejection(value: JsonValue) -> Error {
        if !(value is Object) {
            Error::UnexpectedShape
        } else if !field_accepts::<String>(value, "symbol") {
            field_rejection::<String>(value, "symbol")
        } else if !field_accepts::<ExactNumericValue>(value, "markPrice") {
            field_rejection::<ExactNumericValue>(value, "markPrice")
        } else if !field_accepts::<ExactNumericValue>(value, "indexPrice") {
            field_rejection::<ExactNumericValue>(value, "indexPrice")
        } else if !field_accepts::<ExactNumericValue>(value, "estimatedSettlePrice") {
            field_rejection::<ExactNumericValue>(value, "estimatedSettlePrice")
        } else if !field_accepts::<ExactNumericValue>(value, "lastFundingRate") {
            field_rejection::<ExactNumericValue>(value, "lastFundingRate")
        } else if !field_accepts::<u64>(value, "nextFundingTime") {
            field_rejection::<u64>(value, "nextFundingTime")
        } else if !field_accepts::<ExactNumericValue>(value, "interestRate") {
            field_rejection::<ExactNumericValue>(value, "interestRate")
        } else {
            field_rejection::<u64>(value, "time")
        }
    }

    open spec fn describes(value: JsonValue, decoded: Self) -> bool {
        &&& field_describes::<String>(value, "symbol", decoded.symbol)
        &&& field_describes::<ExactNumericValue>(value, "markPrice", decoded.mark_price)
        &&& field_describes::<ExactNumericValue>(value, "indexPrice", decoded.index_price)
        &&& field_describes::<ExactNumericValue>(value, "estimatedSettlePrice", decoded.estimated_settle_price)
        &&& field_describes::<ExactNumericValue>(value, "lastFundingRate", decoded.last_funding_rate)
        &&& field_describes::<u64>(value, "nextFundingTime", decoded.next_funding_time)
        &&& field_describes::<ExactNumericValue>(value, "interestRate", decoded.interest_rate)
        &&& field_describes::<u64>(value, "time", decoded.time)
    }

    fn decode(value: &JsonValue) -> (outcome: Result<Self, Error>) {
        if !value.is_object() {
            return Err(Error::UnexpectedShape);
        }
        let symbol: String = field(value, "symbol")?;
        let mark_price: ExactNumericValue = field(value, "markPrice")?;
        let index_price: ExactNumericValue = field(value, "indexPrice")?;
        let estimated_settle_price: ExactNumericValue = field(value, "estimatedSettlePrice")?;
        let last_funding_rate: ExactNumericValue = field(value, "lastFundingRate")?;
        let next_funding_time: u64 = field(value, "nextFundingTime")?;
        let interest_rate: ExactNumericValue = field(value, "interestRate")?;
        let time: u64 = field(value, "time")?;
        Ok(
            MarkPrice {
                symbol,
                mark_price,
                index_price,
                estimated_settle_price,
                last_funding_rate,
                next_funding_time,
                interest_rate,
                time,
            },
        )
    }
}

/// Liquidation orders, as the exchange sends them: one array, in its order. The single
/// variant leaves room for other shapes of the same answer.
#[derive(Debug, Clone, PartialEq)]
pub enum LiquidationOrders {
    AllLiquidationOrders(Vec<LiquidationOrder>),
}

impl Decode for LiquidationOrders {
    open spec fn accepts(value: JsonValue) -> bool {
        value matches JsonValue::Array(items) && all_accepted::<LiquidationOrder>(items@)
    }

    open spec fn rejection(value: JsonValue) -> Error {
        match value {
            JsonValue::Array(items) => LiquidationOrder::rejection(
                items@[first_rejected::<LiquidationOrder>(items@) as int],
            ),
            _ => Error::UnexpectedShape,
        }
    }

    open spec fn describes(value: JsonValue, decoded: Self) -> bool {
        value matches JsonValue::Array(items) && decoded matches LiquidationOrders::AllLiquidationOrders(list)
            && items_describe::<LiquidationOrder>(items@, list@)
    }

    fn decode(value: &JsonValue) -> (outcome: Result<Self, Error>) {
        match value {
            JsonValue::Array(items) => match decode_elements::<LiquidationOrder>(items) {
                Ok(list) => Ok(LiquidationOrders::AllLiquidationOrders(list)),
                Err(failure) => Err(failure.error),
            },
            _ => Err(Error::UnexpectedShape),
        }
    }
}

/// An order by which a position was liquidated. Its classifications are kept
/// as the text sent.
#[derive(Debug, Clone, PartialEq)]
pub struct LiquidationOrder {
    pub average_price: ExactNumericValue,
    pub executed_qty: ExactNumericValue,
    pub orig_qty: ExactNumericValue,
    pub price: ExactNumericValue,
    pub side: String,
    pub status: String,
    pub symbol: String,
    pub time: u64,
    pub time_in_force: String,
    pub order_type: String,
}

impl Decode for LiquidationOrder {
    open spec fn accepts(value: JsonValue) -> bool {
        &&& value is Object
        &&& field_accepts::<ExactNumericValue>(value, "averagePrice")
        &&& field_accepts::<ExactNumericValue>(value, "executedQty")
        &&& field_accepts::<ExactNumericValue>(value, "origQty")
        &&& field_accepts::<ExactNumericValue>(value, "price")
        &&& field_accepts::<String>(value, "side")
        &&& field_accepts::<String>(value, "status")
        &&& field_accepts::<String>(value, "symbol")
        &&& field_accepts::<u64>(value, "time")
        &&& field_accepts::<String>(value, "timeInForce")
        &&& field_accepts::<String>(value, "type")
    }

    open spec fn rejection(value: JsonValue) -> Error {
        if !(value is Object) {
            Error::UnexpectedShape
        } else if !field_accepts::<ExactNumericValue>(value, "averagePrice") {
            field_rejection::<ExactNumericValue>(value, "averagePrice")
        } else if !field_accepts::<ExactNumericValue>(value, "executedQty") {
            field_rejection::<ExactNumericValue>(value, "executedQty")
        } else if !field_accepts::<ExactNumericValue>(value, "origQty") {
            field_rejection::<ExactNumericValue>(value, "origQty")
        } else if !field_accepts::<ExactNumericValue>(value, "price") {
            field_rejection::<ExactNumericValue>(value, "price")
        } else if !field_accepts::<String>(value, "side") {
            field_rejection::<String>(value, "side")
        } else if !field_accepts::<String>(value, "status") {
            field_rejection::<String>(value, "status")
        } else if !field_accepts::<String>(value, "symbol") {
            field_rejection::<String>(value, "symbol")
        } else if !field_accepts::<u64>(value, "time") {
            field_rejection::<u64>(value, "time")
        } else if !field_accepts::<String>(value, "timeInForce") {
            field_rejection::<String>(value, "timeInForce")
        } else {
            field_rejection::<String>(value, "type")
        }
    }

    open spec fn describes(value: JsonValue, decoded: Self) -> bool {
        &&& field_describes::<ExactNumericValue>(value, "averagePrice", decoded.average_price)
        &&& field_describes::<ExactNumericValue>(value, "executedQty", decoded.executed_qty)
        &&& field_describes::<ExactNumericValue>(value, "origQty", decoded.orig_qty)
        &&& field_describes::<ExactNumericValue>(value, "price", decoded.price)
        &&& field_describes::<String>(value, "side", decoded.side)
        &&& field_describes::<String>(value, "status", decoded.status)
        &&& field_describes::<String>(value, "symbol", decoded.symbol)
        &&& field_describes::<u64>(value, "time", decoded.time)
        &&& field_describes::<String>(value, "timeInForce", decoded.time_in_force)
        &&& field_describes::<String>(value, "type", decoded.order_type)
    }

    fn decode(value: &JsonValue) -> (outcome: Result<Self, Error>) {
        if !value.is_object() {
            return Err(Error::UnexpectedShape);
        }
        let average_price: ExactNumericValue = field(value, "averagePrice")?;
        let executed_qty: ExactNumericValue = field(value, "executedQty")?;
        let orig_qty: ExactNumericValue = field(value, "origQty")?;
        let price: ExactNumericValue = field(value, "price")?;
        let side: String = field(value, "side")?;
        let status: String = field(value, "status")?;
        let symbol: String = field(value, "symbol")?;
        let time: u64 = field(value, "time")?;
        let time_in_force: String = field(value, "timeInForce")?;
        let order_type: String = field(value, "type")?;
        Ok(
            LiquidationOrder {
                average_price,
                executed_qty,
                orig_qty,
                price,
                side,
                status,
                symbol,
                time,
                time_in_force,
                order_type,
            },
        )
    }
}

/// The open interest of an instrument.
#[derive(Debug, Clone, PartialEq)]
pub struct OpenInterest {
    pub open_interest: ExactNumericValue,
    pub symbol: String,
}

impl Decode for OpenInterest {
    open spec fn accepts(value: JsonValue) -> bool {
        &&& value is Object
        &&& field_accepts::<ExactNumericValue>(value, "openInterest")
        &&& field_accepts::<String>(value, "symbol")
    }

    open spec fn rejection(value: JsonValue) -> Error {
        if !(value is Object) {
            Error::UnexpectedShape
        } else if !field_accepts::<ExactNumericValue>(value, "openInterest") {
            field_rejection::<ExactNumericValue>(value, "openInterest")
        } else {
            field_rejection::<String>(value, "symbol")
        }
    }

    open spec fn describes(value: JsonValue, decoded: Self) -> bool {
        &&& field_describes::<ExactNumericValue>(value, "openInterest", decoded.open_interest)
        &&& field_describes::<String>(value, "symbol", decoded.symbol)
    }

    fn decode(value: &JsonValue) -> (outcome: Result<Self, Error>) {
        if !value.is_object() {
            return Err(Error::UnexpectedShape);
        }
        let open_interest: ExactNumericValue = field(value, "openInterest")?;
        let symbol: String = field(value, "symbol")?;
        Ok(
            OpenInterest {
                open_interest,
                symbol,
            },
        )
    }
}

/// An order as a query finds it. The stop price, the activation price and the
/// callback rate apply to some kinds of order only: where their key is left
/// out they are zero.
#[derive(Debug, Clone, PartialEq)]
pub struct Order {
    pub client_order_id: String,
    pub cum_quote: ExactNumericValue,
    pub executed_qty: ExactNumericValue,
    pub order_id: u64,
    pub avg_price: ExactNumericValue,
    pub orig_qty: ExactNumericValue,
    pub price: ExactNumericValue,
    pub side: OrderSide,
    pub reduce_only: bool,
    pub position_side: PositionSide,
    pub status: OrderStatus,
    pub stop_price: ExactNumericValue,
    pub close_position: bool,
    pub symbol: String,
    pub time_in_force: TimeInForce,
    pub order_type: OrderType,
    pub orig_type: OrderType,
    pub activate_price: ExactNumericValue,
    pub price_rate: ExactNumericValue,
    pub update_time: u64,
    pub working_type: WorkingType,
    pub price_protect: bool,
}

impl Decode for Order {
    open spec fn accepts(value: JsonValue) -> bool {
        &&& value is Object
        &&& field_accepts::<String>(value, "clientOrderId")
        &&& field_accepts::<ExactNumericValue>(value, "cumQuote")
        &&& field_accepts::<ExactNumericValue>(value, "executedQty")
        &&& field_accepts::<u64>(value, "orderId")
        &&& field_accepts::<ExactNumericValue>(value, "avgPrice")
        &&& field_accepts::<ExactNumericValue>(value, "origQty")
        &&& field_accepts::<ExactNumericValue>(value, "price")
        &&& field_accepts::<OrderSide>(value, "side")
        &&& field_accepts::<bool>(value, "reduceOnly")
        &&& field_accepts::<PositionSide>(value, "positionSide")
        &&& field_accepts::<OrderStatus>(value, "status")
        &&& spec_number_or_zero(value, "stopPrice") is Ok
        &&& field_accepts::<bool>(value, "closePosition")
        &&& field_accepts::<String>(value, "symbol")
        &&& field_accepts::<TimeInForce>(value, "timeInForce")
        &&& field_accepts::<OrderType>(value, "type")
        &&& field_accepts::<OrderType>(value, "origType")
        &&& spec_number_or_zero(value, "activatePrice") is Ok
        &&& spec_number_or_zero(value, "priceRate") is Ok
        &&& field_accepts::<u64>(value, "updateTime")
        &&& field_accepts::<WorkingType>(value, "workingType")
        &&& field_accepts::<bool>(value, "priceProtect")
    }

    open spec fn rejection(value: JsonValue) -> Error {
        if !(value is Object) {
            Error::UnexpectedShape
        } else if !field_accepts::<String>(value, "clientOrderId") {
            field_rejection::<String>(value, "clientOrderId")
        } else if !field_accepts::<ExactNumericValue>(value, "cumQuote") {
            field_rejection::<ExactNumericValue>(value, "cumQuote")
        } else if !field_accepts::<ExactNumericValue>(value, "executedQty") {
            field_rejection::<ExactNumericValue>(value, "executedQty")
        } else if !field_accepts::<u64>(value, "orderId") {
            field_rejection::<u64>(value, "orderId")
        } else if !field_accepts::<ExactNumericValue>(value, "avgPrice") {
            field_rejection::<ExactNumericValue>(value, "avgPrice")
        } else if !field_accepts::<ExactNumericValue>(value, "origQty") {
            field_rejection::<ExactNumericValue>(value, "origQty")
        } else if !field_accepts::<ExactNumericValue>(value, "price") {
            field_rejection::<ExactNumericValue>(value, "price")
        } else if !field_accepts::<OrderSide>(value, "side") {
            field_rejection::<OrderSide>(value, "side")
        } else if !field_accepts::<bool>(value, "reduceOnly") {
            field_rejection::<bool>(value, "reduceOnly")
        } else if !field_accepts::<PositionSide>(value, "positionSide") {
            field_rejection::<PositionSide>(value, "positionSide")
        } else if !field_accepts::<OrderStatus>(value, "status") {
            field_rejection::<OrderStatus>(value, "status")
        } else if !(spec_number_or_zero(value, "stopPrice") is Ok) {
            spec_number_or_zero(value, "stopPrice")->Err_0
        } else if !field_accepts::<bool>(value, "closePosition") {
            field_rejection::<bool>(value, "closePosition")
        } else if !field_accepts::<String>(value, "symbol") {
            field_rejection::<String>(value, "symbol")
        } else if !field_accepts::<TimeInForce>(value, "timeInForce") {
            field_rejection::<TimeInForce>(value, "timeInForce")
        } else if !field_accepts::<OrderType>(value, "type") {
            field_rejection::<OrderType>(value, "type")
        } else if !field_accepts::<OrderType>(value, "origType") {
            field_rejection::<OrderType>(value, "origType")
        } else if !(spec_number_or_zero(value, "activatePrice") is Ok) {
            spec_number_or_zero(value, "activatePrice")->Err_0
        } else if !(spec_number_or_zero(value, "priceRate") is Ok) {
            spec_number_or_zero(value, "priceRate")->Err_0
        } else if !field_accepts::<u64>(value, "updateTime") {
            field_rejection::<u64>(value, "updateTime")
        } else if !field_accepts::<WorkingType>(value, "workingType") {
            field_rejection::<WorkingType>(value, "workingType")
        } else {
            field_rejection::<bool>(value, "priceProtect")
        }
    }

    open spec fn describes(value: JsonValue, decoded: Self) -> bool {
        &&& field_describes::<String>(value, "clientOrderId", decoded.client_order_id)
        &&& field_describes::<ExactNumericValue>(value, "cumQuote", decoded.cum_quote)
        &&& field_describes::<ExactNumericValue>(value, "executedQty", decoded.executed_qty)
        &&& field_describes::<u64>(value, "orderId", decoded.order_id)
        &&& field_describes::<ExactNumericValue>(value, "avgPrice", decoded.avg_price)
        &&& field_describes::<ExactNumericValue>(value, "origQty", decoded.orig_qty)
        &&& field_describes::<ExactNumericValue>(value, "price", decoded.price)
        &&& field_describes::<OrderSide>(value, "side", decoded.side)
        &&& field_describes::<bool>(value, "reduceOnly", decoded.reduce_only)
        &&& field_describes::<PositionSide>(value, "positionSide", decoded.position_side)
        &&& field_describes::<OrderStatus>(value, "status", decoded.status)
        &&& spec_number_or_zero(value, "stopPrice") == Ok::<ExactNumericValue, Error>(decoded.stop_price) && decoded.stop_price.wf()
        &&& field_describes::<bool>(value, "closePosition", decoded.close_position)
        &&& field_describes::<String>(value, "symbol", decoded.symbol)
        &&& field_describes::<TimeInForce>(value, "timeInForce", decoded.time_in_force)
        &&& field_describes::<OrderType>(value, "type", decoded.order_type)
        &&& field_describes::<OrderType>(value, "origType", decoded.orig_type)
        &&& spec_number_or_zero(value, "activatePrice") == Ok::<ExactNumericValue, Error>(decoded.activate_price) && decoded.activate_price.wf()
        &&& spec_number_or_zero(value, "priceRate") == Ok::<ExactNumericValue, Error>(decoded.price_rate) && decoded.price_rate.wf()
        &&& field_describes::<u64>(value, "updateTime", decoded.update_time)
        &&& field_describes::<WorkingType>(value, "workingType", decoded.working_type)
        &&& field_describes::<bool>(value, "priceProtect", decoded.price_protect)
    }

    fn decode(value: &JsonValue) -> (outcome: Result<Self, Error>) {
        if !value.is_object() {
            return Err(Error::UnexpectedShape);
        }
        let client_order_id: String = field(value, "clientOrderId")?;
        let cum_quote: ExactNumericValue = field(value, "cumQuote")?;
        let executed_qty: ExactNumericValue = field(value, "executedQty")?;
        let order_id: u64 = field(value, "orderId")?;
        let avg_price: ExactNumericValue = field(value, "avgPrice")?;
        let orig_qty: ExactNumericValue = field(value, "origQty")?;
        let price: ExactNumericValue = field(value, "price")?;
        let side: OrderSide = field(value, "side")?;
        let reduce_only: bool = field(value, "reduceOnly")?;
        let position_side: PositionSide = field(value, "positionSide")?;
        let status: OrderStatus = field(value, "status")?;
        let stop_price: ExactNumericValue = number_or_zero(value, "stopPrice")?;
        let close_position: bool = field(value, "closePosition")?;
        let symbol: String = field(value, "symbol")?;
        let time_in_force: TimeInForce = field(value, "timeInForce")?;
        let order_type: OrderType = field(value, "type")?;
        let orig_type: OrderType = field(value, "origType")?;
        let activate_price: ExactNumericValue = number_or_zero(value, "activatePrice")?;
        let price_rate: ExactNumericValue = number_or_zero(value, "priceRate")?;
        let update_time: u64 = field(value, "updateTime")?;
        let working_type: WorkingType = field(value, "workingType")?;
        let price_protect: bool = field(value, "priceProtect")?;
        Ok(
            Order {
                client_order_id,
                cum_quote,
                executed_qty,
                order_id,
                avg_price,
                orig_qty,
                price,
                side,
                reduce_only,
                position_side,
                status,
                stop_price,
                close_position,
                symbol,
                time_in_force,
                order_type,
                orig_type,
                activate_price,
                price_rate,
                update_time,
                working_type,
                price_protect,
            },
        )
    }
}

/// An order as the exchange answers when it is placed. The stop price is
/// always sent; the activation price and the callback rate are absent unless
/// the order is a trailing stop.
#[derive(Debug, Clone, PartialEq)]
pub struct Transaction {
    pub client_order_id: String,
    pub cum_qty: ExactNumericValue,
    pub cum_quote: ExactNumericValue,
    pub executed_qty: ExactNumericValue,
    pub order_id: u64,
    pub avg_price: ExactNumericValue,
    pub orig_qty: ExactNumericValue,
    pub reduce_only: bool,
    pub side: OrderSide,
    pub position_side: PositionSide,
    pub status: OrderStatus,
    pub stop_price: ExactNumericValue,
    pub close_position: bool,
    pub symbol: String,
    pub time_in_force: TimeInForce,
    pub order_type: OrderType,
    pub orig_type: OrderType,
    pub activate_price: Option<ExactNumericValue>,
    pub price_rate: Option<ExactNumericValue>,
    pub update_time: u64,
    pub working_type: WorkingType,
    pub price_protect: bool,
}

impl Decode for Transaction {
    open spec fn accepts(value: JsonValue) -> bool {
        &&& value is Object
        &&& field_accepts::<String>(value, "clientOrderId")
        &&& field_accepts::<ExactNumericValue>(value, "cumQty")
        &&& field_accepts::<ExactNumericValue>(value, "cumQuote")
        &&& field_accepts::<ExactNumericValue>(value, "executedQty")
        &&& field_accepts::<u64>(value, "orderId")
        &&& field_accepts::<ExactNumericValue>(value, "avgPrice")
        &&& field_accepts::<ExactNumericValue>(value, "origQty")
        &&& field_accepts::<bool>(value, "reduceOnly")
        &&& field_accepts::<OrderSide>(value, "side")
        &&& field_accepts::<PositionSide>(value, "positionSide")
        &&& field_accepts::<OrderStatus>(value, "status")
        &&& field_accepts::<ExactNumericValue>(value, "stopPrice")
        &&& field_accepts::<bool>(value, "closePosition")
        &&& field_accepts::<String>(value, "symbol")
        &&& field_accepts::<TimeInForce>(value, "timeInForce")
        &&& field_accepts::<OrderType>(value, "type")
        &&& field_accepts::<OrderType>(value, "origType")
        &&& optional_accepts::<ExactNumericValue>(value, "activatePrice")
        &&& optional_accepts::<ExactNumericValue>(value, "priceRate")
        &&& field_accepts::<u64>(value, "updateTime")
        &&& field_accepts::<WorkingType>(value, "workingType")
        &&& field_accepts::<bool>(value, "priceProtect")
    }

    open spec fn rejection(value: JsonValue) -> Error {
        if !(value is Object) {
            Error::UnexpectedShape
        } else if !field_accepts::<String>(value, "clientOrderId") {
            field_rejection::<String>(value, "clientOrderId")
        } else if !field_accepts::<ExactNumericValue>(value, "cumQty") {
            field_rejection::<ExactNumericValue>(value, "cumQty")
        } else if !field_accepts::<ExactNumericValue>(value, "cumQuote") {
            field_rejection::<ExactNumericValue>(value, "cumQuote")
        } else if !field_accepts::<ExactNumericValue>(value, "executedQty") {
            field_rejection::<ExactNumericValue>(value, "executedQty")
        } else if !field_accepts::<u64>(value, "orderId") {
            field_rejection::<u64>(value, "orderId")
        } else if !field_accepts::<ExactNumericValue>(value, "avgPrice") {
            field_rejection::<ExactNumericValue>(value, "avgPrice")
        } else if !field_accepts::<ExactNumericValue>(value, "origQty") {
            field_rejection::<ExactNumericValue>(value, "origQty")
        } else if !field_accepts::<bool>(value, "reduceOnly") {
            field_rejection::<bool>(value, "reduceOnly")
        } else if !field_accepts::<OrderSide>(value, "side") {
            field_rejection::<OrderSide>(value, "side")
        } else if !field_accepts::<PositionSide>(value, "positionSide") {
            field_rejection::<PositionSide>(value, "positionSide")
        } else if !field_accepts::<OrderStatus>(value, "status") {
            field_rejection::<OrderStatus>(value, "status")
        } else if !field_accepts::<ExactNumericValue>(value, "stopPrice") {
            field_rejection::<ExactNumericValue>(value, "stopPrice")
        } else if !field_accepts::<bool>(value, "closePosition") {
            field_rejection::<bool>(value, "closePosition")
        } else if !field_accepts::<String>(value, "symbol") {
            field_rejection::<String>(value, "symbol")
        } else if !field_accepts::<TimeInForce>(value, "timeInForce") {
            field_rejection::<TimeInForce>(value, "timeInForce")
        } else if !field_accepts::<OrderType>(value, "type") {
            field_rejection::<OrderType>(value, "type")
        } else if !field_accepts::<OrderType>(value, "origType") {
            field_rejection::<OrderType>(value, "origType")
        } else if !optional_accepts::<ExactNumericValue>(value, "activatePrice") {
            field_rejection::<ExactNumericValue>(value, "activatePrice")
        } else if !optional_accepts::<ExactNumericValue>(value, "priceRate") {
            field_rejection::<ExactNumericValue>(value, "priceRate")
        } else if !field_accepts::<u64>(value, "updateTime") {
            field_rejection::<u64>(value, "updateTime")
        } else if !field_accepts::<WorkingType>(value, "workingType") {
            field_rejection::<WorkingType>(value, "workingType")
        } else {
            field_rejection::<bool>(value, "priceProtect")
        }
    }

    open spec fn describes(value: JsonValue, decoded: Self) -> bool {
        &&& field_describes::<String>(value, "clientOrderId", decoded.client_order_id)
        &&& field_describes::<ExactNumericValue>(value, "cumQty", decoded.cum_qty)
        &&& field_describes::<ExactNumericValue>(value, "cumQuote", decoded.cum_quote)
        &&& field_describes::<ExactNumericValue>(value, "executedQty", decoded.executed_qty)
        &&& field_describes::<u64>(value, "orderId", decoded.order_id)
        &&& field_describes::<ExactNumericValue>(value, "avgPrice", decoded.avg_price)
        &&& field_describes::<ExactNumericValue>(value, "origQty", decoded.orig_qty)
        &&& field_describes::<bool>(value, "reduceOnly", decoded.reduce_only)
        &&& field_describes::<OrderSide>(value, "side", decoded.side)
        &&& field_describes::<PositionSide>(value, "positionSide", decoded.position_side)
        &&& field_describes::<OrderStatus>(value, "status", decoded.status)
        &&& field_describes::<ExactNumericValue>(value, "stopPrice", decoded.stop_price)
        &&& field_describes::<bool>(value, "closePosition", decoded.close_position)
        &&& field_describes::<String>(value, "symbol", decoded.symbol)
        &&& field_describes::<TimeInForce>(value, "timeInForce", decoded.time_in_force)
        &&& field_describes::<OrderType>(value, "type", decoded.order_type)
        &&& field_describes::<OrderType>(value, "origType", decoded.orig_type)
        &&& optional_describes::<ExactNumericValue>(value, "activatePrice", decoded.activate_price)
        &&& optional_describes::<ExactNumericValue>(value, "priceRate", decoded.price_rate)
        &&& field_describes::<u64>(value, "updateTime", decoded.update_time)
        &&& field_describes::<WorkingType>(value, "workingType", decoded.working_type)
        &&& field_describes::<bool>(value, "priceProtect", decoded.price_protect)
    }

    fn decode(value: &JsonValue) -> (outcome: Result<Self, Error>) {
        if !value.is_object() {
            return Err(Error::UnexpectedShape);
        }
        let client_order_id: String = field(value, "clientOrderId")?;
        let cum_qty: ExactNumericValue = field(value, "cumQty")?;
        let cum_quote: ExactNumericValue = field(value, "cumQuote")?;
        let executed_qty: ExactNumericValue = field(value, "executedQty")?;
        let order_id: u64 = field(value, "orderId")?;
        let avg_price: ExactNumericValue = field(value, "avgPrice")?;
        let orig_qty: ExactNumericValue = field(value, "origQty")?;
        let reduce_only: bool = field(value, "reduceOnly")?;
        let side: OrderSide = field(value, "side")?;
        let position_side: PositionSide = field(value, "positionSide")?;
        let status: OrderStatus = field(value, "status")?;
        let stop_price: ExactNumericValue = field(value, "stopPrice")?;
        let close_position: bool = field(value, "closePosition")?;
        let symbol: String = field(value, "symbol")?;
        let time_in_force: TimeInForce = field(value, "timeInForce")?;
        let order_type: OrderType = field(value, "type")?;
        let orig_type: OrderType = field(value, "origType")?;
        let activate_price: Option<ExactNumericValue> = optional_field(value, "activatePrice")?;
        let price_rate: Option<ExactNumericValue> = optional_field(value, "priceRate")?;
        let update_time: u64 = field(value, "updateTime")?;
        let working_type: WorkingType = field(value, "workingType")?;
        let price_protect: bool = field(value, "priceProtect")?;
        Ok(
            Transaction {
                client_order_id,
                cum_qty,
                cum_quote,
                executed_qty,
                order_id,
                avg_price,
                orig_qty,
                reduce_only,
                side,
                position_side,
                status,
                stop_price,
                close_position,
                symbol,
                time_in_force,
                order_type,
                orig_type,
                activate_price,
                price_rate,
                update_time,
                working_type,
                price_protect,
            },
        )
    }
}

/// An order as the exchange answers when it is cancelled. Its classifications
/// are drawn from the closed enumerations, as those of any order are; the
/// activation price and the callback rate are absent unless the order is a
/// trailing stop.
#[derive(Debug, Clone, PartialEq)]
pub struct CanceledOrder {
    pub client_order_id: String,
    pub cum_qty: ExactNumericValue,
    pub cum_quote: ExactNumericValue,
    pub executed_qty: ExactNumericValue,
    pub order_id: u64,
    pub orig_qty: ExactNumericValue,
    pub orig_type: OrderType,
    pub price: ExactNumericValue,
    pub reduce_only: bool,
    pub side: OrderSide,
    pub position_side: PositionSide,
    pub status: OrderStatus,
    pub stop_price: ExactNumericValue,
    pub close_position: bool,
    pub symbol: String,
    pub time_in_force: TimeInForce,
    pub order_type: OrderType,
    pub activate_price: Option<ExactNumericValue>,
    pub price_rate: Option<ExactNumericValue>,
    pub update_time: u64,
    pub working_type: WorkingType,
    pub price_protect: bool,
}

impl Decode for CanceledOrder {
    open spec fn accepts(value: JsonValue) -> bool {
        &&& value is Object
        &&& field_accepts::<String>(value, "clientOrderId")
        &&& field_accepts::<ExactNumericValue>(value, "cumQty")
        &&& field_accepts::<ExactNumericValue>(value, "cumQuote")
        &&& field_accepts::<ExactNumericValue>(value, "executedQty")
        &&& field_accepts::<u64>(value, "orderId")
        &&& field_accepts::<ExactNumericValue>(value, "origQty")
        &&& field_accepts::<OrderType>(value, "origType")
        &&& field_accepts::<ExactNumericValue>(value, "price")
        &&& field_accepts::<bool>(value, "reduceOnly")
        &&& field_accepts::<OrderSide>(value, "side")
        &&& field_accepts::<PositionSide>(value, "positionSide")
        &&& field_accepts::<OrderStatus>(value, "status")
        &&& field_accepts::<ExactNumericValue>(value, "stopPrice")
        &&& field_accepts::<bool>(value, "closePosition")
        &&& field_accepts::<String>(value, "symbol")
        &&& field_accepts::<TimeInForce>(value, "timeInForce")
        &&& field_accepts::<OrderType>(value, "type")
        &&& optional_accepts::<ExactNumericValue>(value, "activatePrice")
        &&& optional_accepts::<ExactNumericValue>(value, "priceRate")
        &&& field_accepts::<u64>(value, "updateTime")
        &&& field_accepts::<WorkingType>(value, "workingType")
        &&& field_accepts::<bool>(value, "priceProtect")
    }

    open spec fn rejection(value: JsonValue) -> Error {
        if !(value is Object) {
            Error::UnexpectedShape
        } else if !field_accepts::<String>(value, "clientOrderId") {
            field_rejection::<String>(value, "clientOrderId")
        } else if !field_accepts::<ExactNumericValue>(value, "cumQty") {
            field_rejection::<ExactNumericValue>(value, "cumQty")
        } else if !field_accepts::<ExactNumericValue>(value, "cumQuote") {
            field_rejection::<ExactNumericValue>(value, "cumQuote")
        } else if !field_accepts::<ExactNumericValue>(value, "executedQty") {
            field_rejection::<ExactNumericValue>(value, "executedQty")
        } else if !field_accepts::<u64>(value, "orderId") {
            field_rejection::<u64>(value, "orderId")
        } else if !field_accepts::<ExactNumericValue>(value, "origQty") {
            field_rejection::<ExactNumericValue>(value, "origQty")
        } else if !field_accepts::<OrderType>(value, "origType") {
            field_rejection::<OrderType>(value, "origType")
        } else if !field_accepts::<ExactNumericValue>(value, "price") {
            field_rejection::<ExactNumericValue>(value, "price")
        } else if !field_accepts::<bool>(value, "reduceOnly") {
            field_rejection::<bool>(value, "reduceOnly")
        } else if !field_accepts::<OrderSide>(value, "side") {
            field_rejection::<OrderSide>(value, "side")
        } else if !field_accepts::<PositionSide>(value, "positionSide") {
            field_rejection::<PositionSide>(value, "positionSide")
        } else if !field_accepts::<OrderStatus>(value, "status") {
            field_rejection::<OrderStatus>(value, "status")
        } else if !field_accepts::<ExactNumericValue>(value, "stopPrice") {
            field_rejection::<ExactNumericValue>(value, "stopPrice")
        } else if !field_accepts::<bool>(value, "closePosition") {
            field_rejection::<bool>(value, "closePosition")
        } else if !field_accepts::<String>(value, "symbol") {
            field_rejection::<String>(value, "symbol")
        } else if !field_accepts::<TimeInForce>(value, "timeInForce") {
            field_rejection::<TimeInForce>(value, "timeInForce")
        } else if !field_accepts::<OrderType>(value, "type") {
            field_rejection::<OrderType>(value, "type")
        } else if !optional_accepts::<ExactNumericValue>(value, "activatePrice") {
            field_rejection::<ExactNumericValue>(value, "activatePrice")
        } else if !optional_accepts::<ExactNumericValue>(value, "priceRate") {
            field_rejection::<ExactNumericValue>(value, "priceRate")
        } else if !field_accepts::<u64>(value, "updateTime") {
            field_rejection::<u64>(value, "updateTime")
        } else if !field_accepts::<WorkingType>(value, "workingType") {
            field_rejection::<WorkingType>(value, "workingType")
        } else {
            field_rejection::<bool>(value, "priceProtect")
        }
    }

    open spec fn describes(value: JsonValue, decoded: Self) -> bool {
        &&& field_describes::<String>(value, "clientOrderId", decoded.client_order_id)
        &&& field_describes::<ExactNumericValue>(value, "cumQty", decoded.cum_qty)
        &&& field_describes::<ExactNumericValue>(value, "cumQuote", decoded.cum_quote)
        &&& field_describes::<ExactNumericValue>(value, "executedQty", decoded.executed_qty)
        &&& field_describes::<u64>(value, "orderId", decoded.order_id)
        &&& field_describes::<ExactNumericValue>(value, "origQty", decoded.orig_qty)
        &&& field_describes::<OrderType>(value, "origType", decoded.orig_type)
        &&& field_describes::<ExactNumericValue>(value, "price", decoded.price)
        &&& field_describes::<bool>(value, "reduceOnly", decoded.reduce_only)
        &&& field_describes::<OrderSide>(value, "side", decoded.side)
        &&& field_describes::<PositionSide>(value, "positionSide", decoded.position_side)
        &&& field_describes::<OrderStatus>(value, "status", decoded.status)
        &&& field_describes::<ExactNumericValue>(value, "stopPrice", decoded.stop_price)
        &&& field_describes::<bool>(value, "closePosition", decoded.close_position)
        &&& field_describes::<String>(value, "symbol", decoded.symbol)
        &&& field_describes::<TimeInForce>(value, "timeInForce", decoded.time_in_force)
        &&& field_describes::<OrderType>(value, "type", decoded.order_type)
        &&& optional_describes::<ExactNumericValue>(value, "activatePrice", decoded.activate_price)
        &&& optional_describes::<ExactNumericValue>(value, "priceRate", decoded.price_rate)
        &&& field_describes::<u64>(value, "updateTime", decoded.update_time)
        &&& field_describes::<WorkingType>(value, "workingType", decoded.working_type)
        &&& field_describes::<bool>(value, "priceProtect", decoded.price_protect)
    }

    fn decode(value: &JsonValue) -> (outcome: Result<Self, Error>) {
        if !value.is_object() {
            return Err(Error::UnexpectedShape);
        }
        let client_order_id: String = field(value, "clientOrderId")?;
        let cum_qty: ExactNumericValue = field(value, "cumQty")?;
        let cum_quote: ExactNumericValue = field(value, "cumQuote")?;
        let executed_qty: ExactNumericValue = field(value, "executedQty")?;
        let order_id: u64 = field(value, "orderId")?;
        let orig_qty: ExactNumericValue = field(value, "origQty")?;
        let orig_type: OrderType = field(value, "origType")?;
        let price: ExactNumericValue = field(value, "price")?;
        let reduce_only: bool = field(value, "reduceOnly")?;
        let side: OrderSide = field(value, "side")?;
        let position_side: PositionSide = field(value, "positionSide")?;
        let status: OrderStatus = field(value, "status")?;
        let stop_price: ExactNumericValue = field(value, "stopPrice")?;
        let close_position: bool = field(value, "closePosition")?;
        let symbol: String = field(value, "symbol")?;
        let time_in_force: TimeInForce = field(value, "timeInForce")?;
        let order_type: OrderType = field(value, "type")?;
        let activate_price: Option<ExactNumericValue> = optional_field(value, "activatePrice")?;
        let price_rate: Option<ExactNumericValue> = optional_field(value, "priceRate")?;
        let update_time: u64 = field(value, "updateTime")?;
        let working_type: WorkingType = field(value, "workingType")?;
        let price_protect: bool = field(value, "priceProtect")?;
        Ok(
            CanceledOrder {
                client_order_id,
                cum_qty,
                cum_quote,
                executed_qty,
                order_id,
                orig_qty,
                orig_type,
                price,
                reduce_only,
                side,
                position_side,
                status,
                stop_price,
                close_position,
                symbol,
                time_in_force,
                order_type,
                activate_price,
                price_rate,
                update_time,
                working_type,
                price_protect,
            },
        )
    }
}

/// A position as the position-risk query reports it. The margin flag and the
/// leverage are sent as strings by some endpoints and natively by others.
#[derive(Debug, Clone, PartialEq)]
pub struct Position {
    pub entry_price: ExactNumericValue,
    pub margin_type: MarginType,
    pub is_auto_add_margin: bool,
    pub isolated_margin: ExactNumericValue,
    pub leverage: u64,
    pub liquidation_price: ExactNumericValue,
    pub mark_price: ExactNumericValue,
    pub max_notional_value: ExactNumericValue,
    pub position_amount: ExactNumericValue,
    pub symbol: String,
    pub unrealized_profit: ExactNumericValue,
    pub position_side: PositionSide,
    pub update_time: u64,
    pub notional: ExactNumericValue,
    pub isolated_wallet: ExactNumericValue,
}

impl Decode for Position {
    open spec fn accepts(value: JsonValue) -> bool {
        &&& value is Object
        &&& field_accepts::<ExactNumericValue>(value, "entryPrice")
        &&& field_accepts::<MarginType>(value, "marginType")
        &&& spec_flexible_flag(value, "isAutoAddMargin") is Ok
        &&& field_accepts::<ExactNumericValue>(value, "isolatedMargin")
        &&& spec_flexible_integer(value, "leverage") is Ok
        &&& field_accepts::<ExactNumericValue>(value, "liquidationPrice")
        &&& field_accepts::<ExactNumericValue>(value, "markPrice")
        &&& field_accepts::<ExactNumericValue>(value, "maxNotionalValue")
        &&& field_accepts::<ExactNumericValue>(value, "positionAmt")
        &&& field_accepts::<String>(value, "symbol")
        &&& field_accepts::<ExactNumericValue>(value, "unRealizedProfit")
        &&& field_accepts::<PositionSide>(value, "positionSide")
        &&& field_accepts::<u64>(value, "updateTime")
        &&& field_accepts::<ExactNumericValue>(value, "notional")
        &&& field_accepts::<ExactNumericValue>(value, "isolatedWallet")
    }

    open spec fn rejection(value: JsonValue) -> Error {
        if !(value is Object) {
            Error::UnexpectedShape
        } else if !field_accepts::<ExactNumericValue>(value, "entryPrice") {
            field_rejection::<ExactNumericValue>(value, "entryPrice")
        } else if !field_accepts::<MarginType>(value, "marginType") {
            field_rejection::<MarginType>(value, "marginType")
        } else if !(spec_flexible_flag(value, "isAutoAddMargin") is Ok) {
            spec_flexible_flag(value, "isAutoAddMargin")->Err_0
        } else if !field_accepts::<ExactNumericValue>(value, "isolatedMargin") {
            field_rejection::<ExactNumericValue>(value, "isolatedMargin")
        } else if !(spec_flexible_integer(value, "leverage") is Ok) {
            spec_flexible_integer(value, "leverage")->Err_0
        } else if !field_accepts::<ExactNumericValue>(value, "liquidationPrice") {
            field_rejection::<ExactNumericValue>(value, "liquidationPrice")
        } else if !field_accepts::<ExactNumericValue>(value, "markPrice") {
            field_rejection::<ExactNumericValue>(value, "markPrice")
        } else if !field_accepts::<ExactNumericValue>(value, "maxNotionalValue") {
            field_rejection::<ExactNumericValue>(value, "maxNotionalValue")
        } else if !field_accepts::<ExactNumericValue>(value, "positionAmt") {
            field_rejection::<ExactNumericValue>(value, "positionAmt")
        } else if !field_accepts::<String>(value, "symbol") {
            field_rejection::<String>(value, "symbol")
        } else if !field_accepts::<ExactNumericValue>(value, "unRealizedProfit") {
            field_rejection::<ExactNumericValue>(value, "unRealizedProfit")
        } else if !field_accepts::<PositionSide>(value, "positionSide") {
            field_rejection::<PositionSide>(value, "positionSide")
        } else if !field_accepts::<u64>(value, "updateTime") {
            field_rejection::<u64>(value, "updateTime")
        } else if !field_accepts::<ExactNumericValue>(value, "notional") {
            field_rejection::<ExactNumericValue>(value, "notional")
        } else {
            field_rejection::<ExactNumericValue>(value, "isolatedWallet")
        }
    }

    open spec fn describes(value: JsonValue, decoded: Self) -> bool {
        &&& field_describes::<ExactNumericValue>(value, "entryPrice", decoded.entry_price)
        &&& field_describes::<MarginType>(value, "marginType", decoded.margin_type)
        &&& spec_flexible_flag(value, "isAutoAddMargin") == Ok::<bool, Error>(decoded.is_auto_add_margin)
        &&& field_describes::<ExactNumericValue>(value, "isolatedMargin", decoded.isolated_margin)
        &&& spec_flexible_integer(value, "leverage") == Ok::<u64, Error>(decoded.leverage)
        &&& field_describes::<ExactNumericValue>(value, "liquidationPrice", decoded.liquidation_price)
        &&& field_describes::<ExactNumericValue>(value, "markPrice", decoded.mark_price)
        &&& field_describes::<ExactNumericValue>(value, "maxNotionalValue", decoded.max_notional_value)
        &&& field_describes::<ExactNumericValue>(value, "positionAmt", decoded.position_amount)
        &&& field_describes::<String>(value, "symbol", decoded.symbol)
        &&& field_describes::<ExactNumericValue>(value, "unRealizedProfit", decoded.unrealized_profit)
        &&& field_describes::<PositionSide>(value, "positionSide", decoded.position_side)
        &&& field_describes::<u64>(value, "updateTime", decoded.update_time)
        &&& field_describes::<ExactNumericValue>(value, "notional", decoded.notional)
        &&& field_describes::<ExactNumericValue>(value, "isolatedWallet", decoded.isolated_wallet)
    }

    fn decode(value: &JsonValue) -> (outcome: Result<Self, Error>) {
        if !value.is_object() {
            return Err(Error::UnexpectedShape);
        }
        let entry_price: ExactNumericValue = field(value, "entryPrice")?;
        let margin_type: MarginType = field(value, "marginType")?;
        let is_auto_add_margin: bool = flexible_flag(value, "isAutoAddMargin")?;
        let isolated_margin: ExactNumericValue = field(value, "isolatedMargin")?;
        let leverage: u64 = flexible_integer(value, "leverage")?;
        let liquidation_price: ExactNumericValue = field(value, "liquidationPrice")?;
        let mark_price: ExactNumericValue = field(value, "markPrice")?;
        let max_notional_value: ExactNumericValue = field(value, "maxNotionalValue")?;
        let position_amount: ExactNumericValue = field(value, "positionAmt")?;
        let symbol: String = field(value, "symbol")?;
        let unrealized_profit: ExactNumericValue = field(value, "unRealizedProfit")?;
        let position_side: PositionSide = field(value, "positionSide")?;
        let update_time: u64 = field(value, "updateTime")?;
        let notional: ExactNumericValue = field(value, "notional")?;
        let isolated_wallet: ExactNumericValue = field(value, "isolatedWallet")?;
        Ok(
            Position {
                entry_price,
                margin_type,
                is_auto_add_margin,
                isolated_margin,
                leverage,
                liquidation_price,
                mark_price,
                max_notional_value,
                position_amount,
                symbol,
                unrealized_profit,
                position_side,
                update_time,
                notional,
                isolated_wallet,
            },
        )
    }
}

/// A position as the account query reports it. It has other fields than
/// `Position`, which comes from another endpoint, and is kept apart from it.
#[derive(Debug, Clone, PartialEq)]
pub struct AccountPosition {
    pub symbol: String,
    pub initial_margin: ExactNumericValue,
    pub maintenance_margin: ExactNumericValue,
    pub unrealized_profit: ExactNumericValue,
    pub position_initial_margin: ExactNumericValue,
    pub open_order_initial_margin: ExactNumericValue,
    pub leverage: u64,
    pub isolated: bool,
    pub entry_price: ExactNumericValue,
    pub max_notional: ExactNumericValue,
    pub bid_notional: ExactNumericValue,
    pub ask_notional: ExactNumericValue,
    pub position_side: PositionSide,
    pub position_amount: ExactNumericValue,
    pub update_time: u64,
}

impl Decode for AccountPosition {
    open spec fn accepts(value: JsonValue) -> bool {
        &&& value is Object
        &&& field_accepts::<String>(value, "symbol")
        &&& field_accepts::<ExactNumericValue>(value, "initialMargin")
        &&& field_accepts::<ExactNumericValue>(value, "maintMargin")
        &&& field_accepts::<ExactNumericValue>(value, "unrealizedProfit")
        &&& field_accepts::<ExactNumericValue>(value, "positionInitialMargin")
        &&& field_accepts::<ExactNumericValue>(value, "openOrderInitialMargin")
        &&& spec_flexible_integer(value, "leverage") is Ok
        &&& field_accepts::<bool>(value, "isolated")
        &&& field_accepts::<ExactNumericValue>(value, "entryPrice")
        &&& field_accepts::<ExactNumericValue>(value, "maxNotional")
        &&& field_accepts::<ExactNumericValue>(value, "bidNotional")
        &&& field_accepts::<ExactNumericValue>(value, "askNotional")
        &&& field_accepts::<PositionSide>(value, "positionSide")
        &&& field_accepts::<ExactNumericValue>(value, "positionAmt")
        &&& field_accepts::<u64>(value, "updateTime")
    }

    open spec fn rejection(value: JsonValue) -> Error {
        if !(value is Object) {
            Error::UnexpectedShape
        } else if !field_accepts::<String>(value, "symbol") {
            field_rejection::<String>(value, "symbol")
        } else if !field_accepts::<ExactNumericValue>(value, "initialMargin") {
            field_rejection::<ExactNumericValue>(value, "initialMargin")
        } else if !field_accepts::<ExactNumericValue>(value, "maintMargin") {
            field_rejection::<ExactNumericValue>(value, "maintMargin")
        } else if !field_accepts::<ExactNumericValue>(value, "unrealizedProfit") {
            field_rejection::<ExactNumericValue>(value, "unrealizedProfit")
        } else if !field_accepts::<ExactNumericValue>(value, "positionInitialMargin") {
            field_rejection::<ExactNumericValue>(value, "positionInitialMargin")
        } else if !field_accepts::<ExactNumericValue>(value, "openOrderInitialMargin") {
            field_rejection::<ExactNumericValue>(value, "openOrderInitialMargin")
        } else if !(spec_flexible_integer(value, "leverage") is Ok) {
            spec_flexible_integer(value, "leverage")->Err_0
        } else if !field_accepts::<bool>(value, "isolated") {
            field_rejection::<bool>(value, "isolated")
        } else if !field_accepts::<ExactNumericValue>(value, "entryPrice") {
            field_rejection::<ExactNumericValue>(value, "entryPrice")
        } else if !field_accepts::<ExactNumericValue>(value, "maxNotional") {
            field_rejection::<ExactNumericValue>(value, "maxNotional")
        } else if !field_accepts::<ExactNumericValue>(value, "bidNotional") {
            field_rejection::<ExactNumericValue>(value, "bidNotional")
        } else if !field_accepts::<ExactNumericValue>(value, "askNotional") {
            field_rejection::<ExactNumericValue>(value, "askNotional")
        } else if !field_accepts::<PositionSide>(value, "positionSide") {
            field_rejection::<PositionSide>(value, "positionSide")
        } else if !field_accepts::<ExactNumericValue>(value, "positionAmt") {
            field_rejection::<ExactNumericValue>(value, "positionAmt")
        } else {
            field_rejection::<u64>(value, "updateTime")
        }
    }

    open spec fn describes(value: JsonValue, decoded: Self) -> bool {
        &&& field_describes::<String>(value, "symbol", decoded.symbol)
        &&& field_describes::<ExactNumericValue>(value, "initialMargin", decoded.initial_margin)
        &&& field_describes::<ExactNumericValue>(value, "maintMargin", decoded.maintenance_margin)
        &&& field_describes::<ExactNumericValue>(value, "unrealizedProfit", decoded.unrealized_profit)
        &&& field_describes::<ExactNumericValue>(value, "positionInitialMargin", decoded.position_initial_margin)
        &&& field_describes::<ExactNumericValue>(value, "openOrderInitialMargin", decoded.open_order_initial_margin)
        &&& spec_flexible_integer(value, "leverage") == Ok::<u64, Error>(decoded.leverage)
        &&& field_describes::<bool>(value, "isolated", decoded.isolated)
        &&& field_describes::<ExactNumericValue>(value, "entryPrice", decoded.entry_price)
        &&& field_describes::<ExactNumericValue>(value, "maxNotional", decoded.max_notional)
        &&& field_describes::<ExactNumericValue>(value, "bidNotional", decoded.bid_notional)
        &&& field_describes::<ExactNumericValue>(value, "askNotional", decoded.ask_notional)
        &&& field_describes::<PositionSide>(value, "positionSide", decoded.position_side)
        &&& field_describes::<ExactNumericValue>(value, "positionAmt", decoded.position_amount)
        &&& field_describes::<u64>(value, "updateTime", decoded.update_time)
    }

    fn decode(value: &JsonValue) -> (outcome: Result<Self, Error>) {
        if !value.is_object() {
            return Err(Error::UnexpectedShape);
        }
        let symbol: String = field(value, "symbol")?;
        let initial_margin: ExactNumericValue = field(value, "initialMargin")?;
        let maintenance_margin: ExactNumericValue = field(value, "maintMargin")?;
        let unrealized_profit: ExactNumericValue = field(value, "unrealizedProfit")?;
        let position_initial_margin: ExactNumericValue = field(value, "positionInitialMargin")?;
        let open_order_initial_margin: ExactNumericValue = field(value, "openOrderInitialMargin")?;
        let leverage: u64 = flexible_integer(value, "leverage")?;
        let isolated: bool = field(value, "isolated")?;
        let entry_price: ExactNumericValue = field(value, "entryPrice")?;
        let max_notional: ExactNumericValue = field(value, "maxNotional")?;
        let bid_notional: ExactNumericValue = field(value, "bidNotional")?;
        let ask_notional: ExactNumericValue = field(value, "askNotional")?;
        let position_side: PositionSide = field(value, "positionSide")?;
        let position_amount: ExactNumericValue = field(value, "positionAmt")?;
        let update_time: u64 = field(value, "updateTime")?;
        Ok(
            AccountPosition {
                symbol,
                initial_margin,
                maintenance_margin,
                unrealized_profit,
                position_initial_margin,
                open_order_initial_margin,
                leverage,
                isolated,
                entry_price,
                max_notional,
                bid_notional,
                ask_notional,
                position_side,
                position_amount,
                update_time,
            },
        )
    }
}

/// The balances of one asset in a margin account.
#[derive(Debug, Clone, PartialEq)]
pub struct AccountAsset {
    pub asset: String,
    pub wallet_balance: ExactNumericValue,
    pub unrealized_profit: ExactNumericValue,
    pub margin_balance: ExactNumericValue,
    pub maint_margin: ExactNumericValue,
    pub initial_margin: ExactNumericValue,
    pub position_initial_margin: ExactNumericValue,
    pub open_order_initial_margin: ExactNumericValue,
    pub cross_wallet_balance: ExactNumericValue,
    pub cross_unrealized_pnl: ExactNumericValue,
    pub available_balance: ExactNumericValue,
    pub max_withdraw_amount: ExactNumericValue,
    pub margin_available: bool,
    pub update_time: u64,
}

impl Decode for AccountAsset {
    open spec fn accepts(value: JsonValue) -> bool {
        &&& value is Object
        &&& field_accepts::<String>(value, "asset")
        &&& field_accepts::<ExactNumericValue>(value, "walletBalance")
        &&& field_accepts::<ExactNumericValue>(value, "unrealizedProfit")
        &&& field_accepts::<ExactNumericValue>(value, "marginBalance")
        &&& field_accepts::<ExactNumericValue>(value, "maintMargin")
        &&& field_accepts::<ExactNumericValue>(value, "initialMargin")
        &&& field_accepts::<ExactNumericValue>(value, "positionInitialMargin")
        &&& field_accepts::<ExactNumericValue>(value, "openOrderInitialMargin")
        &&& field_accepts::<ExactNumericValue>(value, "crossWalletBalance")
        &&& field_accepts::<ExactNumericValue>(value, "crossUnPnl")
        &&& field_accepts::<ExactNumericValue>(value, "availableBalance")
        &&& field_accepts::<ExactNumericValue>(value, "maxWithdrawAmount")
        &&& field_accepts::<bool>(value, "marginAvailable")
        &&& field_accepts::<u64>(value, "updateTime")
    }

    open spec fn rejection(value: JsonValue) -> Error {
        if !(value is Object) {
            Error::UnexpectedShape
        } else if !field_accepts::<String>(value, "asset") {
            field_rejection::<String>(value, "asset")
        } else if !field_accepts::<ExactNumericValue>(value, "walletBalance") {
            field_rejection::<ExactNumericValue>(value, "walletBalance")
        } else if !field_accepts::<ExactNumericValue>(value, "unrealizedProfit") {
            field_rejection::<ExactNumericValue>(value, "unrealizedProfit")
        } else if !field_accepts::<ExactNumericValue>(value, "marginBalance") {
            field_rejection::<ExactNumericValue>(value, "marginBalance")
        } else if !field_accepts::<ExactNumericValue>(value, "maintMargin") {
            field_rejection::<ExactNumericValue>(value, "maintMargin")
        } else if !field_accepts::<ExactNumericValue>(value, "initialMargin") {
            field_rejection::<ExactNumericValue>(value, "initialMargin")
        } else if !field_accepts::<ExactNumericValue>(value, "positionInitialMargin") {
            field_rejection::<ExactNumericValue>(value, "positionInitialMargin")
        } else if !field_accepts::<ExactNumericValue>(value, "openOrderInitialMargin") {
            field_rejection::<ExactNumericValue>(value, "openOrderInitialMargin")
        } else if !field_accepts::<ExactNumericValue>(value, "crossWalletBalance") {
            field_rejection::<ExactNumericValue>(value, "crossWalletBalance")
        } else if !field_accepts::<ExactNumericValue>(value, "crossUnPnl") {
            field_rejection::<ExactNumericValue>(value, "crossUnPnl")
        } else if !field_accepts::<ExactNumericValue>(value, "availableBalance") {
            field_rejection::<ExactNumericValue>(value, "availableBalance")
        } else if !field_accepts::<ExactNumericValue>(value, "maxWithdrawAmount") {
            field_rejection::<ExactNumericValue>(value, "maxWithdrawAmount")
        } else if !field_accepts::<bool>(value, "marginAvailable") {
            field_rejection::<bool>(value, "marginAvailable")
        } else {
            field_rejection::<u64>(value, "updateTime")
        }
    }

    open spec fn describes(value: JsonValue, decoded: Self) -> bool {
        &&& field_describes::<String>(value, "asset", decoded.asset)
        &&& field_describes::<ExactNumericValue>(value, "walletBalance", decoded.wallet_balance)
        &&& field_describes::<ExactNumericValue>(value, "unrealizedProfit", decoded.unrealized_profit)
        &&& field_describes::<ExactNumericValue>(value, "marginBalance", decoded.margin_balance)
        &&& field_describes::<ExactNumericValue>(value, "maintMargin", decoded.maint_margin)
        &&& field_describes::<ExactNumericValue>(value, "initialMargin", decoded.initial_margin)
        &&& field_describes::<ExactNumericValue>(value, "positionInitialMargin", decoded.position_initial_margin)
        &&& field_describes::<ExactNumericValue>(value, "openOrderInitialMargin", decoded.open_order_initial_margin)
        &&& field_describes::<ExactNumericValue>(value, "crossWalletBalance", decoded.cross_wallet_balance)
        &&& field_describes::<ExactNumericValue>(value, "crossUnPnl", decoded.cross_unrealized_pnl)
        &&& field_describes::<ExactNumericValue>(value, "availableBalance", decoded.available_balance)
        &&& field_describes::<ExactNumericValue>(value, "maxWithdrawAmount", decoded.max_withdraw_amount)
        &&& field_describes::<bool>(value, "marginAvailable", decoded.margin_available)
        &&& field_describes::<u64>(value, "updateTime", decoded.update_time)
    }

    fn decode(value: &JsonValue) -> (outcome: Result<Self, Error>) {
        if !value.is_object() {
            return Err(Error::UnexpectedShape);
        }
        let asset: String = field(value, "asset")?;
        let wallet_balance: ExactNumericValue = field(value, "walletBalance")?;
        let unrealized_profit: ExactNumericValue = field(value, "unrealizedProfit")?;
        let margin_balance: ExactNumericValue = field(value, "marginBalance")?;
        let maint_margin: ExactNumericValue = field(value, "maintMargin")?;
        let initial_margin: ExactNumericValue = field(value, "initialMargin")?;
        let position_initial_margin: ExactNumericValue = field(value, "positionInitialMargin")?;
        let open_order_initial_margin: ExactNumericValue = field(value, "openOrderInitialMargin")?;
        let cross_wallet_balance: ExactNumericValue = field(value, "crossWalletBalance")?;
        let cross_unrealized_pnl: ExactNumericValue = field(value, "crossUnPnl")?;
        let available_balance: ExactNumericValue = field(value, "availableBalance")?;
        let max_withdraw_amount: ExactNumericValue = field(value, "maxWithdrawAmount")?;
        let margin_available: bool = field(value, "marginAvailable")?;
        let update_time: u64 = field(value, "updateTime")?;
        Ok(
            AccountAsset {
                asset,
                wallet_balance,
                unrealized_profit,
                margin_balance,
                maint_margin,
                initial_margin,
                position_initial_margin,
                open_order_initial_margin,
                cross_wallet_balance,
                cross_unrealized_pnl,
                available_balance,
                max_withdraw_amount,
                margin_available,
                update_time,
            },
        )
    }
}

/// A margin account at one moment: what it may do, its totals, and its assets
/// and positions.
#[derive(Debug, Clone, PartialEq)]
pub struct AccountInformation {
    pub fee_tier: u64,
    pub can_trade: bool,
    pub can_deposit: bool,
    pub can_withdraw: bool,
    pub update_time: u64,
    pub multi_assets_margin: bool,
    pub total_initial_margin: ExactNumericValue,
    pub total_maintenance_margin: ExactNumericValue,
    pub total_wallet_balance: ExactNumericValue,
    pub total_unrealized_profit: ExactNumericValue,
    pub total_margin_balance: ExactNumericValue,
    pub total_position_initial_margin: ExactNumericValue,
    pub total_open_order_initial_margin: ExactNumericValue,
    pub total_cross_wallet_balance: ExactNumericValue,
    pub total_cross_unrealized_pnl: ExactNumericValue,
    pub available_balance: ExactNumericValue,
    pub max_withdraw_amount: ExactNumericValue,
    pub assets: Vec<AccountAsset>,
    pub positions: Vec<AccountPosition>,
}

impl Decode for AccountInformation {
    open spec fn accepts(value: JsonValue) -> bool {
        &&& value is Object
        &&& field_accepts::<u64>(value, "feeTier")
        &&& field_accepts::<bool>(value, "canTrade")
        &&& field_accepts::<bool>(value, "canDeposit")
        &&& field_accepts::<bool>(value, "canWithdraw")
        &&& field_accepts::<u64>(value, "updateTime")
        &&& field_accepts::<bool>(value, "multiAssetsMargin")
        &&& field_accepts::<ExactNumericValue>(value, "totalInitialMargin")
        &&& field_accepts::<ExactNumericValue>(value, "totalMaintMargin")
        &&& field_accepts::<ExactNumericValue>(value, "totalWalletBalance")
        &&& field_accepts::<ExactNumericValue>(value, "totalUnrealizedProfit")
        &&& field_accepts::<ExactNumericValue>(value, "totalMarginBalance")
        &&& field_accepts::<ExactNumericValue>(value, "totalPositionInitialMargin")
        &&& field_accepts::<ExactNumericValue>(value, "totalOpenOrderInitialMargin")
        &&& field_accepts::<ExactNumericValue>(value, "totalCrossWalletBalance")
        &&& field_accepts::<ExactNumericValue>(value, "totalCrossUnPnl")
        &&& field_accepts::<ExactNumericValue>(value, "availableBalance")
        &&& field_accepts::<ExactNumericValue>(value, "maxWithdrawAmount")
        &&& list_accepts::<AccountAsset>(value, "assets")
        &&& list_accepts::<AccountPosition>(value, "positions")
    }

    open spec fn rejection(value: JsonValue) -> Error {
        if !(value is Object) {
            Error::UnexpectedShape
        } else if !field_accepts::<u64>(value, "feeTier") {
            field_rejection::<u64>(value, "feeTier")
        } else if !field_accepts::<bool>(value, "canTrade") {
            field_rejection::<bool>(value, "canTrade")
        } else if !field_accepts::<bool>(value, "canDeposit") {
            field_rejection::<bool>(value, "canDeposit")
        } else if !field_accepts::<bool>(value, "canWithdraw") {
            field_rejection::<bool>(value, "canWithdraw")
        } else if !field_accepts::<u64>(value, "updateTime") {
            field_rejection::<u64>(value, "updateTime")
        } else if !field_accepts::<bool>(value, "multiAssetsMargin") {
            field_rejection::<bool>(value, "multiAssetsMargin")
        } else if !field_accepts::<ExactNumericValue>(value, "totalInitialMargin") {
            field_rejection::<ExactNumericValue>(value, "totalInitialMargin")
        } else if !field_accepts::<ExactNumericValue>(value, "totalMaintMargin") {
            field_rejection::<ExactNumericValue>(value, "totalMaintMargin")
        } else if !field_accepts::<ExactNumericValue>(value, "totalWalletBalance") {
            field_rejection::<ExactNumericValue>(value, "totalWalletBalance")
        } else if !field_accepts::<ExactNumericValue>(value, "totalUnrealizedProfit") {
            field_rejection::<ExactNumericValue>(value, "totalUnrealizedProfit")
        } else if !field_accepts::<ExactNumericValue>(value, "totalMarginBalance") {
            field_rejection::<ExactNumericValue>(value, "totalMarginBalance")
        } else if !field_accepts::<ExactNumericValue>(value, "totalPositionInitialMargin") {
            field_rejection::<ExactNumericValue>(value, "totalPositionInitialMargin")
        } else if !field_accepts::<ExactNumericValue>(value, "totalOpenOrderInitialMargin") {
            field_rejection::<ExactNumericValue>(value, "totalOpenOrderInitialMargin")
        } else if !field_accepts::<ExactNumericValue>(value, "totalCrossWalletBalance") {
            field_rejection::<ExactNumericValue>(value, "totalCrossWalletBalance")
        } else if !field_accepts::<ExactNumericValue>(value, "totalCrossUnPnl") {
            field_rejection::<ExactNumericValue>(value, "totalCrossUnPnl")
        } else if !field_accepts::<ExactNumericValue>(value, "availableBalance") {
            field_rejection::<ExactNumericValue>(value, "availableBalance")
        } else if !field_accepts::<ExactNumericValue>(value, "maxWithdrawAmount") {
            field_rejection::<ExactNumericValue>(value, "maxWithdrawAmount")
        } else if !list_accepts::<AccountAsset>(value, "assets") {
            list_rejection::<AccountAsset>(value, "assets")
        } else {
            list_rejection::<AccountPosition>(value, "positions")
        }
    }

    open spec fn describes(value: JsonValue, decoded: Self) -> bool {
        &&& field_describes::<u64>(value, "feeTier", decoded.fee_tier)
        &&& field_describes::<bool>(value, "canTrade", decoded.can_trade)
        &&& field_describes::<bool>(value, "canDeposit", decoded.can_deposit)
        &&& field_describes::<bool>(value, "canWithdraw", decoded.can_withdraw)
        &&& field_describes::<u64>(value, "updateTime", decoded.update_time)
        &&& field_describes::<bool>(value, "multiAssetsMargin", decoded.multi_assets_margin)
        &&& field_describes::<ExactNumericValue>(value, "totalInitialMargin", decoded.total_initial_margin)
        &&& field_describes::<ExactNumericValue>(value, "totalMaintMargin", decoded.total_maintenance_margin)
        &&& field_describes::<ExactNumericValue>(value, "totalWalletBalance", decoded.total_wallet_balance)
        &&& field_describes::<ExactNumericValue>(value, "totalUnrealizedProfit", decoded.total_unrealized_profit)
        &&& field_describes::<ExactNumericValue>(value, "totalMarginBalance", decoded.total_margin_balance)
        &&& field_describes::<ExactNumericValue>(value, "totalPositionInitialMargin", decoded.total_position_initial_margin)
        &&& field_describes::<ExactNumericValue>(value, "totalOpenOrderInitialMargin", decoded.total_open_order_initial_margin)
        &&& field_describes::<ExactNumericValue>(value, "totalCrossWalletBalance", decoded.total_cross_wallet_balance)
        &&& field_describes::<ExactNumericValue>(value, "totalCrossUnPnl", decoded.total_cross_unrealized_pnl)
        &&& field_describes::<ExactNumericValue>(value, "availableBalance", decoded.available_balance)
        &&& field_describes::<ExactNumericValue>(value, "maxWithdrawAmount", decoded.max_withdraw_amount)
        &&& list_describes::<AccountAsset>(value, "assets", decoded.assets)
        &&& list_describes::<AccountPosition>(value, "positions", decoded.positions)
    }

    fn decode(value: &JsonValue) -> (outcome: Result<Self, Error>) {
        if !value.is_object() {
            return Err(Error::UnexpectedShape);
        }
        let fee_tier: u64 = field(value, "feeTier")?;
        let can_trade: bool = field(value, "canTrade")?;
        let can_deposit: bool = field(value, "canDeposit")?;
        let can_withdraw: bool = field(value, "canWithdraw")?;
        let update_time: u64 = field(value, "updateTime")?;
        let multi_assets_margin: bool = field(value, "multiAssetsMargin")?;
        let total_initial_margin: ExactNumericValue = field(value, "totalInitialMargin")?;
        let total_maintenance_margin: ExactNumericValue = field(value, "totalMaintMargin")?;
        let total_wallet_balance: ExactNumericValue = field(value, "totalWalletBalance")?;
        let total_unrealized_profit: ExactNumericValue = field(value, "totalUnrealizedProfit")?;
        let total_margin_balance: ExactNumericValue = field(value, "totalMarginBalance")?;
        let total_position_initial_margin: ExactNumericValue = field(value, "totalPositionInitialMargin")?;
        let total_open_order_initial_margin: ExactNumericValue = field(value, "totalOpenOrderInitialMargin")?;
        let total_cross_wallet_balance: ExactNumericValue = field(value, "totalCrossWalletBalance")?;
        let total_cross_unrealized_pnl: ExactNumericValue = field(value, "totalCrossUnPnl")?;
        let available_balance: ExactNumericValue = field(value, "availableBalance")?;
        let max_withdraw_amount: ExactNumericValue = field(value, "maxWithdrawAmount")?;
        let assets: Vec<AccountAsset> = list_field(value, "assets")?;
        let positions: Vec<AccountPosition> = list_field(value, "positions")?;
        Ok(
            AccountInformation {
                fee_tier,
                can_trade,
                can_deposit,
                can_withdraw,
                update_time,
                multi_assets_margin,
                total_initial_margin,
                total_maintenance_margin,
                total_wallet_balance,
                total_unrealized_profit,
                total_margin_balance,
                total_position_initial_margin,
                total_open_order_initial_margin,
                total_cross_wallet_balance,
                total_cross_unrealized_pnl,
                available_balance,
                max_withdraw_amount,
                assets,
                positions,
            },
        )
    }
}

/// The balance of one asset, as the balance query reports it.
#[derive(Debug, Clone, PartialEq)]
pub struct AccountBalance {
    pub account_alias: String,
    pub asset: String,
    pub balance: ExactNumericValue,
    pub cross_wallet_balance: ExactNumericValue,
    pub cross_unrealized_pnl: ExactNumericValue,
    pub available_balance: ExactNumericValue,
    pub max_withdraw_amount: ExactNumericValue,
    pub margin_available: bool,
    pub update_time: u64,
}

impl Decode for AccountBalance {
    open spec fn accepts(value: JsonValue) -> bool {
        &&& value is Object
        &&& field_accepts::<String>(value, "accountAlias")
        &&& field_accepts::<String>(value, "asset")
        &&& field_accepts::<ExactNumericValue>(value, "balance")
        &&& field_accepts::<ExactNumericValue>(value, "crossWalletBalance")
        &&& field_accepts::<ExactNumericValue>(value, "crossUnPnl")
        &&& field_accepts::<ExactNumericValue>(value, "availableBalance")
        &&& field_accepts::<ExactNumericValue>(value, "maxWithdrawAmount")
        &&& field_accepts::<bool>(value, "marginAvailable")
        &&& field_accepts::<u64>(value, "updateTime")
    }

    open spec fn rejection(value: JsonValue) -> Error {
        if !(value is Object) {
            Error::UnexpectedShape
        } else if !field_accepts::<String>(value, "accountAlias") {
            field_rejection::<String>(value, "accountAlias")
        } else if !field_accepts::<String>(value, "asset") {
            field_rejection::<String>(value, "asset")
        } else if !field_accepts::<ExactNumericValue>(value, "balance") {
            field_rejection::<ExactNumericValue>(value, "balance")
        } else if !field_accepts::<ExactNumericValue>(value, "crossWalletBalance") {
            field_rejection::<ExactNumericValue>(value, "crossWalletBalance")
        } else if !field_accepts::<ExactNumericValue>(value, "crossUnPnl") {
            field_rejection::<ExactNumericValue>(value, "crossUnPnl")
        } else if !field_accepts::<ExactNumericValue>(value, "availableBalance") {
            field_rejection::<ExactNumericValue>(value, "availableBalance")
        } else if !field_accepts::<ExactNumericValue>(value, "maxWithdrawAmount") {
            field_rejection::<ExactNumericValue>(value, "maxWithdrawAmount")
        } else if !field_accepts::<bool>(value, "marginAvailable") {
            field_rejection::<bool>(value, "marginAvailable")
        } else {
            field_rejection::<u64>(value, "updateTime")
        }
    }

    open spec fn describes(value: JsonValue, decoded: Self) -> bool {
        &&& field_describes::<String>(value, "accountAlias", decoded.account_alias)
        &&& field_describes::<String>(value, "asset", decoded.asset)
        &&& field_describes::<ExactNumericValue>(value, "balance", decoded.balance)
        &&& field_describes::<ExactNumericValue>(value, "crossWalletBalance", decoded.cross_wallet_balance)
        &&& field_describes::<ExactNumericValue>(value, "crossUnPnl", decoded.cross_unrealized_pnl)
        &&& field_describes::<ExactNumericValue>(value, "availableBalance", decoded.available_balance)
        &&& field_describes::<ExactNumericValue>(value, "maxWithdrawAmount", decoded.max_withdraw_amount)
        &&& field_describes::<bool>(value, "marginAvailable", decoded.margin_available)
        &&& field_describes::<u64>(value, "updateTime", decoded.update_time)
    }

    fn decode(value: &JsonValue) -> (outcome: Result<Self, Error>) {
        if !value.is_object() {
            return Err(Error::UnexpectedShape);
        }
        let account_alias: String = field(value, "accountAlias")?;
        let asset: String = field(value, "asset")?;
        let balance: ExactNumericValue = field(value, "balance")?;
        let cross_wallet_balance: ExactNumericValue = field(value, "crossWalletBalance")?;
        let cross_unrealized_pnl: ExactNumericValue = field(value, "crossUnPnl")?;
        let available_balance: ExactNumericValue = field(value, "availableBalance")?;
        let max_withdraw_amount: ExactNumericValue = field(value, "maxWithdrawAmount")?;
        let margin_available: bool = field(value, "marginAvailable")?;
        let update_time: u64 = field(value, "updateTime")?;
        Ok(
            AccountBalance {
                account_alias,
                asset,
                balance,
                cross_wallet_balance,
                cross_unrealized_pnl,
                available_balance,
                max_withdraw_amount,
                margin_available,
                update_time,
            },
        )
    }
}

/// What the exchange answers when the leverage of an instrument is changed.
#[derive(Debug, Clone, PartialEq)]
pub struct ChangeLeverageResponse {
    pub leverage: u8,
    pub max_notional_value: ExactNumericValue,
    pub symbol: String,
}

impl Decode for ChangeLeverageResponse {
    open spec fn accepts(value: JsonValue) -> bool {
        &&& value is Object
        &&& field_accepts::<u8>(value, "leverage")
        &&& field_accepts::<ExactNumericValue>(value, "maxNotionalValue")
        &&& field_accepts::<String>(value, "symbol")
    }

    open spec fn rejection(value: JsonValue) -> Error {
        if !(value is Object) {
            Error::UnexpectedShape
        } else if !field_accepts::<u8>(value, "leverage") {
            field_rejection::<u8>(value, "leverage")
        } else if !field_accepts::<ExactNumericValue>(value, "maxNotionalValue") {
            field_rejection::<ExactNumericValue>(value, "maxNotionalValue")
        } else {
            field_rejection::<String>(value, "symbol")
        }
    }

    open spec fn describes(value: JsonValue, decoded: Self) -> bool {
        &&& field_describes::<u8>(value, "leverage", decoded.leverage)
        &&& field_describes::<ExactNumericValue>(value, "maxNotionalValue", decoded.max_notional_value)
        &&& field_describes::<String>(value, "symbol", decoded.symbol)
    }

    fn decode(value: &JsonValue) -> (outcome: Result<Self, Error>) {
        if !value.is_object() {
            return Err(Error::UnexpectedShape);
        }
        let leverage: u8 = field(value, "leverage")?;
        let max_notional_value: ExactNumericValue = field(value, "maxNotionalValue")?;
        let symbol: String = field(value, "symbol")?;
        Ok(
            ChangeLeverageResponse {
                leverage,
                max_notional_value,
                symbol,
            },
        )
    }
}

/// Whether `token` is one of the nine periods that the historical endpoints
/// take.
pub open spec fn is_period(token: Seq<char>) -> bool {
    ||| token == "5m"@
    ||| token == "15m"@
    ||| token == "30m"@
    ||| token == "1h"@
    ||| token == "2h"@
    ||| token == "4h"@
    ||| token == "6h"@
    ||| token == "12h"@
    ||| token == "1d"@
}

/// Tells whether a token is an allowed period.
pub fn is_allowed_period(token: &str) -> (allowed: bool)
    ensures
        allowed == is_period(token@),
{
    str_eq(token, "5m") || str_eq(token, "15m") || str_eq(token, "30m") || str_eq(token, "1h")
        || str_eq(token, "2h") || str_eq(token, "4h") || str_eq(token, "6h") || str_eq(
        token,
        "12h",
    ) || str_eq(token, "1d")
}

/// What a check of a query's period comes to: a period that is given must be
/// an allowed one, and is named in the error where it is not.
pub open spec fn period_outcome(period: Option<String>) -> Result<(), Error> {
    match period {
        Some(token) => if is_period(token@) {
            Ok(())
        } else {
            Err(Error::InvalidPeriod(token))
        },
        None => Ok(()),
    }
}

/// A query for historical data. Only the period is checked here; what the
/// other fields may hold is for the endpoint to say.
#[derive(Debug, Clone, PartialEq)]
pub struct HistoryQuery {
    pub start_time: Option<u64>,
    pub end_time: Option<u64>,
    pub from_id: Option<u64>,
    pub limit: u16,
    pub symbol: String,
    pub interval: Option<String>,
    pub period: Option<String>,
}

impl HistoryQuery {
    /// Checks the query before it is sent: nothing happens where the period is
    /// absent or allowed, and a period that is not allowed is an
    /// `InvalidPeriod` that names it.
    pub fn validate(&self) -> (outcome: Result<(), Error>)
        ensures
            outcome == period_outcome(self.period),
    {
        match &self.period {
            Some(token) => {
                if is_allowed_period(token.as_str()) {
                    Ok(())
                } else {
                    Err(Error::InvalidPeriod(token.clone()))
                }
            },
            None => Ok(()),
        }
    }
}

/// A query for the history of an index.
#[derive(Debug, Clone, PartialEq)]
pub struct IndexQuery {
    pub start_time: Option<u64>,
    pub end_time: Option<u64>,
    pub limit: u16,
    pub pair: String,
    pub interval: Option<String>,
}

/// The funding rate of an instrument at one funding time.
#[derive(Debug, Clone, PartialEq)]
pub struct FundingRate {
    pub symbol: String,
    pub funding_time: u64,
    pub funding_rate: ExactNumericValue,
}

impl Decode for FundingRate {
    open spec fn accepts(value: JsonValue) -> bool {
        &&& value is Object
        &&& field_accepts::<String>(value, "symbol")
        &&& field_accepts::<u64>(value, "fundingTime")
        &&& field_accepts::<ExactNumericValue>(value, "fundingRate")
    }

    open spec fn rejection(value: JsonValue) -> Error {
        if !(value is Object) {
            Error::UnexpectedShape
        } else if !field_accepts::<String>(value, "symbol") {
            field_rejection::<String>(value, "symbol")
        } else if !field_accepts::<u64>(value, "fundingTime") {
            field_rejection::<u64>(value, "fundingTime")
        } else {
            field_rejection::<ExactNumericValue>(value, "fundingRate")
        }
    }

    open spec fn describes(value: JsonValue, decoded: Self) -> bool {
        &&& field_describes::<String>(value, "symbol", decoded.symbol)
        &&& field_describes::<u64>(value, "fundingTime", decoded.funding_time)
        &&& field_describes::<ExactNumericValue>(value, "fundingRate", decoded.funding_rate)
    }

    fn decode(value: &JsonValue) -> (outcome: Result<Self, Error>) {
        if !value.is_object() {
            return Err(Error::UnexpectedShape);
        }
        let symbol: String = field(value, "symbol")?;
        let funding_time: u64 = field(value, "fundingTime")?;
        let funding_rate: ExactNumericValue = field(value, "fundingRate")?;
        Ok(
            FundingRate {
                symbol,
                funding_time,
                funding_rate,
            },
        )
    }
}

/// The open interest of an instrument over one period.
#[derive(Debug, Clone, PartialEq)]
pub struct OpenInterestHistory {
    pub symbol: String,
    pub sum_open_interest: ExactNumericValue,
    pub sum_open_interest_value: ExactNumericValue,
    pub timestamp: u64,
}

impl Decode for OpenInterestHistory {
    open spec fn accepts(value: JsonValue) -> bool {
        &&& value is Object
        &&& field_accepts::<String>(value, "symbol")
        &&& field_accepts::<ExactNumericValue>(value, "sumOpenInterest")
        &&& field_accepts::<ExactNumericValue>(value, "sumOpenInterestValue")
        &&& field_accepts::<u64>(value, "timestamp")
    }

    open spec fn rejection(value: JsonValue) -> Error {
        if !(value is Object) {
            Error::UnexpectedShape
        } else if !field_accepts::<String>(value, "symbol") {
            field_rejection::<String>(value, "symbol")
        } else if !field_accepts::<ExactNumericValue>(value, "sumOpenInterest") {
            field_rejection::<ExactNumericValue>(value, "sumOpenInterest")
        } else if !field_accepts::<ExactNumericValue>(value, "sumOpenInterestValue") {
            field_rejection::<ExactNumericValue>(value, "sumOpenInterestValue")
        } else {
            field_rejection::<u64>(value, "timestamp")
        }
    }

    open spec fn describes(value: JsonValue, decoded: Self) -> bool {
        &&& field_describes::<String>(value, "symbol", decoded.symbol)
        &&& field_describes::<ExactNumericValue>(value, "sumOpenInterest", decoded.sum_open_interest)
        &&& field_describes::<ExactNumericValue>(value, "sumOpenInterestValue", decoded.sum_open_interest_value)
        &&& field_describes::<u64>(value, "timestamp", decoded.timestamp)
    }

    fn decode(value: &JsonValue) -> (outcome: Result<Self, Error>) {
        if !value.is_object() {
            return Err(Error::UnexpectedShape);
        }
        let symbol: String = field(value, "symbol")?;
        let sum_open_interest: ExactNumericValue = field(value, "sumOpenInterest")?;
        let sum_open_interest_value: ExactNumericValue = field(value, "sumOpenInterestValue")?;
        let timestamp: u64 = field(value, "timestamp")?;
        Ok(
            OpenInterestHistory {
                symbol,
                sum_open_interest,
                sum_open_interest_value,
                timestamp,
            },
        )
    }
}

/// The share of long and of short accounts over one period.
#[derive(Debug, Clone, PartialEq)]
pub struct LongShortRatio {
    pub symbol: String,
    pub long_account: ExactNumericValue,
    pub long_short_ratio: ExactNumericValue,
    pub short_account: ExactNumericValue,
    pub timestamp: u64,
}

impl Decode for LongShortRatio {
    open spec fn accepts(value: JsonValue) -> bool {
        &&& value is Object
        &&& field_accepts::<String>(value, "symbol")
        &&& field_accepts::<ExactNumericValue>(value, "longAccount")
        &&& field_accepts::<ExactNumericValue>(value, "longShortRatio")
        &&& field_accepts::<ExactNumericValue>(value, "shortAccount")
        &&& field_accepts::<u64>(value, "timestamp")
    }

    open spec fn rejection(value: JsonValue) -> Error {
        if !(value is Object) {
            Error::UnexpectedShape
        } else if !field_accepts::<String>(value, "symbol") {
            field_rejection::<String>(value, "symbol")
        } else if !field_accepts::<ExactNumericValue>(value, "longAccount") {
            field_rejection::<ExactNumericValue>(value, "longAccount")
        } else if !field_accepts::<ExactNumericValue>(value, "longShortRatio") {
            field_rejection::<ExactNumericValue>(value, "longShortRatio")
        } else if !field_accepts::<ExactNumericValue>(value, "shortAccount") {
            field_rejection::<ExactNumericValue>(value, "shortAccount")
        } else {
            field_rejection::<u64>(value, "timestamp")
        }
    }

    open spec fn describes(value: JsonValue, decoded: Self) -> bool {
        &&& field_describes::<String>(value, "symbol", decoded.symbol)
        &&& field_describes::<ExactNumericValue>(value, "longAccount", decoded.long_account)
        &&& field_describes::<ExactNumericValue>(value, "longShortRatio", decoded.long_short_ratio)
        &&& field_describes::<ExactNumericValue>(value, "shortAccount", decoded.short_account)
        &&& field_describes::<u64>(value, "timestamp", decoded.timestamp)
    }

    fn decode(value: &JsonValue) -> (outcome: Result<Self, Error>) {
        if !value.is_object() {
            return Err(Error::UnexpectedShape);
        }
        let symbol: String = field(value, "symbol")?;
        let long_account: ExactNumericValue = field(value, "longAccount")?;
        let long_short_ratio: ExactNumericValue = field(value, "longShortRatio")?;
        let short_account: ExactNumericValue = field(value, "shortAccount")?;
        let timestamp: u64 = field(value, "timestamp")?;
        Ok(
            LongShortRatio {
                symbol,
                long_account,
                long_short_ratio,
                short_account,
                timestamp,
            },
        )
    }
}

/// One bracket of notional value with the leverage allowed in it.
#[derive(Debug, Clone, PartialEq)]
pub struct LeverageBracket {
    pub bracket: u8,
    pub initial_leverage: u8,
    pub notional_cap: u64,
    pub notional_floor: u64,
    pub maint_margin_ratio: ExactNumericValue,
    pub cum: ExactNumericValue,
}

impl Decode for LeverageBracket {
    open spec fn accepts(value: JsonValue) -> bool {
        &&& value is Object
        &&& field_accepts::<u8>(value, "bracket")
        &&& field_accepts::<u8>(value, "initialLeverage")
        &&& field_accepts::<u64>(value, "notionalCap")
        &&& field_accepts::<u64>(value, "notionalFloor")
        &&& field_accepts::<ExactNumericValue>(value, "maintMarginRatio")
        &&& field_accepts::<ExactNumericValue>(value, "cum")
    }

    open spec fn rejection(value: JsonValue) -> Error {
        if !(value is Object) {
            Error::UnexpectedShape
        } else if !field_accepts::<u8>(value, "bracket") {
            field_rejection::<u8>(value, "bracket")
        } else if !field_accepts::<u8>(value, "initialLeverage") {
            field_rejection::<u8>(value, "initialLeverage")
        } else if !field_accepts::<u64>(value, "notionalCap") {
            field_rejection::<u64>(value, "notionalCap")
        } else if !field_accepts::<u64>(value, "notionalFloor") {
            field_rejection::<u64>(value, "notionalFloor")
        } else if !field_accepts::<ExactNumericValue>(value, "maintMarginRatio") {
            field_rejection::<ExactNumericValue>(value, "maintMarginRatio")
        } else {
            field_rejection::<ExactNumericValue>(value, "cum")
        }
    }

    open spec fn describes(value: JsonValue, decoded: Self) -> bool {
        &&& field_describes::<u8>(value, "bracket", decoded.bracket)
        &&& field_describes::<u8>(value, "initialLeverage", decoded.initial_leverage)
        &&& field_describes::<u64>(value, "notionalCap", decoded.notional_cap)
        &&& field_describes::<u64>(value, "notionalFloor", decoded.notional_floor)
        &&& field_describes::<ExactNumericValue>(value, "maintMarginRatio", decoded.maint_margin_ratio)
        &&& field_describes::<ExactNumericValue>(value, "cum", decoded.cum)
    }

    fn decode(value: &JsonValue) -> (outcome: Result<Self, Error>) {
        if !value.is_object() {
            return Err(Error::UnexpectedShape);
        }
        let bracket: u8 = field(value, "bracket")?;
        let initial_leverage: u8 = field(value, "initialLeverage")?;
        let notional_cap: u64 = field(value, "notionalCap")?;
        let notional_floor: u64 = field(value, "notionalFloor")?;
        let maint_margin_ratio: ExactNumericValue = field(value, "maintMarginRatio")?;
        let cum: ExactNumericValue = field(value, "cum")?;
        Ok(
            LeverageBracket {
                bracket,
                initial_leverage,
                notional_cap,
                notional_floor,
                maint_margin_ratio,
                cum,
            },
        )
    }
}

/// The leverage brackets of an instrument.
#[derive(Debug, Clone, PartialEq)]
pub struct SymbolBrackets {
    pub symbol: String,
    pub notional_coef: Option<ExactNumericValue>,
    pub brackets: Vec<LeverageBracket>,
}

impl Decode for SymbolBrackets {
    open spec fn accepts(value: JsonValue) -> bool {
        &&& value is Object
        &&& field_accepts::<String>(value, "symbol")
        &&& optional_accepts::<ExactNumericValue>(value, "notionalCoef")
        &&& list_accepts::<LeverageBracket>(value, "brackets")
    }

    open spec fn rejection(value: JsonValue) -> Error {
        if !(value is Object) {
            Error::UnexpectedShape
        } else if !field_accepts::<String>(value, "symbol") {
            field_rejection::<String>(value, "symbol")
        } else if !optional_accepts::<ExactNumericValue>(value, "notionalCoef") {
            field_rejection::<ExactNumericValue>(value, "notionalCoef")
        } else {
            list_rejection::<LeverageBracket>(value, "brackets")
        }
    }

    open spec fn describes(value: JsonValue, decoded: Self) -> bool {
        &&& field_describes::<String>(value, "symbol", decoded.symbol)
        &&& optional_describes::<ExactNumericValue>(value, "notionalCoef", decoded.notional_coef)
        &&& list_describes::<LeverageBracket>(value, "brackets", decoded.brackets)
    }

    fn decode(value: &JsonValue) -> (outcome: Result<Self, Error>) {
        if !value.is_object() {
            return Err(Error::UnexpectedShape);
        }
        let symbol: String = field(value, "symbol")?;
        let notional_coef: Option<ExactNumericValue> = optional_field(value, "notionalCoef")?;
        let brackets: Vec<LeverageBracket> = list_field(value, "brackets")?;
        Ok(
            SymbolBrackets {
                symbol,
                notional_coef,
                brackets,
            },
        )
    }
}

} // verus!
