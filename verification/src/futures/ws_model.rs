//! The events of the user-data WebSocket stream. Their keys on the wire are
//! one or two letters each; every field names its key.

use crate::decode::{
    field, field_accepts, field_describes, field_rejection, list_accepts, list_describes,
    list_field, list_rejection, optional_accepts, optional_describes, optional_field, Decode,
};
use crate::errors::Error;
use crate::futures::rest_model::{MarginType, OrderType, PositionSide, WorkingType};
use crate::json::JsonValue;
use crate::number::ExactNumericValue;
use crate::rest_model::{ExecutionType, OrderSide, OrderStatus, TimeInForce};
use crate::text::str_eq;
use vstd::prelude::*;

verus! {

/// One frame of the user-data stream, told apart by the event tag under its
/// key `e`. The payload of the event lies in the same object as the tag.
///
/// A tag that names neither event is an `UnknownEventType`: for an event
/// that is not understood there is nothing safe to fall back on.
#[derive(Debug, PartialEq)]
pub enum WebsocketEvent {
    /// `ACCOUNT_UPDATE`: balances or positions of the account changed.
    AccountUpdate(Box<AccountUpdate>),
    /// `ORDER_TRADE_UPDATE`: an order went from one state to the next.
    OrderTradeUpdate(Box<OrderTradeUpdate>),
}

impl WebsocketEvent {
    /// The event tag of a frame that has one written as a string.
    pub open spec fn spec_tag(value: JsonValue) -> String {
        value.spec_get("e"@)->Some_0->Text_0
    }

    /// Whether the frame has an event tag written as a string.
    pub open spec fn has_tag(value: JsonValue) -> bool {
        value.spec_get("e"@) matches Some(JsonValue::Text(_))
    }

    /// A frame whose event tag names neither event is rejected as an unknown
    /// event that carries the tag, whatever else the frame holds.
    pub proof fn lemma_unknown_event_is_rejected(value: JsonValue)
        requires
            value is Object,
            Self::has_tag(value),
            Self::spec_tag(value)@ != "ACCOUNT_UPDATE"@,
            Self::spec_tag(value)@ != "ORDER_TRADE_UPDATE"@,
        ensures
            !Self::accepts(value),
            Self::rejection(value) == Error::UnknownEventType(Self::spec_tag(value)),
    {
    }
}

impl Decode for WebsocketEvent {
    open spec fn accepts(value: JsonValue) -> bool {
        let tag = Self::spec_tag(value)@;
        &&& Self::has_tag(value)
        &&& if tag == "ACCOUNT_UPDATE"@ {
            AccountUpdate::accepts(value)
        } else {
            tag == "ORDER_TRADE_UPDATE"@ && OrderTradeUpdate::accepts(value)
        }
    }

    open spec fn rejection(value: JsonValue) -> Error {
        let tag = Self::spec_tag(value);
        if !(value is Object) {
            Error::UnexpectedShape
        } else if !Self::has_tag(value) {
            field_rejection::<String>(value, "e")
        } else if tag@ == "ACCOUNT_UPDATE"@ {
            AccountUpdate::rejection(value)
        } else if tag@ == "ORDER_TRADE_UPDATE"@ {
            OrderTradeUpdate::rejection(value)
        } else {
            Error::UnknownEventType(tag)
        }
    }

    open spec fn describes(value: JsonValue, decoded: Self) -> bool {
        let tag = Self::spec_tag(value)@;
        match decoded {
            WebsocketEvent::AccountUpdate(update) => tag == "ACCOUNT_UPDATE"@
                && AccountUpdate::describes(value, *update),
            WebsocketEvent::OrderTradeUpdate(update) => tag == "ORDER_TRADE_UPDATE"@
                && OrderTradeUpdate::describes(value, *update),
        }
    }

    fn decode(value: &JsonValue) -> (outcome: Result<Self, Error>) {
        if !value.is_object() {
            return Err(Error::UnexpectedShape);
        }
        match value.get("e") {
            Some(JsonValue::Text(tag)) => {
                proof {
                    reveal_strlit("ACCOUNT_UPDATE");
                    reveal_strlit("ORDER_TRADE_UPDATE");
                    assert("ACCOUNT_UPDATE"@.len() == 14);
                    assert("ORDER_TRADE_UPDATE"@.len() == 18);
                }
                if str_eq(tag.as_str(), "ACCOUNT_UPDATE") {
                    match AccountUpdate::decode(value) {
                        Ok(update) => Ok(WebsocketEvent::AccountUpdate(Box::new(update))),
                        Err(error) => Err(error),
                    }
                } else if str_eq(tag.as_str(), "ORDER_TRADE_UPDATE") {
                    match OrderTradeUpdate::decode(value) {
                        Ok(update) => Ok(WebsocketEvent::OrderTradeUpdate(Box::new(update))),
                        Err(error) => Err(error),
                    }
                } else {
                    Err(Error::UnknownEventType(tag.clone()))
                }
            },
            Some(_) => Err(Error::UnexpectedShape),
            None => Err(Error::MissingRequiredField("e")),
        }
    }
}

/// The payload of an account update.
#[derive(Debug, PartialEq)]
pub struct AccountUpdate {
    pub event_time: u64,
    pub transaction_time: u64,
    pub account: Account,
}

impl Decode for AccountUpdate {
    open spec fn accepts(value: JsonValue) -> bool {
        &&& value is Object
        &&& field_accepts::<u64>(value, "E")
        &&& field_accepts::<u64>(value, "T")
        &&& field_accepts::<Account>(value, "a")
    }

    open spec fn rejection(value: JsonValue) -> Error {
        if !(value is Object) {
            Error::UnexpectedShape
        } else if !field_accepts::<u64>(value, "E") {
            field_rejection::<u64>(value, "E")
        } else if !field_accepts::<u64>(value, "T") {
            field_rejection::<u64>(value, "T")
        } else {
            field_rejection::<Account>(value, "a")
        }
    }

    open spec fn describes(value: JsonValue, decoded: Self) -> bool {
        &&& field_describes::<u64>(value, "E", decoded.event_time)
        &&& field_describes::<u64>(value, "T", decoded.transaction_time)
        &&& field_describes::<Account>(value, "a", decoded.account)
    }

    fn decode(value: &JsonValue) -> (outcome: Result<Self, Error>) {
        if !value.is_object() {
            return Err(Error::UnexpectedShape);
        }
        let event_time: u64 = field(value, "E")?;
        let transaction_time: u64 = field(value, "T")?;
        let account: Account = field(value, "a")?;
        Ok(
            AccountUpdate {
                event_time,
                transaction_time,
                account,
            },
        )
    }
}

/// What changed in the account, and why.
#[derive(Debug, PartialEq)]
pub struct Account {
    pub reason_type: ReasonType,
    pub balances: Vec<Balance>,
    pub positions: Vec<Position>,
}

impl Decode for Account {
    open spec fn accepts(value: JsonValue) -> bool {
        &&& value is Object
        &&& field_accepts::<ReasonType>(value, "m")
        &&& list_accepts::<Balance>(value, "B")
        &&& list_accepts::<Position>(value, "P")
    }

    open spec fn rejection(value: JsonValue) -> Error {
        if !(value is Object) {
            Error::UnexpectedShape
        } else if !field_accepts::<ReasonType>(value, "m") {
            field_rejection::<ReasonType>(value, "m")
        } else if !list_accepts::<Balance>(value, "B") {
            list_rejection::<Balance>(value, "B")
        } else {
            list_rejection::<Position>(value, "P")
        }
    }

    open spec fn describes(value: JsonValue, decoded: Self) -> bool {
        &&& field_describes::<ReasonType>(value, "m", decoded.reason_type)
        &&& list_describes::<Balance>(value, "B", decoded.balances)
        &&& list_describes::<Position>(value, "P", decoded.positions)
    }

    fn decode(value: &JsonValue) -> (outcome: Result<Self, Error>) {
        if !value.is_object() {
            return Err(Error::UnexpectedShape);
        }
        let reason_type: ReasonType = field(value, "m")?;
        let balances: Vec<Balance> = list_field(value, "B")?;
        let positions: Vec<Position> = list_field(value, "P")?;
        Ok(
            Account {
                reason_type,
                balances,
                positions,
            },
        )
    }
}

/// Why the account changed.
#[derive(Debug, Clone, Copy, PartialEq, Eq, Structural)]
pub enum ReasonType {
    Deposit,
    Withdraw,
    Order,
    FundingFee,
    WithdrawReject,
    Adjustment,
    InsuranceClear,
    AdminDeposit,
    AdminWithdraw,
    MarginTransfer,
    MarginTypeChange,
    AssetTransfer,
    OptionsPremiumFee,
    OptionsSettleProfit,
    AutoExchange,
    CoinSwapDeposit,
    CoinSwapWithdraw,
}

impl ReasonType {
    /// The member that a wire tag names, if it names one.
    pub open spec fn spec_from_tag(tag: Seq<char>) -> Option<ReasonType> {
        if tag == "DEPOSIT"@ {
            Some(ReasonType::Deposit)
        } else if tag == "WITHDRAW"@ {
            Some(ReasonType::Withdraw)
        } else if tag == "ORDER"@ {
            Some(ReasonType::Order)
        } else if tag == "FUNDING_FEE"@ {
            Some(ReasonType::FundingFee)
        } else if tag == "WITHDRAW_REJECT"@ {
            Some(ReasonType::WithdrawReject)
        } else if tag == "ADJUSTMENT"@ {
            Some(ReasonType::Adjustment)
        } else if tag == "INSURANCE_CLEAR"@ {
            Some(ReasonType::InsuranceClear)
        } else if tag == "ADMIN_DEPOSIT"@ {
            Some(ReasonType::AdminDeposit)
        } else if tag == "ADMIN_WITHDRAW"@ {
            Some(ReasonType::AdminWithdraw)
        } else if tag == "MARGIN_TRANSFER"@ {
            Some(ReasonType::MarginTransfer)
        } else if tag == "MARGIN_TYPE_CHANGE"@ {
            Some(ReasonType::MarginTypeChange)
        } else if tag == "ASSET_TRANSFER"@ {
            Some(ReasonType::AssetTransfer)
        } else if tag == "OPTIONS_PREMIUM_FEE"@ {
            Some(ReasonType::OptionsPremiumFee)
        } else if tag == "OPTIONS_SETTLE_PROFIT"@ {
            Some(ReasonType::OptionsSettleProfit)
        } else if tag == "AUTO_EXCHANGE"@ {
            Some(ReasonType::AutoExchange)
        } else if tag == "COIN_SWAP_DEPOSIT"@ {
            Some(ReasonType::CoinSwapDeposit)
        } else if tag == "COIN_SWAP_WITHDRAW"@ {
            Some(ReasonType::CoinSwapWithdraw)
        } else {
            None
        }
    }

    /// The wire tag of a member.
    pub open spec fn spec_tag(self) -> Seq<char> {
        match self {
            ReasonType::Deposit => "DEPOSIT"@,
            ReasonType::Withdraw => "WITHDRAW"@,
            ReasonType::Order => "ORDER"@,
            ReasonType::FundingFee => "FUNDING_FEE"@,
            ReasonType::WithdrawReject => "WITHDRAW_REJECT"@,
            ReasonType::Adjustment => "ADJUSTMENT"@,
            ReasonType::InsuranceClear => "INSURANCE_CLEAR"@,
            ReasonType::AdminDeposit => "ADMIN_DEPOSIT"@,
            ReasonType::AdminWithdraw => "ADMIN_WITHDRAW"@,
            ReasonType::MarginTransfer => "MARGIN_TRANSFER"@,
            ReasonType::MarginTypeChange => "MARGIN_TYPE_CHANGE"@,
            ReasonType::AssetTransfer => "ASSET_TRANSFER"@,
            ReasonType::OptionsPremiumFee => "OPTIONS_PREMIUM_FEE"@,
            ReasonType::OptionsSettleProfit => "OPTIONS_SETTLE_PROFIT"@,
            ReasonType::AutoExchange => "AUTO_EXCHANGE"@,
            ReasonType::CoinSwapDeposit => "COIN_SWAP_DEPOSIT"@,
            ReasonType::CoinSwapWithdraw => "COIN_SWAP_WITHDRAW"@,
        }
    }

    /// Finds the member that a wire tag names.
    pub fn from_tag(tag: &str) -> (member: Option<ReasonType>)
        ensures
            member == Self::spec_from_tag(tag@),
    {
        if str_eq(tag, "DEPOSIT") {
            Some(ReasonType::Deposit)
        } else if str_eq(tag, "WITHDRAW") {
            Some(ReasonType::Withdraw)
        } else if str_eq(tag, "ORDER") {
            Some(ReasonType::Order)
        } else if str_eq(tag, "FUNDING_FEE") {
            Some(ReasonType::FundingFee)
        } else if str_eq(tag, "WITHDRAW_REJECT") {
            Some(ReasonType::WithdrawReject)
        } else if str_eq(tag, "ADJUSTMENT") {
            Some(ReasonType::Adjustment)
        } else if str_eq(tag, "INSURANCE_CLEAR") {
            Some(ReasonType::InsuranceClear)
        } else if str_eq(tag, "ADMIN_DEPOSIT") {
            Some(ReasonType::AdminDeposit)
        } else if str_eq(tag, "ADMIN_WITHDRAW") {
            Some(ReasonType::AdminWithdraw)
        } else if str_eq(tag, "MARGIN_TRANSFER") {
            Some(ReasonType::MarginTransfer)
        } else if str_eq(tag, "MARGIN_TYPE_CHANGE") {
            Some(ReasonType::MarginTypeChange)
        } else if str_eq(tag, "ASSET_TRANSFER") {
            Some(ReasonType::AssetTransfer)
        } else if str_eq(tag, "OPTIONS_PREMIUM_FEE") {
            Some(ReasonType::OptionsPremiumFee)
        } else if str_eq(tag, "OPTIONS_SETTLE_PROFIT") {
            Some(ReasonType::OptionsSettleProfit)
        } else if str_eq(tag, "AUTO_EXCHANGE") {
            Some(ReasonType::AutoExchange)
        } else if str_eq(tag, "COIN_SWAP_DEPOSIT") {
            Some(ReasonType::CoinSwapDeposit)
        } else if str_eq(tag, "COIN_SWAP_WITHDRAW") {
            Some(ReasonType::CoinSwapWithdraw)
        } else {
            None
        }
    }

    /// The tag that a member is written with on the wire.
    pub fn as_tag(&self) -> (tag: &'static str)
        ensures
            tag@ == self.spec_tag(),
    {
        match self {
            ReasonType::Deposit => "DEPOSIT",
            ReasonType::Withdraw => "WITHDRAW",
            ReasonType::Order => "ORDER",
            ReasonType::FundingFee => "FUNDING_FEE",
            ReasonType::WithdrawReject => "WITHDRAW_REJECT",
            ReasonType::Adjustment => "ADJUSTMENT",
            ReasonType::InsuranceClear => "INSURANCE_CLEAR",
            ReasonType::AdminDeposit => "ADMIN_DEPOSIT",
            ReasonType::AdminWithdraw => "ADMIN_WITHDRAW",
            ReasonType::MarginTransfer => "MARGIN_TRANSFER",
            ReasonType::MarginTypeChange => "MARGIN_TYPE_CHANGE",
            ReasonType::AssetTransfer => "ASSET_TRANSFER",
            ReasonType::OptionsPremiumFee => "OPTIONS_PREMIUM_FEE",
            ReasonType::OptionsSettleProfit => "OPTIONS_SETTLE_PROFIT",
            ReasonType::AutoExchange => "AUTO_EXCHANGE",
            ReasonType::CoinSwapDeposit => "COIN_SWAP_DEPOSIT",
            ReasonType::CoinSwapWithdraw => "COIN_SWAP_WITHDRAW",
        }
    }

    /// Every member is named by its own tag, so no two members share one.
    pub proof fn lemma_tag_names_member(member: ReasonType)
        ensures
            Self::spec_from_tag(member.spec_tag()) == Some(member),
    {
        reveal_strlit("DEPOSIT");
        reveal_strlit("WITHDRAW");
        reveal_strlit("ORDER");
        reveal_strlit("FUNDING_FEE");
        reveal_strlit("WITHDRAW_REJECT");
        reveal_strlit("ADJUSTMENT");
        reveal_strlit("INSURANCE_CLEAR");
        reveal_strlit("ADMIN_DEPOSIT");
        reveal_strlit("ADMIN_WITHDRAW");
        reveal_strlit("MARGIN_TRANSFER");
        reveal_strlit("MARGIN_TYPE_CHANGE");
        reveal_strlit("ASSET_TRANSFER");
        reveal_strlit("OPTIONS_PREMIUM_FEE");
        reveal_strlit("OPTIONS_SETTLE_PROFIT");
        reveal_strlit("AUTO_EXCHANGE");
        reveal_strlit("COIN_SWAP_DEPOSIT");
        reveal_strlit("COIN_SWAP_WITHDRAW");
        assert("DEPOSIT"@.len() == 7);
        assert("WITHDRAW"@.len() == 8);
        assert("ORDER"@.len() == 5);
        assert("FUNDING_FEE"@.len() == 11);
        assert("WITHDRAW_REJECT"@.len() == 15);
        assert("ADJUSTMENT"@.len() == 10);
        assert("INSURANCE_CLEAR"@.len() == 15);
        assert("ADMIN_DEPOSIT"@.len() == 13);
        assert("ADMIN_WITHDRAW"@.len() == 14);
        assert("MARGIN_TRANSFER"@.len() == 15);
        assert("MARGIN_TYPE_CHANGE"@.len() == 18);
        assert("ASSET_TRANSFER"@.len() == 14);
        assert("OPTIONS_PREMIUM_FEE"@.len() == 19);
        assert("OPTIONS_SETTLE_PROFIT"@.len() == 21);
        assert("AUTO_EXCHANGE"@.len() == 13);
        assert("COIN_SWAP_DEPOSIT"@.len() == 17);
        assert("COIN_SWAP_WITHDRAW"@.len() == 18);
        assert("WITHDRAW_REJECT"@[0] != "INSURANCE_CLEAR"@[0]);
        assert("WITHDRAW_REJECT"@[0] != "MARGIN_TRANSFER"@[0]);
        assert("INSURANCE_CLEAR"@[0] != "MARGIN_TRANSFER"@[0]);
        assert("ADMIN_WITHDRAW"@[1] != "ASSET_TRANSFER"@[1]);
        assert("ADMIN_DEPOSIT"@[1] != "AUTO_EXCHANGE"@[1]);
        assert("MARGIN_TYPE_CHANGE"@[0] != "COIN_SWAP_WITHDRAW"@[0]);
    }
}

impl Decode for ReasonType {
    open spec fn accepts(value: JsonValue) -> bool {
        value is Text && Self::spec_from_tag(value->Text_0@) is Some
    }

    open spec fn rejection(value: JsonValue) -> Error {
        match value {
            JsonValue::Text(tag) => Error::UnknownEnumVariant(tag),
            _ => Error::UnexpectedShape,
        }
    }

    open spec fn describes(value: JsonValue, decoded: Self) -> bool {
        value is Text && Self::spec_from_tag(value->Text_0@) == Some(decoded)
    }

    fn decode(value: &JsonValue) -> (outcome: Result<Self, Error>) {
        match value {
            JsonValue::Text(tag) => match Self::from_tag(tag.as_str()) {
                Some(member) => Ok(member),
                None => Err(Error::UnknownEnumVariant(tag.clone())),
            },
            _ => Err(Error::UnexpectedShape),
        }
    }
}

/// The balance of one asset after the change.
#[derive(Debug, PartialEq)]
pub struct Balance {
    pub asset: String,
    pub wallet_balance: ExactNumericValue,
    pub cross_wallet_balance: ExactNumericValue,
    pub balance_change: ExactNumericValue,
}

impl Decode for Balance {
    open spec fn accepts(value: JsonValue) -> bool {
        &&& value is Object
        &&& field_accepts::<String>(value, "a")
        &&& field_accepts::<ExactNumericValue>(value, "wb")
        &&& field_accepts::<ExactNumericValue>(value, "cw")
        &&& field_accepts::<ExactNumericValue>(value, "bc")
    }

    open spec fn rejection(value: JsonValue) -> Error {
        if !(value is Object) {
            Error::UnexpectedShape
        } else if !field_accepts::<String>(value, "a") {
            field_rejection::<String>(value, "a")
        } else if !field_accepts::<ExactNumericValue>(value, "wb") {
            field_rejection::<ExactNumericValue>(value, "wb")
        } else if !field_accepts::<ExactNumericValue>(value, "cw") {
            field_rejection::<ExactNumericValue>(value, "cw")
        } else {
            field_rejection::<ExactNumericValue>(value, "bc")
        }
    }

    open spec fn describes(value: JsonValue, decoded: Self) -> bool {
        &&& field_describes::<String>(value, "a", decoded.asset)
        &&& field_describes::<ExactNumericValue>(value, "wb", decoded.wallet_balance)
        &&& field_describes::<ExactNumericValue>(value, "cw", decoded.cross_wallet_balance)
        &&& field_describes::<ExactNumericValue>(value, "bc", decoded.balance_change)
    }

    fn decode(value: &JsonValue) -> (outcome: Result<Self, Error>) {
        if !value.is_object() {
            return Err(Error::UnexpectedShape);
        }
        let asset: String = field(value, "a")?;
        let wallet_balance: ExactNumericValue = field(value, "wb")?;
        let cross_wallet_balance: ExactNumericValue = field(value, "cw")?;
        let balance_change: ExactNumericValue = field(value, "bc")?;
        Ok(
            Balance {
                asset,
                wallet_balance,
                cross_wallet_balance,
                balance_change,
            },
        )
    }
}

/// One position after the change.
#[derive(Debug, PartialEq)]
pub struct Position {
    pub symbol: String,
    pub position_amount: ExactNumericValue,
    pub entry_price: ExactNumericValue,
    pub breakeven_price: ExactNumericValue,
    pub accumulated_realized: ExactNumericValue,
    pub unrealized_profit: ExactNumericValue,
    pub margin_type: MarginType,
    pub isolated_wallet: ExactNumericValue,
    pub position_side: PositionSide,
}

impl Decode for Position {
    open spec fn accepts(value: JsonValue) -> bool {
        &&& value is Object
        &&& field_accepts::<String>(value, "s")
        &&& field_accepts::<ExactNumericValue>(value, "pa")
        &&& field_accepts::<ExactNumericValue>(value, "ep")
        &&& field_accepts::<ExactNumericValue>(value, "bep")
        &&& field_accepts::<ExactNumericValue>(value, "cr")
        &&& field_accepts::<ExactNumericValue>(value, "up")
        &&& field_accepts::<MarginType>(value, "mt")
        &&& field_accepts::<ExactNumericValue>(value, "iw")
        &&& field_accepts::<PositionSide>(value, "ps")
    }

    open spec fn rejection(value: JsonValue) -> Error {
        if !(value is Object) {
            Error::UnexpectedShape
        } else if !field_accepts::<String>(value, "s") {
            field_rejection::<String>(value, "s")
        } else if !field_accepts::<ExactNumericValue>(value, "pa") {
            field_rejection::<ExactNumericValue>(value, "pa")
        } else if !field_accepts::<ExactNumericValue>(value, "ep") {
            field_rejection::<ExactNumericValue>(value, "ep")
        } else if !field_accepts::<ExactNumericValue>(value, "bep") {
            field_rejection::<ExactNumericValue>(value, "bep")
        } else if !field_accepts::<ExactNumericValue>(value, "cr") {
            field_rejection::<ExactNumericValue>(value, "cr")
        } else if !field_accepts::<ExactNumericValue>(value, "up") {
            field_rejection::<ExactNumericValue>(value, "up")
        } else if !field_accepts::<MarginType>(value, "mt") {
            field_rejection::<MarginType>(value, "mt")
        } else if !field_accepts::<ExactNumericValue>(value, "iw") {
            field_rejection::<ExactNumericValue>(value, "iw")
        } else {
            field_rejection::<PositionSide>(value, "ps")
        }
    }

    open spec fn describes(value: JsonValue, decoded: Self) -> bool {
        &&& field_describes::<String>(value, "s", decoded.symbol)
        &&& field_describes::<ExactNumericValue>(value, "pa", decoded.position_amount)
        &&& field_describes::<ExactNumericValue>(value, "ep", decoded.entry_price)
        &&& field_describes::<ExactNumericValue>(value, "bep", decoded.breakeven_price)
        &&& field_describes::<ExactNumericValue>(value, "cr", decoded.accumulated_realized)
        &&& field_describes::<ExactNumericValue>(value, "up", decoded.unrealized_profit)
        &&& field_describes::<MarginType>(value, "mt", decoded.margin_type)
        &&& field_describes::<ExactNumericValue>(value, "iw", decoded.isolated_wallet)
        &&& field_describes::<PositionSide>(value, "ps", decoded.position_side)
    }

    fn decode(value: &JsonValue) -> (outcome: Result<Self, Error>) {
        if !value.is_object() {
            return Err(Error::UnexpectedShape);
        }
        let symbol: String = field(value, "s")?;
        let position_amount: ExactNumericValue = field(value, "pa")?;
        let entry_price: ExactNumericValue = field(value, "ep")?;
        let breakeven_price: ExactNumericValue = field(value, "bep")?;
        let accumulated_realized: ExactNumericValue = field(value, "cr")?;
        let unrealized_profit: ExactNumericValue = field(value, "up")?;
        let margin_type: MarginType = field(value, "mt")?;
        let isolated_wallet: ExactNumericValue = field(value, "iw")?;
        let position_side: PositionSide = field(value, "ps")?;
        Ok(
            Position {
                symbol,
                position_amount,
                entry_price,
                breakeven_price,
                accumulated_realized,
                unrealized_profit,
                margin_type,
                isolated_wallet,
                position_side,
            },
        )
    }
}

/// The payload of an order update.
#[derive(Debug, Clone, PartialEq)]
pub struct OrderTradeUpdate {
    pub event_time: u64,
    pub transaction_time: u64,
    pub order: Order,
}

impl Decode for OrderTradeUpdate {
    open spec fn accepts(value: JsonValue) -> bool {
        &&& value is Object
        &&& field_accepts::<u64>(value, "E")
        &&& field_accepts::<u64>(value, "T")
        &&& field_accepts::<Order>(value, "o")
    }

    open spec fn rejection(value: JsonValue) -> Error {
        if !(value is Object) {
            Error::UnexpectedShape
        } else if !field_accepts::<u64>(value, "E") {
            field_rejection::<u64>(value, "E")
        } else if !field_accepts::<u64>(value, "T") {
            field_rejection::<u64>(value, "T")
        } else {
            field_rejection::<Order>(value, "o")
        }
    }

    open spec fn describes(value: JsonValue, decoded: Self) -> bool {
        &&& field_describes::<u64>(value, "E", decoded.event_time)
        &&& field_describes::<u64>(value, "T", decoded.transaction_time)
        &&& field_describes::<Order>(value, "o", decoded.order)
    }

    fn decode(value: &JsonValue) -> (outcome: Result<Self, Error>) {
        if !value.is_object() {
            return Err(Error::UnexpectedShape);
        }
        let event_time: u64 = field(value, "E")?;
        let transaction_time: u64 = field(value, "T")?;
        let order: Order = field(value, "o")?;
        Ok(
            OrderTradeUpdate {
                event_time,
                transaction_time,
                order,
            },
        )
    }
}

/// One step in the life of an order. The commission and its asset are there
/// only where something was filled, the activation price and the callback
/// rate only for a trailing stop.
#[derive(Debug, Clone, PartialEq)]
pub struct Order {
    pub symbol: String,
    pub client_order_id: String,
    pub side: OrderSide,
    pub order_type: OrderType,
    pub time_in_force: TimeInForce,
    pub quantity: ExactNumericValue,
    pub price: ExactNumericValue,
    pub average_price: ExactNumericValue,
    pub stop_price: ExactNumericValue,
    pub execution_type: ExecutionType,
    pub order_status: OrderStatus,
    pub order_id: u64,
    pub order_last_filled_quantity: ExactNumericValue,
    pub order_filled_accumulated_quantity: ExactNumericValue,
    pub last_filled_price: ExactNumericValue,
    pub commission: Option<ExactNumericValue>,
    pub commission_asset: Option<String>,
    pub order_trade_time: u64,
    pub trade_id: u64,
    pub bid_notional: ExactNumericValue,
    pub ask_notional: ExactNumericValue,
    pub is_maker: bool,
    pub is_reduce: bool,
    pub working_type: WorkingType,
    pub original_order_type: OrderType,
    pub position_side: PositionSide,
    pub close_position: bool,
    pub activation_price: Option<ExactNumericValue>,
    pub callback_rate: Option<ExactNumericValue>,
    pub price_protect: bool,
    pub realized_profit: ExactNumericValue,
    pub stp_mode: SelfTradePreventionMode,
    pub price_match: PriceMatch,
    pub good_till_date: u64,
}

impl Decode for Order {
    open spec fn accepts(value: JsonValue) -> bool {
        &&& value is Object
        &&& field_accepts::<String>(value, "s")
        &&& field_accepts::<String>(value, "c")
        &&& field_accepts::<OrderSide>(value, "S")
        &&& field_accepts::<OrderType>(value, "o")
        &&& field_accepts::<TimeInForce>(value, "f")
        &&& field_accepts::<ExactNumericValue>(value, "q")
        &&& field_accepts::<ExactNumericValue>(value, "p")
        &&& field_accepts::<ExactNumericValue>(value, "ap")
        &&& field_accepts::<ExactNumericValue>(value, "sp")
        &&& field_accepts::<ExecutionType>(value, "x")
        &&& field_accepts::<OrderStatus>(value, "X")
        &&& field_accepts::<u64>(value, "i")
        &&& field_accepts::<ExactNumericValue>(value, "l")
        &&& field_accepts::<ExactNumericValue>(value, "z")
        &&& field_accepts::<ExactNumericValue>(value, "L")
        &&& optional_accepts::<ExactNumericValue>(value, "n")
        &&& optional_accepts::<String>(value, "N")
        &&& field_accepts::<u64>(value, "T")
        &&& field_accepts::<u64>(value, "t")
        &&& field_accepts::<ExactNumericValue>(value, "b")
        &&& field_accepts::<ExactNumericValue>(value, "a")
        &&& field_accepts::<bool>(value, "m")
        &&& field_accepts::<bool>(value, "R")
        &&& field_accepts::<WorkingType>(value, "wt")
        &&& field_accepts::<OrderType>(value, "ot")
        &&& field_accepts::<PositionSide>(value, "ps")
        &&& field_accepts::<bool>(value, "cp")
        &&& optional_accepts::<ExactNumericValue>(value, "AP")
        &&& optional_accepts::<ExactNumericValue>(value, "cr")
        &&& field_accepts::<bool>(value, "pP")
        &&& field_accepts::<ExactNumericValue>(value, "rp")
        &&& field_accepts::<SelfTradePreventionMode>(value, "V")
        &&& field_accepts::<PriceMatch>(value, "pm")
        &&& field_accepts::<u64>(value, "gtd")
    }

    open spec fn rejection(value: JsonValue) -> Error {
        if !(value is Object) {
            Error::UnexpectedShape
        } else if !field_accepts::<String>(value, "s") {
            field_rejection::<String>(value, "s")
        } else if !field_accepts::<String>(value, "c") {
            field_rejection::<String>(value, "c")
        } else if !field_accepts::<OrderSide>(value, "S") {
            field_rejection::<OrderSide>(value, "S")
        } else if !field_accepts::<OrderType>(value, "o") {
            field_rejection::<OrderType>(value, "o")
        } else if !field_accepts::<TimeInForce>(value, "f") {
            field_rejection::<TimeInForce>(value, "f")
        } else if !field_accepts::<ExactNumericValue>(value, "q") {
            field_rejection::<ExactNumericValue>(value, "q")
        } else if !field_accepts::<ExactNumericValue>(value, "p") {
            field_rejection::<ExactNumericValue>(value, "p")
        } else if !field_accepts::<ExactNumericValue>(value, "ap") {
            field_rejection::<ExactNumericValue>(value, "ap")
        } else if !field_accepts::<ExactNumericValue>(value, "sp") {
            field_rejection::<ExactNumericValue>(value, "sp")
        } else if !field_accepts::<ExecutionType>(value, "x") {
            field_rejection::<ExecutionType>(value, "x")
        } else if !field_accepts::<OrderStatus>(value, "X") {
            field_rejection::<OrderStatus>(value, "X")
        } else if !field_accepts::<u64>(value, "i") {
            field_rejection::<u64>(value, "i")
        } else if !field_accepts::<ExactNumericValue>(value, "l") {
            field_rejection::<ExactNumericValue>(value, "l")
        } else if !field_accepts::<ExactNumericValue>(value, "z") {
            field_rejection::<ExactNumericValue>(value, "z")
        } else if !field_accepts::<ExactNumericValue>(value, "L") {
            field_rejection::<ExactNumericValue>(value, "L")
        } else if !optional_accepts::<ExactNumericValue>(value, "n") {
            field_rejection::<ExactNumericValue>(value, "n")
        } else if !optional_accepts::<String>(value, "N") {
            field_rejection::<String>(value, "N")
        } else if !field_accepts::<u64>(value, "T") {
            field_rejection::<u64>(value, "T")
        } else if !field_accepts::<u64>(value, "t") {
            field_rejection::<u64>(value, "t")
        } else if !field_accepts::<ExactNumericValue>(value, "b") {
            field_rejection::<ExactNumericValue>(value, "b")
        } else if !field_accepts::<ExactNumericValue>(value, "a") {
            field_rejection::<ExactNumericValue>(value, "a")
        } else if !field_accepts::<bool>(value, "m") {
            field_rejection::<bool>(value, "m")
        } else if !field_accepts::<bool>(value, "R") {
            field_rejection::<bool>(value, "R")
        } else if !field_accepts::<WorkingType>(value, "wt") {
            field_rejection::<WorkingType>(value, "wt")
        } else if !field_accepts::<OrderType>(value, "ot") {
            field_rejection::<OrderType>(value, "ot")
        } else if !field_accepts::<PositionSide>(value, "ps") {
            field_rejection::<PositionSide>(value, "ps")
        } else if !field_accepts::<bool>(value, "cp") {
            field_rejection::<bool>(value, "cp")
        } else if !optional_accepts::<ExactNumericValue>(value, "AP") {
            field_rejection::<ExactNumericValue>(value, "AP")
        } else if !optional_accepts::<ExactNumericValue>(value, "cr") {
            field_rejection::<ExactNumericValue>(value, "cr")
        } else if !field_accepts::<bool>(value, "pP") {
            field_rejection::<bool>(value, "pP")
        } else if !field_accepts::<ExactNumericValue>(value, "rp") {
            field_rejection::<ExactNumericValue>(value, "rp")
        } else if !field_accepts::<SelfTradePreventionMode>(value, "V") {
            field_rejection::<SelfTradePreventionMode>(value, "V")
        } else if !field_accepts::<PriceMatch>(value, "pm") {
            field_rejection::<PriceMatch>(value, "pm")
        } else {
            field_rejection::<u64>(value, "gtd")
        }
    }

    open spec fn describes(value: JsonValue, decoded: Self) -> bool {
        &&& field_describes::<String>(value, "s", decoded.symbol)
        &&& field_describes::<String>(value, "c", decoded.client_order_id)
        &&& field_describes::<OrderSide>(value, "S", decoded.side)
        &&& field_describes::<OrderType>(value, "o", decoded.order_type)
        &&& field_describes::<TimeInForce>(value, "f", decoded.time_in_force)
        &&& field_describes::<ExactNumericValue>(value, "q", decoded.quantity)
        &&& field_describes::<ExactNumericValue>(value, "p", decoded.price)
        &&& field_describes::<ExactNumericValue>(value, "ap", decoded.average_price)
        &&& field_describes::<ExactNumericValue>(value, "sp", decoded.stop_price)
        &&& field_describes::<ExecutionType>(value, "x", decoded.execution_type)
        &&& field_describes::<OrderStatus>(value, "X", decoded.order_status)
        &&& field_describes::<u64>(value, "i", decoded.order_id)
        &&& field_describes::<ExactNumericValue>(value, "l", decoded.order_last_filled_quantity)
        &&& field_describes::<ExactNumericValue>(value, "z", decoded.order_filled_accumulated_quantity)
        &&& field_describes::<ExactNumericValue>(value, "L", decoded.last_filled_price)
        &&& optional_describes::<ExactNumericValue>(value, "n", decoded.commission)
        &&& optional_describes::<String>(value, "N", decoded.commission_asset)
        &&& field_describes::<u64>(value, "T", decoded.order_trade_time)
        &&& field_describes::<u64>(value, "t", decoded.trade_id)
        &&& field_describes::<ExactNumericValue>(value, "b", decoded.bid_notional)
        &&& field_describes::<ExactNumericValue>(value, "a", decoded.ask_notional)
        &&& field_describes::<bool>(value, "m", decoded.is_maker)
        &&& field_describes::<bool>(value, "R", decoded.is_reduce)
        &&& field_describes::<WorkingType>(value, "wt", decoded.working_type)
        &&& field_describes::<OrderType>(value, "ot", decoded.original_order_type)
        &&& field_describes::<PositionSide>(value, "ps", decoded.position_side)
        &&& field_describes::<bool>(value, "cp", decoded.close_position)
        &&& optional_describes::<ExactNumericValue>(value, "AP", decoded.activation_price)
        &&& optional_describes::<ExactNumericValue>(value, "cr", decoded.callback_rate)
        &&& field_describes::<bool>(value, "pP", decoded.price_protect)
        &&& field_describes::<ExactNumericValue>(value, "rp", decoded.realized_profit)
        &&& field_describes::<SelfTradePreventionMode>(value, "V", decoded.stp_mode)
        &&& field_describes::<PriceMatch>(value, "pm", decoded.price_match)
        &&& field_describes::<u64>(value, "gtd", decoded.good_till_date)
    }

    fn decode(value: &JsonValue) -> (outcome: Result<Self, Error>) {
        if !value.is_object() {
            return Err(Error::UnexpectedShape);
        }
        let symbol: String = field(value, "s")?;
        let client_order_id: String = field(value, "c")?;
        let side: OrderSide = field(value, "S")?;
        let order_type: OrderType = field(value, "o")?;
        let time_in_force: TimeInForce = field(value, "f")?;
        let quantity: ExactNumericValue = field(value, "q")?;
        let price: ExactNumericValue = field(value, "p")?;
        let average_price: ExactNumericValue = field(value, "ap")?;
        let stop_price: ExactNumericValue = field(value, "sp")?;
        let execution_type: ExecutionType = field(value, "x")?;
        let order_status: OrderStatus = field(value, "X")?;
        let order_id: u64 = field(value, "i")?;
        let order_last_filled_quantity: ExactNumericValue = field(value, "l")?;
        let order_filled_accumulated_quantity: ExactNumericValue = field(value, "z")?;
        let last_filled_price: ExactNumericValue = field(value, "L")?;
        let commission: Option<ExactNumericValue> = optional_field(value, "n")?;
        let commission_asset: Option<String> = optional_field(value, "N")?;
        let order_trade_time: u64 = field(value, "T")?;
        let trade_id: u64 = field(value, "t")?;
        let bid_notional: ExactNumericValue = field(value, "b")?;
        let ask_notional: ExactNumericValue = field(value, "a")?;
        let is_maker: bool = field(value, "m")?;
        let is_reduce: bool = field(value, "R")?;
        let working_type: WorkingType = field(value, "wt")?;
        let original_order_type: OrderType = field(value, "ot")?;
        let position_side: PositionSide = field(value, "ps")?;
        let close_position: bool = field(value, "cp")?;
        let activation_price: Option<ExactNumericValue> = optional_field(value, "AP")?;
        let callback_rate: Option<ExactNumericValue> = optional_field(value, "cr")?;
        let price_protect: bool = field(value, "pP")?;
        let realized_profit: ExactNumericValue = field(value, "rp")?;
        let stp_mode: SelfTradePreventionMode = field(value, "V")?;
        let price_match: PriceMatch = field(value, "pm")?;
        let good_till_date: u64 = field(value, "gtd")?;
        Ok(
            Order {
                symbol,
                client_order_id,
                side,
                order_type,
                time_in_force,
                quantity,
                price,
                average_price,
                stop_price,
                execution_type,
                order_status,
                order_id,
                order_last_filled_quantity,
                order_filled_accumulated_quantity,
                last_filled_price,
                commission,
                commission_asset,
                order_trade_time,
                trade_id,
                bid_notional,
                ask_notional,
                is_maker,
                is_reduce,
                working_type,
                original_order_type,
                position_side,
                close_position,
                activation_price,
                callback_rate,
                price_protect,
                realized_profit,
                stp_mode,
                price_match,
                good_till_date,
            },
        )
    }
}

/// The price that an order is matched to in place of one of its own.
#[derive(Debug, Clone, Copy, PartialEq, Eq, Structural)]
pub enum PriceMatch {
    /// No price match.
    NoMatch,
    /// The best price of the counterparty.
    Opponent,
    /// The fifth best price of the counterparty.
    Opponent5,
    /// The tenth best price of the counterparty.
    Opponent10,
    /// The twentieth best price of the counterparty.
    Opponent20,
    /// The best price on the order's own side of the book.
    Queue,
    /// The fifth best price on the order's own side of the book.
    Queue5,
    /// The tenth best price on the order's own side of the book.
    Queue10,
    /// The twentieth best price on the order's own side of the book.
    Queue20,
}

impl PriceMatch {
    /// The member that a wire tag names, if it names one.
    pub open spec fn spec_from_tag(tag: Seq<char>) -> Option<PriceMatch> {
        if tag == "NONE"@ {
            Some(PriceMatch::NoMatch)
        } else if tag == "OPPONENT"@ {
            Some(PriceMatch::Opponent)
        } else if tag == "OPPONENT5"@ {
            Some(PriceMatch::Opponent5)
        } else if tag == "OPPONENT10"@ {
            Some(PriceMatch::Opponent10)
        } else if tag == "OPPONENT20"@ {
            Some(PriceMatch::Opponent20)
        } else if tag == "QUEUE"@ {
            Some(PriceMatch::Queue)
        } else if tag == "QUEUE5"@ {
            Some(PriceMatch::Queue5)
        } else if tag == "QUEUE10"@ {
            Some(PriceMatch::Queue10)
        } else if tag == "QUEUE20"@ {
            Some(PriceMatch::Queue20)
        } else {
            None
        }
    }

    /// The wire tag of a member.
    pub open spec fn spec_tag(self) -> Seq<char> {
        match self {
            PriceMatch::NoMatch => "NONE"@,
            PriceMatch::Opponent => "OPPONENT"@,
            PriceMatch::Opponent5 => "OPPONENT5"@,
            PriceMatch::Opponent10 => "OPPONENT10"@,
            PriceMatch::Opponent20 => "OPPONENT20"@,
            PriceMatch::Queue => "QUEUE"@,
            PriceMatch::Queue5 => "QUEUE5"@,
            PriceMatch::Queue10 => "QUEUE10"@,
            PriceMatch::Queue20 => "QUEUE20"@,
        }
    }

    /// Finds the member that a wire tag names.
    pub fn from_tag(tag: &str) -> (member: Option<PriceMatch>)
        ensures
            member == Self::spec_from_tag(tag@),
    {
        if str_eq(tag, "NONE") {
            Some(PriceMatch::NoMatch)
        } else if str_eq(tag, "OPPONENT") {
            Some(PriceMatch::Opponent)
        } else if str_eq(tag, "OPPONENT5") {
            Some(PriceMatch::Opponent5)
        } else if str_eq(tag, "OPPONENT10") {
            Some(PriceMatch::Opponent10)
        } else if str_eq(tag, "OPPONENT20") {
            Some(PriceMatch::Opponent20)
        } else if str_eq(tag, "QUEUE") {
            Some(PriceMatch::Queue)
        } else if str_eq(tag, "QUEUE5") {
            Some(PriceMatch::Queue5)
        } else if str_eq(tag, "QUEUE10") {
            Some(PriceMatch::Queue10)
        } else if str_eq(tag, "QUEUE20") {
            Some(PriceMatch::Queue20)
        } else {
            None
        }
    }

    /// The tag that a member is written with on the wire.
    pub fn as_tag(&self) -> (tag: &'static str)
        ensures
            tag@ == self.spec_tag(),
    {
        match self {
            PriceMatch::NoMatch => "NONE",
            PriceMatch::Opponent => "OPPONENT",
            PriceMatch::Opponent5 => "OPPONENT5",
            PriceMatch::Opponent10 => "OPPONENT10",
            PriceMatch::Opponent20 => "OPPONENT20",
            PriceMatch::Queue => "QUEUE",
            PriceMatch::Queue5 => "QUEUE5",
            PriceMatch::Queue10 => "QUEUE10",
            PriceMatch::Queue20 => "QUEUE20",
        }
    }

    /// Every member is named by its own tag, so no two members share one.
    pub proof fn lemma_tag_names_member(member: PriceMatch)
        ensures
            Self::spec_from_tag(member.spec_tag()) == Some(member),
    {
        reveal_strlit("NONE");
        reveal_strlit("OPPONENT");
        reveal_strlit("OPPONENT5");
        reveal_strlit("OPPONENT10");
        reveal_strlit("OPPONENT20");
        reveal_strlit("QUEUE");
        reveal_strlit("QUEUE5");
        reveal_strlit("QUEUE10");
        reveal_strlit("QUEUE20");
        assert("NONE"@.len() == 4);
        assert("OPPONENT"@.len() == 8);
        assert("OPPONENT5"@.len() == 9);
        assert("OPPONENT10"@.len() == 10);
        assert("OPPONENT20"@.len() == 10);
        assert("QUEUE"@.len() == 5);
        assert("QUEUE5"@.len() == 6);
        assert("QUEUE10"@.len() == 7);
        assert("QUEUE20"@.len() == 7);
        assert("OPPONENT10"@[8] != "OPPONENT20"@[8]);
        assert("QUEUE10"@[5] != "QUEUE20"@[5]);
    }
}

impl Decode for PriceMatch {
    open spec fn accepts(value: JsonValue) -> bool {
        value is Text && Self::spec_from_tag(value->Text_0@) is Some
    }

    open spec fn rejection(value: JsonValue) -> Error {
        match value {
            JsonValue::Text(tag) => Error::UnknownEnumVariant(tag),
            _ => Error::UnexpectedShape,
        }
    }

    open spec fn describes(value: JsonValue, decoded: Self) -> bool {
        value is Text && Self::spec_from_tag(value->Text_0@) == Some(decoded)
    }

    fn decode(value: &JsonValue) -> (outcome: Result<Self, Error>) {
        match value {
            JsonValue::Text(tag) => match Self::from_tag(tag.as_str()) {
                Some(member) => Ok(member),
                None => Err(Error::UnknownEnumVariant(tag.clone())),
            },
            _ => Err(Error::UnexpectedShape),
        }
    }
}

/// What happens when an order would trade against one of the same account.
#[derive(Debug, Clone, Copy, PartialEq, Eq, Structural)]
pub enum SelfTradePreventionMode {
    /// Nothing is prevented.
    NoPrevention,
    /// The taker order expires.
    ExpireTaker,
    /// Both orders expire.
    ExpireBoth,
    /// The maker order expires.
    ExpireMaker,
}

impl SelfTradePreventionMode {
    /// The member that a wire tag names, if it names one.
    pub open spec fn spec_from_tag(tag: Seq<char>) -> Option<SelfTradePreventionMode> {
        if tag == "NONE"@ {
            Some(SelfTradePreventionMode::NoPrevention)
        } else if tag == "EXPIRE_TAKER"@ {
            Some(SelfTradePreventionMode::ExpireTaker)
        } else if tag == "EXPIRE_BOTH"@ {
            Some(SelfTradePreventionMode::ExpireBoth)
        } else if tag == "EXPIRE_MAKER"@ {
            Some(SelfTradePreventionMode::ExpireMaker)
        } else {
            None
        }
    }

    /// The wire tag of a member.
    pub open spec fn spec_tag(self) -> Seq<char> {
        match self {
            SelfTradePreventionMode::NoPrevention => "NONE"@,
            SelfTradePreventionMode::ExpireTaker => "EXPIRE_TAKER"@,
            SelfTradePreventionMode::ExpireBoth => "EXPIRE_BOTH"@,
            SelfTradePreventionMode::ExpireMaker => "EXPIRE_MAKER"@,
        }
    }

    /// Finds the member that a wire tag names.
    pub fn from_tag(tag: &str) -> (member: Option<SelfTradePreventionMode>)
        ensures
            member == Self::spec_from_tag(tag@),
    {
        if str_eq(tag, "NONE") {
            Some(SelfTradePreventionMode::NoPrevention)
        } else if str_eq(tag, "EXPIRE_TAKER") {
            Some(SelfTradePreventionMode::ExpireTaker)
        } else if str_eq(tag, "EXPIRE_BOTH") {
            Some(SelfTradePreventionMode::ExpireBoth)
        } else if str_eq(tag, "EXPIRE_MAKER") {
            Some(SelfTradePreventionMode::ExpireMaker)
        } else {
            None
        }
    }

    /// The tag that a member is written with on the wire.
    pub fn as_tag(&self) -> (tag: &'static str)
        ensures
            tag@ == self.spec_tag(),
    {
        match self {
            SelfTradePreventionMode::NoPrevention => "NONE",
            SelfTradePreventionMode::ExpireTaker => "EXPIRE_TAKER",
            SelfTradePreventionMode::ExpireBoth => "EXPIRE_BOTH",
            SelfTradePreventionMode::ExpireMaker => "EXPIRE_MAKER",
        }
    }

    /// Every member is named by its own tag, so no two members share one.
    pub proof fn lemma_tag_names_member(member: SelfTradePreventionMode)
        ensures
            Self::spec_from_tag(member.spec_tag()) == Some(member),
    {
        reveal_strlit("NONE");
        reveal_strlit("EXPIRE_TAKER");
        reveal_strlit("EXPIRE_BOTH");
        reveal_strlit("EXPIRE_MAKER");
        assert("NONE"@.len() == 4);
        assert("EXPIRE_TAKER"@.len() == 12);
        assert("EXPIRE_BOTH"@.len() == 11);
        assert("EXPIRE_MAKER"@.len() == 12);
        assert("EXPIRE_TAKER"@[7] != "EXPIRE_MAKER"@[7]);
    }
}

impl Decode for SelfTradePreventionMode {
    open spec fn accepts(value: JsonValue) -> bool {
        value is Text && Self::spec_from_tag(value->Text_0@) is Some
    }

    open spec fn rejection(value: JsonValue) -> Error {
        match value {
            JsonValue::Text(tag) => Error::UnknownEnumVariant(tag),
            _ => Error::UnexpectedShape,
        }
    }

    open spec fn describes(value: JsonValue, decoded: Self) -> bool {
        value is Text && Self::spec_from_tag(value->Text_0@) == Some(decoded)
    }

    fn decode(value: &JsonValue) -> (outcome: Result<Self, Error>) {
        match value {
            JsonValue::Text(tag) => match Self::from_tag(tag.as_str()) {
                Some(member) => Ok(member),
                None => Err(Error::UnknownEnumVariant(tag.clone())),
            },
            _ => Err(Error::UnexpectedShape),
        }
    }
}

} // verus!
