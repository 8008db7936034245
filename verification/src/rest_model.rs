//! The enumerations and small records that the exchange's REST and stream
//! payloads share.

use crate::decode::{field, field_accepts, field_describes, field_rejection, Decode};
use crate::errors::Error;
use crate::json::JsonValue;
use crate::number::ExactNumericValue;
use crate::text::str_eq;
use vstd::prelude::*;

verus! {

/// The side of an order.
#[derive(Debug, Clone, Copy, PartialEq, Eq, Structural)]
pub enum OrderSide {
    Buy,
    Sell,
}

impl OrderSide {
    /// The member that a wire tag names, if it names one.
    pub open spec fn spec_from_tag(tag: Seq<char>) -> Option<OrderSide> {
        if tag == "BUY"@ {
            Some(OrderSide::Buy)
        } else if tag == "SELL"@ {
            Some(OrderSide::Sell)
        } else {
            None
        }
    }

    /// The wire tag of a member.
    pub open spec fn spec_tag(self) -> Seq<char> {
        match self {
            OrderSide::Buy => "BUY"@,
            OrderSide::Sell => "SELL"@,
        }
    }

    /// Finds the member that a wire tag names.
    pub fn from_tag(tag: &str) -> (member: Option<OrderSide>)
        ensures
            member == Self::spec_from_tag(tag@),
    {
        if str_eq(tag, "BUY") {
            Some(OrderSide::Buy)
        } else if str_eq(tag, "SELL") {
            Some(OrderSide::Sell)
        } else {
            None
        }
    }

    /// The tag that a member is written with on the wire.
    pub fn as_tag(&self) -> (tag: &'static str)
        ensures
            tag@ == self.spec_tag(),
    {
        match self {
            OrderSide::Buy => "BUY",
            OrderSide::Sell => "SELL",
        }
    }

    /// Every member is named by its own tag, so no two members share one.
    pub proof fn lemma_tag_names_member(member: OrderSide)
        ensures
            Self::spec_from_tag(member.spec_tag()) == Some(member),
    {
        reveal_strlit("BUY");
        reveal_strlit("SELL");
        assert("BUY"@.len() == 3);
        assert("SELL"@.len() == 4);
    }
}

impl Decode for OrderSide {
    open spec fn accepts(value: JsonValue) -> bool {
        value is Text && Self::spec_from_tag(value->Text_0@) is Some
    }

    open spec fn rejection(value: JsonValue) -> Error {
        match value {
            JsonValue::Text(tag) => Error::UnknownEnumVariant(tag),
            _ => Error::UnexpectedShape,
        }
    }

    open spec fn describes(value: JsonValue, decoded: Self) -> bool {
        value is Text && Self::spec_from_tag(value->Text_0@) == Some(decoded)
    }

    fn decode(value: &JsonValue) -> (outcome: Result<Self, Error>) {
        match value {
            JsonValue::Text(tag) => match Self::from_tag(tag.as_str()) {
                Some(member) => Ok(member),
                None => Err(Error::UnknownEnumVariant(tag.clone())),
            },
            _ => Err(Error::UnexpectedShape),
        }
    }
}

/// Where an order stands in its life.
#[derive(Debug, Clone, Copy, PartialEq, Eq, Structural)]
pub enum OrderStatus {
    New,
    PartiallyFilled,
    Filled,
    Canceled,
    PendingCancel,
    Rejected,
    Expired,
    ExpiredInMatch,
}

impl OrderStatus {
    /// The member that a wire tag names, if it names one.
    pub open spec fn spec_from_tag(tag: Seq<char>) -> Option<OrderStatus> {
        if tag == "NEW"@ {
            Some(OrderStatus::New)
        } else if tag == "PARTIALLY_FILLED"@ {
            Some(OrderStatus::PartiallyFilled)
        } else if tag == "FILLED"@ {
            Some(OrderStatus::Filled)
        } else if tag == "CANCELED"@ {
            Some(OrderStatus::Canceled)
        } else if tag == "PENDING_CANCEL"@ {
            Some(OrderStatus::PendingCancel)
        } else if tag == "REJECTED"@ {
            Some(OrderStatus::Rejected)
        } else if tag == "EXPIRED"@ {
            Some(OrderStatus::Expired)
        } else if tag == "EXPIRED_IN_MATCH"@ {
            Some(OrderStatus::ExpiredInMatch)
        } else {
            None
        }
    }

    /// The wire tag of a member.
    pub open spec fn spec_tag(self) -> Seq<char> {
        match self {
            OrderStatus::New => "NEW"@,
            OrderStatus::PartiallyFilled => "PARTIALLY_FILLED"@,
            OrderStatus::Filled => "FILLED"@,
            OrderStatus::Canceled => "CANCELED"@,
            OrderStatus::PendingCancel => "PENDING_CANCEL"@,
            OrderStatus::Rejected => "REJECTED"@,
            OrderStatus::Expired => "EXPIRED"@,
            OrderStatus::ExpiredInMatch => "EXPIRED_IN_MATCH"@,
        }
    }

    /// Finds the member that a wire tag names.
    pub fn from_tag(tag: &str) -> (member: Option<OrderStatus>)
        ensures
            member == Self::spec_from_tag(tag@),
    {
        if str_eq(tag, "NEW") {
            Some(OrderStatus::New)
        } else if str_eq(tag, "PARTIALLY_FILLED") {
            Some(OrderStatus::PartiallyFilled)
        } else if str_eq(tag, "FILLED") {
            Some(OrderStatus::Filled)
        } else if str_eq(tag, "CANCELED") {
            Some(OrderStatus::Canceled)
        } else if str_eq(tag, "PENDING_CANCEL") {
            Some(OrderStatus::PendingCancel)
        } else if str_eq(tag, "REJECTED") {
            Some(OrderStatus::Rejected)
        } else if str_eq(tag, "EXPIRED") {
            Some(OrderStatus::Expired)
        } else if str_eq(tag, "EXPIRED_IN_MATCH") {
            Some(OrderStatus::ExpiredInMatch)
        } else {
            None
        }
    }

    /// The tag that a member is written with on the wire.
    pub fn as_tag(&self) -> (tag: &'static str)
        ensures
            tag@ == self.spec_tag(),
    {
        match self {
            OrderStatus::New => "NEW",
            OrderStatus::PartiallyFilled => "PARTIALLY_FILLED",
            OrderStatus::Filled => "FILLED",
            OrderStatus::Canceled => "CANCELED",
            OrderStatus::PendingCancel => "PENDING_CANCEL",
            OrderStatus::Rejected => "REJECTED",
            OrderStatus::Expired => "EXPIRED",
            OrderStatus::ExpiredInMatch => "EXPIRED_IN_MATCH",
        }
    }

    /// Every member is named by its own tag, so no two members share one.
    pub proof fn lemma_tag_names_member(member: OrderStatus)
        ensures
            Self::spec_from_tag(member.spec_tag()) == Some(member),
    {
        reveal_strlit("NEW");
        reveal_strlit("PARTIALLY_FILLED");
        reveal_strlit("FILLED");
        reveal_strlit("CANCELED");
        reveal_strlit("PENDING_CANCEL");
        reveal_strlit("REJECTED");
        reveal_strlit("EXPIRED");
        reveal_strlit("EXPIRED_IN_MATCH");
        assert("NEW"@.len() == 3);
        assert("PARTIALLY_FILLED"@.len() == 16);
        assert("FILLED"@.len() == 6);
        assert("CANCELED"@.len() == 8);
        assert("PENDING_CANCEL"@.len() == 14);
        assert("REJECTED"@.len() == 8);
        assert("EXPIRED"@.len() == 7);
        assert("EXPIRED_IN_MATCH"@.len() == 16);
        assert("CANCELED"@[0] != "REJECTED"@[0]);
        assert("PARTIALLY_FILLED"@[0] != "EXPIRED_IN_MATCH"@[0]);
    }
}

impl Decode for OrderStatus {
    open spec fn accepts(value: JsonValue) -> bool {
        value is Text && Self::spec_from_tag(value->Text_0@) is Some
    }

    open spec fn rejection(value: JsonValue) -> Error {
        match value {
            JsonValue::Text(tag) => Error::UnknownEnumVariant(tag),
            _ => Error::UnexpectedShape,
        }
    }

    open spec fn describes(value: JsonValue, decoded: Self) -> bool {
        value is Text && Self::spec_from_tag(value->Text_0@) == Some(decoded)
    }

    fn decode(value: &JsonValue) -> (outcome: Result<Self, Error>) {
        match value {
            JsonValue::Text(tag) => match Self::from_tag(tag.as_str()) {
                Some(member) => Ok(member),
                None => Err(Error::UnknownEnumVariant(tag.clone())),
            },
            _ => Err(Error::UnexpectedShape),
        }
    }
}

/// How long an order stays open.
#[derive(Debug, Clone, Copy, PartialEq, Eq, Structural)]
pub enum TimeInForce {
    /// Good till cancelled.
    GTC,
    /// Immediate or cancel.
    IOC,
    /// Fill or kill.
    FOK,
    /// Good till crossing: post only.
    GTX,
    /// Good till a given date.
    GTD,
}

impl TimeInForce {
    /// The member that a wire tag names, if it names one.
    pub open spec fn spec_from_tag(tag: Seq<char>) -> Option<TimeInForce> {
        if tag == "GTC"@ {
            Some(TimeInForce::GTC)
        } else if tag == "IOC"@ {
            Some(TimeInForce::IOC)
        } else if tag == "FOK"@ {
            Some(TimeInForce::FOK)
        } else if tag == "GTX"@ {
            Some(TimeInForce::GTX)
        } else if tag == "GTD"@ {
            Some(TimeInForce::GTD)
        } else {
            None
        }
    }

    /// The wire tag of a member.
    pub open spec fn spec_tag(self) -> Seq<char> {
        match self {
            TimeInForce::GTC => "GTC"@,
            TimeInForce::IOC => "IOC"@,
            TimeInForce::FOK => "FOK"@,
            TimeInForce::GTX => "GTX"@,
            TimeInForce::GTD => "GTD"@,
        }
    }

    /// Finds the member that a wire tag names.
    pub fn from_tag(tag: &str) -> (member: Option<TimeInForce>)
        ensures
            member == Self::spec_from_tag(tag@),
    {
        if str_eq(tag, "GTC") {
            Some(TimeInForce::GTC)
        } else if str_eq(tag, "IOC") {
            Some(TimeInForce::IOC)
        } else if str_eq(tag, "FOK") {
            Some(TimeInForce::FOK)
        } else if str_eq(tag, "GTX") {
            Some(TimeInForce::GTX)
        } else if str_eq(tag, "GTD") {
            Some(TimeInForce::GTD)
        } else {
            None
        }
    }

    /// The tag that a member is written with on the wire.
    pub fn as_tag(&self) -> (tag: &'static str)
        ensures
            tag@ == self.spec_tag(),
    {
        match self {
            TimeInForce::GTC => "GTC",
            TimeInForce::IOC => "IOC",
            TimeInForce::FOK => "FOK",
            TimeInForce::GTX => "GTX",
            TimeInForce::GTD => "GTD",
        }
    }

    /// Every member is named by its own tag, so no two members share one.
    pub proof fn lemma_tag_names_member(member: TimeInForce)
        ensures
            Self::spec_from_tag(member.spec_tag()) == Some(member),
    {
        reveal_strlit("GTC");
        reveal_strlit("IOC");
        reveal_strlit("FOK");
        reveal_strlit("GTX");
        reveal_strlit("GTD");
        assert("GTC"@.len() == 3);
        assert("IOC"@.len() == 3);
        assert("FOK"@.len() == 3);
        assert("GTX"@.len() == 3);
        assert("GTD"@.len() == 3);
        assert("GTC"@[0] != "IOC"@[0]);
        assert("GTC"@[0] != "FOK"@[0]);
        assert("IOC"@[0] != "FOK"@[0]);
        assert("GTC"@[2] != "GTX"@[2]);
        assert("IOC"@[0] != "GTX"@[0]);
        assert("FOK"@[0] != "GTX"@[0]);
        assert("GTC"@[2] != "GTD"@[2]);
        assert("IOC"@[0] != "GTD"@[0]);
        assert("FOK"@[0] != "GTD"@[0]);
        assert("GTX"@[2] != "GTD"@[2]);
    }
}

impl Decode for TimeInForce {
    open spec fn accepts(value: JsonValue) -> bool {
        value is Text && Self::spec_from_tag(value->Text_0@) is Some
    }

    open spec fn rejection(value: JsonValue) -> Error {
        match value {
            JsonValue::Text(tag) => Error::UnknownEnumVariant(tag),
            _ => Error::UnexpectedShape,
        }
    }

    open spec fn describes(value: JsonValue, decoded: Self) -> bool {
        value is Text && Self::spec_from_tag(value->Text_0@) == Some(decoded)
    }

    fn decode(value: &JsonValue) -> (outcome: Result<Self, Error>) {
        match value {
            JsonValue::Text(tag) => match Self::from_tag(tag.as_str()) {
                Some(member) => Ok(member),
                None => Err(Error::UnknownEnumVariant(tag.clone())),
            },
            _ => Err(Error::UnexpectedShape),
        }
    }
}

/// The trading state of an instrument.
#[derive(Debug, Clone, Copy, PartialEq, Eq, Structural)]
pub enum SymbolStatus {
    PreTrading,
    Trading,
    PostTrading,
    EndOfDay,
    Halt,
    AuctionMatch,
    Break,
    PendingTrading,
}

impl SymbolStatus {
    /// The member that a wire tag names, if it names one.
    pub open spec fn spec_from_tag(tag: Seq<char>) -> Option<SymbolStatus> {
        if tag == "PRE_TRADING"@ {
            Some(SymbolStatus::PreTrading)
        } else if tag == "TRADING"@ {
            Some(SymbolStatus::Trading)
        } else if tag == "POST_TRADING"@ {
            Some(SymbolStatus::PostTrading)
        } else if tag == "END_OF_DAY"@ {
            Some(SymbolStatus::EndOfDay)
        } else if tag == "HALT"@ {
            Some(SymbolStatus::Halt)
        } else if tag == "AUCTION_MATCH"@ {
            Some(SymbolStatus::AuctionMatch)
        } else if tag == "BREAK"@ {
            Some(SymbolStatus::Break)
        } else if tag == "PENDING_TRADING"@ {
            Some(SymbolStatus::PendingTrading)
        } else {
            None
        }
    }

    /// The wire tag of a member.
    pub open spec fn spec_tag(self) -> Seq<char> {
        match self {
            SymbolStatus::PreTrading => "PRE_TRADING"@,
            SymbolStatus::Trading => "TRADING"@,
            SymbolStatus::PostTrading => "POST_TRADING"@,
            SymbolStatus::EndOfDay => "END_OF_DAY"@,
            SymbolStatus::Halt => "HALT"@,
            SymbolStatus::AuctionMatch => "AUCTION_MATCH"@,
            SymbolStatus::Break => "BREAK"@,
            SymbolStatus::PendingTrading => "PENDING_TRADING"@,
        }
    }

    /// Finds the member that a wire tag names.
    pub fn from_tag(tag: &str) -> (member: Option<SymbolStatus>)
        ensures
            member == Self::spec_from_tag(tag@),
    {
        if str_eq(tag, "PRE_TRADING") {
            Some(SymbolStatus::PreTrading)
        } else if str_eq(tag, "TRADING") {
            Some(SymbolStatus::Trading)
        } else if str_eq(tag, "POST_TRADING") {
            Some(SymbolStatus::PostTrading)
        } else if str_eq(tag, "END_OF_DAY") {
            Some(SymbolStatus::EndOfDay)
        } else if str_eq(tag, "HALT") {
            Some(SymbolStatus::Halt)
        } else if str_eq(tag, "AUCTION_MATCH") {
            Some(SymbolStatus::AuctionMatch)
        } else if str_eq(tag, "BREAK") {
            Some(SymbolStatus::Break)
        } else if str_eq(tag, "PENDING_TRADING") {
            Some(SymbolStatus::PendingTrading)
        } else {
            None
        }
    }

    /// The tag that a member is written with on the wire.
    pub fn as_tag(&self) -> (tag: &'static str)
        ensures
            tag@ == self.spec_tag(),
    {
        match self {
            SymbolStatus::PreTrading => "PRE_TRADING",
            SymbolStatus::Trading => "TRADING",
            SymbolStatus::PostTrading => "POST_TRADING",
            SymbolStatus::EndOfDay => "END_OF_DAY",
            SymbolStatus::Halt => "HALT",
            SymbolStatus::AuctionMatch => "AUCTION_MATCH",
            SymbolStatus::Break => "BREAK",
            SymbolStatus::PendingTrading => "PENDING_TRADING",
        }
    }

    /// Every member is named by its own tag, so no two members share one.
    pub proof fn lemma_tag_names_member(member: SymbolStatus)
        ensures
            Self::spec_from_tag(member.spec_tag()) == Some(member),
    {
        reveal_strlit("PRE_TRADING");
        reveal_strlit("TRADING");
        reveal_strlit("POST_TRADING");
        reveal_strlit("END_OF_DAY");
        reveal_strlit("HALT");
        reveal_strlit("AUCTION_MATCH");
        reveal_strlit("BREAK");
        reveal_strlit("PENDING_TRADING");
        assert("PRE_TRADING"@.len() == 11);
        assert("TRADING"@.len() == 7);
        assert("POST_TRADING"@.len() == 12);
        assert("END_OF_DAY"@.len() == 10);
        assert("HALT"@.len() == 4);
        assert("AUCTION_MATCH"@.len() == 13);
        assert("BREAK"@.len() == 5);
        assert("PENDING_TRADING"@.len() == 15);
    }
}

impl Decode for SymbolStatus {
    open spec fn accepts(value: JsonValue) -> bool {
        value is Text && Self::spec_from_tag(value->Text_0@) is Some
    }

    open spec fn rejection(value: JsonValue) -> Error {
        match value {
            JsonValue::Text(tag) => Error::UnknownEnumVariant(tag),
            _ => Error::UnexpectedShape,
        }
    }

    open spec fn describes(value: JsonValue, decoded: Self) -> bool {
        value is Text && Self::spec_from_tag(value->Text_0@) == Some(decoded)
    }

    fn decode(value: &JsonValue) -> (outcome: Result<Self, Error>) {
        match value {
            JsonValue::Text(tag) => match Self::from_tag(tag.as_str()) {
                Some(member) => Ok(member),
                None => Err(Error::UnknownEnumVariant(tag.clone())),
            },
            _ => Err(Error::UnexpectedShape),
        }
    }
}

/// What happened to an order in one step of its life.
#[derive(Debug, Clone, Copy, PartialEq, Eq, Structural)]
pub enum ExecutionType {
    New,
    Canceled,
    Replaced,
    Rejected,
    Trade,
    Expired,
    /// A liquidation was carried out.
    Calculated,
    /// The order was modified.
    Amendment,
}

impl ExecutionType {
    /// The member that a wire tag names, if it names one.
    pub open spec fn spec_from_tag(tag: Seq<char>) -> Option<ExecutionType> {
        if tag == "NEW"@ {
            Some(ExecutionType::New)
        } else if tag == "CANCELED"@ {
            Some(ExecutionType::Canceled)
        } else if tag == "REPLACED"@ {
            Some(ExecutionType::Replaced)
        } else if tag == "REJECTED"@ {
            Some(ExecutionType::Rejected)
        } else if tag == "TRADE"@ {
            Some(ExecutionType::Trade)
        } else if tag == "EXPIRED"@ {
            Some(ExecutionType::Expired)
        } else if tag == "CALCULATED"@ {
            Some(ExecutionType::Calculated)
        } else if tag == "AMENDMENT"@ {
            Some(ExecutionType::Amendment)
        } else {
            None
        }
    }

    /// The wire tag of a member.
    pub open spec fn spec_tag(self) -> Seq<char> {
        match self {
            ExecutionType::New => "NEW"@,
            ExecutionType::Canceled => "CANCELED"@,
            ExecutionType::Replaced => "REPLACED"@,
            ExecutionType::Rejected => "REJECTED"@,
            ExecutionType::Trade => "TRADE"@,
            ExecutionType::Expired => "EXPIRED"@,
            ExecutionType::Calculated => "CALCULATED"@,
            ExecutionType::Amendment => "AMENDMENT"@,
        }
    }

    /// Finds the member that a wire tag names.
    pub fn from_tag(tag: &str) -> (member: Option<ExecutionType>)
        ensures
            member == Self::spec_from_tag(tag@),
    {
        if str_eq(tag, "NEW") {
            Some(ExecutionType::New)
        } else if str_eq(tag, "CANCELED") {
            Some(ExecutionType::Canceled)
        } else if str_eq(tag, "REPLACED") {
            Some(ExecutionType::Replaced)
        } else if str_eq(tag, "REJECTED") {
            Some(ExecutionType::Rejected)
        } else if str_eq(tag, "TRADE") {
            Some(ExecutionType::Trade)
        } else if str_eq(tag, "EXPIRED") {
            Some(ExecutionType::Expired)
        } else if str_eq(tag, "CALCULATED") {
            Some(ExecutionType::Calculated)
        } else if str_eq(tag, "AMENDMENT") {
            Some(ExecutionType::Amendment)
        } else {
            None
        }
    }

    /// The tag that a member is written with on the wire.
    pub fn as_tag(&self) -> (tag: &'static str)
        ensures
            tag@ == self.spec_tag(),
    {
        match self {
            ExecutionType::New => "NEW",
            ExecutionType::Canceled => "CANCELED",
            ExecutionType::Replaced => "REPLACED",
            ExecutionType::Rejected => "REJECTED",
            ExecutionType::Trade => "TRADE",
            ExecutionType::Expired => "EXPIRED",
            ExecutionType::Calculated => "CALCULATED",
            ExecutionType::Amendment => "AMENDMENT",
        }
    }

    /// Every member is named by its own tag, so no two members share one.
    pub proof fn lemma_tag_names_member(member: ExecutionType)
        ensures
            Self::spec_from_tag(member.spec_tag()) == Some(member),
    {
        reveal_strlit("NEW");
        reveal_strlit("CANCELED");
        reveal_strlit("REPLACED");
        reveal_strlit("REJECTED");
        reveal_strlit("TRADE");
        reveal_strlit("EXPIRED");
        reveal_strlit("CALCULATED");
        reveal_strlit("AMENDMENT");
        assert("NEW"@.len() == 3);
        assert("CANCELED"@.len() == 8);
        assert("REPLACED"@.len() == 8);
        assert("REJECTED"@.len() == 8);
        assert("TRADE"@.len() == 5);
        assert("EXPIRED"@.len() == 7);
        assert("CALCULATED"@.len() == 10);
        assert("AMENDMENT"@.len() == 9);
        assert("CANCELED"@[0] != "REPLACED"@[0]);
        assert("CANCELED"@[0] != "REJECTED"@[0]);
        assert("REPLACED"@[2] != "REJECTED"@[2]);
    }
}

impl Decode for ExecutionType {
    open spec fn accepts(value: JsonValue) -> bool {
        value is Text && Self::spec_from_tag(value->Text_0@) is Some
    }

    open spec fn rejection(value: JsonValue) -> Error {
        match value {
            JsonValue::Text(tag) => Error::UnknownEnumVariant(tag),
            _ => Error::UnexpectedShape,
        }
    }

    open spec fn describes(value: JsonValue, decoded: Self) -> bool {
        value is Text && Self::spec_from_tag(value->Text_0@) == Some(decoded)
    }

    fn decode(value: &JsonValue) -> (outcome: Result<Self, Error>) {
        match value {
            JsonValue::Text(tag) => match Self::from_tag(tag.as_str()) {
                Some(member) => Ok(member),
                None => Err(Error::UnknownEnumVariant(tag.clone())),
            },
            _ => Err(Error::UnexpectedShape),
        }
    }
}

/// The unit of the window over which a rate limit counts.
#[derive(Debug, Clone, Copy, PartialEq, Eq, Structural)]
pub enum RateLimitInterval {
    Second,
    Minute,
    Day,
}

impl RateLimitInterval {
    /// The member that a wire tag names, if it names one.
    pub open spec fn spec_from_tag(tag: Seq<char>) -> Option<RateLimitInterval> {
        if tag == "SECOND"@ {
            Some(RateLimitInterval::Second)
        } else if tag == "MINUTE"@ {
            Some(RateLimitInterval::Minute)
        } else if tag == "DAY"@ {
            Some(RateLimitInterval::Day)
        } else {
            None
        }
    }

    /// The wire tag of a member.
    pub open spec fn spec_tag(self) -> Seq<char> {
        match self {
            RateLimitInterval::Second => "SECOND"@,
            RateLimitInterval::Minute => "MINUTE"@,
            RateLimitInterval::Day => "DAY"@,
        }
    }

    /// Finds the member that a wire tag names.
    pub fn from_tag(tag: &str) -> (member: Option<RateLimitInterval>)
        ensures
            member == Self::spec_from_tag(tag@),
    {
        if str_eq(tag, "SECOND") {
            Some(RateLimitInterval::Second)
        } else if str_eq(tag, "MINUTE") {
            Some(RateLimitInterval::Minute)
        } else if str_eq(tag, "DAY") {
            Some(RateLimitInterval::Day)
        } else {
            None
        }
    }

    /// The tag that a member is written with on the wire.
    pub fn as_tag(&self) -> (tag: &'static str)
        ensures
            tag@ == self.spec_tag(),
    {
        match self {
            RateLimitInterval::Second => "SECOND",
            RateLimitInterval::Minute => "MINUTE",
            RateLimitInterval::Day => "DAY",
        }
    }

    /// Every member is named by its own tag, so no two members share one.
    pub proof fn lemma_tag_names_member(member: RateLimitInterval)
        ensures
            Self::spec_from_tag(member.spec_tag()) == Some(member),
    {
        reveal_strlit("SECOND");
        reveal_strlit("MINUTE");
        reveal_strlit("DAY");
        assert("SECOND"@.len() == 6);
        assert("MINUTE"@.len() == 6);
        assert("DAY"@.len() == 3);
        assert("SECOND"@[0] != "MINUTE"@[0]);
    }
}

impl Decode for RateLimitInterval {
    open spec fn accepts(value: JsonValue) -> bool {
        value is Text && Self::spec_from_tag(value->Text_0@) is Some
    }

    open spec fn rejection(value: JsonValue) -> Error {
        match value {
            JsonValue::Text(tag) => Error::UnknownEnumVariant(tag),
            _ => Error::UnexpectedShape,
        }
    }

    open spec fn describes(value: JsonValue, decoded: Self) -> bool {
        value is Text && Self::spec_from_tag(value->Text_0@) == Some(decoded)
    }

    fn decode(value: &JsonValue) -> (outcome: Result<Self, Error>) {
        match value {
            JsonValue::Text(tag) => match Self::from_tag(tag.as_str()) {
                Some(member) => Ok(member),
                None => Err(Error::UnknownEnumVariant(tag.clone())),
            },
            _ => Err(Error::UnexpectedShape),
        }
    }
}

/// What a rate limit counts.
#[derive(Debug, Clone, Copy, PartialEq, Eq, Structural)]
pub enum RateLimitType {
    RequestWeight,
    Orders,
    RawRequests,
}

impl RateLimitType {
    /// The member that a wire tag names, if it names one.
    pub open spec fn spec_from_tag(tag: Seq<char>) -> Option<RateLimitType> {
        if tag == "REQUEST_WEIGHT"@ {
            Some(RateLimitType::RequestWeight)
        } else if tag == "ORDERS"@ {
            Some(RateLimitType::Orders)
        } else if tag == "RAW_REQUESTS"@ {
            Some(RateLimitType::RawRequests)
        } else {
            None
        }
    }

    /// The wire tag of a member.
    pub open spec fn spec_tag(self) -> Seq<char> {
        match self {
            RateLimitType::RequestWeight => "REQUEST_WEIGHT"@,
            RateLimitType::Orders => "ORDERS"@,
            RateLimitType::RawRequests => "RAW_REQUESTS"@,
        }
    }

    /// Finds the member that a wire tag names.
    pub fn from_tag(tag: &str) -> (member: Option<RateLimitType>)
        ensures
            member == Self::spec_from_tag(tag@),
    {
        if str_eq(tag, "REQUEST_WEIGHT") {
            Some(RateLimitType::RequestWeight)
        } else if str_eq(tag, "ORDERS") {
            Some(RateLimitType::Orders)
        } else if str_eq(tag, "RAW_REQUESTS") {
            Some(RateLimitType::RawRequests)
        } else {
            None
        }
    }

    /// The tag that a member is written with on the wire.
    pub fn as_tag(&self) -> (tag: &'static str)
        ensures
            tag@ == self.spec_tag(),
    {
        match self {
            RateLimitType::RequestWeight => "REQUEST_WEIGHT",
            RateLimitType::Orders => "ORDERS",
            RateLimitType::RawRequests => "RAW_REQUESTS",
        }
    }

    /// Every member is named by its own tag, so no two members share one.
    pub proof fn lemma_tag_names_member(member: RateLimitType)
        ensures
            Self::spec_from_tag(member.spec_tag()) == Some(member),
    {
        reveal_strlit("REQUEST_WEIGHT");
        reveal_strlit("ORDERS");
        reveal_strlit("RAW_REQUESTS");
        assert("REQUEST_WEIGHT"@.len() == 14);
        assert("ORDERS"@.len() == 6);
        assert("RAW_REQUESTS"@.len() == 12);
    }
}

impl Decode for RateLimitType {
    open spec fn accepts(value: JsonValue) -> bool {
        value is Text && Self::spec_from_tag(value->Text_0@) is Some
    }

    open spec fn rejection(value: JsonValue) -> Error {
        match value {
            JsonValue::Text(tag) => Error::UnknownEnumVariant(tag),
            _ => Error::UnexpectedShape,
        }
    }

    open spec fn describes(value: JsonValue, decoded: Self) -> bool {
        value is Text && Self::spec_from_tag(value->Text_0@) == Some(decoded)
    }

    fn decode(value: &JsonValue) -> (outcome: Result<Self, Error>) {
        match value {
            JsonValue::Text(tag) => match Self::from_tag(tag.as_str()) {
                Some(member) => Ok(member),
                None => Err(Error::UnknownEnumVariant(tag.clone())),
            },
            _ => Err(Error::UnexpectedShape),
        }
    }
}

/// One limit on how often the exchange may be called.
#[derive(Debug, Clone, PartialEq)]
pub struct RateLimit {
    pub interval: RateLimitInterval,
    pub rate_limit_type: RateLimitType,
    pub interval_num: i32,
    pub limit: i32,
}

impl Decode for RateLimit {
    open spec fn accepts(value: JsonValue) -> bool {
        &&& value is Object
        &&& field_accepts::<RateLimitInterval>(value, "interval")
        &&& field_accepts::<RateLimitType>(value, "rateLimitType")
        &&& field_accepts::<i32>(value, "intervalNum")
        &&& field_accepts::<i32>(value, "limit")
    }

    open spec fn rejection(value: JsonValue) -> Error {
        if !(value is Object) {
            Error::UnexpectedShape
        } else if !field_accepts::<RateLimitInterval>(value, "interval") {
            field_rejection::<RateLimitInterval>(value, "interval")
        } else if !field_accepts::<RateLimitType>(value, "rateLimitType") {
            field_rejection::<RateLimitType>(value, "rateLimitType")
        } else if !field_accepts::<i32>(value, "intervalNum") {
            field_rejection::<i32>(value, "intervalNum")
        } else {
            field_rejection::<i32>(value, "limit")
        }
    }

    open spec fn describes(value: JsonValue, decoded: Self) -> bool {
        &&& field_describes::<RateLimitInterval>(value, "interval", decoded.interval)
        &&& field_describes::<RateLimitType>(value, "rateLimitType", decoded.rate_limit_type)
        &&& field_describes::<i32>(value, "intervalNum", decoded.interval_num)
        &&& field_describes::<i32>(value, "limit", decoded.limit)
    }

    fn decode(value: &JsonValue) -> (outcome: Result<Self, Error>) {
        if !value.is_object() {
            return Err(Error::UnexpectedShape);
        }
        let interval: RateLimitInterval = field(value, "interval")?;
        let rate_limit_type: RateLimitType = field(value, "rateLimitType")?;
        let interval_num: i32 = field(value, "intervalNum")?;
        let limit: i32 = field(value, "limit")?;
        Ok(
            RateLimit {
                interval,
                rate_limit_type,
                interval_num,
                limit,
            },
        )
    }
}

/// One price level on the buying side of an order book. On the wire it is an
/// array of price and quantity, in that order, or an object with the keys
/// `price` and `qty`.
#[derive(Debug, Clone, PartialEq)]
pub struct Bids {
    pub price: ExactNumericValue,
    pub qty: ExactNumericValue,
}

impl Decode for Bids {
    open spec fn accepts(value: JsonValue) -> bool {
        match value {
            JsonValue::Array(items) => {
                &&& items@.len() == 2
                &&& ExactNumericValue::accepts(items@[0])
                &&& ExactNumericValue::accepts(items@[1])
            },
            JsonValue::Object(_) => {
                &&& field_accepts::<ExactNumericValue>(value, "price")
                &&& field_accepts::<ExactNumericValue>(value, "qty")
            },
            _ => false,
        }
    }

    open spec fn rejection(value: JsonValue) -> Error {
        match value {
            JsonValue::Array(items) => if items@.len() != 2 {
                Error::UnexpectedShape
            } else {
                Error::MalformedNumber
            },
            JsonValue::Object(_) => if !field_accepts::<ExactNumericValue>(value, "price") {
                field_rejection::<ExactNumericValue>(value, "price")
            } else {
                field_rejection::<ExactNumericValue>(value, "qty")
            },
            _ => Error::UnexpectedShape,
        }
    }

    open spec fn describes(value: JsonValue, decoded: Self) -> bool {
        match value {
            JsonValue::Array(items) => {
                &&& items@.len() == 2
                &&& ExactNumericValue::describes(items@[0], decoded.price)
                &&& ExactNumericValue::describes(items@[1], decoded.qty)
            },
            _ => {
                &&& field_describes::<ExactNumericValue>(value, "price", decoded.price)
                &&& field_describes::<ExactNumericValue>(value, "qty", decoded.qty)
            },
        }
    }

    fn decode(value: &JsonValue) -> (outcome: Result<Self, Error>) {
        match value {
            JsonValue::Array(items) => {
                if items.len() != 2 {
                    return Err(Error::UnexpectedShape);
                }
                let price = ExactNumericValue::decode(&items[0])?;
                let qty = ExactNumericValue::decode(&items[1])?;
                Ok(Bids { price, qty })
            },
            JsonValue::Object(_) => {
                let price: ExactNumericValue = field(value, "price")?;
                let qty: ExactNumericValue = field(value, "qty")?;
                Ok(Bids { price, qty })
            },
            _ => Err(Error::UnexpectedShape),
        }
    }
}

/// One price level on the selling side of an order book. On the wire it is an
/// array of price and quantity, in that order, or an object with the keys
/// `price` and `qty`.
#[derive(Debug, Clone, PartialEq)]
pub struct Asks {
    pub price: ExactNumericValue,
    pub qty: ExactNumericValue,
}

impl Decode for Asks {
    open spec fn accepts(value: JsonValue) -> bool {
        match value {
            JsonValue::Array(items) => {
                &&& items@.len() == 2
                &&& ExactNumericValue::accepts(items@[0])
                &&& ExactNumericValue::accepts(items@[1])
            },
            JsonValue::Object(_) => {
                &&& field_accepts::<ExactNumericValue>(value, "price")
                &&& field_accepts::<ExactNumericValue>(value, "qty")
            },
            _ => false,
        }
    }

    open spec fn rejection(value: JsonValue) -> Error {
        match value {
            JsonValue::Array(items) => if items@.len() != 2 {
                Error::UnexpectedShape
            } else {
                Error::MalformedNumber
            },
            JsonValue::Object(_) => if !field_accepts::<ExactNumericValue>(value, "price") {
                field_rejection::<ExactNumericValue>(value, "price")
            } else {
                field_rejection::<ExactNumericValue>(value, "qty")
            },
            _ => Error::UnexpectedShape,
        }
    }

    open spec fn describes(value: JsonValue, decoded: Self) -> bool {
        match value {
            JsonValue::Array(items) => {
                &&& items@.len() == 2
                &&& ExactNumericValue::describes(items@[0], decoded.price)
                &&& ExactNumericValue::describes(items@[1], decoded.qty)
            },
            _ => {
                &&& field_describes::<ExactNumericValue>(value, "price", decoded.price)
                &&& field_describes::<ExactNumericValue>(value, "qty", decoded.qty)
            },
        }
    }

    fn decode(value: &JsonValue) -> (outcome: Result<Self, Error>) {
        match value {
            JsonValue::Array(items) => {
                if items.len() != 2 {
                    return Err(Error::UnexpectedShape);
                }
                let price = ExactNumericValue::decode(&items[0])?;
                let qty = ExactNumericValue::decode(&items[1])?;
                Ok(Asks { price, qty })
            },
            JsonValue::Object(_) => {
                let price: ExactNumericValue = field(value, "price")?;
                let qty: ExactNumericValue = field(value, "qty")?;
                Ok(Asks { price, qty })
            },
            _ => Err(Error::UnexpectedShape),
        }
    }
}

} // verus!
