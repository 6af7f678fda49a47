//! The values of the exchange's wire format: the closed sets of names, the
//! orders, and what the market and the account report.

use crate::codec::{FromJson, ToJson};
use crate::error::owned;
use crate::json::{Json, JsonValue};
use crate::text::{mark, str_eq};
use vstd::prelude::*;

pub mod order;
pub mod report;

pub use order::{ChildOrderType, ParentOrderConditionType, ParentOrderMethod};
pub use report::{
    Balance, Board, BoardElement, BoardHealth, BoardState, BoardStateData, ChildOrder, Collateral,
    CollateralAccount, Execution, Market, Position, Ticker,
};

verus! {

/// Which side of the book an order or an execution is on.
#[derive(Clone, Copy, Debug, PartialEq, Eq, Structural)]
pub enum Side {
    Buy,
    Sell,
}

impl DeepView for Side {
    type V = Side;

    open spec fn deep_view(&self) -> Side {
        *self
    }
}

impl Side {
    /// The name of the value on the wire.
    pub open spec fn wire_name(self) -> Seq<char> {
        match self {
            Side::Buy => "BUY"@,
            Side::Sell => "SELL"@,
        }
    }

    /// The value that a name on the wire stands for, or nothing where the
    /// name is not one of this closed set.
    pub open spec fn of_wire(name: Seq<char>) -> Option<Side> {
        if name == "BUY"@ {
            Some(Side::Buy)
        } else if name == "SELL"@ {
            Some(Side::Sell)
        } else {
            None
        }
    }

    /// The name of the value on the wire.
    pub fn as_str(&self) -> (s: &'static str)
        ensures
            s@ == self.wire_name(),
    {
        match self {
            Side::Buy => "BUY",
            Side::Sell => "SELL",
        }
    }

    /// Reads a value from its name on the wire.
    pub fn from_wire(name: &str) -> (r: Option<Side>)
        ensures
            r == Self::of_wire(name@),
    {
        if str_eq(name, "BUY") {
            Some(Side::Buy)
        } else if str_eq(name, "SELL") {
            Some(Side::Sell)
        } else {
            None
        }
    }

    /// The name of the value on the wire, as an owned string.
    pub fn to_string(&self) -> (s: String)
        ensures
            s@ == self.wire_name(),
    {
        owned(self.as_str())
    }

    /// The opposite side.
    pub open spec fn reversed(self) -> Side {
        match self {
            Side::Buy => Side::Sell,
            Side::Sell => Side::Buy,
        }
    }

    /// The opposite side.
    pub fn get_reverse(&self) -> (r: Side)
        ensures
            r == self.reversed(),
    {
        match *self {
            Side::Buy => Side::Sell,
            Side::Sell => Side::Buy,
        }
    }

    /// A value is read back from the name that it is written with.
    pub proof fn lemma_wire_round_trip(v: Side)
        ensures
            Self::of_wire(v.wire_name()) == Some(v),
    {
        reveal_strlit("BUY");
        assert(mark("BUY"@) == (3nat, 'B', 'U'));
        reveal_strlit("SELL");
        assert(mark("SELL"@) == (4nat, 'S', 'E'));
    }
}

impl FromJson for Side {
    open spec fn decoded(j: JsonValue) -> Option<Side> {
        match j {
            JsonValue::String(s) => Side::of_wire(s),
            _ => None,
        }
    }

    fn from_json(j: &Json) -> (r: Option<Side>) {
        match j.as_text() {
            Some(s) => Side::from_wire(s),
            None => None,
        }
    }
}

impl ToJson for Side {
    open spec fn encoded(v: Side) -> Option<JsonValue> {
        Some(JsonValue::String(v.wire_name()))
    }

    fn to_json(&self) -> (r: Option<Json>) {
        Some(Json::String(owned(self.as_str())))
    }
}

/// The side of a parent order, which may hold orders of both sides.
#[derive(Clone, Copy, Debug, PartialEq, Eq, Structural)]
pub enum ParentOrderSide {
    Buy,
    Sell,
    BuySell,
}

impl DeepView for ParentOrderSide {
    type V = ParentOrderSide;

    open spec fn deep_view(&self) -> ParentOrderSide {
        *self
    }
}

impl ParentOrderSide {
    /// The name of the value on the wire.
    pub open spec fn wire_name(self) -> Seq<char> {
        match self {
            ParentOrderSide::Buy => "BUY"@,
            ParentOrderSide::Sell => "SELL"@,
            ParentOrderSide::BuySell => "BUYSELL"@,
        }
    }

    /// The value that a name on the wire stands for, or nothing where the
    /// name is not one of this closed set.
    pub open spec fn of_wire(name: Seq<char>) -> Option<ParentOrderSide> {
        if name == "BUY"@ {
            Some(ParentOrderSide::Buy)
        } else if name == "SELL"@ {
            Some(ParentOrderSide::Sell)
        } else if name == "BUYSELL"@ {
            Some(ParentOrderSide::BuySell)
        } else {
            None
        }
    }

    /// The name of the value on the wire.
    pub fn as_str(&self) -> (s: &'static str)
        ensures
            s@ == self.wire_name(),
    {
        match self {
            ParentOrderSide::Buy => "BUY",
            ParentOrderSide::Sell => "SELL",
            ParentOrderSide::BuySell => "BUYSELL",
        }
    }

    /// Reads a value from its name on the wire.
    pub fn from_wire(name: &str) -> (r: Option<ParentOrderSide>)
        ensures
            r == Self::of_wire(name@),
    {
        if str_eq(name, "BUY") {
            Some(ParentOrderSide::Buy)
        } else if str_eq(name, "SELL") {
            Some(ParentOrderSide::Sell)
        } else if str_eq(name, "BUYSELL") {
            Some(ParentOrderSide::BuySell)
        } else {
            None
        }
    }

    /// A value is read back from the name that it is written with.
    pub proof fn lemma_wire_round_trip(v: ParentOrderSide)
        ensures
            Self::of_wire(v.wire_name()) == Some(v),
    {
        reveal_strlit("BUY");
        assert(mark("BUY"@) == (3nat, 'B', 'U'));
        reveal_strlit("SELL");
        assert(mark("SELL"@) == (4nat, 'S', 'E'));
        reveal_strlit("BUYSELL");
        assert(mark("BUYSELL"@) == (7nat, 'B', 'U'));
    }
}

impl FromJson for ParentOrderSide {
    open spec fn decoded(j: JsonValue) -> Option<ParentOrderSide> {
        match j {
            JsonValue::String(s) => ParentOrderSide::of_wire(s),
            _ => None,
        }
    }

    fn from_json(j: &Json) -> (r: Option<ParentOrderSide>) {
        match j.as_text() {
            Some(s) => ParentOrderSide::from_wire(s),
            None => None,
        }
    }
}

impl ToJson for ParentOrderSide {
    open spec fn encoded(v: ParentOrderSide) -> Option<JsonValue> {
        Some(JsonValue::String(v.wire_name()))
    }

    fn to_json(&self) -> (r: Option<Json>) {
        Some(Json::String(owned(self.as_str())))
    }
}

/// The kind of market that a product trades on.
#[derive(Clone, Copy, Debug, PartialEq, Eq, Structural)]
pub enum MarketType {
    Spot,
    Fx,
    Futures,
}

impl DeepView for MarketType {
    type V = MarketType;

    open spec fn deep_view(&self) -> MarketType {
        *self
    }
}

impl MarketType {
    /// The name of the value on the wire.
    pub open spec fn wire_name(self) -> Seq<char> {
        match self {
            MarketType::Spot => "Spot"@,
            MarketType::Fx => "FX"@,
            MarketType::Futures => "Futures"@,
        }
    }

    /// The value that a name on the wire stands for, or nothing where the
    /// name is not one of this closed set.
    pub open spec fn of_wire(name: Seq<char>) -> Option<MarketType> {
        if name == "Spot"@ {
            Some(MarketType::Spot)
        } else if name == "FX"@ {
            Some(MarketType::Fx)
        } else if name == "Futures"@ {
            Some(MarketType::Futures)
        } else {
            None
        }
    }

    /// The name of the value on the wire.
    pub fn as_str(&self) -> (s: &'static str)
        ensures
            s@ == self.wire_name(),
    {
        match self {
            MarketType::Spot => "Spot",
            MarketType::Fx => "FX",
            MarketType::Futures => "Futures",
        }
    }

    /// Reads a value from its name on the wire.
    pub fn from_wire(name: &str) -> (r: Option<MarketType>)
        ensures
            r == Self::of_wire(name@),
    {
        if str_eq(name, "Spot") {
            Some(MarketType::Spot)
        } else if str_eq(name, "FX") {
            Some(MarketType::Fx)
        } else if str_eq(name, "Futures") {
            Some(MarketType::Futures)
        } else {
            None
        }
    }

    /// A value is read back from the name that it is written with.
    pub proof fn lemma_wire_round_trip(v: MarketType)
        ensures
            Self::of_wire(v.wire_name()) == Some(v),
    {
        reveal_strlit("Spot");
        assert(mark("Spot"@) == (4nat, 'S', 'p'));
        reveal_strlit("FX");
        assert(mark("FX"@) == (2nat, 'F', 'X'));
        reveal_strlit("Futures");
        assert(mark("Futures"@) == (7nat, 'F', 'u'));
    }
}

impl FromJson for MarketType {
    open spec fn decoded(j: JsonValue) -> Option<MarketType> {
        match j {
            JsonValue::String(s) => MarketType::of_wire(s),
            _ => None,
        }
    }

    fn from_json(j: &Json) -> (r: Option<MarketType>) {
        match j.as_text() {
            Some(s) => MarketType::from_wire(s),
            None => None,
        }
    }
}

impl ToJson for MarketType {
    open spec fn encoded(v: MarketType) -> Option<JsonValue> {
        Some(JsonValue::String(v.wire_name()))
    }

    fn to_json(&self) -> (r: Option<Json>) {
        Some(Json::String(owned(self.as_str())))
    }
}

/// A trading pair. The exchange may list pairs that this client does not know
/// yet: their codes are read as [`ProductCode::Other`], so that reading never
/// fails on one.
#[derive(Clone, Copy, Debug, PartialEq, Eq, Structural)]
pub enum ProductCode {
    BtcJpy,
    XrpJpy,
    EthJpy,
    XlmJpy,
    MonaJpy,
    EthBtc,
    BchBtc,
    FxBtcJpy,
    Other,
}

impl DeepView for ProductCode {
    type V = ProductCode;

    open spec fn deep_view(&self) -> ProductCode {
        *self
    }
}

impl ProductCode {
    /// The name of the value on the wire.
    pub open spec fn wire_name(self) -> Seq<char> {
        match self {
            ProductCode::BtcJpy => "BTC_JPY"@,
            ProductCode::XrpJpy => "XRP_JPY"@,
            ProductCode::EthJpy => "ETH_JPY"@,
            ProductCode::XlmJpy => "XLM_JPY"@,
            ProductCode::MonaJpy => "MONA_JPY"@,
            ProductCode::EthBtc => "ETH_BTC"@,
            ProductCode::BchBtc => "BCH_BTC"@,
            ProductCode::FxBtcJpy => "FX_BTC_JPY"@,
            ProductCode::Other => "OTHER"@,
        }
    }

    /// The value that a name on the wire stands for: every name that is not
    /// the name of a known value stands for [`ProductCode::Other`].
    pub open spec fn of_wire(name: Seq<char>) -> ProductCode {
        if name == "BTC_JPY"@ {
            ProductCode::BtcJpy
        } else if name == "XRP_JPY"@ {
            ProductCode::XrpJpy
        } else if name == "ETH_JPY"@ {
            ProductCode::EthJpy
        } else if name == "XLM_JPY"@ {
            ProductCode::XlmJpy
        } else if name == "MONA_JPY"@ {
            ProductCode::MonaJpy
        } else if name == "ETH_BTC"@ {
            ProductCode::EthBtc
        } else if name == "BCH_BTC"@ {
            ProductCode::BchBtc
        } else if name == "FX_BTC_JPY"@ {
            ProductCode::FxBtcJpy
        } else {
            ProductCode::Other
        }
    }

    /// The name of the value on the wire.
    pub fn as_str(&self) -> (s: &'static str)
        ensures
            s@ == self.wire_name(),
    {
        match self {
            ProductCode::BtcJpy => "BTC_JPY",
            ProductCode::XrpJpy => "XRP_JPY",
            ProductCode::EthJpy => "ETH_JPY",
            ProductCode::XlmJpy => "XLM_JPY",
            ProductCode::MonaJpy => "MONA_JPY",
            ProductCode::EthBtc => "ETH_BTC",
            ProductCode::BchBtc => "BCH_BTC",
            ProductCode::FxBtcJpy => "FX_BTC_JPY",
            ProductCode::Other => "OTHER",
        }
    }

    /// Reads a value from its name on the wire. Never fails.
    pub fn from_wire(name: &str) -> (r: ProductCode)
        ensures
            r == Self::of_wire(name@),
    {
        if str_eq(name, "BTC_JPY") {
            ProductCode::BtcJpy
        } else if str_eq(name, "XRP_JPY") {
            ProductCode::XrpJpy
        } else if str_eq(name, "ETH_JPY") {
            ProductCode::EthJpy
        } else if str_eq(name, "XLM_JPY") {
            ProductCode::XlmJpy
        } else if str_eq(name, "MONA_JPY") {
            ProductCode::MonaJpy
        } else if str_eq(name, "ETH_BTC") {
            ProductCode::EthBtc
        } else if str_eq(name, "BCH_BTC") {
            ProductCode::BchBtc
        } else if str_eq(name, "FX_BTC_JPY") {
            ProductCode::FxBtcJpy
        } else {
            ProductCode::Other
        }
    }

    /// The name of the value on the wire, as an owned string.
    pub fn to_string(&self) -> (s: String)
        ensures
            s@ == self.wire_name(),
    {
        owned(self.as_str())
    }

    /// A value is read back from the name that it is written with.
    pub proof fn lemma_wire_round_trip(v: ProductCode)
        ensures
            Self::of_wire(v.wire_name()) == v,
    {
        reveal_strlit("BTC_JPY");
        assert(mark("BTC_JPY"@) == (7nat, 'B', 'T'));
        reveal_strlit("XRP_JPY");
        assert(mark("XRP_JPY"@) == (7nat, 'X', 'R'));
        reveal_strlit("ETH_JPY");
        assert(mark("ETH_JPY"@) == (7nat, 'E', 'T'));
        assert("ETH_JPY"@[4] == 'J');
        reveal_strlit("XLM_JPY");
        assert(mark("XLM_JPY"@) == (7nat, 'X', 'L'));
        reveal_strlit("MONA_JPY");
        assert(mark("MONA_JPY"@) == (8nat, 'M', 'O'));
        reveal_strlit("ETH_BTC");
        assert(mark("ETH_BTC"@) == (7nat, 'E', 'T'));
        assert("ETH_BTC"@[4] == 'B');
        reveal_strlit("BCH_BTC");
        assert(mark("BCH_BTC"@) == (7nat, 'B', 'C'));
        reveal_strlit("FX_BTC_JPY");
        assert(mark("FX_BTC_JPY"@) == (10nat, 'F', 'X'));
        reveal_strlit("OTHER");
        assert(mark("OTHER"@) == (5nat, 'O', 'T'));
    }
}

impl ProductCode {
    /// Reading a product never fails on a name: a string on the wire always
    /// stands for a product, and a name that is not known stands for
    /// [`ProductCode::Other`].
    pub proof fn lemma_every_name_is_read(name: Seq<char>)
        ensures
            <ProductCode as FromJson>::decoded(JsonValue::String(name)) is Some,
            Self::of_wire(name) != ProductCode::Other ==> name == Self::of_wire(name).wire_name(),
    {
    }
}

impl FromJson for ProductCode {
    open spec fn decoded(j: JsonValue) -> Option<ProductCode> {
        match j {
            JsonValue::String(s) => Some(ProductCode::of_wire(s)),
            _ => None,
        }
    }

    fn from_json(j: &Json) -> (r: Option<ProductCode>) {
        match j.as_text() {
            Some(s) => Some(ProductCode::from_wire(s)),
            None => None,
        }
    }
}

impl ToJson for ProductCode {
    open spec fn encoded(v: ProductCode) -> Option<JsonValue> {
        Some(JsonValue::String(v.wire_name()))
    }

    fn to_json(&self) -> (r: Option<Json>) {
        Some(Json::String(owned(self.as_str())))
    }
}

/// How busy the exchange is.
#[derive(Clone, Copy, Debug, PartialEq, Eq, Structural)]
pub enum Health {
    Normal,
    Busy,
    VeryBusy,
    SuperBusy,
    NoOrder,
    Stop,
}

impl DeepView for Health {
    type V = Health;

    open spec fn deep_view(&self) -> Health {
        *self
    }
}

impl Health {
    /// The name of the value on the wire.
    pub open spec fn wire_name(self) -> Seq<char> {
        match self {
            Health::Normal => "NORMAL"@,
            Health::Busy => "BUSY"@,
            Health::VeryBusy => "VERY_BUSY"@,
            Health::SuperBusy => "SUPER_BUSY"@,
            Health::NoOrder => "NO_ORDER"@,
            Health::Stop => "STOP"@,
        }
    }

    /// The value that a name on the wire stands for, or nothing where the
    /// name is not one of this closed set.
    pub open spec fn of_wire(name: Seq<char>) -> Option<Health> {
        if name == "NORMAL"@ {
            Some(Health::Normal)
        } else if name == "BUSY"@ {
            Some(Health::Busy)
        } else if name == "VERY_BUSY"@ {
            Some(Health::VeryBusy)
        } else if name == "SUPER_BUSY"@ {
            Some(Health::SuperBusy)
        } else if name == "NO_ORDER"@ {
            Some(Health::NoOrder)
        } else if name == "STOP"@ {
            Some(Health::Stop)
        } else {
            None
        }
    }

    /// The name of the value on the wire.
    pub fn as_str(&self) -> (s: &'static str)
        ensures
            s@ == self.wire_name(),
    {
        match self {
            Health::Normal => "NORMAL",
            Health::Busy => "BUSY",
            Health::VeryBusy => "VERY_BUSY",
            Health::SuperBusy => "SUPER_BUSY",
            Health::NoOrder => "NO_ORDER",
            Health::Stop => "STOP",
        }
    }

    /// Reads a value from its name on the wire.
    pub fn from_wire(name: &str) -> (r: Option<Health>)
        ensures
            r == Self::of_wire(name@),
    {
        if str_eq(name, "NORMAL") {
            Some(Health::Normal)
        } else if str_eq(name, "BUSY") {
            Some(Health::Busy)
        } else if str_eq(name, "VERY_BUSY") {
            Some(Health::VeryBusy)
        } else if str_eq(name, "SUPER_BUSY") {
            Some(Health::SuperBusy)
        } else if str_eq(name, "NO_ORDER") {
            Some(Health::NoOrder)
        } else if str_eq(name, "STOP") {
            Some(Health::Stop)
        } else {
            None
        }
    }

    /// A value is read back from the name that it is written with.
    pub proof fn lemma_wire_round_trip(v: Health)
        ensures
            Self::of_wire(v.wire_name()) == Some(v),
    {
        reveal_strlit("NORMAL");
        assert(mark("NORMAL"@) == (6nat, 'N', 'O'));
        reveal_strlit("BUSY");
        assert(mark("BUSY"@) == (4nat, 'B', 'U'));
        reveal_strlit("VERY_BUSY");
        assert(mark("VERY_BUSY"@) == (9nat, 'V', 'E'));
        reveal_strlit("SUPER_BUSY");
        assert(mark("SUPER_BUSY"@) == (10nat, 'S', 'U'));
        reveal_strlit("NO_ORDER");
        assert(mark("NO_ORDER"@) == (8nat, 'N', 'O'));
        reveal_strlit("STOP");
        assert(mark("STOP"@) == (4nat, 'S', 'T'));
    }
}

impl FromJson for Health {
    open spec fn decoded(j: JsonValue) -> Option<Health> {
        match j {
            JsonValue::String(s) => Health::of_wire(s),
            _ => None,
        }
    }

    fn from_json(j: &Json) -> (r: Option<Health>) {
        match j.as_text() {
            Some(s) => Health::from_wire(s),
            None => None,
        }
    }
}

impl ToJson for Health {
    open spec fn encoded(v: Health) -> Option<JsonValue> {
        Some(JsonValue::String(v.wire_name()))
    }

    fn to_json(&self) -> (r: Option<Json>) {
        Some(Json::String(owned(self.as_str())))
    }
}

/// The state of the board of a product.
#[derive(Clone, Copy, Debug, PartialEq, Eq, Structural)]
pub enum State {
    Running,
    Closed,
    Starting,
    Preopen,
    CircutBreak,
    AwaitingSq,
    Matured,
}

impl DeepView for State {
    type V = State;

    open spec fn deep_view(&self) -> State {
        *self
    }
}

impl State {
    /// The name of the value on the wire.
    pub open spec fn wire_name(self) -> Seq<char> {
        match self {
            State::Running => "RUNNING"@,
            State::Closed => "CLOSED"@,
            State::Starting => "STARTING"@,
            State::Preopen => "PREOPEN"@,
            State::CircutBreak => "CIRCUT BREAK"@,
            State::AwaitingSq => "AWAITING SQ"@,
            State::Matured => "MATURED"@,
        }
    }

    /// The value that a name on the wire stands for, or nothing where the
    /// name is not one of this closed set.
    pub open spec fn of_wire(name: Seq<char>) -> Option<State> {
        if name == "RUNNING"@ {
            Some(State::Running)
        } else if name == "CLOSED"@ {
            Some(State::Closed)
        } else if name == "STARTING"@ {
            Some(State::Starting)
        } else if name == "PREOPEN"@ {
            Some(State::Preopen)
        } else if name == "CIRCUT BREAK"@ {
            Some(State::CircutBreak)
        } else if name == "AWAITING SQ"@ {
            Some(State::AwaitingSq)
        } else if name == "MATURED"@ {
            Some(State::Matured)
        } else {
            None
        }
    }

    /// The name of the value on the wire.
    pub fn as_str(&self) -> (s: &'static str)
        ensures
            s@ == self.wire_name(),
    {
        match self {
            State::Running => "RUNNING",
            State::Closed => "CLOSED",
            State::Starting => "STARTING",
            State::Preopen => "PREOPEN",
            State::CircutBreak => "CIRCUT BREAK",
            State::AwaitingSq => "AWAITING SQ",
            State::Matured => "MATURED",
        }
    }

    /// Reads a value from its name on the wire.
    pub fn from_wire(name: &str) -> (r: Option<State>)
        ensures
            r == Self::of_wire(name@),
    {
        if str_eq(name, "RUNNING") {
            Some(State::Running)
        } else if str_eq(name, "CLOSED") {
            Some(State::Closed)
        } else if str_eq(name, "STARTING") {
            Some(State::Starting)
        } else if str_eq(name, "PREOPEN") {
            Some(State::Preopen)
        } else if str_eq(name, "CIRCUT BREAK") {
            Some(State::CircutBreak)
        } else if str_eq(name, "AWAITING SQ") {
            Some(State::AwaitingSq)
        } else if str_eq(name, "MATURED") {
            Some(State::Matured)
        } else {
            None
        }
    }

    /// A value is read back from the name that it is written with.
    pub proof fn lemma_wire_round_trip(v: State)
        ensures
            Self::of_wire(v.wire_name()) == Some(v),
    {
        reveal_strlit("RUNNING");
        assert(mark("RUNNING"@) == (7nat, 'R', 'U'));
        reveal_strlit("CLOSED");
        assert(mark("CLOSED"@) == (6nat, 'C', 'L'));
        reveal_strlit("STARTING");
        assert(mark("STARTING"@) == (8nat, 'S', 'T'));
        reveal_strlit("PREOPEN");
        assert(mark("PREOPEN"@) == (7nat, 'P', 'R'));
        reveal_strlit("CIRCUT BREAK");
        assert(mark("CIRCUT BREAK"@) == (12nat, 'C', 'I'));
        reveal_strlit("AWAITING SQ");
        assert(mark("AWAITING SQ"@) == (11nat, 'A', 'W'));
        reveal_strlit("MATURED");
        assert(mark("MATURED"@) == (7nat, 'M', 'A'));
    }
}

impl FromJson for State {
    open spec fn decoded(j: JsonValue) -> Option<State> {
        match j {
            JsonValue::String(s) => State::of_wire(s),
            _ => None,
        }
    }

    fn from_json(j: &Json) -> (r: Option<State>) {
        match j.as_text() {
            Some(s) => State::from_wire(s),
            None => None,
        }
    }
}

/// The kind of a parent order as the exchange lists it.
#[derive(Clone, Copy, Debug, PartialEq, Eq, Structural)]
pub enum ParentOrderType {
    Limit,
    Market,
    Stop,
    StopLimit,
    Trail,
    Simple,
    Ifd,
    Oco,
    Ifdoco,
}

impl DeepView for ParentOrderType {
    type V = ParentOrderType;

    open spec fn deep_view(&self) -> ParentOrderType {
        *self
    }
}

impl ParentOrderType {
    /// The name of the value on the wire.
    pub open spec fn wire_name(self) -> Seq<char> {
        match self {
            ParentOrderType::Limit => "LIMIT"@,
            ParentOrderType::Market => "MARKET"@,
            ParentOrderType::Stop => "STOP"@,
            ParentOrderType::StopLimit => "STOPLIMIT"@,
            ParentOrderType::Trail => "TRAIL"@,
            ParentOrderType::Simple => "SIMPLE"@,
            ParentOrderType::Ifd => "IFD"@,
            ParentOrderType::Oco => "OCO"@,
            ParentOrderType::Ifdoco => "IFDOCO"@,
        }
    }

    /// The value that a name on the wire stands for, or nothing where the
    /// name is not one of this closed set.
    pub open spec fn of_wire(name: Seq<char>) -> Option<ParentOrderType> {
        if name == "LIMIT"@ {
            Some(ParentOrderType::Limit)
        } else if name == "MARKET"@ {
            Some(ParentOrderType::Market)
        } else if name == "STOP"@ {
            Some(ParentOrderType::Stop)
        } else if name == "STOPLIMIT"@ {
            Some(ParentOrderType::StopLimit)
        } else if name == "TRAIL"@ {
            Some(ParentOrderType::Trail)
        } else if name == "SIMPLE"@ {
            Some(ParentOrderType::Simple)
        } else if name == "IFD"@ {
            Some(ParentOrderType::Ifd)
        } else if name == "OCO"@ {
            Some(ParentOrderType::Oco)
        } else if name == "IFDOCO"@ {
            Some(ParentOrderType::Ifdoco)
        } else {
            None
        }
    }

    /// The name of the value on the wire.
    pub fn as_str(&self) -> (s: &'static str)
        ensures
            s@ == self.wire_name(),
    {
        match self {
            ParentOrderType::Limit => "LIMIT",
            ParentOrderType::Market => "MARKET",
            ParentOrderType::Stop => "STOP",
            ParentOrderType::StopLimit => "STOPLIMIT",
            ParentOrderType::Trail => "TRAIL",
            ParentOrderType::Simple => "SIMPLE",
            ParentOrderType::Ifd => "IFD",
            ParentOrderType::Oco => "OCO",
            ParentOrderType::Ifdoco => "IFDOCO",
        }
    }

    /// Reads a value from its name on the wire.
    pub fn from_wire(name: &str) -> (r: Option<ParentOrderType>)
        ensures
            r == Self::of_wire(name@),
    {
        if str_eq(name, "LIMIT") {
            Some(ParentOrderType::Limit)
        } else if str_eq(name, "MARKET") {
            Some(ParentOrderType::Market)
        } else if str_eq(name, "STOP") {
            Some(ParentOrderType::Stop)
        } else if str_eq(name, "STOPLIMIT") {
            Some(ParentOrderType::StopLimit)
        } else if str_eq(name, "TRAIL") {
            Some(ParentOrderType::Trail)
        } else if str_eq(name, "SIMPLE") {
            Some(ParentOrderType::Simple)
        } else if str_eq(name, "IFD") {
            Some(ParentOrderType::Ifd)
        } else if str_eq(name, "OCO") {
            Some(ParentOrderType::Oco)
        } else if str_eq(name, "IFDOCO") {
            Some(ParentOrderType::Ifdoco)
        } else {
            None
        }
    }

    /// A value is read back from the name that it is written with.
    pub proof fn lemma_wire_round_trip(v: ParentOrderType)
        ensures
            Self::of_wire(v.wire_name()) == Some(v),
    {
        reveal_strlit("LIMIT");
        assert(mark("LIMIT"@) == (5nat, 'L', 'I'));
        reveal_strlit("MARKET");
        assert(mark("MARKET"@) == (6nat, 'M', 'A'));
        reveal_strlit("STOP");
        assert(mark("STOP"@) == (4nat, 'S', 'T'));
        reveal_strlit("STOPLIMIT");
        assert(mark("STOPLIMIT"@) == (9nat, 'S', 'T'));
        reveal_strlit("TRAIL");
        assert(mark("TRAIL"@) == (5nat, 'T', 'R'));
        reveal_strlit("SIMPLE");
        assert(mark("SIMPLE"@) == (6nat, 'S', 'I'));
        reveal_strlit("IFD");
        assert(mark("IFD"@) == (3nat, 'I', 'F'));
        reveal_strlit("OCO");
        assert(mark("OCO"@) == (3nat, 'O', 'C'));
        reveal_strlit("IFDOCO");
        assert(mark("IFDOCO"@) == (6nat, 'I', 'F'));
    }
}

impl FromJson for ParentOrderType {
    open spec fn decoded(j: JsonValue) -> Option<ParentOrderType> {
        match j {
            JsonValue::String(s) => ParentOrderType::of_wire(s),
            _ => None,
        }
    }

    fn from_json(j: &Json) -> (r: Option<ParentOrderType>) {
        match j.as_text() {
            Some(s) => ParentOrderType::from_wire(s),
            None => None,
        }
    }
}

impl ToJson for ParentOrderType {
    open spec fn encoded(v: ParentOrderType) -> Option<JsonValue> {
        Some(JsonValue::String(v.wire_name()))
    }

    fn to_json(&self) -> (r: Option<Json>) {
        Some(Json::String(owned(self.as_str())))
    }
}

/// How long an order stays in force.
#[derive(Clone, Copy, Debug, PartialEq, Eq, Structural)]
pub enum TimeInForce {
    Gtc,
    Ioc,
    Fok,
}

impl DeepView for TimeInForce {
    type V = TimeInForce;

    open spec fn deep_view(&self) -> TimeInForce {
        *self
    }
}

impl TimeInForce {
    /// The name of the value on the wire.
    pub open spec fn wire_name(self) -> Seq<char> {
        match self {
            TimeInForce::Gtc => "GTC"@,
            TimeInForce::Ioc => "IOC"@,
            TimeInForce::Fok => "FOK"@,
        }
    }

    /// The value that a name on the wire stands for, or nothing where the
    /// name is not one of this closed set.
    pub open spec fn of_wire(name: Seq<char>) -> Option<TimeInForce> {
        if name == "GTC"@ {
            Some(TimeInForce::Gtc)
        } else if name == "IOC"@ {
            Some(TimeInForce::Ioc)
        } else if name == "FOK"@ {
            Some(TimeInForce::Fok)
        } else {
            None
        }
    }

    /// The name of the value on the wire.
    pub fn as_str(&self) -> (s: &'static str)
        ensures
            s@ == self.wire_name(),
    {
        match self {
            TimeInForce::Gtc => "GTC",
            TimeInForce::Ioc => "IOC",
            TimeInForce::Fok => "FOK",
        }
    }

    /// Reads a value from its name on the wire.
    pub fn from_wire(name: &str) -> (r: Option<TimeInForce>)
        ensures
            r == Self::of_wire(name@),
    {
        if str_eq(name, "GTC") {
            Some(TimeInForce::Gtc)
        } else if str_eq(name, "IOC") {
            Some(TimeInForce::Ioc)
        } else if str_eq(name, "FOK") {
            Some(TimeInForce::Fok)
        } else {
            None
        }
    }

    /// A value is read back from the name that it is written with.
    pub proof fn lemma_wire_round_trip(v: TimeInForce)
        ensures
            Self::of_wire(v.wire_name()) == Some(v),
    {
        reveal_strlit("GTC");
        assert(mark("GTC"@) == (3nat, 'G', 'T'));
        reveal_strlit("IOC");
        assert(mark("IOC"@) == (3nat, 'I', 'O'));
        reveal_strlit("FOK");
        assert(mark("FOK"@) == (3nat, 'F', 'O'));
    }
}

impl FromJson for TimeInForce {
    open spec fn decoded(j: JsonValue) -> Option<TimeInForce> {
        match j {
            JsonValue::String(s) => TimeInForce::of_wire(s),
            _ => None,
        }
    }

    fn from_json(j: &Json) -> (r: Option<TimeInForce>) {
        match j.as_text() {
            Some(s) => TimeInForce::from_wire(s),
            None => None,
        }
    }
}

impl ToJson for TimeInForce {
    open spec fn encoded(v: TimeInForce) -> Option<JsonValue> {
        Some(JsonValue::String(v.wire_name()))
    }

    fn to_json(&self) -> (r: Option<Json>) {
        Some(Json::String(owned(self.as_str())))
    }
}

/// The state of an order.
#[derive(Clone, Copy, Debug, PartialEq, Eq, Structural)]
pub enum OrderState {
    Active,
    Completed,
    Canceled,
    Expired,
    Rejected,
}

impl DeepView for OrderState {
    type V = OrderState;

    open spec fn deep_view(&self) -> OrderState {
        *self
    }
}

impl OrderState {
    /// The name of the value on the wire.
    pub open spec fn wire_name(self) -> Seq<char> {
        match self {
            OrderState::Active => "ACTIVE"@,
            OrderState::Completed => "COMPLETED"@,
            OrderState::Canceled => "CANCELED"@,
            OrderState::Expired => "EXPIRED"@,
            OrderState::Rejected => "REJECTED"@,
        }
    }

    /// The value that a name on the wire stands for, or nothing where the
    /// name is not one of this closed set.
    pub open spec fn of_wire(name: Seq<char>) -> Option<OrderState> {
        if name == "ACTIVE"@ {
            Some(OrderState::Active)
        } else if name == "COMPLETED"@ {
            Some(OrderState::Completed)
        } else if name == "CANCELED"@ {
            Some(OrderState::Canceled)
        } else if name == "EXPIRED"@ {
            Some(OrderState::Expired)
        } else if name == "REJECTED"@ {
            Some(OrderState::Rejected)
        } else {
            None
        }
    }

    /// The name of the value on the wire.
    pub fn as_str(&self) -> (s: &'static str)
        ensures
            s@ == self.wire_name(),
    {
        match self {
            OrderState::Active => "ACTIVE",
            OrderState::Completed => "COMPLETED",
            OrderState::Canceled => "CANCELED",
            OrderState::Expired => "EXPIRED",
            OrderState::Rejected => "REJECTED",
        }
    }

    /// Reads a value from its name on the wire.
    pub fn from_wire(name: &str) -> (r: Option<OrderState>)
        ensures
            r == Self::of_wire(name@),
    {
        if str_eq(name, "ACTIVE") {
            Some(OrderState::Active)
        } else if str_eq(name, "COMPLETED") {
            Some(OrderState::Completed)
        } else if str_eq(name, "CANCELED") {
            Some(OrderState::Canceled)
        } else if str_eq(name, "EXPIRED") {
            Some(OrderState::Expired)
        } else if str_eq(name, "REJECTED") {
            Some(OrderState::Rejected)
        } else {
            None
        }
    }

    /// The name of the value on the wire, as an owned string.
    pub fn to_string(&self) -> (s: String)
        ensures
            s@ == self.wire_name(),
    {
        owned(self.as_str())
    }

    /// A value is read back from the name that it is written with.
    pub proof fn lemma_wire_round_trip(v: OrderState)
        ensures
            Self::of_wire(v.wire_name()) == Some(v),
    {
        reveal_strlit("ACTIVE");
        assert(mark("ACTIVE"@) == (6nat, 'A', 'C'));
        reveal_strlit("COMPLETED");
        assert(mark("COMPLETED"@) == (9nat, 'C', 'O'));
        reveal_strlit("CANCELED");
        assert(mark("CANCELED"@) == (8nat, 'C', 'A'));
        reveal_strlit("EXPIRED");
        assert(mark("EXPIRED"@) == (7nat, 'E', 'X'));
        reveal_strlit("REJECTED");
        assert(mark("REJECTED"@) == (8nat, 'R', 'E'));
    }
}

impl FromJson for OrderState {
    open spec fn decoded(j: JsonValue) -> Option<OrderState> {
        match j {
            JsonValue::String(s) => OrderState::of_wire(s),
            _ => None,
        }
    }

    fn from_json(j: &Json) -> (r: Option<OrderState>) {
        match j.as_text() {
            Some(s) => OrderState::from_wire(s),
            None => None,
        }
    }
}

impl ToJson for OrderState {
    open spec fn encoded(v: OrderState) -> Option<JsonValue> {
        Some(JsonValue::String(v.wire_name()))
    }

    fn to_json(&self) -> (r: Option<Json>) {
        Some(Json::String(owned(self.as_str())))
    }
}
} // verus!
