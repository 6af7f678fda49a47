//! What the market and the account report: the answers of the exchange, each
//! read from a JSON object member by member.

use crate::codec::{deep_of, optional, optionally, require, required, FromJson};
use crate::decimal::Decimal;
use crate::deserializer::Timestamp;
use crate::entity::{
    ChildOrderType, Health, MarketType, OrderState, ProductCode, Side, State, TimeInForce,
};
use crate::json::{Json, JsonValue};
use vstd::prelude::*;

verus! {

/// One level of the order book: a price, and the size that waits at it.
#[derive(Clone, Copy, Debug, PartialEq, Eq)]
pub struct BoardElement {
    pub price: Decimal,
    pub size: Decimal,
}

impl DeepView for BoardElement {
    type V = BoardElement;

    open spec fn deep_view(&self) -> BoardElement {
        *self
    }
}

impl FromJson for BoardElement {
    open spec fn decoded(j: JsonValue) -> Option<BoardElement> {
        if required::<Decimal>(j, "price"@) is Some
            && required::<Decimal>(j, "size"@) is Some {
            Some(
                BoardElement {
                    price: required::<Decimal>(j, "price"@)->0,
                    size: required::<Decimal>(j, "size"@)->0,
                },
            )
        } else {
            None
        }
    }

    fn from_json(j: &Json) -> (r: Option<BoardElement>) {
        let price = require::<Decimal>(j, "price")?;
        let size = require::<Decimal>(j, "size")?;
        Some(BoardElement { price, size })
    }
}

/// The order book of a product.
#[derive(Clone, Debug, PartialEq, Eq)]
pub struct Board {
    pub mid_price: Decimal,
    pub bids: Vec<BoardElement>,
    pub asks: Vec<BoardElement>,
}

/// The model of a [`Board`].
pub struct BoardView {
    pub mid_price: Decimal,
    pub bids: Seq<BoardElement>,
    pub asks: Seq<BoardElement>,
}

impl DeepView for Board {
    type V = BoardView;

    open spec fn deep_view(&self) -> BoardView {
        BoardView {
            mid_price: self.mid_price,
            bids: self.bids.deep_view(),
            asks: self.asks.deep_view(),
        }
    }
}

impl FromJson for Board {
    open spec fn decoded(j: JsonValue) -> Option<BoardView> {
        if required::<Decimal>(j, "mid_price"@) is Some
            && required::<Vec<BoardElement>>(j, "bids"@) is Some
            && required::<Vec<BoardElement>>(j, "asks"@) is Some {
            Some(
                BoardView {
                    mid_price: required::<Decimal>(j, "mid_price"@)->0,
                    bids: required::<Vec<BoardElement>>(j, "bids"@)->0,
                    asks: required::<Vec<BoardElement>>(j, "asks"@)->0,
                },
            )
        } else {
            None
        }
    }

    fn from_json(j: &Json) -> (r: Option<Board>) {
        let mid_price = require::<Decimal>(j, "mid_price")?;
        let bids = require::<Vec<BoardElement>>(j, "bids")?;
        let asks = require::<Vec<BoardElement>>(j, "asks")?;
        Some(Board { mid_price, bids, asks })
    }
}

/// A market that the exchange lists.
#[derive(Clone, Debug, PartialEq, Eq)]
pub struct Market {
    pub product_code: ProductCode,
    /// Another name of the market, where it has one.
    pub alias: Option<String>,
    pub market_type: MarketType,
}

/// The model of a [`Market`].
pub struct MarketView {
    pub product_code: ProductCode,
    pub alias: Option<Seq<char>>,
    pub market_type: MarketType,
}

impl DeepView for Market {
    type V = MarketView;

    open spec fn deep_view(&self) -> MarketView {
        MarketView {
            product_code: self.product_code,
            alias: deep_of(self.alias),
            market_type: self.market_type,
        }
    }
}

impl FromJson for Market {
    open spec fn decoded(j: JsonValue) -> Option<MarketView> {
        if required::<ProductCode>(j, "product_code"@) is Some
            && optional::<String>(j, "alias"@) is Some
            && required::<MarketType>(j, "market_type"@) is Some {
            Some(
                MarketView {
                    product_code: required::<ProductCode>(j, "product_code"@)->0,
                    alias: optional::<String>(j, "alias"@)->0,
                    market_type: required::<MarketType>(j, "market_type"@)->0,
                },
            )
        } else {
            None
        }
    }

    fn from_json(j: &Json) -> (r: Option<Market>) {
        let product_code = require::<ProductCode>(j, "product_code")?;
        let alias = optionally::<String>(j, "alias")?;
        let market_type = require::<MarketType>(j, "market_type")?;
        Some(Market { product_code, alias, market_type })
    }
}

/// The latest prices and sizes of a product.
#[derive(Clone, Copy, Debug, PartialEq, Eq)]
pub struct Ticker {
    pub product_code: ProductCode,
    pub state: State,
    pub timestamp: Timestamp,
    pub tick_id: Decimal,
    pub best_bid: Decimal,
    pub best_ask: Decimal,
    pub best_bid_size: Decimal,
    pub best_ask_size: Decimal,
    pub total_bid_depth: Decimal,
    pub total_ask_depth: Decimal,
    pub market_bid_size: Decimal,
    pub market_ask_size: Decimal,
    /// The price of the last trade.
    pub ltp: Decimal,
    pub volume: Decimal,
    pub volume_by_product: Decimal,
}

impl DeepView for Ticker {
    type V = Ticker;

    open spec fn deep_view(&self) -> Ticker {
        *self
    }
}

impl FromJson for Ticker {
    open spec fn decoded(j: JsonValue) -> Option<Ticker> {
        if required::<ProductCode>(j, "product_code"@) is Some
            && required::<State>(j, "state"@) is Some
            && required::<Timestamp>(j, "timestamp"@) is Some
            && required::<Decimal>(j, "tick_id"@) is Some
            && required::<Decimal>(j, "best_bid"@) is Some
            && required::<Decimal>(j, "best_ask"@) is Some
            && required::<Decimal>(j, "best_bid_size"@) is Some
            && required::<Decimal>(j, "best_ask_size"@) is Some
            && required::<Decimal>(j, "total_bid_depth"@) is Some
            && required::<Decimal>(j, "total_ask_depth"@) is Some
            && required::<Decimal>(j, "market_bid_size"@) is Some
            && required::<Decimal>(j, "market_ask_size"@) is Some
            && required::<Decimal>(j, "ltp"@) is Some
            && required::<Decimal>(j, "volume"@) is Some
            && required::<Decimal>(j, "volume_by_product"@) is Some {
            Some(
                Ticker {
                    product_code: required::<ProductCode>(j, "product_code"@)->0,
                    state: required::<State>(j, "state"@)->0,
                    timestamp: required::<Timestamp>(j, "timestamp"@)->0,
                    tick_id: required::<Decimal>(j, "tick_id"@)->0,
                    best_bid: required::<Decimal>(j, "best_bid"@)->0,
                    best_ask: required::<Decimal>(j, "best_ask"@)->0,
                    best_bid_size: required::<Decimal>(j, "best_bid_size"@)->0,
                    best_ask_size: required::<Decimal>(j, "best_ask_size"@)->0,
                    total_bid_depth: required::<Decimal>(j, "total_bid_depth"@)->0,
                    total_ask_depth: required::<Decimal>(j, "total_ask_depth"@)->0,
                    market_bid_size: required::<Decimal>(j, "market_bid_size"@)->0,
                    market_ask_size: required::<Decimal>(j, "market_ask_size"@)->0,
                    ltp: required::<Decimal>(j, "ltp"@)->0,
                    volume: required::<Decimal>(j, "volume"@)->0,
                    volume_by_product: required::<Decimal>(j, "volume_by_product"@)->0,
                },
            )
        } else {
            None
        }
    }

    fn from_json(j: &Json) -> (r: Option<Ticker>) {
        let product_code = require::<ProductCode>(j, "product_code")?;
        let state = require::<State>(j, "state")?;
        let timestamp = require::<Timestamp>(j, "timestamp")?;
        let tick_id = require::<Decimal>(j, "tick_id")?;
        let best_bid = require::<Decimal>(j, "best_bid")?;
        let best_ask = require::<Decimal>(j, "best_ask")?;
        let best_bid_size = require::<Decimal>(j, "best_bid_size")?;
        let best_ask_size = require::<Decimal>(j, "best_ask_size")?;
        let total_bid_depth = require::<Decimal>(j, "total_bid_depth")?;
        let total_ask_depth = require::<Decimal>(j, "total_ask_depth")?;
        let market_bid_size = require::<Decimal>(j, "market_bid_size")?;
        let market_ask_size = require::<Decimal>(j, "market_ask_size")?;
        let ltp = require::<Decimal>(j, "ltp")?;
        let volume = require::<Decimal>(j, "volume")?;
        let volume_by_product = require::<Decimal>(j, "volume_by_product")?;
        Some(
            Ticker {
                product_code,
                state,
                timestamp,
                tick_id,
                best_bid,
                best_ask,
                best_bid_size,
                best_ask_size,
                total_bid_depth,
                total_ask_depth,
                market_bid_size,
                market_ask_size,
                ltp,
                volume,
                volume_by_product,
            },
        )
    }
}

/// One trade.
#[derive(Clone, Debug, PartialEq, Eq)]
pub struct Execution {
    pub id: u64,
    pub side: Side,
    pub price: Decimal,
    pub size: Decimal,
    pub exec_date: Timestamp,
    pub buy_child_order_acceptance_id: String,
    pub sell_child_order_acceptance_id: String,
}

/// The model of a [`Execution`].
pub struct ExecutionView {
    pub id: u64,
    pub side: Side,
    pub price: Decimal,
    pub size: Decimal,
    pub exec_date: Timestamp,
    pub buy_child_order_acceptance_id: Seq<char>,
    pub sell_child_order_acceptance_id: Seq<char>,
}

impl DeepView for Execution {
    type V = ExecutionView;

    open spec fn deep_view(&self) -> ExecutionView {
        ExecutionView {
            id: self.id,
            side: self.side,
            price: self.price,
            size: self.size,
            exec_date: self.exec_date,
            buy_child_order_acceptance_id: self.buy_child_order_acceptance_id@,
            sell_child_order_acceptance_id: self.sell_child_order_acceptance_id@,
        }
    }
}

impl FromJson for Execution {
    open spec fn decoded(j: JsonValue) -> Option<ExecutionView> {
        if required::<u64>(j, "id"@) is Some
            && required::<Side>(j, "side"@) is Some
            && required::<Decimal>(j, "price"@) is Some
            && required::<Decimal>(j, "size"@) is Some
            && required::<Timestamp>(j, "exec_date"@) is Some
            && required::<String>(j, "buy_child_order_acceptance_id"@) is Some
            && required::<String>(j, "sell_child_order_acceptance_id"@) is Some {
            Some(
                ExecutionView {
                    id: required::<u64>(j, "id"@)->0,
                    side: required::<Side>(j, "side"@)->0,
                    price: required::<Decimal>(j, "price"@)->0,
                    size: required::<Decimal>(j, "size"@)->0,
                    exec_date: required::<Timestamp>(j, "exec_date"@)->0,
                    buy_child_order_acceptance_id: required::<String>(j, "buy_child_order_acceptance_id"@)->0,
                    sell_child_order_acceptance_id: required::<String>(j, "sell_child_order_acceptance_id"@)->0,
                },
            )
        } else {
            None
        }
    }

    fn from_json(j: &Json) -> (r: Option<Execution>) {
        let id = require::<u64>(j, "id")?;
        let side = require::<Side>(j, "side")?;
        let price = require::<Decimal>(j, "price")?;
        let size = require::<Decimal>(j, "size")?;
        let exec_date = require::<Timestamp>(j, "exec_date")?;
        let buy_child_order_acceptance_id = require::<String>(j, "buy_child_order_acceptance_id")?;
        let sell_child_order_acceptance_id = require::<String>(j, "sell_child_order_acceptance_id")?;
        Some(
            Execution {
                id,
                side,
                price,
                size,
                exec_date,
                buy_child_order_acceptance_id,
                sell_child_order_acceptance_id,
            },
        )
    }
}

/// What the exchange adds to the state of a board.
#[derive(Clone, Debug, PartialEq, Eq)]
pub struct BoardStateData {
    pub special_quotation: String,
}

/// The model of a [`BoardStateData`].
pub struct BoardStateDataView {
    pub special_quotation: Seq<char>,
}

impl DeepView for BoardStateData {
    type V = BoardStateDataView;

    open spec fn deep_view(&self) -> BoardStateDataView {
        BoardStateDataView {
            special_quotation: self.special_quotation@,
        }
    }
}

impl FromJson for BoardStateData {
    open spec fn decoded(j: JsonValue) -> Option<BoardStateDataView> {
        if required::<String>(j, "special_quotation"@) is Some {
            Some(
                BoardStateDataView {
                    special_quotation: required::<String>(j, "special_quotation"@)->0,
                },
            )
        } else {
            None
        }
    }

    fn from_json(j: &Json) -> (r: Option<BoardStateData>) {
        let special_quotation = require::<String>(j, "special_quotation")?;
        Some(BoardStateData { special_quotation })
    }
}

/// The state of the board of a product, and how busy the exchange is.
#[derive(Clone, Debug, PartialEq, Eq)]
pub struct BoardState {
    pub health: Health,
    pub state: State,
    /// More on the state, where the exchange gives it.
    pub data: Option<BoardStateData>,
}

/// The model of a [`BoardState`].
pub struct BoardStateView {
    pub health: Health,
    pub state: State,
    pub data: Option<BoardStateDataView>,
}

impl DeepView for BoardState {
    type V = BoardStateView;

    open spec fn deep_view(&self) -> BoardStateView {
        BoardStateView {
            health: self.health,
            state: self.state,
            data: deep_of(self.data),
        }
    }
}

impl FromJson for BoardState {
    open spec fn decoded(j: JsonValue) -> Option<BoardStateView> {
        if required::<Health>(j, "health"@) is Some
            && required::<State>(j, "state"@) is Some
            && optional::<BoardStateData>(j, "data"@) is Some {
            Some(
                BoardStateView {
                    health: required::<Health>(j, "health"@)->0,
                    state: required::<State>(j, "state"@)->0,
                    data: optional::<BoardStateData>(j, "data"@)->0,
                },
            )
        } else {
            None
        }
    }

    fn from_json(j: &Json) -> (r: Option<BoardState>) {
        let health = require::<Health>(j, "health")?;
        let state = require::<State>(j, "state")?;
        let data = optionally::<BoardStateData>(j, "data")?;
        Some(BoardState { health, state, data })
    }
}

/// How busy the exchange is.
#[derive(Clone, Copy, Debug, PartialEq, Eq)]
pub struct BoardHealth {
    pub status: Health,
}

impl DeepView for BoardHealth {
    type V = BoardHealth;

    open spec fn deep_view(&self) -> BoardHealth {
        *self
    }
}

impl FromJson for BoardHealth {
    open spec fn decoded(j: JsonValue) -> Option<BoardHealth> {
        if required::<Health>(j, "status"@) is Some {
            Some(
                BoardHealth {
                    status: required::<Health>(j, "status"@)->0,
                },
            )
        } else {
            None
        }
    }

    fn from_json(j: &Json) -> (r: Option<BoardHealth>) {
        let status = require::<Health>(j, "status")?;
        Some(BoardHealth { status })
    }
}

/// What the account holds of one currency.
#[derive(Clone, Debug, PartialEq, Eq)]
pub struct Balance {
    pub currency_code: String,
    pub amount: Decimal,
    pub available: Decimal,
}

/// The model of a [`Balance`].
pub struct BalanceView {
    pub currency_code: Seq<char>,
    pub amount: Decimal,
    pub available: Decimal,
}

impl DeepView for Balance {
    type V = BalanceView;

    open spec fn deep_view(&self) -> BalanceView {
        BalanceView {
            currency_code: self.currency_code@,
            amount: self.amount,
            available: self.available,
        }
    }
}

impl FromJson for Balance {
    open spec fn decoded(j: JsonValue) -> Option<BalanceView> {
        if required::<String>(j, "currency_code"@) is Some
            && required::<Decimal>(j, "amount"@) is Some
            && required::<Decimal>(j, "available"@) is Some {
            Some(
                BalanceView {
                    currency_code: required::<String>(j, "currency_code"@)->0,
                    amount: required::<Decimal>(j, "amount"@)->0,
                    available: required::<Decimal>(j, "available"@)->0,
                },
            )
        } else {
            None
        }
    }

    fn from_json(j: &Json) -> (r: Option<Balance>) {
        let currency_code = require::<String>(j, "currency_code")?;
        let amount = require::<Decimal>(j, "amount")?;
        let available = require::<Decimal>(j, "available")?;
        Some(Balance { currency_code, amount, available })
    }
}

/// The collateral of the account.
#[derive(Clone, Copy, Debug, PartialEq, Eq)]
pub struct Collateral {
    pub collateral: Decimal,
    pub open_position_pnl: Decimal,
    pub require_collateral: Decimal,
    /// The ratio of collateral held to collateral required.
    pub keep_rate: Decimal,
    pub margin_call_amount: Decimal,
    /// When a margin call is due; `null` on the wire where none is.
    pub margin_call_due_date: Option<Timestamp>,
}

impl DeepView for Collateral {
    type V = Collateral;

    open spec fn deep_view(&self) -> Collateral {
        *self
    }
}

impl FromJson for Collateral {
    open spec fn decoded(j: JsonValue) -> Option<Collateral> {
        if required::<Decimal>(j, "collateral"@) is Some
            && required::<Decimal>(j, "open_position_pnl"@) is Some
            && required::<Decimal>(j, "require_collateral"@) is Some
            && required::<Decimal>(j, "keep_rate"@) is Some
            && required::<Decimal>(j, "margin_call_amount"@) is Some
            && required::<Option<Timestamp>>(j, "margin_call_due_date"@) is Some {
            Some(
                Collateral {
                    collateral: required::<Decimal>(j, "collateral"@)->0,
                    open_position_pnl: required::<Decimal>(j, "open_position_pnl"@)->0,
                    require_collateral: required::<Decimal>(j, "require_collateral"@)->0,
                    keep_rate: required::<Decimal>(j, "keep_rate"@)->0,
                    margin_call_amount: required::<Decimal>(j, "margin_call_amount"@)->0,
                    margin_call_due_date: required::<Option<Timestamp>>(j, "margin_call_due_date"@)->0,
                },
            )
        } else {
            None
        }
    }

    fn from_json(j: &Json) -> (r: Option<Collateral>) {
        let collateral = require::<Decimal>(j, "collateral")?;
        let open_position_pnl = require::<Decimal>(j, "open_position_pnl")?;
        let require_collateral = require::<Decimal>(j, "require_collateral")?;
        let keep_rate = require::<Decimal>(j, "keep_rate")?;
        let margin_call_amount = require::<Decimal>(j, "margin_call_amount")?;
        let margin_call_due_date = require::<Option<Timestamp>>(j, "margin_call_due_date")?;
        Some(
            Collateral {
                collateral,
                open_position_pnl,
                require_collateral,
                keep_rate,
                margin_call_amount,
                margin_call_due_date,
            },
        )
    }
}

/// The collateral that the account holds in one currency.
#[derive(Clone, Debug, PartialEq, Eq)]
pub struct CollateralAccount {
    pub currency_code: String,
    pub amount: Decimal,
}

/// The model of a [`CollateralAccount`].
pub struct CollateralAccountView {
    pub currency_code: Seq<char>,
    pub amount: Decimal,
}

impl DeepView for CollateralAccount {
    type V = CollateralAccountView;

    open spec fn deep_view(&self) -> CollateralAccountView {
        CollateralAccountView {
            currency_code: self.currency_code@,
            amount: self.amount,
        }
    }
}

impl FromJson for CollateralAccount {
    open spec fn decoded(j: JsonValue) -> Option<CollateralAccountView> {
        if required::<String>(j, "currency_code"@) is Some
            && required::<Decimal>(j, "amount"@) is Some {
            Some(
                CollateralAccountView {
                    currency_code: required::<String>(j, "currency_code"@)->0,
                    amount: required::<Decimal>(j, "amount"@)->0,
                },
            )
        } else {
            None
        }
    }

    fn from_json(j: &Json) -> (r: Option<CollateralAccount>) {
        let currency_code = require::<String>(j, "currency_code")?;
        let amount = require::<Decimal>(j, "amount")?;
        Some(CollateralAccount { currency_code, amount })
    }
}

/// A child order as the exchange lists it. The kind of the order and its
/// price are members of the same object as the rest.
#[derive(Clone, Debug, PartialEq, Eq)]
pub struct ChildOrder {
    pub id: u64,
    pub child_order_id: String,
    pub product_code: ProductCode,
    pub side: Side,
    pub child_order_type: ChildOrderType,
    pub average_price: Decimal,
    pub size: Decimal,
    pub child_order_state: OrderState,
    pub expire_date: Timestamp,
    pub child_order_date: Timestamp,
    pub child_order_acceptance_id: String,
    pub outstanding_size: Decimal,
    pub cancel_size: Decimal,
    pub executed_size: Decimal,
    pub total_commission: Decimal,
    pub time_in_force: TimeInForce,
}

/// The model of a [`ChildOrder`].
pub struct ChildOrderView {
    pub id: u64,
    pub child_order_id: Seq<char>,
    pub product_code: ProductCode,
    pub side: Side,
    pub child_order_type: ChildOrderType,
    pub average_price: Decimal,
    pub size: Decimal,
    pub child_order_state: OrderState,
    pub expire_date: Timestamp,
    pub child_order_date: Timestamp,
    pub child_order_acceptance_id: Seq<char>,
    pub outstanding_size: Decimal,
    pub cancel_size: Decimal,
    pub executed_size: Decimal,
    pub total_commission: Decimal,
    pub time_in_force: TimeInForce,
}

impl DeepView for ChildOrder {
    type V = ChildOrderView;

    open spec fn deep_view(&self) -> ChildOrderView {
        ChildOrderView {
            id: self.id,
            child_order_id: self.child_order_id@,
            product_code: self.product_code,
            side: self.side,
            child_order_type: self.child_order_type,
            average_price: self.average_price,
            size: self.size,
            child_order_state: self.child_order_state,
            expire_date: self.expire_date,
            child_order_date: self.child_order_date,
            child_order_acceptance_id: self.child_order_acceptance_id@,
            outstanding_size: self.outstanding_size,
            cancel_size: self.cancel_size,
            executed_size: self.executed_size,
            total_commission: self.total_commission,
            time_in_force: self.time_in_force,
        }
    }
}

impl FromJson for ChildOrder {
    open spec fn decoded(j: JsonValue) -> Option<ChildOrderView> {
        if required::<u64>(j, "id"@) is Some
            && required::<String>(j, "child_order_id"@) is Some
            && required::<ProductCode>(j, "product_code"@) is Some
            && required::<Side>(j, "side"@) is Some
            && ChildOrderType::decoded(j) is Some
            && required::<Decimal>(j, "average_price"@) is Some
            && required::<Decimal>(j, "size"@) is Some
            && required::<OrderState>(j, "child_order_state"@) is Some
            && required::<Timestamp>(j, "expire_date"@) is Some
            && required::<Timestamp>(j, "child_order_date"@) is Some
            && required::<String>(j, "child_order_acceptance_id"@) is Some
            && required::<Decimal>(j, "outstanding_size"@) is Some
            && required::<Decimal>(j, "cancel_size"@) is Some
            && required::<Decimal>(j, "executed_size"@) is Some
            && required::<Decimal>(j, "total_commission"@) is Some
            && required::<TimeInForce>(j, "time_in_force"@) is Some {
            Some(
                ChildOrderView {
                    id: required::<u64>(j, "id"@)->0,
                    child_order_id: required::<String>(j, "child_order_id"@)->0,
                    product_code: required::<ProductCode>(j, "product_code"@)->0,
                    side: required::<Side>(j, "side"@)->0,
                    child_order_type: ChildOrderType::decoded(j)->0,
                    average_price: required::<Decimal>(j, "average_price"@)->0,
                    size: required::<Decimal>(j, "size"@)->0,
                    child_order_state: required::<OrderState>(j, "child_order_state"@)->0,
                    expire_date: required::<Timestamp>(j, "expire_date"@)->0,
                    child_order_date: required::<Timestamp>(j, "child_order_date"@)->0,
                    child_order_acceptance_id: required::<String>(j, "child_order_acceptance_id"@)->0,
                    outstanding_size: required::<Decimal>(j, "outstanding_size"@)->0,
                    cancel_size: required::<Decimal>(j, "cancel_size"@)->0,
                    executed_size: required::<Decimal>(j, "executed_size"@)->0,
                    total_commission: required::<Decimal>(j, "total_commission"@)->0,
                    time_in_force: required::<TimeInForce>(j, "time_in_force"@)->0,
                },
            )
        } else {
            None
        }
    }

    fn from_json(j: &Json) -> (r: Option<ChildOrder>) {
        let id = require::<u64>(j, "id")?;
        let child_order_id = require::<String>(j, "child_order_id")?;
        let product_code = require::<ProductCode>(j, "product_code")?;
        let side = require::<Side>(j, "side")?;
        let child_order_type = ChildOrderType::from_json(j)?;
        let average_price = require::<Decimal>(j, "average_price")?;
        let size = require::<Decimal>(j, "size")?;
        let child_order_state = require::<OrderState>(j, "child_order_state")?;
        let expire_date = require::<Timestamp>(j, "expire_date")?;
        let child_order_date = require::<Timestamp>(j, "child_order_date")?;
        let child_order_acceptance_id = require::<String>(j, "child_order_acceptance_id")?;
        let outstanding_size = require::<Decimal>(j, "outstanding_size")?;
        let cancel_size = require::<Decimal>(j, "cancel_size")?;
        let executed_size = require::<Decimal>(j, "executed_size")?;
        let total_commission = require::<Decimal>(j, "total_commission")?;
        let time_in_force = require::<TimeInForce>(j, "time_in_force")?;
        Some(
            ChildOrder {
                id,
                child_order_id,
                product_code,
                side,
                child_order_type,
                average_price,
                size,
                child_order_state,
                expire_date,
                child_order_date,
                child_order_acceptance_id,
                outstanding_size,
                cancel_size,
                executed_size,
                total_commission,
                time_in_force,
            },
        )
    }
}

/// An open position.
#[derive(Clone, Copy, Debug, PartialEq, Eq)]
pub struct Position {
    pub product_code: ProductCode,
    pub side: Side,
    pub price: Decimal,
    pub size: Decimal,
    pub commission: Decimal,
    pub swap_point_accumulate: Decimal,
    pub require_collateral: Decimal,
    pub open_date: Timestamp,
    pub leverage: Decimal,
    pub pnl: Decimal,
    pub sfd: Decimal,
}

impl DeepView for Position {
    type V = Position;

    open spec fn deep_view(&self) -> Position {
        *self
    }
}

impl FromJson for Position {
    open spec fn decoded(j: JsonValue) -> Option<Position> {
        if required::<ProductCode>(j, "product_code"@) is Some
            && required::<Side>(j, "side"@) is Some
            && required::<Decimal>(j, "price"@) is Some
            && required::<Decimal>(j, "size"@) is Some
            && required::<Decimal>(j, "commission"@) is Some
            && required::<Decimal>(j, "swap_point_accumulate"@) is Some
            && required::<Decimal>(j, "require_collateral"@) is Some
            && required::<Timestamp>(j, "open_date"@) is Some
            && required::<Decimal>(j, "leverage"@) is Some
            && required::<Decimal>(j, "pnl"@) is Some
            && required::<Decimal>(j, "sfd"@) is Some {
            Some(
                Position {
                    product_code: required::<ProductCode>(j, "product_code"@)->0,
                    side: required::<Side>(j, "side"@)->0,
                    price: required::<Decimal>(j, "price"@)->0,
                    size: required::<Decimal>(j, "size"@)->0,
                    commission: required::<Decimal>(j, "commission"@)->0,
                    swap_point_accumulate: required::<Decimal>(j, "swap_point_accumulate"@)->0,
                    require_collateral: required::<Decimal>(j, "require_collateral"@)->0,
                    open_date: required::<Timestamp>(j, "open_date"@)->0,
                    leverage: required::<Decimal>(j, "leverage"@)->0,
                    pnl: required::<Decimal>(j, "pnl"@)->0,
                    sfd: required::<Decimal>(j, "sfd"@)->0,
                },
            )
        } else {
            None
        }
    }

    fn from_json(j: &Json) -> (r: Option<Position>) {
        let product_code = require::<ProductCode>(j, "product_code")?;
        let side = require::<Side>(j, "side")?;
        let price = require::<Decimal>(j, "price")?;
        let size = require::<Decimal>(j, "size")?;
        let commission = require::<Decimal>(j, "commission")?;
        let swap_point_accumulate = require::<Decimal>(j, "swap_point_accumulate")?;
        let require_collateral = require::<Decimal>(j, "require_collateral")?;
        let open_date = require::<Timestamp>(j, "open_date")?;
        let leverage = require::<Decimal>(j, "leverage")?;
        let pnl = require::<Decimal>(j, "pnl")?;
        let sfd = require::<Decimal>(j, "sfd")?;
        Some(
            Position {
                product_code,
                side,
                price,
                size,
                commission,
                swap_point_accumulate,
                require_collateral,
                open_date,
                leverage,
                pnl,
                sfd,
            },
        )
    }
}
} // verus!
