//! The exchange-agnostic domain model.
//!
//! Every exchange-protocol quirk is a closed tagged union, so invalid
//! combinations are unrepresentable. Monetary fields are exact
//! `Decimal` values, never raw wire strings. For each type that
//! carries text, a ghost model (`..Model`) abstracts its strings to
//! character sequences; the wire codec's contracts are stated over
//! those models.

use vstd::prelude::*;
use crate::decimal::Decimal;

verus! {

/// A tradable pair and its trading rules.
#[derive(Clone, Debug)]
pub struct Product {
    pub id: String,
    pub display_name: String,
    pub quote_currency: String,
    pub base_currency: String,
    pub base_increment: Decimal,
    pub quote_increment: Decimal,
    pub base_min_size: Decimal,
    pub base_max_size: Decimal,
    pub min_market_funds: String,
    pub max_market_funds: String,
    pub status: String,
    pub status_message: String,
    pub cancel_only: bool,
    pub limit_only: bool,
    pub post_only: bool,
    pub trading_disabled: bool,
}

impl Product {
    /// Increments and size bounds are never negative.
    pub open spec fn wf(self) -> bool {
        &&& self.base_increment.wf() && self.base_increment.is_nonneg()
        &&& self.quote_increment.wf() && self.quote_increment.is_nonneg()
        &&& self.base_min_size.wf() && self.base_min_size.is_nonneg()
        &&& self.base_max_size.wf() && self.base_max_size.is_nonneg()
    }
}

/// A balance record. `balance == available + hold` is expected of the
/// exchange but reported, not enforced here.
#[derive(Clone, Debug)]
pub struct Account {
    pub id: String,
    pub balance: Decimal,
    pub available: Decimal,
    pub hold: Decimal,
    pub profile_id: String,
}

/// An OHLCV bar keyed by its epoch time.
#[derive(Clone, Copy, Debug, PartialEq, Eq, Structural)]
pub struct Candle {
    pub time: i64,
    pub low: Decimal,
    pub high: Decimal,
    pub open: Decimal,
    pub close: Decimal,
    pub volume: Decimal,
}

/// An executed trade.
#[derive(Clone, Debug)]
pub struct Trade {
    pub trade_id: i64,
    pub time: String,
    pub size: String,
    pub price: Decimal,
    pub side: String,
}

/// The latest market snapshot for a product.
#[derive(Clone, Debug)]
pub struct Ticker {
    pub trade_id: i64,
    pub price: Decimal,
    pub size: Decimal,
    pub bid: Decimal,
    pub ask: Decimal,
    pub volume: Decimal,
    pub time: String,
}

/// The ghost model of a `Ticker`: its text abstracted to characters.
pub struct TickerModel {
    pub trade_id: i64,
    pub price: Decimal,
    pub size: Decimal,
    pub bid: Decimal,
    pub ask: Decimal,
    pub volume: Decimal,
    pub time: Seq<char>,
}

impl View for Ticker {
    type V = TickerModel;

    open spec fn view(&self) -> TickerModel {
        TickerModel {
            trade_id: self.trade_id,
            price: self.price,
            size: self.size,
            bid: self.bid,
            ask: self.ask,
            volume: self.volume,
            time: self.time@,
        }
    }
}

impl TickerModel {
    pub open spec fn wf(self) -> bool {
        self.price.wf() && self.size.wf() && self.bid.wf() && self.ask.wf() && self.volume.wf()
    }
}

/// An order book snapshot at one depth level, best bids and asks
/// first. `sequence` strictly increases across successive snapshots
/// and deltas of one product.
#[derive(Clone, Debug)]
pub struct Book<T> {
    pub sequence: usize,
    pub bids: Vec<T>,
    pub asks: Vec<T>,
}

/// The capability marker of a book record type: the depth level it
/// belongs to.
pub trait BookLevel {
    spec fn spec_level() -> u8;

    fn level() -> (r: u8)
        ensures
            r == Self::spec_level(),
    ;
}

/// Best bid/ask only.
#[derive(Clone, Copy, Debug, PartialEq, Eq, Structural)]
pub struct BookRecordL1 {
    pub price: Decimal,
    pub size: Decimal,
    pub num_orders: usize,
}

impl BookLevel for BookRecordL1 {
    open spec fn spec_level() -> u8 {
        1
    }

    fn level() -> u8 {
        1
    }
}

/// Aggregated by price.
#[derive(Clone, Copy, Debug, PartialEq, Eq, Structural)]
pub struct BookRecordL2 {
    pub price: Decimal,
    pub size: Decimal,
    pub num_orders: usize,
}

impl BookLevel for BookRecordL2 {
    open spec fn spec_level() -> u8 {
        2
    }

    fn level() -> u8 {
        2
    }
}

/// Full depth, one record per resting order.
#[derive(Clone, Debug)]
pub struct BookRecordL3 {
    pub price: Decimal,
    pub size: Decimal,
    pub order_id: String,
}

impl BookLevel for BookRecordL3 {
    open spec fn spec_level() -> u8 {
        3
    }

    fn level() -> u8 {
        3
    }
}

/// The side of an order or trade.
#[derive(Clone, Copy, Debug, PartialEq, Eq, Structural)]
pub enum OrderSide {
    Buy,
    Sell,
}

/// Order lifetime policy; only `GTT` carries a payload.
#[derive(Clone, Debug)]
pub enum OrderTimeInForce {
    GTC,
    GTT { expire_time: String },
    IOC,
    FOK,
}

/// The ghost model of `OrderTimeInForce`.
pub enum OrderTimeInForceModel {
    GTC,
    GTT { expire_time: Seq<char> },
    IOC,
    FOK,
}

impl View for OrderTimeInForce {
    type V = OrderTimeInForceModel;

    open spec fn view(&self) -> OrderTimeInForceModel {
        match self {
            OrderTimeInForce::GTC => OrderTimeInForceModel::GTC,
            OrderTimeInForce::GTT { expire_time } => OrderTimeInForceModel::GTT {
                expire_time: expire_time@,
            },
            OrderTimeInForce::IOC => OrderTimeInForceModel::IOC,
            OrderTimeInForce::FOK => OrderTimeInForceModel::FOK,
        }
    }
}

/// The lifecycle state an exchange reports for an order.
#[derive(Clone, Copy, Debug, PartialEq, Eq, Structural)]
pub enum OrderStatus {
    Open,
    Done,
    Pending,
    Active,
    Rejected,
}

/// The trigger kind of a stop order.
#[derive(Clone, Copy, Debug, PartialEq, Eq, Structural)]
pub enum OrderStopType {
    Loss,
    Entry,
}

/// An optional stop specification, independent of the order type.
#[derive(Clone, Copy, Debug, PartialEq, Eq, Structural)]
pub struct OrderStop {
    pub stop_price: Decimal,
    pub _type: OrderStopType,
}

impl OrderStop {
    pub open spec fn wf(self) -> bool {
        self.stop_price.wf()
    }
}

/// The type variant of an exchange-reported order.
#[derive(Clone, Debug)]
pub enum OrderType {
    Limit { size: Decimal, price: Decimal, time_in_force: OrderTimeInForce },
    Market { size: Decimal, funds: Decimal },
}

/// The ghost model of `OrderType`.
pub enum OrderTypeModel {
    Limit { size: Decimal, price: Decimal, time_in_force: OrderTimeInForceModel },
    Market { size: Decimal, funds: Decimal },
}

impl View for OrderType {
    type V = OrderTypeModel;

    open spec fn view(&self) -> OrderTypeModel {
        match self {
            OrderType::Limit { size, price, time_in_force } => OrderTypeModel::Limit {
                size: *size,
                price: *price,
                time_in_force: time_in_force@,
            },
            OrderType::Market { size, funds } => OrderTypeModel::Market {
                size: *size,
                funds: *funds,
            },
        }
    }
}

impl OrderTypeModel {
    pub open spec fn wf(self) -> bool {
        match self {
            OrderTypeModel::Limit { size, price, .. } => size.wf() && price.wf(),
            OrderTypeModel::Market { size, funds } => size.wf() && funds.wf(),
        }
    }
}

/// An exchange-reported order.
#[derive(Clone, Debug)]
pub struct Order {
    pub id: String,
    pub product_id: String,
    pub side: OrderSide,
    pub stp: Option<String>,
    pub _type: OrderType,
    pub post_only: bool,
    pub created_at: String,
    pub fill_fees: Decimal,
    pub filled_size: Decimal,
    pub executed_value: Decimal,
    pub status: OrderStatus,
    pub settled: bool,
    pub stop: Option<OrderStop>,
}

/// The ghost model of an `Order`.
pub struct OrderModel {
    pub id: Seq<char>,
    pub product_id: Seq<char>,
    pub side: OrderSide,
    pub stp: Option<Seq<char>>,
    pub _type: OrderTypeModel,
    pub post_only: bool,
    pub created_at: Seq<char>,
    pub fill_fees: Decimal,
    pub filled_size: Decimal,
    pub executed_value: Decimal,
    pub status: OrderStatus,
    pub settled: bool,
    pub stop: Option<OrderStop>,
}

impl View for Order {
    type V = OrderModel;

    open spec fn view(&self) -> OrderModel {
        OrderModel {
            id: self.id@,
            product_id: self.product_id@,
            side: self.side,
            stp: match self.stp {
                Option::Some(ref s) => Option::Some(s@),
                Option::None => Option::None,
            },
            _type: self._type@,
            post_only: self.post_only,
            created_at: self.created_at@,
            fill_fees: self.fill_fees,
            filled_size: self.filled_size,
            executed_value: self.executed_value,
            status: self.status,
            settled: self.settled,
            stop: self.stop,
        }
    }
}

impl OrderModel {
    pub open spec fn wf(self) -> bool {
        &&& self._type.wf()
        &&& self.fill_fees.wf()
        &&& self.filled_size.wf()
        &&& self.executed_value.wf()
        &&& (self.stop matches Option::Some(st) ==> st.wf())
    }
}

/// The `Market` request variant: exactly one of a base size or a
/// quote funds amount, never both and never neither.
#[derive(Clone, Copy, Debug, PartialEq, Eq, Structural)]
pub enum OrderRequestMarketType {
    Size { size: Decimal },
    Funds { funds: Decimal },
}

impl OrderRequestMarketType {
    pub open spec fn wf(self) -> bool {
        match self {
            OrderRequestMarketType::Size { size } => size.wf(),
            OrderRequestMarketType::Funds { funds } => funds.wf(),
        }
    }
}

/// The type variant of a caller-constructed order request.
#[derive(Clone, Debug)]
pub enum OrderRequestType {
    Limit {
        price: Decimal,
        size: Decimal,
        post_only: bool,
        time_in_force: Option<OrderTimeInForce>,
    },
    Market { _type: OrderRequestMarketType },
}

/// The ghost model of `OrderRequestType`.
pub enum OrderRequestTypeModel {
    Limit {
        price: Decimal,
        size: Decimal,
        post_only: bool,
        time_in_force: Option<OrderTimeInForceModel>,
    },
    Market { _type: OrderRequestMarketType },
}

impl View for OrderRequestType {
    type V = OrderRequestTypeModel;

    open spec fn view(&self) -> OrderRequestTypeModel {
        match self {
            OrderRequestType::Limit { price, size, post_only, time_in_force } => {
                OrderRequestTypeModel::Limit {
                    price: *price,
                    size: *size,
                    post_only: *post_only,
                    time_in_force: match time_in_force {
                        Option::Some(t) => Option::Some(t@),
                        Option::None => Option::None,
                    },
                }
            },
            OrderRequestType::Market { _type } => OrderRequestTypeModel::Market { _type: *_type },
        }
    }
}

impl OrderRequestTypeModel {
    pub open spec fn wf(self) -> bool {
        match self {
            OrderRequestTypeModel::Limit { price, size, .. } => price.wf() && size.wf(),
            OrderRequestTypeModel::Market { _type } => _type.wf(),
        }
    }
}

/// A caller-constructed order intent.
#[derive(Clone, Debug)]
pub struct OrderRequest {
    pub side: OrderSide,
    pub client_oid: Option<String>,
    pub product_id: String,
    pub _type: OrderRequestType,
    pub stop: Option<OrderStop>,
}

/// The ghost model of an `OrderRequest`.
pub struct OrderRequestModel {
    pub side: OrderSide,
    pub client_oid: Option<Seq<char>>,
    pub product_id: Seq<char>,
    pub _type: OrderRequestTypeModel,
    pub stop: Option<OrderStop>,
}

impl View for OrderRequest {
    type V = OrderRequestModel;

    open spec fn view(&self) -> OrderRequestModel {
        OrderRequestModel {
            side: self.side,
            client_oid: match self.client_oid {
                Option::Some(ref s) => Option::Some(s@),
                Option::None => Option::None,
            },
            product_id: self.product_id@,
            _type: self._type@,
            stop: self.stop,
        }
    }
}

impl OrderRequestModel {
    pub open spec fn wf(self) -> bool {
        &&& self._type.wf()
        &&& (self.stop matches Option::Some(st) ==> st.wf())
    }
}

} // verus!
