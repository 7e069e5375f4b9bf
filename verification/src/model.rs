use vstd::prelude::*;

verus! {

/// Which side of the book an order or a fill stands on.
#[derive(Clone, Copy, Debug, PartialEq, Eq, Structural)]
pub enum Side {
    Buy,
    Sell,
}

/// The exchange-agnostic order status. Every backend-native status must map
/// onto exactly one of these; an unmapped native status is rejected, never
/// defaulted.
#[derive(Clone, Copy, Debug, PartialEq, Eq, Structural)]
pub enum OrderStatus {
    Active,
    Filled,
    Open,
    Pending,
    Rejected,
    Canceled,
}

/// Whether a fill added liquidity to the book (maker) or removed it (taker).
#[derive(Clone, Copy, Debug, PartialEq, Eq, Structural)]
pub enum Liquidity {
    Maker,
    Taker,
}

/// The abstract candle interval a caller may request. A backend supports only
/// a subset; an unsupported interval fails the request before any network
/// call.
#[derive(Clone, Copy, Debug, PartialEq, Eq, Structural)]
pub enum Interval {
    OneMinute,
    ThreeMinutes,
    FiveMinutes,
    FifteenMinutes,
    ThirtyMinutes,
    OneHour,
    TwoHours,
    FourHours,
    SixHours,
    EightHours,
    TwelveHours,
    OneDay,
    ThreeDays,
    OneWeek,
    OneMonth,
}

/// Opaque cursor state for paging through a list endpoint. `before` and
/// `after` are backend-issued markers handed back by the caller; `start_time`
/// and `end_time` are milliseconds since the epoch; no server-side session
/// exists.
#[derive(Clone, Debug, PartialEq, Eq)]
pub struct Paginator {
    pub start_time: Option<u64>,
    pub end_time: Option<u64>,
    pub limit: Option<u64>,
    pub before: Option<u64>,
    pub after: Option<u64>,
}

/// One price level of an order book. Prices and quantities are carried as the
/// backend's exact decimal strings; the adapter never rounds them.
#[derive(Clone, Debug, PartialEq, Eq)]
pub struct AskBid {
    pub price: String,
    pub qty: String,
}

/// An exchange-agnostic order. `created_at` is milliseconds since the epoch.
#[derive(Clone, Debug, PartialEq, Eq)]
pub struct Order {
    pub id: String,
    pub market_pair: String,
    pub client_order_id: Option<String>,
    pub created_at: Option<u64>,
    pub price: Option<String>,
    pub size: String,
    pub side: Side,
    pub status: OrderStatus,
    pub order_type: String,
}

/// An exchange-agnostic trade (one fill of an order).
#[derive(Clone, Debug, PartialEq, Eq)]
pub struct Trade {
    pub id: u64,
    pub order_id: String,
    pub market_pair: String,
    pub price: String,
    pub qty: String,
    pub fees: Option<String>,
    pub side: Side,
    pub liquidity: Option<Liquidity>,
    pub created_at: u64,
}

/// One asset's balance: `free` is what may be spent, `total` includes holds.
#[derive(Clone, Debug, PartialEq, Eq)]
pub struct Balance {
    pub asset: String,
    pub free: String,
    pub total: String,
}

/// One OHLCV candle. `time` is milliseconds since the epoch.
#[derive(Clone, Debug, PartialEq, Eq)]
pub struct Candle {
    pub time: u64,
    pub low: String,
    pub high: String,
    pub open: String,
    pub close: String,
    pub volume: String,
}

/// The latest traded price of a market pair.
#[derive(Clone, Debug, PartialEq, Eq)]
pub struct Ticker {
    pub price: String,
}

/// An order-book snapshot. `last_update_id` is `None` for backends whose
/// snapshot carries no update id.
#[derive(Clone, Debug, PartialEq, Eq)]
pub struct OrderBookResponse {
    pub last_update_id: Option<u64>,
    pub bids: Vec<AskBid>,
    pub asks: Vec<AskBid>,
}

/// Acknowledgement that the order with `id` was canceled.
#[derive(Clone, Debug, PartialEq, Eq)]
pub struct OrderCanceled {
    pub id: String,
}

/// Request for an order-book snapshot.
#[derive(Clone, Debug, PartialEq, Eq)]
pub struct OrderBookRequest {
    pub market_pair: String,
}

/// Request for the latest price ticker.
#[derive(Clone, Debug, PartialEq, Eq)]
pub struct GetPriceTickerRequest {
    pub market_pair: String,
}

/// Request for historic candles at a given interval.
#[derive(Clone, Debug, PartialEq, Eq)]
pub struct GetHistoricRatesRequest {
    pub market_pair: String,
    pub paginator: Option<Paginator>,
    pub interval: Interval,
}

/// Request for historic public trades.
#[derive(Clone, Debug, PartialEq, Eq)]
pub struct GetHistoricTradesRequest {
    pub market_pair: String,
    pub paginator: Option<Paginator>,
}

/// Request for the caller's past orders, optionally narrowed to one pair.
#[derive(Clone, Debug, PartialEq, Eq)]
pub struct GetOrderHistoryRequest {
    pub market_pair: Option<String>,
    pub paginator: Option<Paginator>,
}

/// Request for the caller's past trades, optionally narrowed to one pair or
/// one order.
#[derive(Clone, Debug, PartialEq, Eq)]
pub struct TradeHistoryRequest {
    pub market_pair: Option<String>,
    pub order_id: Option<String>,
    pub paginator: Option<Paginator>,
}

/// Request to cancel one order by id.
#[derive(Clone, Debug, PartialEq, Eq)]
pub struct CancelOrderRequest {
    pub id: String,
    pub market_pair: Option<String>,
}

/// Request to cancel every open order, optionally narrowed to one pair.
#[derive(Clone, Debug, PartialEq, Eq)]
pub struct CancelAllOrdersRequest {
    pub market_pair: Option<String>,
}

/// Request for one order by id.
#[derive(Clone, Debug, PartialEq, Eq)]
pub struct GetOrderRequest {
    pub id: String,
}

/// Request to place a limit order.
#[derive(Clone, Debug, PartialEq, Eq)]
pub struct OpenLimitOrderRequest {
    pub market_pair: String,
    pub size: String,
    pub price: String,
}

/// Request to place a market order.
#[derive(Clone, Debug, PartialEq, Eq)]
pub struct OpenMarketOrderRequest {
    pub market_pair: String,
    pub size: String,
}

} // verus!
