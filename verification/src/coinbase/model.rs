use vstd::prelude::*;

verus! {

/// One price level of the backend's L2 book snapshot.
#[derive(Debug, PartialEq, Eq)]
pub struct BookRecordL2 {
    pub price: String,
    pub size: String,
}

impl Clone for BookRecordL2 {
    fn clone(&self) -> (r: Self)
        ensures
            r == *self,
    {
        BookRecordL2 { price: self.price.clone(), size: self.size.clone() }
    }
}

/// The backend's order-book snapshot: bids and asks, best first.
#[derive(Debug, PartialEq, Eq)]
pub struct Book {
    pub bids: Vec<BookRecordL2>,
    pub asks: Vec<BookRecordL2>,
}

/// The backend's order side, already read off the wire.
#[derive(Clone, Copy, Debug, PartialEq, Eq, Structural)]
pub enum OrderSide {
    Buy,
    Sell,
}

/// The backend's order status, already read off the wire.
#[derive(Clone, Copy, Debug, PartialEq, Eq, Structural)]
pub enum OrderStatus {
    Active,
    Done,
    Open,
    Pending,
    Rejected,
}

/// The shape of an order: a priced limit order or a market order with a
/// size or funds amount.
#[derive(Debug, PartialEq, Eq)]
pub enum OrderType {
    Limit { price: String, size: String, time_in_force: String },
    Market { size: String, funds: Option<String> },
}

impl Clone for OrderType {
    fn clone(&self) -> (r: Self)
        ensures
            r == *self,
    {
        match self {
            OrderType::Limit { price, size, time_in_force } => OrderType::Limit {
                price: price.clone(),
                size: size.clone(),
                time_in_force: time_in_force.clone(),
            },
            OrderType::Market { size, funds } => OrderType::Market {
                size: size.clone(),
                funds: match funds {
                    Some(f) => Some(f.clone()),
                    None => None,
                },
            },
        }
    }
}

/// A backend-native order. `side` and `status` are kept as the wire's own
/// strings until the adapter maps them explicitly; `created_at` is
/// milliseconds since the epoch.
#[derive(Debug, PartialEq, Eq)]
pub struct Order {
    pub id: String,
    pub product_id: String,
    pub side: String,
    pub status: String,
    pub created_at: u64,
    pub order_type: OrderType,
}

impl Clone for Order {
    fn clone(&self) -> (r: Self)
        ensures
            r == *self,
    {
        Order {
            id: self.id.clone(),
            product_id: self.product_id.clone(),
            side: self.side.clone(),
            status: self.status.clone(),
            created_at: self.created_at,
            order_type: self.order_type.clone(),
        }
    }
}

/// A backend-native fill. `side` and `liquidity` are the wire's own
/// strings; `created_at` is milliseconds since the epoch.
#[derive(Debug, PartialEq, Eq)]
pub struct Fill {
    pub trade_id: u64,
    pub order_id: String,
    pub product_id: String,
    pub price: String,
    pub size: String,
    pub fee: String,
    pub side: String,
    pub liquidity: String,
    pub created_at: u64,
}

impl Clone for Fill {
    fn clone(&self) -> (r: Self)
        ensures
            r == *self,
    {
        Fill {
            trade_id: self.trade_id,
            order_id: self.order_id.clone(),
            product_id: self.product_id.clone(),
            price: self.price.clone(),
            size: self.size.clone(),
            fee: self.fee.clone(),
            side: self.side.clone(),
            liquidity: self.liquidity.clone(),
            created_at: self.created_at,
        }
    }
}

/// A backend-native account: one asset's balance.
#[derive(Debug, PartialEq, Eq)]
pub struct Account {
    pub currency: String,
    pub balance: String,
    pub available: String,
}

impl Clone for Account {
    fn clone(&self) -> (r: Self)
        ensures
            r == *self,
    {
        Account {
            currency: self.currency.clone(),
            balance: self.balance.clone(),
            available: self.available.clone(),
        }
    }
}

/// The backend-native price ticker.
#[derive(Clone, Debug, PartialEq, Eq)]
pub struct Ticker {
    pub price: String,
}

/// A backend-native candle. `time` is seconds since the epoch, as the
/// backend reports it.
#[derive(Debug, PartialEq, Eq)]
pub struct Candle {
    pub time: u64,
    pub low: String,
    pub high: String,
    pub open: String,
    pub close: String,
    pub volume: String,
}

impl Clone for Candle {
    fn clone(&self) -> (r: Self)
        ensures
            r == *self,
    {
        Candle {
            time: self.time,
            low: self.low.clone(),
            high: self.high.clone(),
            open: self.open.clone(),
            close: self.close.clone(),
            volume: self.volume.clone(),
        }
    }
}

/// The backend-native pagination token: backend-issued `before`/`after`
/// markers and a page size.
#[derive(Clone, Copy, Debug, PartialEq, Eq, Structural)]
pub struct Paginator {
    pub after: Option<u64>,
    pub before: Option<u64>,
    pub limit: Option<u64>,
}

/// A time window for a list request, in milliseconds since the epoch.
#[derive(Clone, Copy, Debug, PartialEq, Eq, Structural)]
pub struct DateRange {
    pub start: Option<u64>,
    pub end: Option<u64>,
}

/// Parameters of a candle request: an optional window and the backend's
/// native granularity in seconds.
#[derive(Clone, Copy, Debug, PartialEq, Eq, Structural)]
pub struct CandleRequestParams {
    pub daterange: Option<DateRange>,
    pub granularity: Option<u32>,
}

/// Parameters of an order-list request.
#[derive(Clone, Debug, PartialEq, Eq)]
pub struct GetOrderRequest {
    pub status: Option<String>,
    pub paginator: Option<Paginator>,
    pub product_id: Option<String>,
}

/// Parameters of a fill-list request.
#[derive(Clone, Debug, PartialEq, Eq)]
pub struct GetFillsReq {
    pub order_id: Option<String>,
    pub paginator: Option<Paginator>,
    pub product_id: Option<String>,
}

/// The body of an order-placement request, ready for the wire: `side` is
/// `buy` or `sell`, `order_type` is `limit` or `market`.
#[derive(Clone, Debug, PartialEq, Eq)]
pub struct PlaceOrderRequest {
    pub product_id: String,
    pub side: String,
    pub order_type: String,
    pub price: Option<String>,
    pub size: String,
}

} // verus!
