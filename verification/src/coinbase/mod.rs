pub mod model;

use vstd::prelude::*;
use vstd::string::StringExecFns;
use crate::errors::OpenLimitError;
use crate::exchange_info::ExchangeInfo;
use crate::exchange_info::SymbolInfo;
use crate::exchange_info::spec_refresh;
use crate::model::Interval;
use crate::model::Liquidity;
use crate::model::Side;
use crate::strutil::encode_query;
use crate::strutil::spec_dec;
use crate::strutil::spec_query;
use crate::strutil::str_eq;
use crate::strutil::u64_to_dec_string;
use crate::strutil::view_pairs;
use crate::transport::Transport;
use crate::transport::b64_decode_of;
use crate::transport::spec_base_url;

verus! {

/// The credential material the backend requires: key id, base64-encoded
/// secret, and passphrase.
pub struct CoinbaseCredentials {
    pub api_key: String,
    pub api_secret: String,
    pub passphrase: String,
}

/// Construction parameters of the adapter: the sandbox flag selects the
/// base URL; omitting the credentials restricts the adapter to public
/// market-data endpoints.
pub struct CoinbaseParameters {
    pub sandbox: bool,
    pub credentials: Option<CoinbaseCredentials>,
}

impl Default for CoinbaseParameters {
    /// Production endpoint, no credentials.
    fn default() -> (r: Self)
        ensures
            !r.sandbox,
            r.credentials is None,
    {
        CoinbaseParameters { sandbox: false, credentials: None }
    }
}

impl CoinbaseParameters {
    /// Parameters against the sandbox endpoint, without credentials.
    pub fn sandbox() -> (r: Self)
        ensures
            r.sandbox,
            r.credentials is None,
    {
        Self { sandbox: true, credentials: None }
    }

    /// Parameters against the production endpoint, without credentials.
    pub fn prod() -> (r: Self)
        ensures
            !r.sandbox,
            r.credentials is None,
    {
        Self { sandbox: false, credentials: None }
    }
}

/// The Coinbase adapter: one signed transport and one snapshot of the
/// exchange's symbol metadata.
pub struct Coinbase {
    pub exchange_info: ExchangeInfo,
    pub transport: Transport,
}

impl Coinbase {
    /// Assemble an adapter from its parameters, without any network call:
    /// a malformed API secret (not valid base64) fails with `ConfigError`;
    /// the symbol snapshot starts empty until `refresh_market_info` fills
    /// it.
    pub fn new(parameters: CoinbaseParameters) -> (r: Result<Coinbase, OpenLimitError>)
        ensures
            match parameters.credentials {
                Some(c) => match r {
                    Ok(cb) => b64_decode_of(c.api_secret@) matches Some(secret)
                        && cb.transport.base_url@ == spec_base_url(parameters.sandbox) && (
                    cb.transport.credentials matches Some(tc) && tc.api_key@ == c.api_key@
                        && tc.api_secret@ == secret && tc.passphrase@ == c.passphrase@)
                        && cb.exchange_info.symbols@.len() == 0,
                    Err(e) => b64_decode_of(c.api_secret@) is None && e matches
                        OpenLimitError::ConfigError(_),
                },
                None => r matches Ok(cb) && cb.transport.credentials is None
                    && cb.transport.base_url@ == spec_base_url(parameters.sandbox)
                    && cb.exchange_info.symbols@.len() == 0,
            },
    {
        match parameters.credentials {
            Some(c) => {
                let transport = Transport::with_credential(
                    c.api_key.as_str(),
                    c.api_secret.as_str(),
                    c.passphrase.as_str(),
                    parameters.sandbox,
                )?;
                Ok(Coinbase { exchange_info: ExchangeInfo::new(), transport })
            },
            None => Ok(
                Coinbase {
                    exchange_info: ExchangeInfo::new(),
                    transport: Transport::new(parameters.sandbox),
                },
            ),
        }
    }

    /// Replace the symbol snapshot with a freshly fetched symbol list,
    /// atomically; a fetch failure leaves the previous snapshot intact and
    /// is handed back.
    pub fn refresh_market_info(&mut self, fetched: Result<Vec<SymbolInfo>, OpenLimitError>) -> (r:
        Result<(), OpenLimitError>)
        ensures
            final(self).transport == old(self).transport,
            final(self).exchange_info.symbols@ == spec_refresh(
                old(self).exchange_info.symbols@,
                fetched,
            ),
            match fetched {
                Ok(_) => r is Ok,
                Err(e) => r == Err::<(), OpenLimitError>(e),
            },
    {
        self.exchange_info.refresh(fetched)
    }
}

/// The order side a wire string names: `buy` or `sell`, nothing else.
pub open spec fn wire_side_of(s: Seq<char>) -> Option<model::OrderSide> {
    if s == "buy"@ {
        Some(model::OrderSide::Buy)
    } else if s == "sell"@ {
        Some(model::OrderSide::Sell)
    } else {
        None
    }
}

/// Read an order side off the wire; an undocumented value is rejected as a
/// `DeserializationError`, never coerced to a default.
pub fn order_side_from_wire(s: &str) -> (r: Result<model::OrderSide, OpenLimitError>)
    ensures
        match wire_side_of(s@) {
            Some(side) => r == Ok::<model::OrderSide, OpenLimitError>(side),
            None => r matches Err(e) && e.is_deserialization_error(),
        },
{
    if str_eq(s, "buy") {
        Ok(model::OrderSide::Buy)
    } else if str_eq(s, "sell") {
        Ok(model::OrderSide::Sell)
    } else {
        Err(OpenLimitError::DeserializationError(s.to_owned()))
    }
}

/// The order status a wire string names, out of the five the backend
/// documents.
pub open spec fn wire_status_of(s: Seq<char>) -> Option<model::OrderStatus> {
    if s == "active"@ {
        Some(model::OrderStatus::Active)
    } else if s == "done"@ {
        Some(model::OrderStatus::Done)
    } else if s == "open"@ {
        Some(model::OrderStatus::Open)
    } else if s == "pending"@ {
        Some(model::OrderStatus::Pending)
    } else if s == "rejected"@ {
        Some(model::OrderStatus::Rejected)
    } else {
        None
    }
}

/// Read an order status off the wire; an unmapped status is rejected as a
/// `DeserializationError`, never defaulted.
pub fn order_status_from_wire(s: &str) -> (r: Result<model::OrderStatus, OpenLimitError>)
    ensures
        match wire_status_of(s@) {
            Some(status) => r == Ok::<model::OrderStatus, OpenLimitError>(status),
            None => r matches Err(e) && e.is_deserialization_error(),
        },
{
    if str_eq(s, "active") {
        Ok(model::OrderStatus::Active)
    } else if str_eq(s, "done") {
        Ok(model::OrderStatus::Done)
    } else if str_eq(s, "open") {
        Ok(model::OrderStatus::Open)
    } else if str_eq(s, "pending") {
        Ok(model::OrderStatus::Pending)
    } else if str_eq(s, "rejected") {
        Ok(model::OrderStatus::Rejected)
    } else {
        Err(OpenLimitError::DeserializationError(s.to_owned()))
    }
}

/// The liquidity flag a wire string names: `M` is maker, `T` is taker, and
/// any other value deliberately carries no flag at all.
pub open spec fn wire_liquidity_of(s: Seq<char>) -> Option<Liquidity> {
    if s == "M"@ {
        Some(Liquidity::Maker)
    } else if s == "T"@ {
        Some(Liquidity::Taker)
    } else {
        None
    }
}

/// Read a fill's liquidity flag off the wire: the explicit fallthrough for
/// an unknown value is no flag, not an error.
pub fn liquidity_from_wire(s: &str) -> (r: Option<Liquidity>)
    ensures
        r == wire_liquidity_of(s@),
{
    if str_eq(s, "M") {
        Some(Liquidity::Maker)
    } else if str_eq(s, "T") {
        Some(Liquidity::Taker)
    } else {
        None
    }
}

/// The domain side of a backend-native side.
pub open spec fn spec_side_to_domain(side: model::OrderSide) -> Side {
    match side {
        model::OrderSide::Buy => Side::Buy,
        model::OrderSide::Sell => Side::Sell,
    }
}

/// Map a backend-native order side onto the domain side.
pub fn side_to_domain(side: model::OrderSide) -> (r: Side)
    ensures
        r == spec_side_to_domain(side),
{
    match side {
        model::OrderSide::Buy => Side::Buy,
        model::OrderSide::Sell => Side::Sell,
    }
}

/// The domain status of a backend-native status: each of the five native
/// statuses maps onto exactly one domain status.
pub open spec fn spec_status_to_domain(status: model::OrderStatus) -> crate::model::OrderStatus {
    match status {
        model::OrderStatus::Active => crate::model::OrderStatus::Active,
        model::OrderStatus::Done => crate::model::OrderStatus::Filled,
        model::OrderStatus::Open => crate::model::OrderStatus::Open,
        model::OrderStatus::Pending => crate::model::OrderStatus::Pending,
        model::OrderStatus::Rejected => crate::model::OrderStatus::Rejected,
    }
}

/// Map a backend-native order status onto the domain status.
pub fn status_to_domain(status: model::OrderStatus) -> (r: crate::model::OrderStatus)
    ensures
        r == spec_status_to_domain(status),
{
    match status {
        model::OrderStatus::Active => crate::model::OrderStatus::Active,
        model::OrderStatus::Done => crate::model::OrderStatus::Filled,
        model::OrderStatus::Open => crate::model::OrderStatus::Open,
        model::OrderStatus::Pending => crate::model::OrderStatus::Pending,
        model::OrderStatus::Rejected => crate::model::OrderStatus::Rejected,
    }
}

/// The domain status of a wire-level status string, where the string names
/// a supported status.
pub open spec fn spec_domain_status_of_wire(s: Seq<char>) -> Option<crate::model::OrderStatus> {
    match wire_status_of(s) {
        Some(status) => Some(spec_status_to_domain(status)),
        None => None,
    }
}

/// Every supported wire-level order status maps to exactly one domain
/// status, and a wire status outside the supported five is rejected, never
/// defaulted to any domain status.
pub proof fn lemma_wire_status_mapping(s: Seq<char>)
    ensures
        s == "active"@ ==> spec_domain_status_of_wire(s) == Some(crate::model::OrderStatus::Active),
        s == "done"@ ==> spec_domain_status_of_wire(s) == Some(crate::model::OrderStatus::Filled),
        s == "open"@ ==> spec_domain_status_of_wire(s) == Some(crate::model::OrderStatus::Open),
        s == "pending"@ ==> spec_domain_status_of_wire(s) == Some(
            crate::model::OrderStatus::Pending,
        ),
        s == "rejected"@ ==> spec_domain_status_of_wire(s) == Some(
            crate::model::OrderStatus::Rejected,
        ),
        !(s == "active"@ || s == "done"@ || s == "open"@ || s == "pending"@ || s == "rejected"@)
            ==> spec_domain_status_of_wire(s) is None,
{
    reveal_strlit("active");
    reveal_strlit("done");
    reveal_strlit("open");
    reveal_strlit("pending");
    reveal_strlit("rejected");
    assert("active"@.len() == 6 && "done"@.len() == 4 && "open"@.len() == 4 && "pending"@.len()
        == 7 && "rejected"@.len() == 8);
    assert("done"@[0] == 'd' && "open"@[0] == 'o');
}

/// A fill's liquidity flag reads `M` as maker and `T` as taker; any other
/// value is, by explicit choice, no flag at all — never an arbitrary
/// default.
pub proof fn lemma_wire_liquidity_mapping(s: Seq<char>)
    ensures
        s == "M"@ ==> wire_liquidity_of(s) == Some(Liquidity::Maker),
        s == "T"@ ==> wire_liquidity_of(s) == Some(Liquidity::Taker),
        !(s == "M"@ || s == "T"@) ==> wire_liquidity_of(s) is None,
{
    reveal_strlit("M");
    reveal_strlit("T");
    assert("M"@.len() == 1 && "T"@.len() == 1);
    assert("M"@[0] == 'M' && "T"@[0] == 'T');
}

/// The backend's native candle granularity in seconds, for the six
/// intervals it supports.
pub open spec fn spec_granularity(interval: Interval) -> Option<u32> {
    match interval {
        Interval::OneMinute => Some(60u32),
        Interval::FiveMinutes => Some(300u32),
        Interval::FifteenMinutes => Some(900u32),
        Interval::OneHour => Some(3600u32),
        Interval::SixHours => Some(21600u32),
        Interval::OneDay => Some(86400u32),
        _ => None,
    }
}

/// Convert an abstract interval to the backend's native granularity in
/// seconds. An interval the backend does not support fails with
/// `MissingParameter`: the caller's expectation about candle width is never
/// silently downgraded to another granularity.
pub fn interval_to_granularity(interval: Interval) -> (r: Result<u32, OpenLimitError>)
    ensures
        match spec_granularity(interval) {
            Some(g) => r == Ok::<u32, OpenLimitError>(g),
            None => r matches Err(e) && (e matches OpenLimitError::MissingParameter(m) && m@
                == "the interval is not supported by the exchange"@),
        },
{
    match interval {
        Interval::OneMinute => Ok(60),
        Interval::FiveMinutes => Ok(300),
        Interval::FifteenMinutes => Ok(900),
        Interval::OneHour => Ok(3600),
        Interval::SixHours => Ok(21600),
        Interval::OneDay => Ok(86400),
        _ => Err(
            OpenLimitError::MissingParameter(
                String::from_str("the interval is not supported by the exchange"),
            ),
        ),
    }
}

/// The native pagination token a domain paginator converts to: the
/// backend-issued markers and the page size carry over; the time window is
/// not part of the token.
pub open spec fn spec_paginator_to_native(p: crate::model::Paginator) -> model::Paginator {
    model::Paginator { after: p.after, before: p.before, limit: p.limit }
}

/// Convert a domain paginator to the backend's native pagination token.
pub fn paginator_to_native(p: &crate::model::Paginator) -> (r: model::Paginator)
    ensures
        r == spec_paginator_to_native(*p),
{
    model::Paginator { after: p.after, before: p.before, limit: p.limit }
}

/// The domain paginator a native pagination token converts back to: the
/// markers and page size carry over; the token holds no time window.
pub open spec fn spec_paginator_from_native(n: model::Paginator) -> crate::model::Paginator {
    crate::model::Paginator {
        start_time: None,
        end_time: None,
        limit: n.limit,
        before: n.before,
        after: n.after,
    }
}

/// Convert the backend's native pagination token back to a domain
/// paginator.
pub fn paginator_from_native(n: &model::Paginator) -> (r: crate::model::Paginator)
    ensures
        r == spec_paginator_from_native(*n),
{
    crate::model::Paginator {
        start_time: None,
        end_time: None,
        limit: n.limit,
        before: n.before,
        after: n.after,
    }
}

/// Round trip: converting a domain paginator to the backend's native
/// pagination token and back preserves `before`, `after` and `limit`
/// exactly.
pub proof fn lemma_paginator_round_trip(p: crate::model::Paginator)
    ensures
        spec_paginator_from_native(spec_paginator_to_native(p)).before == p.before,
        spec_paginator_from_native(spec_paginator_to_native(p)).after == p.after,
        spec_paginator_from_native(spec_paginator_to_native(p)).limit == p.limit,
{
}

/// The time window a domain paginator asks for, in milliseconds since the
/// epoch.
pub open spec fn spec_date_range(p: crate::model::Paginator) -> model::DateRange {
    model::DateRange { start: p.start_time, end: p.end_time }
}

/// Convert a domain paginator's time window to the backend's date range.
pub fn date_range_from_paginator(p: &crate::model::Paginator) -> (r: model::DateRange)
    ensures
        r == spec_date_range(*p),
{
    model::DateRange { start: p.start_time, end: p.end_time }
}

/// Build the backend's order-list request out of an order-history request:
/// the pair and the pagination carry over, and no status narrows the list.
pub fn order_request_from_history(req: &crate::model::GetOrderHistoryRequest) -> (r:
    model::GetOrderRequest)
    ensures
        r.status is None,
        r.product_id == req.market_pair,
        r.paginator == match req.paginator {
            Some(p) => Some(spec_paginator_to_native(p)),
            None => None::<model::Paginator>,
        },
{
    model::GetOrderRequest {
        status: None,
        product_id: match &req.market_pair {
            Some(s) => Some(s.clone()),
            None => None,
        },
        paginator: match &req.paginator {
            Some(p) => Some(paginator_to_native(p)),
            None => None,
        },
    }
}

/// Build the backend's fill-list request out of a trade-history request.
pub fn fills_req_from_trade_history(req: &crate::model::TradeHistoryRequest) -> (r:
    model::GetFillsReq)
    ensures
        r.order_id == req.order_id,
        r.product_id == req.market_pair,
        r.paginator == match req.paginator {
            Some(p) => Some(spec_paginator_to_native(p)),
            None => None::<model::Paginator>,
        },
{
    model::GetFillsReq {
        order_id: match &req.order_id {
            Some(s) => Some(s.clone()),
            None => None,
        },
        product_id: match &req.market_pair {
            Some(s) => Some(s.clone()),
            None => None,
        },
        paginator: match &req.paginator {
            Some(p) => Some(paginator_to_native(p)),
            None => None,
        },
    }
}

/// Build the backend's candle-request parameters out of a historic-rates
/// request: an interval the backend does not support fails with
/// `MissingParameter` here, before any request is built or sent.
pub fn candle_params_from_request(req: &crate::model::GetHistoricRatesRequest) -> (r: Result<
    model::CandleRequestParams,
    OpenLimitError,
>)
    ensures
        match spec_granularity(req.interval) {
            Some(g) => r matches Ok(p) && p.granularity == Some(g) && p.daterange == match req
                .paginator {
                Some(pg) => Some(spec_date_range(pg)),
                None => None::<model::DateRange>,
            },
            None => r matches Err(e) && e.is_missing_parameter(),
        },
{
    let granularity = interval_to_granularity(req.interval)?;
    Ok(
        model::CandleRequestParams {
            daterange: match &req.paginator {
                Some(p) => Some(date_range_from_paginator(p)),
                None => None,
            },
            granularity: Some(granularity),
        },
    )
}

/// The order-list request that asks for every open order.
pub fn open_orders_request() -> (r: model::GetOrderRequest)
    ensures
        r.status matches Some(s) && s@ == "open"@,
        r.paginator is None,
        r.product_id is None,
{
    model::GetOrderRequest {
        status: Some(String::from_str("open")),
        paginator: None,
        product_id: None,
    }
}

/// The wire string of a domain side.
pub open spec fn spec_side_wire(side: Side) -> Seq<char> {
    match side {
        Side::Buy => "buy"@,
        Side::Sell => "sell"@,
    }
}

/// Build the body of a limit-order placement out of a domain request.
pub fn limit_order_request(req: &crate::model::OpenLimitOrderRequest, side: Side) -> (r:
    model::PlaceOrderRequest)
    ensures
        r.product_id == req.market_pair,
        r.side@ == spec_side_wire(side),
        r.order_type@ == "limit"@,
        r.price matches Some(p) && p == req.price,
        r.size == req.size,
{
    model::PlaceOrderRequest {
        product_id: req.market_pair.clone(),
        side: match side {
            Side::Buy => String::from_str("buy"),
            Side::Sell => String::from_str("sell"),
        },
        order_type: String::from_str("limit"),
        price: Some(req.price.clone()),
        size: req.size.clone(),
    }
}

/// Build the body of a market-order placement out of a domain request: a
/// market order carries no price.
pub fn market_order_request(req: &crate::model::OpenMarketOrderRequest, side: Side) -> (r:
    model::PlaceOrderRequest)
    ensures
        r.product_id == req.market_pair,
        r.side@ == spec_side_wire(side),
        r.order_type@ == "market"@,
        r.price is None,
        r.size == req.size,
{
    model::PlaceOrderRequest {
        product_id: req.market_pair.clone(),
        side: match side {
            Side::Buy => String::from_str("buy"),
            Side::Sell => String::from_str("sell"),
        },
        order_type: String::from_str("market"),
        price: None,
        size: req.size.clone(),
    }
}

/// The backend offers no historic public trades endpoint: the request is
/// refused up front with `UnsupportedOperation`, so callers can branch on
/// capability instead of parsing error text.
pub fn get_historic_trades(req: &crate::model::GetHistoricTradesRequest) -> (r: Result<
    Vec<crate::model::Trade>,
    OpenLimitError,
>)
    ensures
        r matches Err(e) && (e matches OpenLimitError::UnsupportedOperation(m) && m@
            == "the exchange reports no historic public trades"@),
{
    Err(
        OpenLimitError::UnsupportedOperation(
            String::from_str("the exchange reports no historic public trades"),
        ),
    )
}

/// Acknowledge one canceled order by its id.
pub fn order_canceled_from_id(id: String) -> (r: crate::model::OrderCanceled)
    ensures
        r.id == id,
{
    crate::model::OrderCanceled { id }
}

/// Acknowledge a list of canceled orders by their ids, in order.
pub fn orders_canceled_from_ids(ids: Vec<String>) -> (r: Vec<crate::model::OrderCanceled>)
    ensures
        r@.len() == ids@.len(),
        forall|i: int| 0 <= i < ids@.len() ==> (#[trigger] r@[i]).id == ids@[i],
{
    let mut r: Vec<crate::model::OrderCanceled> = Vec::new();
    let n = ids.len();
    let mut i: usize = 0;
    while i < n
        invariant
            n == ids@.len(),
            0 <= i <= n,
            r@.len() == i,
            forall|j: int| 0 <= j < i ==> (#[trigger] r@[j]).id == ids@[j],
        decreases n - i,
    {
        r.push(crate::model::OrderCanceled { id: ids[i].clone() });
        i += 1;
    }
    r
}

/// How a domain order must read a backend-native order: the ids and the
/// pair carry over; the side and status are the explicit mappings of the
/// wire strings; a limit order keeps its price, a market order has none;
/// the order type reads `limit` or `market` accordingly.
pub open spec fn order_matches_native(o: crate::model::Order, n: model::Order) -> bool {
    &&& (wire_side_of(n.side@) matches Some(side) && o.side == spec_side_to_domain(side))
    &&& (wire_status_of(n.status@) matches Some(status) && o.status == spec_status_to_domain(
        status,
    ))
    &&& o.id == n.id
    &&& o.market_pair == n.product_id
    &&& o.client_order_id is None
    &&& o.created_at == Some(n.created_at)
    &&& match n.order_type {
        model::OrderType::Limit { price, size, time_in_force } => {
            &&& o.price == Some(price)
            &&& o.size == size
            &&& o.order_type@ == "limit"@
        },
        model::OrderType::Market { size, funds } => {
            &&& o.price is None
            &&& o.size == size
            &&& o.order_type@ == "market"@
        },
    }
}

/// Whether a backend-native order carries a side and a status the adapter
/// maps.
pub open spec fn native_order_wire_ok(n: model::Order) -> bool {
    wire_side_of(n.side@) is Some && wire_status_of(n.status@) is Some
}

/// Convert a backend-native order to the domain order. An undocumented
/// wire side or status is rejected as a `DeserializationError`, never
/// coerced to a default.
pub fn order_to_domain(order: model::Order) -> (r: Result<crate::model::Order, OpenLimitError>)
    ensures
        native_order_wire_ok(order) ==> (r matches Ok(o) && order_matches_native(o, order)),
        !native_order_wire_ok(order) ==> (r matches Err(e) && e.is_deserialization_error()),
{
    let side = order_side_from_wire(order.side.as_str())?;
    let status = order_status_from_wire(order.status.as_str())?;
    let domain_side = side_to_domain(side);
    let domain_status = status_to_domain(status);
    match order.order_type {
        model::OrderType::Limit { price, size, time_in_force: _ } => Ok(
            crate::model::Order {
                id: order.id,
                market_pair: order.product_id,
                client_order_id: None,
                created_at: Some(order.created_at),
                price: Some(price),
                size,
                side: domain_side,
                status: domain_status,
                order_type: String::from_str("limit"),
            },
        ),
        model::OrderType::Market { size, funds: _ } => Ok(
            crate::model::Order {
                id: order.id,
                market_pair: order.product_id,
                client_order_id: None,
                created_at: Some(order.created_at),
                price: None,
                size,
                side: domain_side,
                status: domain_status,
                order_type: String::from_str("market"),
            },
        ),
    }
}

/// Convert a list of backend-native orders, elementwise and in order; one
/// order with an unmapped side or status rejects the whole response.
pub fn orders_to_domain(orders: Vec<model::Order>) -> (r: Result<
    Vec<crate::model::Order>,
    OpenLimitError,
>)
    ensures
        match r {
            Ok(v) => v@.len() == orders@.len() && forall|i: int|
                0 <= i < orders@.len() ==> order_matches_native(#[trigger] v@[i], orders@[i]),
            Err(e) => e.is_deserialization_error() && exists|i: int|
                0 <= i < orders@.len() && !native_order_wire_ok(#[trigger] orders@[i]),
        },
{
    let mut v: Vec<crate::model::Order> = Vec::new();
    let n = orders.len();
    let mut i: usize = 0;
    while i < n
        invariant
            n == orders@.len(),
            0 <= i <= n,
            v@.len() == i,
            forall|j: int| 0 <= j < i ==> order_matches_native(#[trigger] v@[j], orders@[j]),
            forall|j: int| 0 <= j < i ==> native_order_wire_ok(#[trigger] orders@[j]),
        decreases n - i,
    {
        match order_to_domain(orders[i].clone()) {
            Ok(o) => {
                v.push(o);
            },
            Err(e) => {
                return Err(e);
            },
        }
        i += 1;
    }
    Ok(v)
}

/// How a domain trade must read a backend-native fill: ids, pair, price,
/// quantity, fee and time carry over; the side is the explicit mapping of
/// the wire string; the liquidity flag reads `M` as maker, `T` as taker,
/// and anything else as no flag.
pub open spec fn trade_matches_fill(t: crate::model::Trade, f: model::Fill) -> bool {
    &&& (wire_side_of(f.side@) matches Some(side) && t.side == spec_side_to_domain(side))
    &&& t.id == f.trade_id
    &&& t.order_id == f.order_id
    &&& t.market_pair == f.product_id
    &&& t.price == f.price
    &&& t.qty == f.size
    &&& t.fees == Some(f.fee)
    &&& t.liquidity == wire_liquidity_of(f.liquidity@)
    &&& t.created_at == f.created_at
}

/// Whether a backend-native fill carries a side the adapter maps.
pub open spec fn native_fill_wire_ok(f: model::Fill) -> bool {
    wire_side_of(f.side@) is Some
}

/// Convert a backend-native fill to the domain trade. An undocumented wire
/// side is rejected as a `DeserializationError`; an undocumented liquidity
/// flag is, by explicit choice, no flag.
pub fn trade_from_fill(fill: model::Fill) -> (r: Result<crate::model::Trade, OpenLimitError>)
    ensures
        native_fill_wire_ok(fill) ==> (r matches Ok(t) && trade_matches_fill(t, fill)),
        !native_fill_wire_ok(fill) ==> (r matches Err(e) && e.is_deserialization_error()),
{
    let side = order_side_from_wire(fill.side.as_str())?;
    let liquidity = liquidity_from_wire(fill.liquidity.as_str());
    Ok(
        crate::model::Trade {
            id: fill.trade_id,
            order_id: fill.order_id,
            market_pair: fill.product_id,
            price: fill.price,
            qty: fill.size,
            fees: Some(fill.fee),
            side: side_to_domain(side),
            liquidity,
            created_at: fill.created_at,
        },
    )
}

/// Convert a list of backend-native fills, elementwise and in order; one
/// fill with an unmapped side rejects the whole response.
pub fn trades_from_fills(fills: Vec<model::Fill>) -> (r: Result<
    Vec<crate::model::Trade>,
    OpenLimitError,
>)
    ensures
        match r {
            Ok(v) => v@.len() == fills@.len() && forall|i: int|
                0 <= i < fills@.len() ==> trade_matches_fill(#[trigger] v@[i], fills@[i]),
            Err(e) => e.is_deserialization_error() && exists|i: int|
                0 <= i < fills@.len() && !native_fill_wire_ok(#[trigger] fills@[i]),
        },
{
    let mut v: Vec<crate::model::Trade> = Vec::new();
    let n = fills.len();
    let mut i: usize = 0;
    while i < n
        invariant
            n == fills@.len(),
            0 <= i <= n,
            v@.len() == i,
            forall|j: int| 0 <= j < i ==> trade_matches_fill(#[trigger] v@[j], fills@[j]),
            forall|j: int| 0 <= j < i ==> native_fill_wire_ok(#[trigger] fills@[j]),
        decreases n - i,
    {
        match trade_from_fill(fills[i].clone()) {
            Ok(t) => {
                v.push(t);
            },
            Err(e) => {
                return Err(e);
            },
        }
        i += 1;
    }
    Ok(v)
}

/// Convert a backend-native account to the domain balance: the available
/// amount is what may be spent, the balance is the total including holds.
pub fn balance_from_account(account: model::Account) -> (r: crate::model::Balance)
    ensures
        r.asset == account.currency,
        r.free == account.available,
        r.total == account.balance,
{
    crate::model::Balance {
        asset: account.currency,
        free: account.available,
        total: account.balance,
    }
}

/// Convert a list of backend-native accounts, elementwise and in order.
pub fn balances_from_accounts(accounts: Vec<model::Account>) -> (r: Vec<crate::model::Balance>)
    ensures
        r@.len() == accounts@.len(),
        forall|i: int| 0 <= i < accounts@.len() ==> (#[trigger] r@[i]).asset
            == accounts@[i].currency && r@[i].free == accounts@[i].available && r@[i].total
            == accounts@[i].balance,
{
    let mut v: Vec<crate::model::Balance> = Vec::new();
    let n = accounts.len();
    let mut i: usize = 0;
    while i < n
        invariant
            n == accounts@.len(),
            0 <= i <= n,
            v@.len() == i,
            forall|j: int| 0 <= j < i ==> (#[trigger] v@[j]).asset == accounts@[j].currency
                && v@[j].free == accounts@[j].available && v@[j].total == accounts@[j].balance,
        decreases n - i,
    {
        v.push(balance_from_account(accounts[i].clone()));
        i += 1;
    }
    v
}

/// Convert the backend-native ticker to the domain ticker.
pub fn ticker_to_domain(ticker: model::Ticker) -> (r: crate::model::Ticker)
    ensures
        r.price == ticker.price,
{
    crate::model::Ticker { price: ticker.price }
}

/// The largest candle time in seconds whose millisecond value still fits
/// the domain model's integer.
pub const MAX_CANDLE_TIME_SECONDS: u64 = 18446744073709551615u64 / 1000;

/// How a domain candle must read a backend-native candle: the time turns
/// from seconds into milliseconds; the prices and the volume carry over.
pub open spec fn candle_matches_native(c: crate::model::Candle, n: model::Candle) -> bool {
    &&& c.time == n.time * 1000
    &&& c.low == n.low
    &&& c.high == n.high
    &&& c.open == n.open
    &&& c.close == n.close
    &&& c.volume == n.volume
}

/// Convert a backend-native candle to the domain candle, turning its time
/// from seconds into milliseconds; a time too large to carry in
/// milliseconds is a malformed wire value and rejected.
pub fn candle_to_domain(candle: model::Candle) -> (r: Result<crate::model::Candle, OpenLimitError>)
    ensures
        candle.time <= MAX_CANDLE_TIME_SECONDS ==> (r matches Ok(c) && candle_matches_native(
            c,
            candle,
        )),
        candle.time > MAX_CANDLE_TIME_SECONDS ==> (r matches Err(e)
            && e.is_deserialization_error()),
{
    if candle.time <= MAX_CANDLE_TIME_SECONDS {
        Ok(
            crate::model::Candle {
                time: candle.time * 1000,
                low: candle.low,
                high: candle.high,
                open: candle.open,
                close: candle.close,
                volume: candle.volume,
            },
        )
    } else {
        Err(OpenLimitError::DeserializationError(String::from_str("candle time is out of range")))
    }
}

/// Convert a list of backend-native candles, elementwise and in order; one
/// candle whose time cannot carry in milliseconds rejects the whole
/// response.
pub fn candles_to_domain(candles: Vec<model::Candle>) -> (r: Result<
    Vec<crate::model::Candle>,
    OpenLimitError,
>)
    ensures
        match r {
            Ok(v) => v@.len() == candles@.len() && forall|i: int|
                0 <= i < candles@.len() ==> candle_matches_native(#[trigger] v@[i], candles@[i]),
            Err(e) => e.is_deserialization_error() && exists|i: int|
                0 <= i < candles@.len() && (#[trigger] candles@[i]).time
                    > MAX_CANDLE_TIME_SECONDS,
        },
{
    let mut v: Vec<crate::model::Candle> = Vec::new();
    let n = candles.len();
    let mut i: usize = 0;
    while i < n
        invariant
            n == candles@.len(),
            0 <= i <= n,
            v@.len() == i,
            forall|j: int| 0 <= j < i ==> candle_matches_native(#[trigger] v@[j], candles@[j]),
            forall|j: int| 0 <= j < i ==> (#[trigger] candles@[j]).time
                <= MAX_CANDLE_TIME_SECONDS,
        decreases n - i,
    {
        match candle_to_domain(candles[i].clone()) {
            Ok(c) => {
                v.push(c);
            },
            Err(e) => {
                return Err(e);
            },
        }
        i += 1;
    }
    Ok(v)
}

/// Convert one backend book record to a domain price level.
pub fn ask_bid_from_record(record: model::BookRecordL2) -> (r: crate::model::AskBid)
    ensures
        r.price == record.price,
        r.qty == record.size,
{
    crate::model::AskBid { price: record.price, qty: record.size }
}

fn ask_bids_from_records(records: Vec<model::BookRecordL2>) -> (r: Vec<crate::model::AskBid>)
    ensures
        r@.len() == records@.len(),
        forall|i: int| 0 <= i < records@.len() ==> (#[trigger] r@[i]).price == records@[i].price
            && r@[i].qty == records@[i].size,
{
    let mut v: Vec<crate::model::AskBid> = Vec::new();
    let n = records.len();
    let mut i: usize = 0;
    while i < n
        invariant
            n == records@.len(),
            0 <= i <= n,
            v@.len() == i,
            forall|j: int| 0 <= j < i ==> (#[trigger] v@[j]).price == records@[j].price
                && v@[j].qty == records@[j].size,
        decreases n - i,
    {
        v.push(ask_bid_from_record(records[i].clone()));
        i += 1;
    }
    v
}

/// Convert the backend's L2 book snapshot to the domain order book: the
/// levels carry over in order on both sides, and the snapshot exposes no
/// update id, so `last_update_id` is `None`.
pub fn order_book_response_from_book(book: model::Book) -> (r: crate::model::OrderBookResponse)
    ensures
        r.last_update_id is None,
        r.bids@.len() == book.bids@.len(),
        forall|i: int| 0 <= i < book.bids@.len() ==> (#[trigger] r.bids@[i]).price
            == book.bids@[i].price && r.bids@[i].qty == book.bids@[i].size,
        r.asks@.len() == book.asks@.len(),
        forall|i: int| 0 <= i < book.asks@.len() ==> (#[trigger] r.asks@[i]).price
            == book.asks@[i].price && r.asks@[i].qty == book.asks@[i].size,
{
    crate::model::OrderBookResponse {
        last_update_id: None,
        bids: ask_bids_from_records(book.bids),
        asks: ask_bids_from_records(book.asks),
    }
}

/// The query parameter a numeric option contributes: one `key=value` pair
/// in decimal when present, nothing when absent.
pub open spec fn opt_num_pair(key: Seq<char>, v: Option<u64>) -> Seq<(Seq<char>, Seq<char>)> {
    match v {
        Some(n) => seq![(key, spec_dec(n as nat))],
        None => Seq::<(Seq<char>, Seq<char>)>::empty(),
    }
}

/// The query parameter a string option contributes.
pub open spec fn opt_str_pair(key: Seq<char>, v: Option<String>) -> Seq<(Seq<char>, Seq<char>)> {
    match v {
        Some(s) => seq![(key, s@)],
        None => Seq::<(Seq<char>, Seq<char>)>::empty(),
    }
}

/// The query parameters a pagination token contributes: `before`, `after`
/// and `limit`, in that order, each only when present.
pub open spec fn spec_paginator_pairs(p: Option<model::Paginator>) -> Seq<(Seq<char>, Seq<char>)> {
    match p {
        Some(pg) => opt_num_pair("before"@, pg.before) + opt_num_pair("after"@, pg.after)
            + opt_num_pair("limit"@, pg.limit),
        None => Seq::<(Seq<char>, Seq<char>)>::empty(),
    }
}

fn push_opt_num_pair(pairs: &mut Vec<(String, String)>, key: &str, v: Option<u64>)
    ensures
        view_pairs(final(pairs)@) == view_pairs(old(pairs)@) + opt_num_pair(key@, v),
{
    match v {
        Some(n) => {
            pairs.push((key.to_owned(), u64_to_dec_string(n)));
            proof {
                assert(view_pairs(pairs@) =~= view_pairs(old(pairs)@) + opt_num_pair(key@, v));
            }
        },
        None => {
            proof {
                assert(view_pairs(pairs@) =~= view_pairs(old(pairs)@) + opt_num_pair(key@, v));
            }
        },
    }
}

fn push_opt_str_pair(pairs: &mut Vec<(String, String)>, key: &str, v: &Option<String>)
    ensures
        view_pairs(final(pairs)@) == view_pairs(old(pairs)@) + opt_str_pair(key@, *v),
{
    match v {
        Some(s) => {
            pairs.push((key.to_owned(), s.clone()));
            proof {
                assert(view_pairs(pairs@) =~= view_pairs(old(pairs)@) + opt_str_pair(key@, *v));
            }
        },
        None => {
            proof {
                assert(view_pairs(pairs@) =~= view_pairs(old(pairs)@) + opt_str_pair(key@, *v));
            }
        },
    }
}

fn push_paginator_pairs(pairs: &mut Vec<(String, String)>, p: &Option<model::Paginator>)
    ensures
        view_pairs(final(pairs)@) == view_pairs(old(pairs)@) + spec_paginator_pairs(*p),
{
    match p {
        Some(pg) => {
            push_opt_num_pair(pairs, "before", pg.before);
            push_opt_num_pair(pairs, "after", pg.after);
            push_opt_num_pair(pairs, "limit", pg.limit);
            proof {
                assert(view_pairs(pairs@) =~= view_pairs(old(pairs)@) + spec_paginator_pairs(*p));
            }
        },
        None => {
            proof {
                assert(view_pairs(pairs@) =~= view_pairs(old(pairs)@) + spec_paginator_pairs(*p));
            }
        },
    }
}

/// The path of the symbol-list endpoint the market-info refresh reads.
pub fn products_path() -> (s: String)
    ensures
        s@ == "/products"@,
{
    String::from_str("/products")
}

/// The path of one pair's L2 book snapshot.
pub fn book_path(pair: &str) -> (s: String)
    ensures
        s@ == "/products/"@ + pair@ + "/book?level=2"@,
{
    let mut s = String::from_str("/products/");
    s.append(pair);
    s.append("/book?level=2");
    s
}

/// The path of one pair's price ticker.
pub fn ticker_path(pair: &str) -> (s: String)
    ensures
        s@ == "/products/"@ + pair@ + "/ticker"@,
{
    let mut s = String::from_str("/products/");
    s.append(pair);
    s.append("/ticker");
    s
}

/// The query parameters of a candle request: the window's `start` and
/// `end`, then the `granularity`, each only when present.
pub open spec fn spec_candle_pairs(params: model::CandleRequestParams) -> Seq<
    (Seq<char>, Seq<char>),
> {
    (match params.daterange {
        Some(dr) => opt_num_pair("start"@, dr.start) + opt_num_pair("end"@, dr.end),
        None => Seq::<(Seq<char>, Seq<char>)>::empty(),
    }) + (match params.granularity {
        Some(g) => seq![("granularity"@, spec_dec(g as nat))],
        None => Seq::<(Seq<char>, Seq<char>)>::empty(),
    })
}

/// The path of one pair's candles under the given request parameters.
pub fn candles_path(pair: &str, params: &model::CandleRequestParams) -> (s: String)
    ensures
        s@ == "/products/"@ + pair@ + "/candles"@ + spec_query(spec_candle_pairs(*params)),
{
    let mut pairs: Vec<(String, String)> = Vec::new();
    proof {
        assert(view_pairs(pairs@) =~= Seq::<(Seq<char>, Seq<char>)>::empty());
    }
    match &params.daterange {
        Some(dr) => {
            push_opt_num_pair(&mut pairs, "start", dr.start);
            push_opt_num_pair(&mut pairs, "end", dr.end);
        },
        None => {},
    }
    match params.granularity {
        Some(g) => {
            push_opt_num_pair(&mut pairs, "granularity", Some(g as u64));
        },
        None => {},
    }
    proof {
        assert(view_pairs(pairs@) =~= spec_candle_pairs(*params));
    }
    let mut s = String::from_str("/products/");
    s.append(pair);
    s.append("/candles");
    let q = encode_query(&pairs);
    s.append(q.as_str());
    s
}

/// The candle-request parameters a historic-rates request converts to,
/// where its interval is supported.
pub open spec fn spec_candle_params(req: crate::model::GetHistoricRatesRequest, g: u32) -> model::CandleRequestParams {
    model::CandleRequestParams {
        daterange: match req.paginator {
            Some(pg) => Some(spec_date_range(pg)),
            None => None,
        },
        granularity: Some(g),
    }
}

/// Prepare a historic-rates request: the exact path of the candle endpoint
/// under the converted parameters. An interval the backend does not
/// support fails with `MissingParameter` here, before any request is
/// built, signed or sent.
pub fn prepare_historic_rates(req: &crate::model::GetHistoricRatesRequest) -> (r: Result<
    String,
    OpenLimitError,
>)
    ensures
        match spec_granularity(req.interval) {
            Some(g) => r matches Ok(path) && path@ == "/products/"@ + req.market_pair@
                + "/candles"@ + spec_query(spec_candle_pairs(spec_candle_params(*req, g))),
            None => r matches Err(e) && e.is_missing_parameter(),
        },
{
    let params = candle_params_from_request(req)?;
    Ok(candles_path(req.market_pair.as_str(), &params))
}

/// The query parameters of an order-list request: the `status` filter, the
/// pair, and the pagination, in that order, each only when present.
pub open spec fn spec_order_req_pairs(req: model::GetOrderRequest) -> Seq<(Seq<char>, Seq<char>)> {
    opt_str_pair("status"@, req.status) + opt_str_pair("product_id"@, req.product_id)
        + spec_paginator_pairs(req.paginator)
}

/// The path of the caller's order list under the given request.
pub fn orders_path(req: &model::GetOrderRequest) -> (s: String)
    ensures
        s@ == "/orders"@ + spec_query(spec_order_req_pairs(*req)),
{
    let mut pairs: Vec<(String, String)> = Vec::new();
    proof {
        assert(view_pairs(pairs@) =~= Seq::<(Seq<char>, Seq<char>)>::empty());
    }
    push_opt_str_pair(&mut pairs, "status", &req.status);
    push_opt_str_pair(&mut pairs, "product_id", &req.product_id);
    push_paginator_pairs(&mut pairs, &req.paginator);
    proof {
        assert(view_pairs(pairs@) =~= spec_order_req_pairs(*req));
    }
    let mut s = String::from_str("/orders");
    let q = encode_query(&pairs);
    s.append(q.as_str());
    s
}

/// The query parameters of a fill-list request: the order, the pair, and
/// the pagination, in that order, each only when present.
pub open spec fn spec_fills_req_pairs(req: model::GetFillsReq) -> Seq<(Seq<char>, Seq<char>)> {
    opt_str_pair("order_id"@, req.order_id) + opt_str_pair("product_id"@, req.product_id)
        + spec_paginator_pairs(req.paginator)
}

/// The path of the caller's fill list under the given request.
pub fn fills_path(req: &model::GetFillsReq) -> (s: String)
    ensures
        s@ == "/fills"@ + spec_query(spec_fills_req_pairs(*req)),
{
    let mut pairs: Vec<(String, String)> = Vec::new();
    proof {
        assert(view_pairs(pairs@) =~= Seq::<(Seq<char>, Seq<char>)>::empty());
    }
    push_opt_str_pair(&mut pairs, "order_id", &req.order_id);
    push_opt_str_pair(&mut pairs, "product_id", &req.product_id);
    push_paginator_pairs(&mut pairs, &req.paginator);
    proof {
        assert(view_pairs(pairs@) =~= spec_fills_req_pairs(*req));
    }
    let mut s = String::from_str("/fills");
    let q = encode_query(&pairs);
    s.append(q.as_str());
    s
}

/// The path of the caller's account list under the given pagination.
pub fn accounts_path(paginator: &Option<model::Paginator>) -> (s: String)
    ensures
        s@ == "/accounts"@ + spec_query(spec_paginator_pairs(*paginator)),
{
    let mut pairs: Vec<(String, String)> = Vec::new();
    proof {
        assert(view_pairs(pairs@) =~= Seq::<(Seq<char>, Seq<char>)>::empty());
    }
    push_paginator_pairs(&mut pairs, paginator);
    proof {
        assert(view_pairs(pairs@) =~= spec_paginator_pairs(*paginator));
    }
    let mut s = String::from_str("/accounts");
    let q = encode_query(&pairs);
    s.append(q.as_str());
    s
}

/// The path of one order, for reading or canceling it.
pub fn order_path(id: &str) -> (s: String)
    ensures
        s@ == "/orders/"@ + id@,
{
    let mut s = String::from_str("/orders/");
    s.append(id);
    s
}

/// The path that cancels one order, optionally naming its pair.
pub fn cancel_order_path(id: &str, product_id: &Option<String>) -> (s: String)
    ensures
        s@ == "/orders/"@ + id@ + spec_query(opt_str_pair("product_id"@, *product_id)),
{
    let mut pairs: Vec<(String, String)> = Vec::new();
    proof {
        assert(view_pairs(pairs@) =~= Seq::<(Seq<char>, Seq<char>)>::empty());
    }
    push_opt_str_pair(&mut pairs, "product_id", product_id);
    proof {
        assert(view_pairs(pairs@) =~= opt_str_pair("product_id"@, *product_id));
    }
    let mut s = String::from_str("/orders/");
    s.append(id);
    let q = encode_query(&pairs);
    s.append(q.as_str());
    s
}

/// The path that cancels every open order, optionally narrowed to one
/// pair.
pub fn cancel_all_path(product_id: &Option<String>) -> (s: String)
    ensures
        s@ == "/orders"@ + spec_query(opt_str_pair("product_id"@, *product_id)),
{
    let mut pairs: Vec<(String, String)> = Vec::new();
    proof {
        assert(view_pairs(pairs@) =~= Seq::<(Seq<char>, Seq<char>)>::empty());
    }
    push_opt_str_pair(&mut pairs, "product_id", product_id);
    proof {
        assert(view_pairs(pairs@) =~= opt_str_pair("product_id"@, *product_id));
    }
    let mut s = String::from_str("/orders");
    let q = encode_query(&pairs);
    s.append(q.as_str());
    s
}

} // verus!
