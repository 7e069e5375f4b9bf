use openlimits::coinbase;
use openlimits::coinbase::model;
use openlimits::errors::OpenLimitError;
use openlimits::model::{Interval, Liquidity, OrderStatus, Paginator, Side};

fn sample_fill(side: &str, liquidity: &str) -> model::Fill {
    model::Fill {
        trade_id: 74,
        order_id: "d50ec984-77a8-460a-b958-66f114b0de9b".to_string(),
        product_id: "BTC-USD".to_string(),
        price: "10.00".to_string(),
        size: "0.01".to_string(),
        fee: "0.0025".to_string(),
        side: side.to_string(),
        liquidity: liquidity.to_string(),
        created_at: 1_550_000_000_000,
    }
}

#[test]
fn wire_status_active_maps_to_active() {
    let status = coinbase::order_status_from_wire("active").unwrap();
    assert_eq!(coinbase::status_to_domain(status), OrderStatus::Active);
}

#[test]
fn wire_status_done_maps_to_filled() {
    let status = coinbase::order_status_from_wire("done").unwrap();
    assert_eq!(coinbase::status_to_domain(status), OrderStatus::Filled);
}

#[test]
fn wire_status_open_maps_to_open() {
    let status = coinbase::order_status_from_wire("open").unwrap();
    assert_eq!(coinbase::status_to_domain(status), OrderStatus::Open);
}

#[test]
fn wire_status_pending_maps_to_pending() {
    let status = coinbase::order_status_from_wire("pending").unwrap();
    assert_eq!(coinbase::status_to_domain(status), OrderStatus::Pending);
}

#[test]
fn wire_status_rejected_maps_to_rejected() {
    let status = coinbase::order_status_from_wire("rejected").unwrap();
    assert_eq!(coinbase::status_to_domain(status), OrderStatus::Rejected);
}

#[test]
fn unmapped_wire_status_is_rejected_not_defaulted() {
    let r = coinbase::order_status_from_wire("settled");
    assert!(matches!(r, Err(OpenLimitError::DeserializationError(_))));
    let r = coinbase::order_status_from_wire("");
    assert!(matches!(r, Err(OpenLimitError::DeserializationError(_))));
}

#[test]
fn wire_side_maps_and_rejects() {
    assert_eq!(coinbase::order_side_from_wire("buy").unwrap(), model::OrderSide::Buy);
    assert_eq!(coinbase::order_side_from_wire("sell").unwrap(), model::OrderSide::Sell);
    let r = coinbase::order_side_from_wire("short");
    assert!(matches!(r, Err(OpenLimitError::DeserializationError(_))));
}

#[test]
fn paginator_round_trip_preserves_markers_and_limit() {
    let p = Paginator {
        start_time: Some(1_500_000_000_000),
        end_time: Some(1_600_000_000_000),
        limit: Some(100),
        before: Some(7),
        after: Some(9),
    };
    let native = coinbase::paginator_to_native(&p);
    let back = coinbase::paginator_from_native(&native);
    assert_eq!(back.before, p.before);
    assert_eq!(back.after, p.after);
    assert_eq!(back.limit, p.limit);
}

#[test]
fn interval_conversion_matches_native_granularities() {
    assert_eq!(coinbase::interval_to_granularity(Interval::OneMinute).unwrap(), 60);
    assert_eq!(coinbase::interval_to_granularity(Interval::FiveMinutes).unwrap(), 300);
    assert_eq!(coinbase::interval_to_granularity(Interval::FifteenMinutes).unwrap(), 900);
    assert_eq!(coinbase::interval_to_granularity(Interval::OneHour).unwrap(), 3600);
    assert_eq!(coinbase::interval_to_granularity(Interval::SixHours).unwrap(), 21600);
    assert_eq!(coinbase::interval_to_granularity(Interval::OneDay).unwrap(), 86400);
}

#[test]
fn unsupported_interval_fails_with_missing_parameter() {
    for interval in [
        Interval::ThreeMinutes,
        Interval::ThirtyMinutes,
        Interval::TwoHours,
        Interval::FourHours,
        Interval::EightHours,
        Interval::TwelveHours,
        Interval::ThreeDays,
        Interval::OneWeek,
        Interval::OneMonth,
    ] {
        let r = coinbase::interval_to_granularity(interval);
        assert!(matches!(r, Err(OpenLimitError::MissingParameter(_))));
    }
}

#[test]
fn maker_liquidity_flag_maps_to_maker() {
    let t = coinbase::trade_from_fill(sample_fill("buy", "M")).unwrap();
    assert_eq!(t.liquidity, Some(Liquidity::Maker));
    assert_eq!(t.side, Side::Buy);
}

#[test]
fn taker_liquidity_flag_maps_to_taker() {
    let t = coinbase::trade_from_fill(sample_fill("sell", "T")).unwrap();
    assert_eq!(t.liquidity, Some(Liquidity::Taker));
    assert_eq!(t.side, Side::Sell);
}

#[test]
fn other_liquidity_flag_is_explicitly_none() {
    let t = coinbase::trade_from_fill(sample_fill("buy", "X")).unwrap();
    assert_eq!(t.liquidity, None);
    let t = coinbase::trade_from_fill(sample_fill("buy", "")).unwrap();
    assert_eq!(t.liquidity, None);
}

#[test]
fn fill_with_unmapped_side_is_rejected() {
    let r = coinbase::trade_from_fill(sample_fill("hold", "M"));
    assert!(matches!(r, Err(OpenLimitError::DeserializationError(_))));
}

#[test]
fn trade_carries_fill_fields_exactly() {
    let t = coinbase::trade_from_fill(sample_fill("buy", "M")).unwrap();
    assert_eq!(t.id, 74);
    assert_eq!(t.order_id, "d50ec984-77a8-460a-b958-66f114b0de9b");
    assert_eq!(t.market_pair, "BTC-USD");
    assert_eq!(t.price, "10.00");
    assert_eq!(t.qty, "0.01");
    assert_eq!(t.fees, Some("0.0025".to_string()));
    assert_eq!(t.created_at, 1_550_000_000_000);
}

#[test]
fn limit_order_converts_with_price_and_type() {
    let native = model::Order {
        id: "a1".to_string(),
        product_id: "ETH-USD".to_string(),
        side: "buy".to_string(),
        status: "open".to_string(),
        created_at: 1_551_000_000_000,
        order_type: model::OrderType::Limit {
            price: "200.10".to_string(),
            size: "1.5".to_string(),
            time_in_force: "GTC".to_string(),
        },
    };
    let o = coinbase::order_to_domain(native).unwrap();
    assert_eq!(o.id, "a1");
    assert_eq!(o.market_pair, "ETH-USD");
    assert_eq!(o.client_order_id, None);
    assert_eq!(o.created_at, Some(1_551_000_000_000));
    assert_eq!(o.price, Some("200.10".to_string()));
    assert_eq!(o.size, "1.5");
    assert_eq!(o.side, Side::Buy);
    assert_eq!(o.status, OrderStatus::Open);
    assert_eq!(o.order_type, "limit");
}

#[test]
fn market_order_converts_without_price() {
    let native = model::Order {
        id: "b2".to_string(),
        product_id: "BTC-USD".to_string(),
        side: "sell".to_string(),
        status: "done".to_string(),
        created_at: 1_552_000_000_000,
        order_type: model::OrderType::Market {
            size: "0.25".to_string(),
            funds: Some("1000".to_string()),
        },
    };
    let o = coinbase::order_to_domain(native).unwrap();
    assert_eq!(o.price, None);
    assert_eq!(o.size, "0.25");
    assert_eq!(o.side, Side::Sell);
    assert_eq!(o.status, OrderStatus::Filled);
    assert_eq!(o.order_type, "market");
}

#[test]
fn order_with_unmapped_status_is_rejected() {
    let native = model::Order {
        id: "c3".to_string(),
        product_id: "BTC-USD".to_string(),
        side: "buy".to_string(),
        status: "settled".to_string(),
        created_at: 0,
        order_type: model::OrderType::Market { size: "1".to_string(), funds: None },
    };
    let r = coinbase::order_to_domain(native);
    assert!(matches!(r, Err(OpenLimitError::DeserializationError(_))));
}

#[test]
fn orders_to_domain_converts_elementwise() {
    let one = model::Order {
        id: "a".to_string(),
        product_id: "BTC-USD".to_string(),
        side: "buy".to_string(),
        status: "open".to_string(),
        created_at: 1,
        order_type: model::OrderType::Market { size: "1".to_string(), funds: None },
    };
    let two = model::Order {
        id: "b".to_string(),
        product_id: "ETH-USD".to_string(),
        side: "sell".to_string(),
        status: "active".to_string(),
        created_at: 2,
        order_type: model::OrderType::Limit {
            price: "10".to_string(),
            size: "2".to_string(),
            time_in_force: "GTC".to_string(),
        },
    };
    let v = coinbase::orders_to_domain(vec![one, two]).unwrap();
    assert_eq!(v.len(), 2);
    assert_eq!(v[0].id, "a");
    assert_eq!(v[1].id, "b");
    assert_eq!(v[1].status, OrderStatus::Active);
}

#[test]
fn balance_reads_available_as_free_and_balance_as_total() {
    let b = coinbase::balance_from_account(model::Account {
        currency: "USD".to_string(),
        balance: "120.50".to_string(),
        available: "100.25".to_string(),
    });
    assert_eq!(b.asset, "USD");
    assert_eq!(b.free, "100.25");
    assert_eq!(b.total, "120.50");
}

#[test]
fn ticker_carries_the_price() {
    let t = coinbase::ticker_to_domain(model::Ticker { price: "9999.01".to_string() });
    assert_eq!(t.price, "9999.01");
}

#[test]
fn candle_time_turns_seconds_into_milliseconds() {
    let c = coinbase::candle_to_domain(model::Candle {
        time: 1_550_000_000,
        low: "1".to_string(),
        high: "2".to_string(),
        open: "1.5".to_string(),
        close: "1.8".to_string(),
        volume: "42".to_string(),
    })
    .unwrap();
    assert_eq!(c.time, 1_550_000_000_000);
    assert_eq!(c.low, "1");
    assert_eq!(c.high, "2");
    assert_eq!(c.open, "1.5");
    assert_eq!(c.close, "1.8");
    assert_eq!(c.volume, "42");
}

#[test]
fn candle_time_out_of_range_is_rejected() {
    let r = coinbase::candle_to_domain(model::Candle {
        time: u64::MAX / 1000 + 1,
        low: "1".to_string(),
        high: "2".to_string(),
        open: "1.5".to_string(),
        close: "1.8".to_string(),
        volume: "42".to_string(),
    });
    assert!(matches!(r, Err(OpenLimitError::DeserializationError(_))));
}

#[test]
fn book_converts_with_no_update_id_and_both_sides() {
    let book = model::Book {
        bids: vec![
            model::BookRecordL2 { price: "295.96".to_string(), size: "4.39".to_string() },
            model::BookRecordL2 { price: "295.95".to_string(), size: "1.00".to_string() },
        ],
        asks: vec![model::BookRecordL2 { price: "295.97".to_string(), size: "25.2".to_string() }],
    };
    let r = coinbase::order_book_response_from_book(book);
    assert_eq!(r.last_update_id, None);
    assert!(!r.bids.is_empty());
    assert!(!r.asks.is_empty());
    assert_eq!(r.bids[0].price, "295.96");
    assert_eq!(r.bids[1].qty, "1.00");
    assert_eq!(r.asks[0].price, "295.97");
    assert_eq!(r.asks[0].qty, "25.2");
}

#[test]
fn historic_trades_are_unsupported() {
    let req = openlimits::model::GetHistoricTradesRequest {
        market_pair: "BTC-USD".to_string(),
        paginator: None,
    };
    let r = coinbase::get_historic_trades(&req);
    assert!(matches!(r, Err(OpenLimitError::UnsupportedOperation(_))));
}

#[test]
fn canceled_order_ids_carry_over_in_order() {
    let v = coinbase::orders_canceled_from_ids(vec!["x".to_string(), "y".to_string()]);
    assert_eq!(v.len(), 2);
    assert_eq!(v[0].id, "x");
    assert_eq!(v[1].id, "y");
}

#[test]
fn open_orders_request_asks_for_open_status_only() {
    let r = coinbase::open_orders_request();
    assert_eq!(r.status, Some("open".to_string()));
    assert_eq!(r.paginator, None);
    assert_eq!(r.product_id, None);
}

#[test]
fn order_request_from_history_keeps_pair_and_paginator() {
    let req = openlimits::model::GetOrderHistoryRequest {
        market_pair: Some("BTC-USD".to_string()),
        paginator: Some(Paginator {
            start_time: None,
            end_time: None,
            limit: Some(5),
            before: Some(1),
            after: None,
        }),
    };
    let native = coinbase::order_request_from_history(&req);
    assert_eq!(native.status, None);
    assert_eq!(native.product_id, Some("BTC-USD".to_string()));
    let p = native.paginator.unwrap();
    assert_eq!(p.limit, Some(5));
    assert_eq!(p.before, Some(1));
    assert_eq!(p.after, None);
}

#[test]
fn fills_req_keeps_order_and_pair() {
    let req = openlimits::model::TradeHistoryRequest {
        market_pair: Some("ETH-USD".to_string()),
        order_id: Some("o-7".to_string()),
        paginator: None,
    };
    let native = coinbase::fills_req_from_trade_history(&req);
    assert_eq!(native.order_id, Some("o-7".to_string()));
    assert_eq!(native.product_id, Some("ETH-USD".to_string()));
    assert_eq!(native.paginator, None);
}

#[test]
fn limit_and_market_order_requests_read_side_and_type() {
    let limit = openlimits::model::OpenLimitOrderRequest {
        market_pair: "BTC-USD".to_string(),
        size: "1.0".to_string(),
        price: "30000".to_string(),
    };
    let body = coinbase::limit_order_request(&limit, Side::Buy);
    assert_eq!(body.product_id, "BTC-USD");
    assert_eq!(body.side, "buy");
    assert_eq!(body.order_type, "limit");
    assert_eq!(body.price, Some("30000".to_string()));
    assert_eq!(body.size, "1.0");

    let market = openlimits::model::OpenMarketOrderRequest {
        market_pair: "BTC-USD".to_string(),
        size: "0.5".to_string(),
    };
    let body = coinbase::market_order_request(&market, Side::Sell);
    assert_eq!(body.side, "sell");
    assert_eq!(body.order_type, "market");
    assert_eq!(body.price, None);
}
