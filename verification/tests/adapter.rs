use openlimits::coinbase::{Coinbase, CoinbaseCredentials, CoinbaseParameters};
use openlimits::errors::OpenLimitError;
use openlimits::exchange_info::{ExchangeInfo, SymbolInfo};

fn sample_symbols() -> Vec<SymbolInfo> {
    vec![
        SymbolInfo {
            symbol: "BTC-USD".to_string(),
            tick_size: "0.01".to_string(),
            min_size: "0.0001".to_string(),
        },
        SymbolInfo {
            symbol: "ETH-USD".to_string(),
            tick_size: "0.01".to_string(),
            min_size: "0.001".to_string(),
        },
    ]
}

#[test]
fn refresh_replaces_the_snapshot_whole() {
    let mut cache = ExchangeInfo::new();
    assert!(cache.get("BTC-USD").is_none());
    cache.refresh(Ok(sample_symbols())).unwrap();
    let info = cache.get("BTC-USD").unwrap();
    assert_eq!(info.tick_size, "0.01");
    assert_eq!(info.min_size, "0.0001");
    assert!(cache.get("DOGE-USD").is_none());
}

#[test]
fn refresh_twice_with_unchanged_list_leaves_the_snapshot_unchanged() {
    let mut once = ExchangeInfo::new();
    once.refresh(Ok(sample_symbols())).unwrap();
    let mut twice = ExchangeInfo::new();
    twice.refresh(Ok(sample_symbols())).unwrap();
    twice.refresh(Ok(sample_symbols())).unwrap();
    assert_eq!(once.symbols, twice.symbols);
}

#[test]
fn failed_refresh_keeps_the_previous_snapshot() {
    let mut cache = ExchangeInfo::new();
    cache.refresh(Ok(sample_symbols())).unwrap();
    let r = cache.refresh(Err(OpenLimitError::NetworkError("timed out".to_string())));
    assert_eq!(
        r.unwrap_err(),
        OpenLimitError::NetworkError("timed out".to_string())
    );
    assert!(cache.get("BTC-USD").is_some());
    assert_eq!(cache.symbols.len(), 2);
}

#[test]
fn adapter_without_credentials_targets_the_sandbox_url() {
    let adapter = Coinbase::new(CoinbaseParameters::sandbox()).unwrap();
    assert_eq!(
        adapter.transport.base_url,
        "https://api-public.sandbox.pro.coinbase.com"
    );
    assert!(adapter.transport.credentials.is_none());
    assert!(adapter.exchange_info.symbols.is_empty());
}

#[test]
fn adapter_for_production_targets_the_production_url() {
    let adapter = Coinbase::new(CoinbaseParameters::prod()).unwrap();
    assert_eq!(adapter.transport.base_url, "https://api.pro.coinbase.com");
}

#[test]
fn adapter_with_malformed_credentials_fails_construction() {
    let parameters = CoinbaseParameters {
        sandbox: true,
        credentials: Some(CoinbaseCredentials {
            api_key: "key".to_string(),
            api_secret: "***not-base64***".to_string(),
            passphrase: "phrase".to_string(),
        }),
    };
    let r = Coinbase::new(parameters);
    assert!(matches!(r, Err(OpenLimitError::ConfigError(_))));
}

#[test]
fn adapter_with_wellformed_credentials_holds_them() {
    let parameters = CoinbaseParameters {
        sandbox: false,
        credentials: Some(CoinbaseCredentials {
            api_key: "key-id".to_string(),
            api_secret: "c2VjcmV0".to_string(),
            passphrase: "phrase".to_string(),
        }),
    };
    let adapter = Coinbase::new(parameters).unwrap();
    let c = adapter.transport.credentials.as_ref().unwrap();
    assert_eq!(c.api_key, "key-id");
    assert_eq!(c.api_secret, b"secret".to_vec());
    assert_eq!(c.passphrase, "phrase");
}

#[test]
fn adapter_refresh_fills_the_symbol_snapshot() {
    let mut adapter = Coinbase::new(CoinbaseParameters::sandbox()).unwrap();
    adapter.refresh_market_info(Ok(sample_symbols())).unwrap();
    assert!(adapter.exchange_info.get("ETH-USD").is_some());
}

#[test]
fn scenario_order_book_through_a_credential_free_sandbox_adapter() {
    // A credential-free adapter against the sandbox, asking for a pair's
    // book: the request goes out unsigned, a successful response hands the
    // body on, and the converted snapshot has both sides and no update id.
    let adapter = Coinbase::new(CoinbaseParameters::sandbox()).unwrap();
    assert_eq!(
        adapter.transport.base_url,
        "https://api-public.sandbox.pro.coinbase.com"
    );
    let path = openlimits::coinbase::book_path("BTC-USD");
    let request = adapter
        .transport
        .build_request("GET", &path, "", 1_650_000_000, false)
        .unwrap();
    assert!(request.headers.is_none());
    assert_eq!(request.path, "/products/BTC-USD/book?level=2");

    let body = openlimits::transport::classify_response(
        openlimits::transport::HttpOutcome::Response {
            status: 200,
            body: "{\"bids\":[[\"295.96\",\"4.39\"]],\"asks\":[[\"295.97\",\"25.2\"]]}"
                .to_string(),
        },
    )
    .unwrap();
    assert!(body.contains("295.96"));

    let book = openlimits::coinbase::model::Book {
        bids: vec![openlimits::coinbase::model::BookRecordL2 {
            price: "295.96".to_string(),
            size: "4.39".to_string(),
        }],
        asks: vec![openlimits::coinbase::model::BookRecordL2 {
            price: "295.97".to_string(),
            size: "25.2".to_string(),
        }],
    };
    let response = openlimits::coinbase::order_book_response_from_book(book);
    assert_eq!(response.last_update_id, None);
    assert!(!response.bids.is_empty());
    assert!(!response.asks.is_empty());
}

#[test]
fn scenario_limit_buy_with_rejected_credentials_is_an_authentication_error() {
    // An adapter whose credentials are well-formed but wrong: the limit-buy
    // request builds and signs, the backend answers 401, and the outcome is
    // an `AuthenticationError` — no panic, no generic network failure.
    let parameters = CoinbaseParameters {
        sandbox: true,
        credentials: Some(CoinbaseCredentials {
            api_key: "stale-key".to_string(),
            api_secret: "d3Jvbmctc2VjcmV0".to_string(),
            passphrase: "phrase".to_string(),
        }),
    };
    let adapter = Coinbase::new(parameters).unwrap();
    let order = openlimits::coinbase::limit_order_request(
        &openlimits::model::OpenLimitOrderRequest {
            market_pair: "BTC-USD".to_string(),
            size: "1.0".to_string(),
            price: "30000".to_string(),
        },
        openlimits::model::Side::Buy,
    );
    assert_eq!(order.side, "buy");
    let request = adapter
        .transport
        .build_request("POST", "/orders", "{}", 1_650_000_000, true)
        .unwrap();
    assert!(request.headers.is_some());

    let r = openlimits::transport::classify_response(
        openlimits::transport::HttpOutcome::Response {
            status: 401,
            body: "{\"message\":\"Invalid API Key\"}".to_string(),
        },
    );
    assert!(matches!(r, Err(OpenLimitError::AuthenticationError(_))));
}

#[test]
fn lookup_returns_the_first_matching_entry() {
    let mut cache = ExchangeInfo::new();
    cache
        .refresh(Ok(vec![
            SymbolInfo {
                symbol: "BTC-USD".to_string(),
                tick_size: "0.01".to_string(),
                min_size: "0.0001".to_string(),
            },
            SymbolInfo {
                symbol: "BTC-USD".to_string(),
                tick_size: "0.10".to_string(),
                min_size: "0.001".to_string(),
            },
        ]))
        .unwrap();
    let info = cache.get("BTC-USD").unwrap();
    assert_eq!(info.tick_size, "0.01");
}
