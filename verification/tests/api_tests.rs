use hyperliquid_trading_bot::api::client::{
    account_info_from_state, cancel_outcome, cancel_request_from, check_http_status,
    create_signature, market_data_from_mid, order_outcome, order_request_from, signature_from,
};
use hyperliquid_trading_bot::api::types::{
    AssetPosition, HyperliquidResponse, Position as ExchangePosition, UserState,
};
use hyperliquid_trading_bot::api::websocket::{
    subscribe_to_candles, subscribe_to_l2_book, subscribe_to_ticker, WebSocketClient,
};
use hyperliquid_trading_bot::decimal::Decimal;
use hyperliquid_trading_bot::error::Error;
use hyperliquid_trading_bot::models::{Order, OrderSide, OrderStatus, OrderType, PositionSide};
use hyperliquid_trading_bot::time::Timestamp;

fn dec(mantissa: i64, scale: u32) -> Decimal {
    Decimal::new(mantissa, scale)
}

fn now() -> Timestamp {
    Timestamp::new(1_700_000_000, 125)
}

fn asset(coin: &str, size: Decimal, unrealized: Decimal, margin: Decimal) -> AssetPosition {
    AssetPosition {
        position: ExchangePosition {
            coin: coin.to_string(),
            entry_px: dec(10, 0),
            leverage: dec(1, 0),
            liquidation_px: None,
            margin_used: margin,
            max_leverage: dec(20, 0),
            position_value: dec(0, 0),
            return_on_equity: dec(0, 0),
            szi: size,
            unrealized_pnl: unrealized,
        },
        type_: "oneWay".to_string(),
        coin: coin.to_string(),
        pnl: dec(0, 0),
        value: dec(0, 0),
        entry_px: dec(11, 0),
        leverage: dec(1, 0),
        sz: size,
        unrealized_pnl: unrealized,
    }
}

fn state(assets: Vec<AssetPosition>) -> UserState {
    UserState {
        asset_positions: assets,
        cross_margin_summary: None,
        margin_summary: None,
        time: 0,
        withdrawable: dec(12345, 2),
    }
}

fn order(side: OrderSide, kind: OrderType, price: Option<Decimal>) -> Order {
    Order {
        id: "id".to_string(),
        symbol: "BTC".to_string(),
        side,
        order_type: kind,
        quantity: dec(15, 1),
        price,
        status: OrderStatus::Pending,
        created_at: now(),
        updated_at: None,
        filled_quantity: Decimal::zero(),
        average_price: None,
    }
}

#[test]
fn signature_is_the_hex_of_the_hmac() {
    let signature =
        create_signature("key", "The quick brown fox jumps over the lazy dog").unwrap();
    assert_eq!(signature, "f7bc83f430538424b13298e6aa6fb143ef4d59a14946175997479dbc2d1a3cd8");
}

#[test]
fn signature_of_empty_key_and_body() {
    let signature = create_signature("", "").unwrap();
    assert_eq!(signature, "b613679a0814d9ec772f95d778c35fc5ff1697c493715653c6c712144292c5ad");
}

#[test]
fn signature_depends_on_key_and_body() {
    let a = create_signature("key", "{\"type\":\"allMids\"}").unwrap();
    let b = create_signature("key", "{\"type\":\"allMidz\"}").unwrap();
    let c = create_signature("kez", "{\"type\":\"allMids\"}").unwrap();
    assert_ne!(a, b);
    assert_ne!(a, c);
    assert_eq!(a.len(), 64);
    assert_eq!(a, create_signature("key", "{\"type\":\"allMids\"}").unwrap());
}

#[test]
fn signature_from_a_code_or_a_refusal() {
    assert_eq!(signature_from(Ok(vec![0x00, 0x0f, 0xa5, 0xff])).unwrap(), "000fa5ff");
    assert_eq!(signature_from(Ok(Vec::new())).unwrap(), "");
    match signature_from(Err("Invalid Length".to_string())) {
        Err(Error::Api(text)) => assert_eq!(text, "Invalid private key: Invalid Length"),
        other => panic!("expected an error of the exchange, got {:?}", other),
    }
}

#[test]
fn http_status_codes() {
    assert!(check_http_status(200, "200 OK", "").is_ok());
    assert!(check_http_status(204, "204 No Content", "").is_ok());
    assert!(check_http_status(299, "299", "").is_ok());
    for code in [0u16, 199, 300, 404, 500, u16::MAX] {
        assert!(check_http_status(code, "x", "y").is_err());
    }
    match check_http_status(429, "429 Too Many Requests", "slow down") {
        Err(Error::Api(text)) => assert_eq!(text, "HTTP 429 Too Many Requests: slow down"),
        other => panic!("expected an error of the exchange, got {:?}", other),
    }
}

#[test]
fn envelope_with_data() {
    let r = HyperliquidResponse { success: true, data: Some(7u32), error: None };
    assert_eq!(r.into_result().unwrap(), 7);
    let with_note =
        HyperliquidResponse { success: true, data: Some(8u32), error: Some("note".to_string()) };
    assert_eq!(with_note.into_result().unwrap(), 8);
}

#[test]
fn envelope_that_reports_a_failure() {
    let r = HyperliquidResponse { success: false, data: Some(7u32), error: Some("bad".to_string()) };
    match r.into_result() {
        Err(Error::Api(text)) => assert_eq!(text, "bad"),
        other => panic!("expected an error of the exchange, got {:?}", other),
    }
    let silent: HyperliquidResponse<u32> =
        HyperliquidResponse { success: false, data: None, error: None };
    match silent.into_result() {
        Err(Error::Api(text)) => assert_eq!(text, "Unknown API error"),
        other => panic!("expected an error of the exchange, got {:?}", other),
    }
}

#[test]
fn envelope_without_data() {
    let r: HyperliquidResponse<u32> =
        HyperliquidResponse { success: true, data: None, error: None };
    match r.into_result() {
        Err(Error::Api(text)) => assert_eq!(text, "No data in response"),
        other => panic!("expected an error of the exchange, got {:?}", other),
    }
}

#[test]
fn quote_from_a_mid_price() {
    let quote = market_data_from_mid("BTC", Some(dec(4512345, 2)), now()).unwrap();
    assert_eq!(quote.symbol, "BTC");
    assert!(quote.price.equals(&dec(4512345, 2)));
    assert!(quote.volume_24h.is_zero());
    assert!(quote.change_24h.is_zero());
    assert!(quote.high_24h.equals(&quote.price));
    assert!(quote.low_24h.equals(&quote.price));
    assert_eq!(quote.timestamp, now());
}

#[test]
fn quote_for_an_unknown_symbol() {
    match market_data_from_mid("DOGE", None, now()) {
        Err(Error::Api(text)) => assert_eq!(text, "Symbol DOGE not found"),
        other => panic!("expected an error of the exchange, got {:?}", other),
    }
}

#[test]
fn account_from_a_user_state() {
    let user = state(vec![
        asset("BTC", dec(2, 0), dec(15, 0), dec(100, 0)),
        asset("ETH", dec(0, 3), dec(99, 0), dec(999, 0)),
        asset("SOL", dec(-35, 1), dec(-45, 1), dec(25, 1)),
    ]);
    let account = account_info_from_state(&user, now()).unwrap();
    assert!(account.balance.equals(&dec(12345, 2)));
    assert!(account.available_balance.equals(&dec(12345, 2)));
    assert!(account.open_orders.is_empty());
    assert_eq!(account.positions.len(), 2);

    let long = &account.positions[0];
    assert_eq!(long.symbol, "BTC");
    assert_eq!(long.side, PositionSide::Long);
    assert!(long.size.equals(&dec(2, 0)));
    assert!(long.entry_price.equals(&dec(11, 0)));
    assert!(long.current_price.is_zero());
    assert!(long.unrealized_pnl.equals(&dec(15, 0)));
    assert!(long.realized_pnl.is_zero());
    assert!(long.margin.equals(&dec(100, 0)));
    assert_eq!(long.timestamp, now());

    let short = &account.positions[1];
    assert_eq!(short.symbol, "SOL");
    assert_eq!(short.side, PositionSide::Short);
    assert!(short.size.equals(&dec(35, 1)));

    assert!(account.total_pnl.equals(&dec(105, 1)));
    assert!(account.total_margin.equals(&dec(1025, 1)));
}

#[test]
fn account_without_positions() {
    let account = account_info_from_state(&state(Vec::new()), now()).unwrap();
    assert!(account.positions.is_empty());
    assert!(account.total_pnl.is_zero());
    assert!(account.total_margin.is_zero());
}

#[test]
fn account_whose_totals_overflow() {
    let max = Decimal::from_parts(0xFFFF_FFFF_FFFF_FFFF_FFFF_FFFF, 0).unwrap();
    let user = state(vec![
        asset("BTC", dec(1, 0), max, dec(1, 0)),
        asset("ETH", dec(1, 0), max, dec(1, 0)),
    ]);
    match account_info_from_state(&user, now()) {
        Err(Error::Api(text)) => assert_eq!(text, "Account totals cannot be represented"),
        other => panic!("expected an error of the exchange, got {:?}", other),
    }
}

#[test]
fn order_in_the_form_of_the_exchange() {
    let limit = order_request_from(&order(OrderSide::Buy, OrderType::Limit, Some(dec(100, 0))));
    assert_eq!(limit.a, 0);
    assert!(limit.b);
    assert!(limit.p.equals(&dec(100, 0)));
    assert!(limit.s.equals(&dec(15, 1)));
    assert!(!limit.r);
    assert_eq!(limit.t, "Limit");
    assert_eq!(limit.cid, 0);

    let market = order_request_from(&order(OrderSide::Sell, OrderType::Market, None));
    assert!(!market.b);
    assert!(market.p.is_zero());
    assert_eq!(market.t, "Market");

    for kind in [OrderType::Stop, OrderType::StopLimit] {
        let other = order_request_from(&order(OrderSide::Sell, kind, Some(dec(1, 0))));
        assert_eq!(other.t, "Limit");
    }
}

#[test]
fn order_outcomes() {
    assert_eq!(order_outcome("ok").unwrap(), "order_id");
    for status in ["err", "OK", "", "ok "] {
        match order_outcome(status) {
            Err(Error::Trading(text)) => {
                assert_eq!(text, format!("Failed to place order: {}", status))
            }
            other => panic!("expected a trading error, got {:?}", other),
        }
    }
}

#[test]
fn cancel_requests_and_outcomes() {
    let request = cancel_request_from("42");
    assert_eq!(request.oid, 42);
    assert_eq!(request.coin, "");
    assert_eq!(cancel_request_from("18446744073709551615").oid, u64::MAX);
    for id in ["", "abc", "-1", "18446744073709551616", "4 2", "order_id"] {
        assert_eq!(cancel_request_from(id).oid, 0);
    }
    assert!(cancel_outcome("ok"));
    assert!(!cancel_outcome("error"));
    assert!(!cancel_outcome(""));
}

#[test]
fn subscriptions() {
    let ticker = subscribe_to_ticker("BTC");
    assert_eq!(ticker.method, "subscribe");
    assert_eq!(ticker.subscription.kind, "ticker");
    assert_eq!(ticker.subscription.coin, "BTC");
    assert!(ticker.subscription.interval.is_none());

    let book = subscribe_to_l2_book("ETH");
    assert_eq!(book.method, "subscribe");
    assert_eq!(book.subscription.kind, "l2Book");
    assert_eq!(book.subscription.coin, "ETH");
    assert!(book.subscription.interval.is_none());

    let candles = subscribe_to_candles("SOL", "1m");
    assert_eq!(candles.method, "subscribe");
    assert_eq!(candles.subscription.kind, "candle");
    assert_eq!(candles.subscription.coin, "SOL");
    assert_eq!(candles.subscription.interval.as_deref(), Some("1m"));
}

#[test]
fn client_prepares_signed_requests() {
    let client = hyperliquid_trading_bot::api::client::HyperliquidClient::new(
        "https://api.example".to_string(),
        "api-key".to_string(),
        "key".to_string(),
        true,
    );
    assert_eq!(client.endpoint_url("info"), "https://api.example/info");
    assert_eq!(client.authorization(), "Bearer api-key");
    let body = "The quick brown fox jumps over the lazy dog".to_string();
    let request = client.prepare_request("exchange", body.clone()).unwrap();
    assert_eq!(request.url, "https://api.example/exchange");
    assert_eq!(request.content_type, "application/json");
    assert_eq!(request.authorization, "Bearer api-key");
    assert_eq!(
        request.signature,
        "f7bc83f430538424b13298e6aa6fb143ef4d59a14946175997479dbc2d1a3cd8"
    );
    assert_eq!(request.body, body);
    assert_eq!(client.create_signature(&body).unwrap(), request.signature);
}

#[test]
fn feed_client_sends_only_while_connected() {
    let mut feed = WebSocketClient::new("wss://feed.example/ws".to_string());
    assert_eq!(feed.ws_url, "wss://feed.example/ws");
    assert!(!feed.connected);
    assert!(feed.subscribe_to_ticker("BTC").is_none());
    assert!(feed.subscribe_to_l2_book("BTC").is_none());
    assert!(feed.subscribe_to_candles("BTC", "1m").is_none());
    assert!(!feed.disconnect());

    let refused = feed.connect(Err(Error::WebSocket("refused".to_string())));
    assert!(matches!(refused, Err(Error::WebSocket(_))));
    assert!(!feed.connected);

    assert!(feed.connect(Ok(())).is_ok());
    assert!(feed.connected);
    let ticker = feed.subscribe_to_ticker("BTC").unwrap();
    assert_eq!(ticker.subscription.kind, "ticker");
    assert_eq!(feed.subscribe_to_l2_book("ETH").unwrap().subscription.coin, "ETH");
    let candles = feed.subscribe_to_candles("SOL", "5m").unwrap();
    assert_eq!(candles.subscription.interval.as_deref(), Some("5m"));

    assert!(feed.disconnect());
    assert!(!feed.connected);
    assert!(!feed.disconnect());
    assert!(feed.subscribe_to_ticker("BTC").is_none());
}
