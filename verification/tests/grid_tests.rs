use hyperliquid_trading_bot::decimal::Decimal;
use hyperliquid_trading_bot::error::Error;
use hyperliquid_trading_bot::models::{MarketData, SignalAction};
use hyperliquid_trading_bot::params::{ParamValue, Parameters};
use hyperliquid_trading_bot::strategies::{GridStrategy, Strategy};
use hyperliquid_trading_bot::time::Timestamp;

type Outside = rust_decimal::Decimal;

fn dec(mantissa: i64, scale: u32) -> Decimal {
    Decimal::new(mantissa, scale)
}

fn outside(d: &Decimal) -> Outside {
    Outside::from_i128_with_scale(d.mantissa(), d.scale())
}

fn quote(price: Decimal) -> MarketData {
    MarketData {
        symbol: "ETH".to_string(),
        price,
        volume_24h: Decimal::zero(),
        change_24h: Decimal::zero(),
        high_24h: price,
        low_24h: price,
        timestamp: Timestamp::new(0, 0),
    }
}

fn now() -> Timestamp {
    Timestamp::new(1_700_000_000, 0)
}

fn strategy() -> GridStrategy {
    GridStrategy::new("grid_eth".to_string(), "ETH".to_string())
}

fn configured(spacing: &str, levels: u64) -> GridStrategy {
    let mut s = strategy();
    let mut p = Parameters::new();
    p.insert("grid_spacing", ParamValue::text(spacing));
    p.insert("max_levels", ParamValue::Unsigned(levels));
    s.update_parameters(p).unwrap();
    s
}

fn rejection_text(result: Result<(), Error>) -> String {
    match result {
        Err(Error::Strategy(text)) => text,
        other => panic!("expected a strategy error, got {:?}", other),
    }
}

#[test]
fn grid_without_base_price_proposes_nothing() {
    let s = strategy();
    assert!(s.analyze(&quote(dec(100, 0)), &now()).is_none());
    assert!(s.get_active_orders().is_empty());
}

#[test]
fn grid_has_twice_max_levels() {
    let mut s = strategy();
    assert!(s.initialize_with_price(dec(100, 0)));
    assert_eq!(s.get_active_orders().len(), 20);
    let mut five = configured("2.0", 5);
    assert!(five.initialize_with_price(dec(2000, 0)));
    assert_eq!(five.get_active_orders().len(), 10);
}

#[test]
fn grid_levels_follow_the_formula() {
    let base = dec(2000, 0);
    let mut s = configured("2.5", 4);
    assert!(s.initialize_with_price(base));
    let orders = s.get_active_orders();
    assert_eq!(orders.len(), 8);
    let spacing = Outside::new(25, 1);
    for k in 1..=4usize {
        let step = (spacing * Outside::from(k)) / Outside::from(100);
        let buy = outside(&base) * (Outside::from(1) - step);
        let sell = outside(&base) * (Outside::from(1) + step);
        let (buy_price, buy_side) = orders[k - 1];
        let (sell_price, sell_side) = orders[4 + k - 1];
        assert!(buy_side);
        assert!(!sell_side);
        assert_eq!(outside(&buy_price), buy);
        assert_eq!(outside(&buy_price).scale(), buy.scale());
        assert_eq!(outside(&sell_price), sell);
        assert_eq!(outside(&sell_price).scale(), sell.scale());
    }
    assert!(orders[0].0.equals(&dec(1950, 0)));
    assert!(orders[3].0.equals(&dec(1800, 0)));
    assert!(orders[4].0.equals(&dec(2050, 0)));
    assert!(orders[7].0.equals(&dec(2200, 0)));
}

#[test]
fn grid_one_percent_levels_around_100() {
    let mut s = strategy();
    assert!(s.initialize_with_price(dec(100, 0)));
    let orders = s.get_active_orders();
    for k in 1..=10i64 {
        assert!(orders[(k - 1) as usize].0.equals(&dec(100 - k, 0)));
        assert!(orders[(10 + k - 1) as usize].0.equals(&dec(100 + k, 0)));
    }
}

#[test]
fn grid_that_cannot_be_represented_changes_nothing() {
    let max = Decimal::from_parts(0xFFFF_FFFF_FFFF_FFFF_FFFF_FFFF, 0).unwrap();
    let mut s = strategy();
    assert!(s.initialize_with_price(dec(100, 0)));
    assert!(!s.initialize_with_price(max));
    let orders = s.get_active_orders();
    assert_eq!(orders.len(), 20);
    assert!(orders[0].0.equals(&dec(99, 0)));
}

#[test]
fn grid_proposes_the_buy_level_nearest_to_the_price() {
    let mut s = strategy();
    assert!(s.initialize_with_price(dec(100, 0)));
    // the buy levels above 97.5 are 99 and 98
    let signal = s.analyze(&quote(dec(975, 1)), &now()).unwrap();
    assert_eq!(signal.action, SignalAction::Buy);
    assert_eq!(signal.strategy_name, "grid_eth");
    assert_eq!(signal.symbol, "ETH");
    assert!(signal.price.unwrap().equals(&dec(98, 0)));
    assert!(signal.quantity.equals(&outside_to(Outside::from(100) / Outside::from(98))));
    assert!(signal.confidence.equals(&dec(5, 1)));
    assert_eq!(signal.metadata.len(), 3);
    assert_eq!(signal.metadata.get("position_size").unwrap().as_text(), Some("100"));
    assert_eq!(signal.metadata.get("total_investment").unwrap().as_text(), Some("0"));
    let level = signal.metadata.decimal("grid_level").unwrap();
    assert!(level.equals(&dec(98, 0)));
    let only = s.analyze(&quote(dec(985, 1)), &now()).unwrap();
    assert!(only.price.unwrap().equals(&dec(99, 0)));
}

fn outside_to(d: Outside) -> Decimal {
    Decimal::from_parts(d.mantissa(), d.scale()).unwrap()
}

#[test]
fn grid_proposes_the_sell_level_nearest_to_the_price() {
    let mut s = strategy();
    assert!(s.initialize_with_price(dec(100, 0)));
    // the sell levels below 103.5 are 101, 102 and 103
    let signal = s.analyze(&quote(dec(1035, 1)), &now()).unwrap();
    assert_eq!(signal.action, SignalAction::Sell);
    assert!(signal.price.unwrap().equals(&dec(103, 0)));
    assert!(signal.confidence.equals(&dec(7, 1)));
    let only = s.analyze(&quote(dec(1015, 1)), &now()).unwrap();
    assert!(only.price.unwrap().equals(&dec(101, 0)));
    assert!(only.confidence.equals(&dec(5, 1)));
}

#[test]
fn grid_passes_over_filled_levels_for_the_nearest() {
    let mut s = strategy();
    assert!(s.initialize_with_price(dec(100, 0)));
    assert!(s.mark_order_filled(dec(98, 0), true));
    let signal = s.analyze(&quote(dec(975, 1)), &now()).unwrap();
    assert!(signal.price.unwrap().equals(&dec(99, 0)));
    assert!(s.mark_order_filled(dec(99, 0), true));
    // no buy level above the price is left, and no sell level is below it
    assert!(s.analyze(&quote(dec(975, 1)), &now()).is_none());
}

#[test]
fn grid_proposes_nothing_at_the_base_price() {
    let mut s = strategy();
    assert!(s.initialize_with_price(dec(100, 0)));
    assert!(s.analyze(&quote(dec(100, 0)), &now()).is_none());
    assert!(s.analyze(&quote(dec(99, 0)), &now()).is_none());
    assert!(s.analyze(&quote(dec(101, 0)), &now()).is_none());
}

#[test]
fn grid_filled_levels_leave() {
    let mut s = strategy();
    assert!(s.initialize_with_price(dec(100, 0)));
    assert!(s.mark_order_filled(dec(99, 0), true));
    assert_eq!(s.get_active_orders().len(), 19);
    let next = s.analyze(&quote(dec(975, 1)), &now()).unwrap();
    assert!(next.price.unwrap().equals(&dec(98, 0)));
    assert_eq!(next.metadata.get("total_investment").unwrap().as_text(), Some("100"));
    // a second fill of the same level finds nothing
    assert!(!s.mark_order_filled(dec(99, 0), true));
    // the side has to agree
    assert!(!s.mark_order_filled(dec(98, 0), false));
    assert!(!s.mark_order_filled(dec(12345, 0), true));
    assert_eq!(s.get_active_orders().len(), 19);
    // a sell does not add to what is invested
    assert!(s.mark_order_filled(dec(1010, 1), false));
    let after = s.analyze(&quote(dec(975, 1)), &now()).unwrap();
    assert_eq!(after.metadata.get("total_investment").unwrap().as_text(), Some("100"));
}

#[test]
fn grid_confidence_tiers() {
    let mut s = configured("1", 10);
    assert!(s.initialize_with_price(dec(100, 0)));
    let near = s.analyze(&quote(dec(975, 1)), &now()).unwrap();
    assert!(near.price.unwrap().equals(&dec(98, 0)));
    assert!(near.confidence.equals(&dec(5, 1)));
    let third = s.analyze(&quote(dec(965, 1)), &now()).unwrap();
    assert!(third.price.unwrap().equals(&dec(97, 0)));
    assert!(third.confidence.equals(&dec(7, 1)));
    let fifth = s.analyze(&quote(dec(945, 1)), &now()).unwrap();
    assert!(fifth.price.unwrap().equals(&dec(95, 0)));
    assert!(fifth.confidence.equals(&dec(7, 1)));
    let deep = s.analyze(&quote(dec(90, 0)), &now()).unwrap();
    assert!(deep.price.unwrap().equals(&dec(91, 0)));
    assert!(deep.confidence.equals(&dec(9, 1)));

    let sell = s.analyze(&quote(dec(1035, 1)), &now()).unwrap();
    assert_eq!(sell.action, SignalAction::Sell);
    assert!(sell.price.unwrap().equals(&dec(103, 0)));
    assert!(sell.confidence.equals(&dec(7, 1)));
    let high = s.analyze(&quote(dec(110, 0)), &now()).unwrap();
    assert!(high.price.unwrap().equals(&dec(109, 0)));
    assert!(high.confidence.equals(&dec(9, 1)));
}

#[test]
fn grid_stops_buying_at_the_cap() {
    let mut s = strategy();
    let mut p = Parameters::new();
    p.insert("max_investment", ParamValue::text("200"));
    s.update_parameters(p).unwrap();
    assert!(s.initialize_with_price(dec(100, 0)));
    assert!(s.mark_order_filled(dec(99, 0), true));
    assert!(s.analyze(&quote(dec(90, 0)), &now()).is_some());
    assert!(s.mark_order_filled(dec(98, 0), true));
    assert!(s.analyze(&quote(dec(90, 0)), &now()).is_none());
    // sells are not capped
    let sell = s.analyze(&quote(dec(1015, 1)), &now()).unwrap();
    assert_eq!(sell.action, SignalAction::Sell);
}

#[test]
fn grid_reset_removes_everything() {
    let mut s = strategy();
    assert!(s.initialize_with_price(dec(100, 0)));
    assert!(s.mark_order_filled(dec(99, 0), true));
    s.reset_grid();
    assert!(s.get_active_orders().is_empty());
    assert!(s.analyze(&quote(dec(90, 0)), &now()).is_none());
    assert!(s.initialize_with_price(dec(50, 0)));
    let signal = s.analyze(&quote(dec(49, 0)), &now()).unwrap();
    assert_eq!(signal.metadata.get("total_investment").unwrap().as_text(), Some("0"));
}

#[test]
fn grid_levels_at_zero_give_no_signal() {
    let mut s = strategy();
    assert!(s.initialize_with_price(Decimal::zero()));
    assert_eq!(s.get_active_orders().len(), 20);
    // every level stands at zero: a sell level below the price is found,
    // but its quantity cannot be computed
    assert!(s.analyze(&quote(dec(1, 0)), &now()).is_none());
}

#[test]
fn grid_validate_rejections() {
    let s = strategy();
    for spacing in ["0", "-1", "50.01", "51"] {
        let mut p = Parameters::new();
        p.insert("grid_spacing", ParamValue::text(spacing));
        assert_eq!(
            rejection_text(s.validate_parameters(&p)),
            "Grid spacing must be between 0 and 50"
        );
    }
    let mut size = Parameters::new();
    size.insert("position_size", ParamValue::text("0"));
    assert_eq!(rejection_text(s.validate_parameters(&size)), "Position size must be positive");
    for levels in [0u64, 51, u64::MAX] {
        let mut p = Parameters::new();
        p.insert("max_levels", ParamValue::Unsigned(levels));
        assert_eq!(
            rejection_text(s.validate_parameters(&p)),
            "Max levels must be between 1 and 50"
        );
    }
}

#[test]
fn grid_validate_accepts_the_bounds() {
    let s = strategy();
    let mut p = Parameters::new();
    p.insert("grid_spacing", ParamValue::text("50"));
    p.insert("position_size", ParamValue::text("0.01"));
    p.insert("max_levels", ParamValue::Unsigned(50));
    assert!(s.validate_parameters(&p).is_ok());
    let mut q = Parameters::new();
    q.insert("grid_spacing", ParamValue::text("0.0001"));
    q.insert("max_levels", ParamValue::Unsigned(1));
    q.insert("max_investment", ParamValue::text("-5"));
    assert!(s.validate_parameters(&q).is_ok());
}

#[test]
fn grid_update_rejects_and_keeps_the_state() {
    let mut s = configured("2.0", 5);
    let mut bad = Parameters::new();
    bad.insert("grid_spacing", ParamValue::text("3"));
    bad.insert("max_levels", ParamValue::Unsigned(0));
    assert!(s.update_parameters(bad).is_err());
    assert_eq!(s.get_parameters().len(), 2);
    assert!(s.initialize_with_price(dec(2000, 0)));
    let orders = s.get_active_orders();
    assert_eq!(orders.len(), 10);
    assert!(orders[0].0.equals(&dec(1960, 0)));
}

#[test]
fn grid_position_size_sets_the_quantity() {
    let mut s = strategy();
    let mut p = Parameters::new();
    p.insert("position_size", ParamValue::text("25"));
    p.insert("grid_spacing", ParamValue::text("50"));
    p.insert("max_levels", ParamValue::Unsigned(1));
    s.update_parameters(p).unwrap();
    assert!(s.initialize_with_price(dec(100, 0)));
    let signal = s.analyze(&quote(dec(40, 0)), &now()).unwrap();
    assert!(signal.price.unwrap().equals(&dec(50, 0)));
    assert!(signal.quantity.equals(&dec(5, 1)));
    assert!(signal.confidence.equals(&dec(9, 1)));
}
