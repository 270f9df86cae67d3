use hyperliquid_trading_bot::decimal::Decimal;
use hyperliquid_trading_bot::models::{OrderSide, PositionSide};
use hyperliquid_trading_bot::utils::{
    calculate_percentage_change, calculate_pnl, calculate_position_size, calculate_slippage,
    current_timestamp, format_currency, format_decimal, format_percentage, is_market_hours,
    is_slippage_acceptable, normalize_symbol, position_update_message, trade_execution_message,
    validate_symbol,
};

fn dec(mantissa: i64, scale: u32) -> Decimal {
    Decimal::new(mantissa, scale)
}

fn max() -> Decimal {
    Decimal::from_parts(0xFFFF_FFFF_FFFF_FFFF_FFFF_FFFF, 0).unwrap()
}

#[test]
fn percentage_change() {
    assert!(calculate_percentage_change(dec(100, 0), dec(110, 0)).unwrap().equals(&dec(10, 0)));
    assert!(calculate_percentage_change(dec(200, 0), dec(150, 0)).unwrap().equals(&dec(-25, 0)));
    assert!(calculate_percentage_change(dec(8, 0), dec(8, 0)).unwrap().is_zero());
    assert!(calculate_percentage_change(dec(-50, 0), dec(-25, 0)).unwrap().equals(&dec(-50, 0)));
}

#[test]
fn percentage_change_from_zero_is_zero() {
    assert!(calculate_percentage_change(Decimal::zero(), dec(5, 0)).unwrap().is_zero());
    assert!(calculate_percentage_change(dec(0, 4), max()).unwrap().is_zero());
}

#[test]
fn percentage_change_that_overflows() {
    assert!(calculate_percentage_change(max().neg(), max()).is_none());
    assert!(calculate_percentage_change(dec(1, 28), max()).is_none());
}

#[test]
fn position_size() {
    // 2 percent of 10000 is 200, spread over a distance of 5
    let r = calculate_position_size(dec(10000, 0), dec(2, 0), dec(100, 0), dec(95, 0)).unwrap();
    assert!(r.equals(&dec(40, 0)));
    let above = calculate_position_size(dec(10000, 0), dec(2, 0), dec(95, 0), dec(100, 0)).unwrap();
    assert!(above.equals(&dec(40, 0)));
    let none = calculate_position_size(dec(10000, 0), dec(2, 0), dec(95, 0), dec(950, 1)).unwrap();
    assert!(none.is_zero());
    assert!(calculate_position_size(max(), dec(1000, 0), dec(2, 0), dec(1, 0)).is_none());
}

#[test]
fn pnl_by_side() {
    let long = calculate_pnl(dec(100, 0), dec(110, 0), dec(3, 0), PositionSide::Long).unwrap();
    assert!(long.equals(&dec(30, 0)));
    let short = calculate_pnl(dec(100, 0), dec(110, 0), dec(3, 0), PositionSide::Short).unwrap();
    assert!(short.equals(&dec(-30, 0)));
    let gain = calculate_pnl(dec(100, 0), dec(905, 1), dec(2, 0), PositionSide::Short).unwrap();
    assert!(gain.equals(&dec(19, 0)));
    assert!(calculate_pnl(max().neg(), max(), dec(1, 0), PositionSide::Long).is_none());
}

#[test]
fn slippage() {
    assert!(calculate_slippage(dec(100, 0), dec(101, 0)).unwrap().equals(&dec(1, 0)));
    assert!(calculate_slippage(dec(100, 0), dec(99, 0)).unwrap().equals(&dec(1, 0)));
    assert!(calculate_slippage(Decimal::zero(), dec(99, 0)).unwrap().is_zero());
    assert!(calculate_slippage(dec(50, 0), dec(50, 0)).unwrap().is_zero());
    assert!(is_slippage_acceptable(dec(1, 0), dec(1, 0)));
    assert!(is_slippage_acceptable(dec(99, 2), dec(1, 0)));
    assert!(!is_slippage_acceptable(dec(101, 2), dec(1, 0)));
}

#[test]
fn symbols_that_are_valid() {
    for symbol in ["BTC", "btc", "BTC-USD", "-", "1000PEPE", "a", "ABCDEFGHIJ0123456789"] {
        assert!(validate_symbol(symbol), "{}", symbol);
    }
    // letters of any script count
    assert!(validate_symbol("\u{e9}\u{e9}"));
}

#[test]
fn symbols_that_are_not_valid() {
    for symbol in ["", "BTC/USD", "BTC USD", "BTC_USD", "ABCDEFGHIJ0123456789X", "BTC\n"] {
        assert!(!validate_symbol(symbol), "{:?}", symbol);
    }
    // ten letters of two bytes each fit, eleven do not
    assert!(validate_symbol("\u{e9}\u{e9}\u{e9}\u{e9}\u{e9}\u{e9}\u{e9}\u{e9}\u{e9}\u{e9}"));
    assert!(!validate_symbol("\u{e9}\u{e9}\u{e9}\u{e9}\u{e9}\u{e9}\u{e9}\u{e9}\u{e9}\u{e9}\u{e9}"));
}

#[test]
fn symbols_normalized() {
    assert_eq!(normalize_symbol("btc-usd"), "BTCUSD");
    assert_eq!(normalize_symbol("BTC"), "BTC");
    assert_eq!(normalize_symbol("--e-t-h--"), "ETH");
    assert_eq!(normalize_symbol(""), "");
    assert_eq!(normalize_symbol("stra\u{df}e"), "STRASSE");
}

#[test]
fn decimals_formatted() {
    assert_eq!(format_decimal(dec(123456, 5), 2), "1.23");
    assert_eq!(format_decimal(dec(15, 1), 6), "1.500000");
    assert_eq!(format_decimal(dec(7, 0), 0), "7");
    assert_eq!(format_decimal(dec(-25, 1), 1), "-2.5");
    assert_eq!(format_decimal(dec(1, 0), 28), format!("1.{}", "0".repeat(28)));
    assert_eq!(format_decimal(dec(1, 0), 31), format!("1.{}", "0".repeat(31)));
    let d = rust_decimal::Decimal::new(123456, 5);
    for precision in [0usize, 3, 28, 29, 40] {
        assert_eq!(
            format_decimal(dec(123456, 5), precision as u32),
            format!("{:.prec$}", d, prec = precision)
        );
    }
}

#[test]
fn money_and_percentages_formatted() {
    assert_eq!(format_currency(dec(125, 1)), "$12.50");
    assert_eq!(format_currency(dec(1, 0)), "$1.00");
    assert_eq!(format_currency(dec(-999, 3)), "$-0.99");
    assert_eq!(format_percentage(dec(5, 0)), "5.00%");
    assert_eq!(format_percentage(dec(12345, 3)), "12.34%");
}

#[test]
fn lines_that_report_trades() {
    assert_eq!(
        trade_execution_message("BTC", &OrderSide::Buy, dec(15, 1), dec(45000, 0), true),
        "\u{2705} BUY 1.500000 BTC @ 45000.00"
    );
    assert_eq!(
        trade_execution_message("ETH", &OrderSide::Sell, dec(2, 0), dec(19995, 1), false),
        "\u{274c} SELL 2.000000 ETH @ 1999.50"
    );
}

#[test]
fn lines_that_report_positions() {
    assert_eq!(
        position_update_message("BTC", &PositionSide::Long, dec(15, 1), dec(1234, 2)),
        "\u{1f4c8} LONG 1.500000 BTC PnL: 12.34"
    );
    assert_eq!(
        position_update_message("SOL", &PositionSide::Short, dec(3, 0), dec(-5, 1)),
        "\u{1f4c9} SHORT 3.000000 SOL PnL: -0.50"
    );
    assert_eq!(
        position_update_message("SOL", &PositionSide::Short, dec(3, 0), Decimal::zero()),
        "\u{1f4c8} SHORT 3.000000 SOL PnL: 0.00"
    );
}

#[test]
fn market_is_always_open() {
    assert!(is_market_hours());
}

#[test]
fn clock_is_past_2020() {
    assert!(current_timestamp() > 1_577_836_800);
}

#[test]
fn decimals_too_long_for_the_precision() {
    assert_eq!(format_decimal(dec(1000, 0), 28), "1000");
    assert_eq!(format_decimal(dec(1000, 0), 1000), "1000");
    assert_eq!(format_decimal(dec(999, 0), 28), format!("999.{}", "0".repeat(28)));
    assert_eq!(format_decimal(max(), 2), "79228162514264337593543950335.00");
    assert_eq!(format_decimal(max(), 3), "79228162514264337593543950335");
    assert_eq!(format_currency(max()), "$79228162514264337593543950335.00");
    assert_eq!(format_percentage(max().neg()), "-79228162514264337593543950335.00%");
}

#[test]
fn lines_for_very_large_quantities() {
    let big = Decimal::from_parts(10i128.pow(25), 0).unwrap();
    assert_eq!(
        trade_execution_message("BTC", &OrderSide::Buy, big, max(), true),
        format!(
            "{} BUY 1{} BTC @ 79228162514264337593543950335.00",
            "\u{2705}",
            "0".repeat(25)
        )
    );
    assert_eq!(
        position_update_message("BTC", &PositionSide::Long, max(), max().neg()),
        "\u{1f4c9} LONG 79228162514264337593543950335 BTC PnL: -79228162514264337593543950335.00"
    );
}

#[test]
fn symbols_normalized_hold_no_dash() {
    for symbol in ["btc-usd", "-", "---", "a-b-c-", "no dash", ""] {
        assert!(!normalize_symbol(symbol).contains('-'));
    }
    assert_eq!(normalize_symbol("-"), "");
    assert_eq!(hyperliquid_trading_bot::utils::remove_dashes("a-b--c"), "abc");
    assert_eq!(hyperliquid_trading_bot::utils::remove_dashes("\u{e9}-\u{df}"), "\u{e9}\u{df}");
}
