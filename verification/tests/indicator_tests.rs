use hyperliquid_trading_bot::decimal::Decimal;
use hyperliquid_trading_bot::strategies::base::{
    calculate_bollinger_bands, calculate_ema, calculate_macd, calculate_rsi, calculate_sma,
    clamp_to_percent, is_bearish_divergence, is_bullish_divergence, is_overbought, is_oversold,
    rsi_from_averages, sum_last, sum_range, tenths, window_variance,
};

type Outside = rust_decimal::Decimal;

fn dec(mantissa: i64, scale: u32) -> Decimal {
    Decimal::new(mantissa, scale)
}

fn whole(values: &[i64]) -> Vec<Decimal> {
    values.iter().map(|v| Decimal::new(*v, 0)).collect()
}

fn outside(d: &Decimal) -> Outside {
    Outside::from_i128_with_scale(d.mantissa(), d.scale())
}

fn outside_all(values: &[Decimal]) -> Vec<Outside> {
    values.iter().map(outside).collect()
}

fn identical(d: &Decimal, expected: Outside) -> bool {
    let o = outside(d);
    o == expected && o.scale() == expected.scale()
}

#[test]
fn sma_of_the_last_prices() {
    let prices = whole(&[1, 2, 3, 4, 5]);
    let r = calculate_sma(&prices, 3).unwrap();
    assert!(r.equals(&dec(4, 0)));
    let all = calculate_sma(&prices, 5).unwrap();
    assert!(all.equals(&dec(3, 0)));
    let one = calculate_sma(&prices, 1).unwrap();
    assert!(one.equals(&dec(5, 0)));
}

#[test]
fn sma_follows_the_outside_arithmetic() {
    let prices = vec![dec(1001, 2), dec(2, 0), dec(3333, 3)];
    let r = calculate_sma(&prices, 3).unwrap();
    let o = outside_all(&prices);
    let sum: Outside = o.iter().rev().take(3).sum();
    assert!(identical(&r, sum / Outside::from(3u64)));
}

#[test]
fn sma_insufficient_data() {
    let prices = whole(&[1, 2]);
    assert!(calculate_sma(&prices, 3).is_none());
    assert!(calculate_sma(&[], 1).is_none());
    assert!(calculate_sma(&prices, usize::MAX).is_none());
}

#[test]
fn sma_with_period_zero_has_no_value() {
    let prices = whole(&[1, 2]);
    assert!(calculate_sma(&prices, 0).is_none());
    assert!(calculate_sma(&[], 0).is_none());
}

#[test]
fn sum_last_and_sum_range() {
    let values = whole(&[1, 2, 3, 4]);
    assert!(sum_last(&values, 2).unwrap().equals(&dec(7, 0)));
    assert!(sum_last(&values, 0).unwrap().is_zero());
    assert!(sum_range(&values, 1, 3).unwrap().equals(&dec(5, 0)));
    assert!(sum_range(&values, 2, 2).unwrap().is_zero());
    let max = Decimal::from_parts(0xFFFF_FFFF_FFFF_FFFF_FFFF_FFFF, 0).unwrap();
    assert!(sum_last(&[max, max], 2).is_none());
    assert!(sum_range(&[max, max, dec(1, 0)], 0, 3).is_none());
}

#[test]
fn ema_of_one_price_is_that_price() {
    let p = dec(12345, 2);
    for period in [0usize, 1, 7, 1000, usize::MAX] {
        let r = calculate_ema(&[p], period, None).unwrap();
        assert_eq!((r.mantissa(), r.scale()), (12345, 2));
    }
    let with_alpha = calculate_ema(&[p], 3, Some(dec(5, 1))).unwrap();
    assert_eq!((with_alpha.mantissa(), with_alpha.scale()), (12345, 2));
}

#[test]
fn ema_of_no_price_has_no_value() {
    assert!(calculate_ema(&[], 3, None).is_none());
    assert!(calculate_ema(&[], 3, Some(dec(5, 1))).is_none());
}

#[test]
fn ema_with_the_default_factor() {
    // period 3 gives the factor 2 / 4 = 0.5
    let prices = whole(&[10, 20, 40]);
    let r = calculate_ema(&prices, 3, None).unwrap();
    // 10 -> 0.5 * 20 + 0.5 * 10 = 15 -> 0.5 * 40 + 0.5 * 15 = 27.5
    assert!(r.equals(&dec(275, 1)));
}

#[test]
fn ema_with_a_given_factor() {
    let prices = whole(&[10, 20]);
    let r = calculate_ema(&prices, 99, Some(dec(25, 2))).unwrap();
    // 0.25 * 20 + 0.75 * 10 = 12.5
    assert!(r.equals(&dec(125, 1)));
}

#[test]
fn ema_follows_the_outside_arithmetic() {
    let prices = vec![dec(1001, 2), dec(2, 0), dec(3333, 3), dec(7, 0)];
    let r = calculate_ema(&prices, 6, None).unwrap();
    let o = outside_all(&prices);
    let alpha = Outside::from(2) / (Outside::from(6u64) + Outside::from(1));
    let mut ema = o[0];
    for price in o.iter().skip(1) {
        ema = alpha * *price + (Outside::from(1) - alpha) * ema;
    }
    assert!(identical(&r, ema));
}

#[test]
fn rsi_is_100_when_every_step_is_a_gain() {
    let prices = whole(&[1, 2, 3, 4, 5, 6]);
    let r = calculate_rsi(&prices, 5).unwrap();
    assert!(r.equals(&dec(100, 0)));
    let trailing = whole(&[9, 5, 6, 7, 8]);
    let t = calculate_rsi(&trailing, 3).unwrap();
    assert!(t.equals(&dec(100, 0)));
}

#[test]
fn rsi_is_0_when_every_step_is_a_loss() {
    let prices = whole(&[6, 5, 4, 3]);
    let r = calculate_rsi(&prices, 3).unwrap();
    assert!(r.is_zero());
}

#[test]
fn rsi_of_flat_prices_is_100() {
    let prices = whole(&[5, 5, 5, 5]);
    let r = calculate_rsi(&prices, 3).unwrap();
    assert!(r.equals(&dec(100, 0)));
}

#[test]
fn rsi_exact_value() {
    // steps -2, +1 over period 2: the average gain is 0.5 and the average
    // loss is 1, so the index is 100 - 100 / 1.5
    let prices = whole(&[10, 8, 9]);
    let r = calculate_rsi(&prices, 2).unwrap();
    let expected = Outside::from(100)
        - Outside::from(100) / (Outside::from(1) + Outside::new(5, 1) / Outside::from(1));
    assert!(identical(&r, expected));
    assert!(r.gt(&dec(3333, 2)));
    assert!(r.lt(&dec(3334, 2)));
}

#[test]
fn rsi_equal_gains_and_losses_is_50() {
    let prices = whole(&[10, 12, 10, 12, 10]);
    let r = calculate_rsi(&prices, 4).unwrap();
    assert!(r.equals(&dec(50, 0)));
}

#[test]
fn rsi_uses_only_the_trailing_steps_for_the_averages() {
    let prices = whole(&[100, 1, 2, 3]);
    let r = calculate_rsi(&prices, 2).unwrap();
    assert!(r.equals(&dec(100, 0)));
}

#[test]
fn rsi_insufficient_data() {
    let prices = whole(&[1, 2, 3]);
    assert!(calculate_rsi(&prices, 3).is_none());
    assert!(calculate_rsi(&prices, 4).is_none());
    assert!(calculate_rsi(&prices, usize::MAX).is_none());
    assert!(calculate_rsi(&[], 0).is_none());
    assert!(calculate_rsi(&prices, 2).is_some());
}

#[test]
fn rsi_with_period_zero_has_no_value() {
    let prices = whole(&[1, 2, 3]);
    assert!(calculate_rsi(&prices, 0).is_none());
}

#[test]
fn rsi_stays_between_0_and_100() {
    let series: Vec<Vec<Decimal>> = vec![
        whole(&[1, 1000000, 1, 1000000, 2]),
        vec![dec(1, 28), dec(2, 28), dec(1, 28), dec(3, 28)],
        whole(&[50, 49, 51, 48, 52, 47, 53]),
        vec![dec(-5, 0), dec(5, 0), dec(-7, 0), dec(9, 1)],
    ];
    for prices in series {
        for period in 1..prices.len() {
            if let Some(r) = calculate_rsi(&prices, period) {
                assert!(r.ge(&Decimal::zero()));
                assert!(r.le(&dec(100, 0)));
            }
        }
    }
}

#[test]
fn rsi_from_averages_cases() {
    assert!(rsi_from_averages(dec(3, 0), Decimal::zero()).unwrap().equals(&dec(100, 0)));
    assert!(rsi_from_averages(Decimal::zero(), dec(0, 5)).unwrap().equals(&dec(100, 0)));
    assert!(rsi_from_averages(dec(1, 0), dec(1, 0)).unwrap().equals(&dec(50, 0)));
    assert!(rsi_from_averages(dec(3, 0), dec(1, 0)).unwrap().equals(&dec(75, 0)));
    assert!(rsi_from_averages(Decimal::zero(), dec(1, 0)).unwrap().is_zero());
}

#[test]
fn clamp_to_percent_holds_the_range() {
    assert!(clamp_to_percent(dec(-1, 0)).is_zero());
    assert!(clamp_to_percent(dec(1001, 1)).equals(&dec(100, 0)));
    let inside = clamp_to_percent(dec(425, 1));
    assert_eq!((inside.mantissa(), inside.scale()), (425, 1));
    assert!(clamp_to_percent(dec(100, 0)).equals(&dec(100, 0)));
    assert!(clamp_to_percent(Decimal::zero()).is_zero());
}

#[test]
fn window_variance_exact_value() {
    let prices = whole(&[2, 4, 4, 4, 5, 5, 7, 9]);
    let v = window_variance(&prices, 8).unwrap();
    assert!(v.equals(&dec(4, 0)));
    let tail = window_variance(&prices, 2).unwrap();
    assert!(tail.equals(&dec(1, 0)));
    assert!(window_variance(&prices, 9).is_none());
    assert!(window_variance(&prices, 0).is_none());
}

#[test]
fn bollinger_bands_exact_value() {
    let prices = whole(&[2, 4, 4, 4, 5, 5, 7, 9]);
    let variance = window_variance(&prices, 8).unwrap();
    let deviation = rust_decimal::MathematicalOps::sqrt(&outside(&variance)).unwrap();
    let deviation = Decimal::from_parts(deviation.mantissa(), deviation.scale()).unwrap();
    let (upper, middle, lower) =
        calculate_bollinger_bands(&prices, 8, dec(2, 0), deviation).unwrap();
    assert!(upper.equals(&dec(9, 0)));
    assert!(middle.equals(&dec(5, 0)));
    assert!(lower.equals(&dec(1, 0)));
}

#[test]
fn bollinger_bands_insufficient_data() {
    let prices = whole(&[2, 4]);
    assert!(calculate_bollinger_bands(&prices, 3, dec(2, 0), dec(1, 0)).is_none());
    assert!(calculate_bollinger_bands(&[], 1, dec(2, 0), dec(1, 0)).is_none());
    assert!(calculate_bollinger_bands(&prices, 0, dec(2, 0), dec(1, 0)).is_none());
}

#[test]
fn bollinger_bands_with_zero_deviation_collapse() {
    let prices = whole(&[3, 3, 3]);
    let (upper, middle, lower) =
        calculate_bollinger_bands(&prices, 3, dec(2, 0), Decimal::zero()).unwrap();
    assert!(upper.equals(&dec(3, 0)));
    assert!(middle.equals(&dec(3, 0)));
    assert!(lower.equals(&dec(3, 0)));
}

#[test]
fn macd_line_is_fast_less_slow() {
    let prices = whole(&[10, 20, 40]);
    let (line, signal, histogram) = calculate_macd(&prices, 1, 3, 9).unwrap();
    // fast: factor 1, so the last price 40; slow: factor 0.5, so 27.5
    assert!(line.equals(&dec(125, 1)));
    assert!(signal.equals(&line));
    assert_eq!((signal.mantissa(), signal.scale()), (line.mantissa(), line.scale()));
    assert!(histogram.is_zero());
}

#[test]
fn macd_histogram_is_always_zero() {
    let series = vec![whole(&[1, 2, 3, 4, 5, 6, 7, 8]), whole(&[8, 6, 7, 5, 3, 0, 9])];
    for prices in series {
        for slow in 1..=prices.len() {
            let (line, signal, histogram) = calculate_macd(&prices, 2, slow, 3).unwrap();
            assert!(histogram.is_zero());
            assert!(line.equals(&signal));
        }
    }
}

#[test]
fn macd_insufficient_data() {
    let prices = whole(&[10, 20]);
    assert!(calculate_macd(&prices, 1, 3, 9).is_none());
    assert!(calculate_macd(&[], 1, 0, 9).is_none());
}

#[test]
fn oversold_and_overbought() {
    assert!(is_oversold(dec(2999, 2)));
    assert!(!is_oversold(dec(30, 0)));
    assert!(is_overbought(dec(7001, 2)));
    assert!(!is_overbought(dec(70, 0)));
    assert!(!is_overbought(dec(50, 0)));
    assert!(!is_oversold(dec(50, 0)));
}

#[test]
fn divergences() {
    let up = whole(&[1, 2]);
    let down = whole(&[2, 1]);
    assert!(is_bullish_divergence(&up, &down));
    assert!(!is_bullish_divergence(&up, &up));
    assert!(!is_bullish_divergence(&down, &down));
    assert!(is_bearish_divergence(&down, &up));
    assert!(!is_bearish_divergence(&up, &down));
    assert!(!is_bullish_divergence(&whole(&[1]), &down));
    assert!(!is_bullish_divergence(&up, &whole(&[1])));
    assert!(!is_bearish_divergence(&[], &[]));
    let longer = whole(&[9, 9, 1, 2]);
    assert!(is_bullish_divergence(&longer, &whole(&[0, 5, 4])));
}

#[test]
fn tenths_are_tenths() {
    let c = tenths(7);
    assert_eq!((c.mantissa(), c.scale()), (7, 1));
    assert!(tenths(10).equals(&dec(1, 0)));
    assert!(tenths(0).is_zero());
}
