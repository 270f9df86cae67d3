//! Multi-indicator momentum: a moving-average convergence line, a relative
//! strength index, two simple moving averages and a volume check each add to
//! the confidence; the side with more conditions decides the action.

use crate::decimal::{decimal_product, decimal_quotient, decimal_text, Decimal};
use crate::error::Error;
use crate::models::{signal_view, MarketData, SignalAction, SignalView, StrategySignal};
use crate::params::{
    decimal_param, number_param, unsigned_param, ParamValue, ParamView, Parameters,
};
use crate::strategies::base::{
    average_forward, calculate_macd, calculate_rsi, calculate_sma, copy_of, push_and_trim,
    pushed_and_trimmed, spec_macd, spec_rsi, spec_sma, sum_range, tenths, Strategy,
};
use crate::time::Timestamp;
use vstd::prelude::*;
use vstd::string::StringExecFns;

verus! {

/// The momentum strategy.
#[derive(Debug)]
pub struct MomentumStrategy {
    name: String,
    symbol: String,
    enabled: bool,
    parameters: Parameters,
    fast_period: usize,
    slow_period: usize,
    signal_period: usize,
    rsi_period: usize,
    rsi_oversold: Decimal,
    rsi_overbought: Decimal,
    price_history: Vec<Decimal>,
    volume_history: Vec<Decimal>,
    min_confidence: Decimal,
}

/// The state of a [`MomentumStrategy`].
pub struct MomentumView {
    pub name: Seq<char>,
    pub symbol: Seq<char>,
    pub enabled: bool,
    pub parameters: Map<Seq<char>, ParamView>,
    pub fast_period: nat,
    pub slow_period: nat,
    pub signal_period: nat,
    pub rsi_period: nat,
    /// Below this index the market counts as oversold.
    pub rsi_oversold: Decimal,
    /// Above this index the market counts as overbought.
    pub rsi_overbought: Decimal,
    /// The prices seen, oldest first.
    pub price_history: Seq<Decimal>,
    /// The volumes seen, oldest first.
    pub volume_history: Seq<Decimal>,
    /// The least confidence with which an action is proposed.
    pub min_confidence: Decimal,
}

impl View for MomentumStrategy {
    type V = MomentumView;

    closed spec fn view(&self) -> MomentumView {
        MomentumView {
            name: self.name@,
            symbol: self.symbol@,
            enabled: self.enabled,
            parameters: self.parameters@,
            fast_period: self.fast_period as nat,
            slow_period: self.slow_period as nat,
            signal_period: self.signal_period as nat,
            rsi_period: self.rsi_period as nat,
            rsi_oversold: self.rsi_oversold,
            rsi_overbought: self.rsi_overbought,
            price_history: self.price_history@,
            volume_history: self.volume_history@,
            min_confidence: self.min_confidence,
        }
    }
}

/// What the indicators read in one cycle.
#[derive(Debug, Clone, Copy)]
pub struct MomentumReading {
    /// The convergence line, its signal line and the histogram.
    pub macd: (Decimal, Decimal, Decimal),
    /// The relative strength index.
    pub rsi: Decimal,
    /// The simple moving average over the fast period.
    pub fast_sma: Decimal,
    /// The simple moving average over the slow period.
    pub slow_sma: Decimal,
    /// The most recent price.
    pub current_price: Decimal,
    /// Whether the current volume is more than 1.5 times the average.
    pub volume_surge: bool,
}

/// The line is above its signal and the histogram is positive.
pub open spec fn macd_bullish(m: (Decimal, Decimal, Decimal)) -> bool {
    m.1.lt_spec(m.0) && Decimal::spec_zero().lt_spec(m.2)
}

/// The line is below its signal and the histogram is negative.
pub open spec fn macd_bearish(m: (Decimal, Decimal, Decimal)) -> bool {
    m.0.lt_spec(m.1) && m.2.lt_spec(Decimal::spec_zero())
}

/// The price is above the fast average, which is above the slow one.
pub open spec fn price_above_averages(r: MomentumReading) -> bool {
    r.fast_sma.lt_spec(r.current_price) && r.slow_sma.lt_spec(r.fast_sma)
}

/// The price is below the fast average, which is below the slow one.
pub open spec fn price_below_averages(r: MomentumReading) -> bool {
    r.current_price.lt_spec(r.fast_sma) && r.fast_sma.lt_spec(r.slow_sma)
}

/// 1 when the condition holds, else 0.
pub open spec fn count(condition: bool) -> nat {
    if condition {
        1
    } else {
        0
    }
}

/// The number of conditions that speak for a buy.
pub open spec fn bullish_count(r: MomentumReading, oversold: Decimal) -> nat {
    count(macd_bullish(r.macd)) + count(r.rsi.lt_spec(oversold)) + count(price_above_averages(r))
}

/// The number of conditions that speak for a sell.
pub open spec fn bearish_count(r: MomentumReading, overbought: Decimal) -> nat {
    count(macd_bearish(r.macd)) + count(overbought.lt_spec(r.rsi)) + count(
        price_below_averages(r),
    )
}

/// The confidence in tenths: 3 for a crossover of the convergence line in
/// either direction, 2 for an oversold index, 2 for an overbought one, 2 for
/// the price on one side of both averages, 1 for a volume surge.
pub open spec fn confidence_tenths(r: MomentumReading, oversold: Decimal, overbought: Decimal) -> nat {
    3 * count(macd_bullish(r.macd)) + 3 * count(macd_bearish(r.macd)) + 2 * count(
        r.rsi.lt_spec(oversold),
    ) + 2 * count(overbought.lt_spec(r.rsi)) + 2 * count(
        price_above_averages(r) || price_below_averages(r),
    ) + count(r.volume_surge)
}

/// The action and its confidence: a buy when more conditions speak for it
/// than against, a sell in the opposite case, and nothing on a tie or when
/// the confidence is below the minimum. A confidence equal to the minimum
/// suffices.
pub open spec fn momentum_decision(
    r: MomentumReading,
    oversold: Decimal,
    overbought: Decimal,
    min_confidence: Decimal,
) -> Option<(SignalAction, Decimal)> {
    let confidence = Decimal::spec_new(confidence_tenths(r, oversold, overbought) as int, 1);
    let bullish = bullish_count(r, oversold);
    let bearish = bearish_count(r, overbought);
    if !min_confidence.le_spec(confidence) {
        None
    } else if bullish > bearish {
        Some((SignalAction::Buy, confidence))
    } else if bearish > bullish {
        Some((SignalAction::Sell, confidence))
    } else {
        None
    }
}

/// Whether the last volume is more than 1.5 times the mean of all volumes;
/// `false` with fewer than two volumes, `None` when the arithmetic overflows.
pub open spec fn volume_surge(volumes: Seq<Decimal>) -> Option<bool> {
    if volumes.len() < 2 {
        Some(false)
    } else {
        match average_forward(volumes) {
            None => None,
            Some(avg) => match decimal_product(avg, Decimal::spec_new(15, 1)) {
                None => None,
                Some(bar) => Some(bar.lt_spec(volumes.last())),
            },
        }
    }
}

/// What the indicators read from the prices and volumes of a cycle; `None`
/// while there are fewer than `slow_period` prices or when an indicator has
/// no value.
pub open spec fn momentum_reading(v: MomentumView, prices: Seq<Decimal>, volumes: Seq<Decimal>) -> Option<
    MomentumReading,
> {
    if prices.len() < v.slow_period {
        None
    } else {
        match (
            spec_macd(prices, v.fast_period, v.slow_period),
            spec_rsi(prices, v.rsi_period),
            spec_sma(prices, v.fast_period),
            spec_sma(prices, v.slow_period),
            volume_surge(volumes),
        ) {
            (Some(macd), Some(rsi), Some(fast_sma), Some(slow_sma), Some(surge)) => Some(
                MomentumReading {
                    macd,
                    rsi,
                    fast_sma,
                    slow_sma,
                    current_price: prices.last(),
                    volume_surge: surge,
                },
            ),
            _ => None,
        }
    }
}

/// A history after the quote of the cycle came in: at most twice the slow
/// period of items stay.
pub open spec fn momentum_history(v: MomentumView, history: Seq<Decimal>, item: Decimal) -> Seq<
    Decimal,
> {
    pushed_and_trimmed(history, item, 2 * v.slow_period, 2 * v.slow_period)
}

/// The state after a quote came into the histories.
pub open spec fn momentum_after_quote(v: MomentumView, price: Decimal, volume: Decimal) -> MomentumView {
    MomentumView {
        price_history: momentum_history(v, v.price_history, price),
        volume_history: momentum_history(v, v.volume_history, volume),
        ..v
    }
}

/// The name of an action.
pub open spec fn action_name(action: SignalAction) -> Seq<char> {
    match action {
        SignalAction::Buy => "Buy"@,
        SignalAction::Sell => "Sell"@,
        SignalAction::Hold => "Hold"@,
        SignalAction::Close => "Close"@,
    }
}

/// The decision as a text.
pub open spec fn decision_text(action: SignalAction, confidence: Decimal) -> Seq<char> {
    "Some(("@ + action_name(action) + ", "@ + decimal_text(confidence) + "))"@
}

/// The diagnostics attached to a proposal.
pub open spec fn momentum_metadata(v: MomentumView, action: SignalAction, confidence: Decimal) -> Map<
    Seq<char>,
    ParamView,
> {
    Map::<Seq<char>, ParamView>::empty().insert(
        "fast_period"@,
        ParamView::Unsigned(v.fast_period as u64),
    ).insert("slow_period"@, ParamView::Unsigned(v.slow_period as u64)).insert(
        "rsi_period"@,
        ParamView::Unsigned(v.rsi_period as u64),
    ).insert("signals"@, ParamView::Text(decision_text(action, confidence)))
}

/// The size of a position: `100 * confidence / price`.
pub open spec fn momentum_quantity(confidence: Decimal, price: Decimal) -> Option<Decimal> {
    match decimal_product(Decimal::spec_whole(100), confidence) {
        Some(scaled) => decimal_quotient(scaled, price),
        None => None,
    }
}

/// What the strategy proposes for a quote: the decision over the history
/// with the quote taken in, sized by its confidence, at the quoted price,
/// provided the size is greater than zero.
pub open spec fn momentum_analysis(v: MomentumView, price: Decimal, volume: Decimal) -> Option<
    SignalView,
> {
    if !v.enabled {
        None
    } else {
        match momentum_reading(
            v,
            momentum_history(v, v.price_history, price),
            momentum_history(v, v.volume_history, volume),
        ) {
            None => None,
            Some(reading) => match momentum_decision(
                reading,
                v.rsi_oversold,
                v.rsi_overbought,
                v.min_confidence,
            ) {
                None => None,
                Some((action, confidence)) => match momentum_quantity(confidence, price) {
                    Some(quantity) if quantity.is_positive_spec() => Some(
                        SignalView {
                            strategy_name: v.name,
                            symbol: v.symbol,
                            action,
                            quantity,
                            price: Some(price),
                            confidence,
                            metadata: momentum_metadata(v, action, confidence),
                        },
                    ),
                    _ => None,
                },
            },
        }
    }
}

/// A period under `key` that is 0 or greater than 100.
pub open spec fn period_out_of_range(p: Map<Seq<char>, ParamView>, key: Seq<char>) -> bool {
    unsigned_param(p, key) matches Some(n) && (n == 0 || n > 100)
}

/// An index level under `key` that is below 0 or above 100.
pub open spec fn level_out_of_range(p: Map<Seq<char>, ParamView>, key: Seq<char>) -> bool {
    decimal_param(p, key) matches Some(l) && (l.lt_spec(Decimal::spec_zero())
        || Decimal::spec_whole(100).lt_spec(l))
}

/// A minimum confidence that is below 0 or above 1.
pub open spec fn confidence_out_of_range(p: Map<Seq<char>, ParamView>) -> bool {
    number_param(p, "min_confidence"@) matches Some(c) && (c.lt_spec(Decimal::spec_zero())
        || Decimal::spec_whole(1).lt_spec(c))
}

/// Why a parameter set is rejected, if it is: the periods must lie in
/// 1..=100 where they are whole numbers, the index levels in [0, 100] where
/// they read as decimals, and the minimum confidence in [0, 1] where it is
/// a number.
pub open spec fn momentum_rejection(p: Map<Seq<char>, ParamView>) -> Option<Seq<char>> {
    if period_out_of_range(p, "fast_period"@) {
        Some("fast_period"@ + " must be between 1 and 100"@)
    } else if period_out_of_range(p, "slow_period"@) {
        Some("slow_period"@ + " must be between 1 and 100"@)
    } else if period_out_of_range(p, "signal_period"@) {
        Some("signal_period"@ + " must be between 1 and 100"@)
    } else if period_out_of_range(p, "rsi_period"@) {
        Some("rsi_period"@ + " must be between 1 and 100"@)
    } else if level_out_of_range(p, "rsi_oversold"@) {
        Some("rsi_oversold"@ + " must be between 0 and 100"@)
    } else if level_out_of_range(p, "rsi_overbought"@) {
        Some("rsi_overbought"@ + " must be between 0 and 100"@)
    } else if confidence_out_of_range(p) {
        Some("Min confidence must be between 0 and 1"@)
    } else {
        None
    }
}

/// The period under `key` if there is one, else `current`.
pub open spec fn period_or(p: Map<Seq<char>, ParamView>, key: Seq<char>, current: nat) -> nat {
    match unsigned_param(p, key) {
        Some(n) => (n as usize) as nat,
        None => current,
    }
}

/// The decimal under `key` if there is one, else `current`.
pub open spec fn decimal_or(p: Map<Seq<char>, ParamView>, key: Seq<char>, current: Decimal) -> Decimal {
    match decimal_param(p, key) {
        Some(d) => d,
        None => current,
    }
}

/// The state after an accepted parameter set has been applied.
pub open spec fn momentum_with_parameters(v: MomentumView, p: Map<Seq<char>, ParamView>) -> MomentumView {
    MomentumView {
        parameters: p,
        fast_period: period_or(p, "fast_period"@, v.fast_period),
        slow_period: period_or(p, "slow_period"@, v.slow_period),
        signal_period: period_or(p, "signal_period"@, v.signal_period),
        rsi_period: period_or(p, "rsi_period"@, v.rsi_period),
        rsi_oversold: decimal_or(p, "rsi_oversold"@, v.rsi_oversold),
        rsi_overbought: decimal_or(p, "rsi_overbought"@, v.rsi_overbought),
        min_confidence: match number_param(p, "min_confidence"@) {
            Some(c) => c,
            None => v.min_confidence,
        },
        ..v
    }
}

/// Decides on an action from what the indicators read.
pub fn decide(
    reading: &MomentumReading,
    rsi_oversold: Decimal,
    rsi_overbought: Decimal,
    min_confidence: Decimal,
) -> (r: Option<(SignalAction, Decimal)>)
    ensures
        r == momentum_decision(*reading, rsi_oversold, rsi_overbought, min_confidence),
        r matches Some(d) ==> Decimal::spec_zero().le_spec(d.1) && d.1.le_spec(
            Decimal::spec_whole(1),
        ),
        r matches Some(d) ==> d.0 == SignalAction::Buy || d.0 == SignalAction::Sell,
{
    let zero = Decimal::zero();
    let mut tenth_count: u8 = 0;
    let mut bullish: u8 = 0;
    let mut bearish: u8 = 0;
    let line = reading.macd.0;
    let signal = reading.macd.1;
    let histogram = reading.macd.2;
    let up = line.gt(&signal) && histogram.gt(&zero);
    let down = line.lt(&signal) && histogram.lt(&zero);
    assert(!(up && down));
    if up {
        tenth_count = tenth_count + 3;
        bullish = bullish + 1;
    }
    if down {
        tenth_count = tenth_count + 3;
        bearish = bearish + 1;
    }
    if reading.rsi.lt(&rsi_oversold) {
        tenth_count = tenth_count + 2;
        bullish = bullish + 1;
    }
    if reading.rsi.gt(&rsi_overbought) {
        tenth_count = tenth_count + 2;
        bearish = bearish + 1;
    }
    if reading.current_price.gt(&reading.fast_sma) && reading.fast_sma.gt(&reading.slow_sma) {
        tenth_count = tenth_count + 2;
        bullish = bullish + 1;
    } else if reading.current_price.lt(&reading.fast_sma) && reading.fast_sma.lt(
        &reading.slow_sma,
    ) {
        tenth_count = tenth_count + 2;
        bearish = bearish + 1;
    }
    if reading.volume_surge {
        tenth_count = tenth_count + 1;
    }
    assert(tenth_count == confidence_tenths(*reading, rsi_oversold, rsi_overbought));
    assert(bullish == bullish_count(*reading, rsi_oversold));
    assert(bearish == bearish_count(*reading, rsi_overbought));
    let confidence = tenths(tenth_count);
    if confidence.ge(&min_confidence) {
        if bullish > bearish {
            Some((SignalAction::Buy, confidence))
        } else if bearish > bullish {
            Some((SignalAction::Sell, confidence))
        } else {
            None
        }
    } else {
        None
    }
}

/// Whether the last volume is more than 1.5 times the mean of all volumes.
pub fn has_volume_surge(volumes: &[Decimal]) -> (r: Option<bool>)
    ensures
        r == volume_surge(volumes@),
{
    let len = volumes.len();
    if len < 2 {
        return Some(false);
    }
    assert(volumes@.subrange(0, len as int) == volumes@);
    let avg = match sum_range(volumes, 0, len) {
        Some(total) => total.checked_div(&Decimal::from_usize(len)),
        None => None,
    };
    let bar = match avg {
        Some(a) => a.checked_mul(&Decimal::new(15, 1)),
        None => None,
    };
    match bar {
        Some(b) => Some(volumes[len - 1].gt(&b)),
        None => None,
    }
}

/// The text of a decision.
pub fn describe_decision(action: SignalAction, confidence: Decimal) -> (r: String)
    ensures
        r@ == decision_text(action, confidence),
{
    let name = match action {
        SignalAction::Buy => "Buy",
        SignalAction::Sell => "Sell",
        SignalAction::Hold => "Hold",
        SignalAction::Close => "Close",
    };
    let number = confidence.to_text();
    String::from_str("Some((").concat(name).concat(", ").concat(number.as_str()).concat("))")
}

impl Clone for MomentumStrategy {
    fn clone(&self) -> (r: MomentumStrategy)
        ensures
            r@ == self@,
    {
        MomentumStrategy {
            name: self.name.clone(),
            symbol: self.symbol.clone(),
            enabled: self.enabled,
            parameters: self.parameters.clone(),
            fast_period: self.fast_period,
            slow_period: self.slow_period,
            signal_period: self.signal_period,
            rsi_period: self.rsi_period,
            rsi_oversold: self.rsi_oversold,
            rsi_overbought: self.rsi_overbought,
            price_history: copy_of(&self.price_history),
            volume_history: copy_of(&self.volume_history),
            min_confidence: self.min_confidence,
        }
    }
}

/// The state of a strategy that was just set up.
pub open spec fn momentum_initial(name: Seq<char>, symbol: Seq<char>) -> MomentumView {
    MomentumView {
        name,
        symbol,
        enabled: true,
        parameters: Map::<Seq<char>, ParamView>::empty(),
        fast_period: 12,
        slow_period: 26,
        signal_period: 9,
        rsi_period: 14,
        rsi_oversold: Decimal::spec_whole(30),
        rsi_overbought: Decimal::spec_whole(70),
        price_history: Seq::<Decimal>::empty(),
        volume_history: Seq::<Decimal>::empty(),
        min_confidence: Decimal::spec_new(6, 1),
    }
}

impl MomentumStrategy {
    /// A strategy with periods 12, 26 and 9, an index over 14 steps with
    /// levels 30 and 70, and a minimum confidence of 0.6.
    pub fn new(name: String, symbol: String) -> (r: MomentumStrategy)
        ensures
            r@ == momentum_initial(name@, symbol@),
    {
        MomentumStrategy {
            name,
            symbol,
            enabled: true,
            parameters: Parameters::new(),
            fast_period: 12,
            slow_period: 26,
            signal_period: 9,
            rsi_period: 14,
            rsi_oversold: Decimal::from_u64(30),
            rsi_overbought: Decimal::from_u64(70),
            price_history: Vec::new(),
            volume_history: Vec::new(),
            min_confidence: Decimal::new(6, 1),
        }
    }

    fn history_bounds(&self) -> (r: (u128, usize))
        ensures
            r.0 == 2 * self.slow_period,
            r.1 == 2 * self.slow_period || (r.1 == usize::MAX && 2 * self.slow_period
                > usize::MAX),
    {
        let cap: u128 = 2 * (self.slow_period as u128);
        let keep: usize = if self.slow_period <= usize::MAX / 2 {
            2 * self.slow_period
        } else {
            usize::MAX
        };
        (cap, keep)
    }

    /// Takes the price and the volume of a quote into the histories. Of
    /// each history at most twice the slow period of items stay, the
    /// oldest leaving first.
    pub fn update_history(&mut self, market_data: &MarketData)
        ensures
            final(self)@ == momentum_after_quote(
                old(self)@,
                market_data.price,
                market_data.volume_24h,
            ),
    {
        let (cap, keep) = self.history_bounds();
        assert(self.price_history@.len() <= usize::MAX && self.volume_history@.len()
            <= usize::MAX) by {
            let _ = self.price_history.len();
            let _ = self.volume_history.len();
        }
        push_and_trim(&mut self.price_history, market_data.price, cap, keep);
        push_and_trim(&mut self.volume_history, market_data.volume_24h, cap, keep);
    }

    fn read_indicators(&self, prices: &Vec<Decimal>, volumes: &Vec<Decimal>) -> (r: Option<
        MomentumReading,
    >)
        ensures
            r == momentum_reading(self@, prices@, volumes@),
    {
        if prices.len() < self.slow_period {
            return None;
        }
        let macd = match calculate_macd(
            prices.as_slice(),
            self.fast_period,
            self.slow_period,
            self.signal_period,
        ) {
            Some(m) => m,
            None => { return None; },
        };
        let rsi = match calculate_rsi(prices.as_slice(), self.rsi_period) {
            Some(x) => x,
            None => { return None; },
        };
        let fast_sma = match calculate_sma(prices.as_slice(), self.fast_period) {
            Some(x) => x,
            None => { return None; },
        };
        let slow_sma = match calculate_sma(prices.as_slice(), self.slow_period) {
            Some(x) => x,
            None => { return None; },
        };
        let surge = match has_volume_surge(volumes.as_slice()) {
            Some(x) => x,
            None => { return None; },
        };
        let current_price = prices[prices.len() - 1];
        Some(MomentumReading { macd, rsi, fast_sma, slow_sma, current_price, volume_surge: surge })
    }

    fn calculate_position_size(&self, market_data: &MarketData, confidence: Decimal) -> (r: Option<
        Decimal,
    >)
        ensures
            r == momentum_quantity(confidence, market_data.price),
    {
        match Decimal::from_u64(100).checked_mul(&confidence) {
            Some(scaled) => scaled.checked_div(&market_data.price),
            None => None,
        }
    }

    fn metadata(&self, action: SignalAction, confidence: Decimal) -> (r: Parameters)
        ensures
            r@ == momentum_metadata(self@, action, confidence),
    {
        let mut m = Parameters::new();
        m.insert("fast_period", ParamValue::Unsigned(self.fast_period as u64));
        m.insert("slow_period", ParamValue::Unsigned(self.slow_period as u64));
        m.insert("rsi_period", ParamValue::Unsigned(self.rsi_period as u64));
        m.insert("signals", ParamValue::Text(describe_decision(action, confidence)));
        m
    }

    fn period_rejected(parameters: &Parameters, key: &str) -> (r: bool)
        ensures
            r == period_out_of_range(parameters@, key@),
    {
        match parameters.unsigned(key) {
            Some(n) => n == 0 || n > 100,
            None => false,
        }
    }

    fn level_rejected(parameters: &Parameters, key: &str) -> (r: bool)
        ensures
            r == level_out_of_range(parameters@, key@),
    {
        match parameters.decimal(key) {
            Some(l) => l.lt(&Decimal::zero()) || l.gt(&Decimal::from_u64(100)),
            None => false,
        }
    }

    /// Why a parameter set is rejected, if it is.
    pub fn rejection(parameters: &Parameters) -> (r: Option<String>)
        ensures
            match r {
                Some(text) => momentum_rejection(parameters@) == Some(text@),
                None => momentum_rejection(parameters@) is None,
            },
    {
        if Self::period_rejected(parameters, "fast_period") {
            return Some(String::from_str("fast_period").concat(" must be between 1 and 100"));
        }
        if Self::period_rejected(parameters, "slow_period") {
            return Some(String::from_str("slow_period").concat(" must be between 1 and 100"));
        }
        if Self::period_rejected(parameters, "signal_period") {
            return Some(String::from_str("signal_period").concat(" must be between 1 and 100"));
        }
        if Self::period_rejected(parameters, "rsi_period") {
            return Some(String::from_str("rsi_period").concat(" must be between 1 and 100"));
        }
        if Self::level_rejected(parameters, "rsi_oversold") {
            return Some(String::from_str("rsi_oversold").concat(" must be between 0 and 100"));
        }
        if Self::level_rejected(parameters, "rsi_overbought") {
            return Some(String::from_str("rsi_overbought").concat(" must be between 0 and 100"));
        }
        if let Some(c) = parameters.number("min_confidence") {
            if c.lt(&Decimal::zero()) || c.gt(&Decimal::from_u64(1)) {
                return Some(String::from_str("Min confidence must be between 0 and 1"));
            }
        }
        None
    }
}

impl Strategy for MomentumStrategy {
    open spec fn name_spec(&self) -> Seq<char> {
        self@.name
    }

    open spec fn symbol_spec(&self) -> Seq<char> {
        self@.symbol
    }

    open spec fn enabled_spec(&self) -> bool {
        self@.enabled
    }

    open spec fn parameters_spec(&self) -> Map<Seq<char>, ParamView> {
        self@.parameters
    }

    open spec fn accepts(&self, parameters: Map<Seq<char>, ParamView>) -> bool {
        momentum_rejection(parameters) is None
    }

    fn name(&self) -> (r: &str)
        ensures
            r@ == self@.name,
    {
        self.name.as_str()
    }

    fn symbol(&self) -> (r: &str)
        ensures
            r@ == self@.symbol,
    {
        self.symbol.as_str()
    }

    fn is_enabled(&self) -> (r: bool)
        ensures
            r == self@.enabled,
    {
        self.enabled
    }

    /// Proposes what the indicators decide over the history with the quote
    /// taken in. The histories themselves stay as they are. The time plays
    /// no part.
    fn analyze(&self, market_data: &MarketData, now: &Timestamp) -> (r: Option<StrategySignal>)
        ensures
            signal_view(r) == momentum_analysis(
                self@,
                market_data.price,
                market_data.volume_24h,
            ),
    {
        if !self.enabled {
            return None;
        }
        let (cap, keep) = self.history_bounds();
        assert(self.price_history@.len() <= usize::MAX && self.volume_history@.len()
            <= usize::MAX) by {
            let _ = self.price_history.len();
            let _ = self.volume_history.len();
        }
        let mut prices = copy_of(&self.price_history);
        push_and_trim(&mut prices, market_data.price, cap, keep);
        let mut volumes = copy_of(&self.volume_history);
        push_and_trim(&mut volumes, market_data.volume_24h, cap, keep);
        let reading = match self.read_indicators(&prices, &volumes) {
            Some(x) => x,
            None => { return None; },
        };
        let (action, confidence) = match decide(
            &reading,
            self.rsi_oversold,
            self.rsi_overbought,
            self.min_confidence,
        ) {
            Some(d) => d,
            None => { return None; },
        };
        let quantity = match self.calculate_position_size(market_data, confidence) {
            Some(q) if q.is_positive() => q,
            _ => { return None; },
        };
        Some(
            StrategySignal {
                strategy_name: self.name.clone(),
                symbol: self.symbol.clone(),
                action,
                quantity,
                price: Some(market_data.price),
                confidence,
                metadata: self.metadata(action, confidence),
            },
        )
    }

    fn update_parameters(&mut self, parameters: Parameters) -> (r: Result<(), Error>)
        ensures
            r is Ok ==> final(self)@ == momentum_with_parameters(old(self)@, parameters@),
            r matches Err(e) ==> e matches Error::Strategy(text) && Some(text@)
                == momentum_rejection(parameters@),
    {
        if let Some(text) = Self::rejection(&parameters) {
            return Err(Error::Strategy(text));
        }
        if let Some(n) = parameters.unsigned("fast_period") {
            self.fast_period = n as usize;
        }
        if let Some(n) = parameters.unsigned("slow_period") {
            self.slow_period = n as usize;
        }
        if let Some(n) = parameters.unsigned("signal_period") {
            self.signal_period = n as usize;
        }
        if let Some(n) = parameters.unsigned("rsi_period") {
            self.rsi_period = n as usize;
        }
        if let Some(l) = parameters.decimal("rsi_oversold") {
            self.rsi_oversold = l;
        }
        if let Some(l) = parameters.decimal("rsi_overbought") {
            self.rsi_overbought = l;
        }
        if let Some(c) = parameters.number("min_confidence") {
            self.min_confidence = c;
        }
        self.parameters = parameters;
        Ok(())
    }

    fn get_parameters(&self) -> (r: Parameters)
        ensures
            r@ == self@.parameters,
    {
        self.parameters.clone()
    }

    fn validate_parameters(&self, parameters: &Parameters) -> (r: Result<(), Error>)
        ensures
            r matches Err(e) ==> e matches Error::Strategy(text) && Some(text@)
                == momentum_rejection(parameters@),
    {
        match Self::rejection(parameters) {
            Some(text) => Err(Error::Strategy(text)),
            None => Ok(()),
        }
    }
}

/// The boundary is inclusive: when the confidence that the conditions add up
/// to equals the configured minimum and one side has more conditions than
/// the other, an action is proposed.
pub proof fn law_minimum_confidence_suffices(
    r: MomentumReading,
    oversold: Decimal,
    overbought: Decimal,
    min_confidence: Decimal,
)
    requires
        Decimal::spec_new(confidence_tenths(r, oversold, overbought) as int, 1).eq_spec(
            min_confidence,
        ),
        bullish_count(r, oversold) != bearish_count(r, overbought),
    ensures
        momentum_decision(r, oversold, overbought, min_confidence) is Some,
{
}

/// The signal line of the convergence indicator is the line itself and its
/// histogram is zero, so neither crossover ever adds to the confidence.
pub proof fn law_degenerate_macd_is_neutral(m: (Decimal, Decimal, Decimal))
    requires
        m.1 == m.0,
        m.2.is_zero_spec(),
    ensures
        !macd_bullish(m),
        !macd_bearish(m),
{
}

} // verus!
