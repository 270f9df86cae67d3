//! Mean reversion: buy when the price has fallen below its trailing average
//! by more than a threshold, sell when it has risen above it by more.

use crate::decimal::{
    decimal_difference, decimal_product, decimal_quotient, decimal_text, lemma_parts, pow10,
    Decimal,
};
use crate::error::Error;
use crate::models::{signal_view, MarketData, SignalAction, SignalView, StrategySignal};
use crate::params::{decimal_param, unsigned_param, ParamValue, ParamView, Parameters};
use crate::strategies::base::{
    average_forward, copy_of, push_and_trim, pushed_and_trimmed, sum_range, Strategy,
};
use crate::time::Timestamp;
use vstd::prelude::*;

verus! {

/// The mean reversion strategy.
#[derive(Debug)]
pub struct MeanReversionStrategy {
    name: String,
    symbol: String,
    enabled: bool,
    parameters: Parameters,
    lookback_period: usize,
    deviation_threshold: Decimal,
    position_size: Decimal,
    price_history: Vec<Decimal>,
}

/// The state of a [`MeanReversionStrategy`].
pub struct MeanReversionView {
    pub name: Seq<char>,
    pub symbol: Seq<char>,
    pub enabled: bool,
    pub parameters: Map<Seq<char>, ParamView>,
    /// The number of prices that the trailing average spans.
    pub lookback_period: nat,
    /// The deviation, in percent of the average, beyond which to act.
    pub deviation_threshold: Decimal,
    /// What one order is worth.
    pub position_size: Decimal,
    /// The prices seen, oldest first.
    pub price_history: Seq<Decimal>,
}

impl View for MeanReversionStrategy {
    type V = MeanReversionView;

    closed spec fn view(&self) -> MeanReversionView {
        MeanReversionView {
            name: self.name@,
            symbol: self.symbol@,
            enabled: self.enabled,
            parameters: self.parameters@,
            lookback_period: self.lookback_period as nat,
            deviation_threshold: self.deviation_threshold,
            position_size: self.position_size,
            price_history: self.price_history@,
        }
    }
}

/// The history after a price came in: when it is then longer than twice the
/// lookback period, its last `lookback_period` prices stay.
pub open spec fn reversion_history(v: MeanReversionView, price: Decimal) -> Seq<Decimal> {
    pushed_and_trimmed(v.price_history, price, 2 * v.lookback_period, v.lookback_period)
}

/// The state after a price came into the history.
pub open spec fn reversion_after_price(v: MeanReversionView, price: Decimal) -> MeanReversionView {
    MeanReversionView { price_history: reversion_history(v, price), ..v }
}

/// The mean of the last `lookback` prices, once there are that many.
pub open spec fn trailing_average(prices: Seq<Decimal>, lookback: nat) -> Option<Decimal> {
    if prices.len() < lookback {
        None
    } else {
        average_forward(prices.subrange(prices.len() - lookback, prices.len() as int))
    }
}

/// The distance of a price from an average, in percent of the average:
/// `|(price - average) / average * 100|`.
pub open spec fn reversion_deviation(price: Decimal, average: Decimal) -> Option<Decimal> {
    match decimal_difference(price, average) {
        None => None,
        Some(d) => match decimal_quotient(d, average) {
            None => None,
            Some(part) => match decimal_product(part, Decimal::spec_whole(100)) {
                None => None,
                Some(percent) => Some(percent.abs_spec()),
            },
        },
    }
}

/// The confidence for a deviation: a tenth of it, held to the range from 0
/// to 0.95.
pub open spec fn reversion_confidence(deviation: Decimal) -> Option<Decimal> {
    match decimal_quotient(deviation, Decimal::spec_whole(10)) {
        None => None,
        Some(ratio) => Some(
            if Decimal::spec_new(95, 2).lt_spec(ratio) {
                Decimal::spec_new(95, 2)
            } else if ratio.lt_spec(Decimal::spec_zero()) {
                Decimal::spec_zero()
            } else {
                ratio
            },
        ),
    }
}

/// The action for a price against an average: a buy below it, a sell above
/// it, each only when the deviation exceeds the threshold.
pub open spec fn reversion_action(
    price: Decimal,
    average: Decimal,
    deviation: Decimal,
    threshold: Decimal,
) -> Option<SignalAction> {
    if price.lt_spec(average) && threshold.lt_spec(deviation) {
        Some(SignalAction::Buy)
    } else if average.lt_spec(price) && threshold.lt_spec(deviation) {
        Some(SignalAction::Sell)
    } else {
        None
    }
}

/// The diagnostics attached to a proposal.
pub open spec fn reversion_metadata(v: MeanReversionView, average: Decimal, deviation: Decimal) -> Map<
    Seq<char>,
    ParamView,
> {
    Map::<Seq<char>, ParamView>::empty().insert(
        "moving_average"@,
        ParamView::Text(decimal_text(average)),
    ).insert("deviation_percent"@, ParamView::Text(decimal_text(deviation))).insert(
        "lookback_period"@,
        ParamView::Unsigned(v.lookback_period as u64),
    )
}

/// What the strategy proposes for a price: the action for the price against
/// the trailing average of the history with the price taken in, worth
/// `position_size`, at that price, provided the quantity is greater than
/// zero.
pub open spec fn reversion_analysis(v: MeanReversionView, price: Decimal) -> Option<SignalView> {
    if !v.enabled {
        None
    } else {
        match trailing_average(reversion_history(v, price), v.lookback_period) {
            None => None,
            Some(average) => match reversion_deviation(price, average) {
                None => None,
                Some(deviation) => match (
                    reversion_action(price, average, deviation, v.deviation_threshold),
                    reversion_confidence(deviation),
                    decimal_quotient(v.position_size, price),
                ) {
                    (Some(action), Some(confidence), Some(quantity)) if quantity.is_positive_spec() => Some(
                        SignalView {
                            strategy_name: v.name,
                            symbol: v.symbol,
                            action,
                            quantity,
                            price: Some(price),
                            confidence,
                            metadata: reversion_metadata(v, average, deviation),
                        },
                    ),
                    _ => None,
                },
            },
        }
    }
}

/// Why a parameter set is rejected, if it is: the lookback period must lie
/// in 1..=100 where it is a whole number, the threshold in (0, 50] and the
/// position size above zero where they read as decimals.
pub open spec fn reversion_rejection(p: Map<Seq<char>, ParamView>) -> Option<Seq<char>> {
    if unsigned_param(p, "lookback_period"@) matches Some(n) && (n == 0 || n > 100) {
        Some("Lookback period must be between 1 and 100"@)
    } else if decimal_param(p, "deviation_threshold"@) matches Some(t) && (t.le_spec(
        Decimal::spec_zero(),
    ) || Decimal::spec_whole(50).lt_spec(t)) {
        Some("Deviation threshold must be between 0 and 50"@)
    } else if decimal_param(p, "position_size"@) matches Some(s) && s.le_spec(
        Decimal::spec_zero(),
    ) {
        Some("Position size must be positive"@)
    } else {
        None
    }
}

/// The state after an accepted parameter set has been applied.
pub open spec fn reversion_with_parameters(v: MeanReversionView, p: Map<Seq<char>, ParamView>) -> MeanReversionView {
    MeanReversionView {
        parameters: p,
        lookback_period: match unsigned_param(p, "lookback_period"@) {
            Some(n) => (n as usize) as nat,
            None => v.lookback_period,
        },
        deviation_threshold: match decimal_param(p, "deviation_threshold"@) {
            Some(t) => t,
            None => v.deviation_threshold,
        },
        position_size: match decimal_param(p, "position_size"@) {
            Some(s) => s,
            None => v.position_size,
        },
        ..v
    }
}

/// The confidence for a deviation.
pub fn confidence_for(deviation: Decimal) -> (r: Option<Decimal>)
    ensures
        r == reversion_confidence(deviation),
        r matches Some(c) ==> Decimal::spec_zero().le_spec(c) && c.le_spec(
            Decimal::spec_whole(1),
        ),
{
    let ratio = match deviation.checked_div(&Decimal::from_u64(10)) {
        Some(x) => x,
        None => { return None; },
    };
    let top = Decimal::new(95, 2);
    let zero = Decimal::zero();
    proof {
        lemma_parts(0, 0);
        lemma_parts(1, 0);
        assert(pow10(0) == 1);
        assert(pow10(1) == 10);
        assert(pow10(2) == 100);
    }
    if ratio.gt(&top) {
        Some(top)
    } else if ratio.lt(&zero) {
        Some(zero)
    } else {
        assert(ratio.le_spec(top));
        assert(ratio.spec_mantissa() * pow10(2) <= 95 * pow10(ratio.spec_scale()));
        assert(95 * pow10(ratio.spec_scale()) <= 100 * pow10(ratio.spec_scale())) by {
            crate::decimal::lemma_pow10_positive(ratio.spec_scale());
        }
        assert(ratio.spec_mantissa() * 1 <= 1 * pow10(ratio.spec_scale())) by (nonlinear_arith)
            requires
                ratio.spec_mantissa() * 100 <= 100 * pow10(ratio.spec_scale()),
        ;
        Some(ratio)
    }
}

impl Clone for MeanReversionStrategy {
    fn clone(&self) -> (r: MeanReversionStrategy)
        ensures
            r@ == self@,
    {
        MeanReversionStrategy {
            name: self.name.clone(),
            symbol: self.symbol.clone(),
            enabled: self.enabled,
            parameters: self.parameters.clone(),
            lookback_period: self.lookback_period,
            deviation_threshold: self.deviation_threshold,
            position_size: self.position_size,
            price_history: copy_of(&self.price_history),
        }
    }
}

/// The state of a strategy that was just set up.
pub open spec fn reversion_initial(name: Seq<char>, symbol: Seq<char>) -> MeanReversionView {
    MeanReversionView {
        name,
        symbol,
        enabled: true,
        parameters: Map::<Seq<char>, ParamView>::empty(),
        lookback_period: 20,
        deviation_threshold: Decimal::spec_whole(2),
        position_size: Decimal::spec_whole(100),
        price_history: Seq::<Decimal>::empty(),
    }
}

impl MeanReversionStrategy {
    /// A strategy with a trailing average over 20 prices, a threshold of 2
    /// percent and orders worth 100.
    pub fn new(name: String, symbol: String) -> (r: MeanReversionStrategy)
        ensures
            r@ == reversion_initial(name@, symbol@),
    {
        MeanReversionStrategy {
            name,
            symbol,
            enabled: true,
            parameters: Parameters::new(),
            lookback_period: 20,
            deviation_threshold: Decimal::from_u64(2),
            position_size: Decimal::from_u64(100),
            price_history: Vec::new(),
        }
    }

    fn calculate_moving_average(prices: &Vec<Decimal>, lookback: usize) -> (r: Option<Decimal>)
        ensures
            r == trailing_average(prices@, lookback as nat),
    {
        let len = prices.len();
        if len < lookback {
            return None;
        }
        match sum_range(prices.as_slice(), len - lookback, len) {
            Some(total) => total.checked_div(&Decimal::from_usize(lookback)),
            None => None,
        }
    }

    fn calculate_deviation(price: Decimal, average: Decimal) -> (r: Option<Decimal>)
        ensures
            r == reversion_deviation(price, average),
    {
        let part = match price.checked_sub(&average) {
            Some(d) => d.checked_div(&average),
            None => None,
        };
        let percent = match part {
            Some(p) => p.checked_mul(&Decimal::from_u64(100)),
            None => None,
        };
        match percent {
            Some(p) => Some(p.abs()),
            None => None,
        }
    }

    fn choose_action(&self, price: Decimal, average: Decimal, deviation: Decimal) -> (r: Option<
        SignalAction,
    >)
        ensures
            r == reversion_action(price, average, deviation, self@.deviation_threshold),
    {
        if price.lt(&average) && deviation.gt(&self.deviation_threshold) {
            Some(SignalAction::Buy)
        } else if price.gt(&average) && deviation.gt(&self.deviation_threshold) {
            Some(SignalAction::Sell)
        } else {
            None
        }
    }

    /// Takes a new price into the history. When the history is then longer
    /// than twice the lookback period, only the last `lookback_period`
    /// prices stay.
    pub fn update_price_history(&mut self, price: Decimal)
        ensures
            final(self)@ == reversion_after_price(old(self)@, price),
    {
        let cap: u128 = 2 * (self.lookback_period as u128);
        push_and_trim(&mut self.price_history, price, cap, self.lookback_period);
    }

    /// Why a parameter set is rejected, if it is.
    pub fn rejection(parameters: &Parameters) -> (r: Option<&'static str>)
        ensures
            match r {
                Some(text) => reversion_rejection(parameters@) == Some(text@),
                None => reversion_rejection(parameters@) is None,
            },
    {
        let zero = Decimal::zero();
        if let Some(n) = parameters.unsigned("lookback_period") {
            if n == 0 || n > 100 {
                return Some("Lookback period must be between 1 and 100");
            }
        }
        if let Some(t) = parameters.decimal("deviation_threshold") {
            if t.le(&zero) || t.gt(&Decimal::from_u64(50)) {
                return Some("Deviation threshold must be between 0 and 50");
            }
        }
        if let Some(s) = parameters.decimal("position_size") {
            if s.le(&zero) {
                return Some("Position size must be positive");
            }
        }
        None
    }
}

impl Strategy for MeanReversionStrategy {
    open spec fn name_spec(&self) -> Seq<char> {
        self@.name
    }

    open spec fn symbol_spec(&self) -> Seq<char> {
        self@.symbol
    }

    open spec fn enabled_spec(&self) -> bool {
        self@.enabled
    }

    open spec fn parameters_spec(&self) -> Map<Seq<char>, ParamView> {
        self@.parameters
    }

    open spec fn accepts(&self, parameters: Map<Seq<char>, ParamView>) -> bool {
        reversion_rejection(parameters) is None
    }

    fn name(&self) -> (r: &str)
        ensures
            r@ == self@.name,
    {
        self.name.as_str()
    }

    fn symbol(&self) -> (r: &str)
        ensures
            r@ == self@.symbol,
    {
        self.symbol.as_str()
    }

    fn is_enabled(&self) -> (r: bool)
        ensures
            r == self@.enabled,
    {
        self.enabled
    }

    /// Proposes the action for the quoted price against the trailing
    /// average of the history with the price taken in. The history itself
    /// stays as it is. The time plays no part.
    fn analyze(&self, market_data: &MarketData, now: &Timestamp) -> (r: Option<StrategySignal>)
        ensures
            signal_view(r) == reversion_analysis(self@, market_data.price),
    {
        if !self.enabled {
            return None;
        }
        let price = market_data.price;
        let cap: u128 = 2 * (self.lookback_period as u128);
        let mut prices = copy_of(&self.price_history);
        push_and_trim(&mut prices, price, cap, self.lookback_period);
        let average = match Self::calculate_moving_average(&prices, self.lookback_period) {
            Some(a) => a,
            None => { return None; },
        };
        let deviation = match Self::calculate_deviation(price, average) {
            Some(d) => d,
            None => { return None; },
        };
        let action = self.choose_action(price, average, deviation);
        let confidence = confidence_for(deviation);
        let quantity = self.position_size.checked_div(&price);
        match (action, confidence, quantity) {
            (Some(a), Some(c), Some(q)) if q.is_positive() => {
                let mut metadata = Parameters::new();
                metadata.insert("moving_average", ParamValue::Text(average.to_text()));
                metadata.insert("deviation_percent", ParamValue::Text(deviation.to_text()));
                metadata.insert(
                    "lookback_period",
                    ParamValue::Unsigned(self.lookback_period as u64),
                );
                Some(
                    StrategySignal {
                        strategy_name: self.name.clone(),
                        symbol: self.symbol.clone(),
                        action: a,
                        quantity: q,
                        price: Some(price),
                        confidence: c,
                        metadata,
                    },
                )
            },
            _ => None,
        }
    }

    fn update_parameters(&mut self, parameters: Parameters) -> (r: Result<(), Error>)
        ensures
            r is Ok ==> final(self)@ == reversion_with_parameters(old(self)@, parameters@),
            r matches Err(e) ==> e matches Error::Strategy(text) && Some(text@)
                == reversion_rejection(parameters@),
    {
        if let Some(text) = Self::rejection(&parameters) {
            return Err(Error::strategy(text));
        }
        if let Some(n) = parameters.unsigned("lookback_period") {
            self.lookback_period = n as usize;
        }
        if let Some(t) = parameters.decimal("deviation_threshold") {
            self.deviation_threshold = t;
        }
        if let Some(s) = parameters.decimal("position_size") {
            self.position_size = s;
        }
        self.parameters = parameters;
        Ok(())
    }

    fn get_parameters(&self) -> (r: Parameters)
        ensures
            r@ == self@.parameters,
    {
        self.parameters.clone()
    }

    fn validate_parameters(&self, parameters: &Parameters) -> (r: Result<(), Error>)
        ensures
            r matches Err(e) ==> e matches Error::Strategy(text) && Some(text@)
                == reversion_rejection(parameters@),
    {
        match Self::rejection(parameters) {
            Some(text) => Err(Error::strategy(text)),
            None => Ok(()),
        }
    }
}

} // verus!
