//! Technical indicators over price sequences (most recent last), the
//! capability set that every strategy offers, and a strategy's settings.

use crate::decimal::{
    decimal_difference, decimal_power, decimal_product, decimal_quotient, decimal_sum,
    lemma_parts, pow10, Decimal,
};
use crate::error::Error;
use crate::models::{MarketData, StrategySignal};
use crate::params::{ParamValue, ParamView, Parameters};
use crate::time::Timestamp;
use vstd::prelude::*;

verus! {

/// What every strategy offers: it proposes at most one action for a quote,
/// and its parameters can be checked, replaced and read back.
pub trait Strategy: Sized {
    /// The name under which the strategy is registered.
    spec fn name_spec(&self) -> Seq<char>;

    /// The symbol that the strategy trades.
    spec fn symbol_spec(&self) -> Seq<char>;

    /// Whether the strategy takes part in a cycle.
    spec fn enabled_spec(&self) -> bool;

    /// The parameters as they were last stored.
    spec fn parameters_spec(&self) -> Map<Seq<char>, ParamView>;

    /// Whether every recognized key of a parameter set holds a value that
    /// the strategy admits.
    spec fn accepts(&self, parameters: Map<Seq<char>, ParamView>) -> bool;

    fn name(&self) -> (r: &str)
        ensures
            r@ == self.name_spec(),
    ;

    fn symbol(&self) -> (r: &str)
        ensures
            r@ == self.symbol_spec(),
    ;

    fn is_enabled(&self) -> (r: bool)
        ensures
            r == self.enabled_spec(),
    ;

    /// Proposes an action for the quote at the time `now`, or nothing. A
    /// disabled strategy proposes nothing; a proposal carries the
    /// strategy's name and symbol, a quantity greater than zero and a
    /// confidence between 0 and 1.
    fn analyze(&self, market_data: &MarketData, now: &Timestamp) -> (r: Option<StrategySignal>)
        ensures
            !self.enabled_spec() ==> r is None,
            r matches Some(s) ==> {
                &&& s.strategy_name@ == self.name_spec()
                &&& s.symbol@ == self.symbol_spec()
                &&& s.quantity.is_positive_spec()
                &&& Decimal::spec_zero().le_spec(s.confidence)
                &&& s.confidence.le_spec(Decimal::spec_whole(1))
            },
    ;

    /// Replaces the parameters wholesale. A set that is not accepted is
    /// rejected and leaves the strategy as it was.
    fn update_parameters(&mut self, parameters: Parameters) -> (r: Result<(), Error>)
        ensures
            r is Ok <==> old(self).accepts(parameters@),
            r is Err ==> *final(self) == *old(self),
            r is Ok ==> final(self).parameters_spec() == parameters@,
            final(self).name_spec() == old(self).name_spec(),
            final(self).symbol_spec() == old(self).symbol_spec(),
            final(self).enabled_spec() == old(self).enabled_spec(),
    ;

    fn get_parameters(&self) -> (r: Parameters)
        ensures
            r@ == self.parameters_spec(),
    ;

    /// Checks a parameter set without changing anything.
    fn validate_parameters(&self, parameters: &Parameters) -> (r: Result<(), Error>)
        ensures
            r is Ok <==> self.accepts(parameters@),
            r matches Err(e) ==> e is Strategy,
    ;
}

/// The settings from which a strategy is set up.
#[derive(Debug)]
pub struct StrategyConfig {
    pub name: String,
    pub symbol: String,
    pub enabled: bool,
    pub parameters: Parameters,
}

impl StrategyConfig {
    /// Settings for an enabled strategy without parameters.
    pub fn new(name: String, symbol: String) -> (r: StrategyConfig)
        ensures
            r.name == name,
            r.symbol == symbol,
            r.enabled,
            r.parameters@ == Map::<Seq<char>, ParamView>::empty(),
    {
        StrategyConfig { name, symbol, enabled: true, parameters: Parameters::new() }
    }

    /// The same settings with `value` under `key`.
    pub fn with_parameter(self, key: &str, value: ParamValue) -> (r: StrategyConfig)
        ensures
            r.name == self.name,
            r.symbol == self.symbol,
            r.enabled == self.enabled,
            r.parameters@ == self.parameters@.insert(key@, value@),
    {
        let mut config = self;
        config.parameters.insert(key, value);
        config
    }

    /// The same settings, enabled or disabled.
    pub fn with_enabled(self, enabled: bool) -> (r: StrategyConfig)
        ensures
            r.name == self.name,
            r.symbol == self.symbol,
            r.enabled == enabled,
            r.parameters == self.parameters,
    {
        let mut config = self;
        config.enabled = enabled;
        config
    }
}

/// A history after a new item came in: the item is appended, and when the
/// history is then longer than `cap`, only its last `keep` items stay.
pub open spec fn pushed_and_trimmed(
    history: Seq<Decimal>,
    item: Decimal,
    cap: nat,
    keep: nat,
) -> Seq<Decimal> {
    let all = history.push(item);
    if all.len() > cap && keep <= all.len() {
        all.subrange(all.len() - keep, all.len() as int)
    } else {
        all
    }
}

/// Appends `item` to a history; when the history is then longer than `cap`,
/// the oldest items leave so that `keep` items stay.
pub fn push_and_trim(history: &mut Vec<Decimal>, item: Decimal, cap: u128, keep: usize)
    ensures
        final(history)@ == pushed_and_trimmed(old(history)@, item, cap as nat, keep as nat),
{
    history.push(item);
    let len = history.len();
    if len as u128 > cap && keep <= len {
        let mut kept: Vec<Decimal> = Vec::new();
        let start: usize = len - keep;
        let mut i: usize = start;
        while i < len
            invariant
                start <= i <= len,
                len == history@.len(),
                kept@ == history@.subrange(start as int, i as int),
            decreases len - i,
        {
            kept.push(history[i]);
            i = i + 1;
        }
        *history = kept;
    }
}

/// A copy of a history.
pub fn copy_of(values: &Vec<Decimal>) -> (r: Vec<Decimal>)
    ensures
        r@ == values@,
{
    let mut out: Vec<Decimal> = Vec::new();
    let mut i: usize = 0;
    while i < values.len()
        invariant
            0 <= i <= values@.len(),
            out@ == values@.subrange(0, i as int),
        decreases values@.len() - i,
    {
        out.push(values[i]);
        i = i + 1;
    }
    assert(values@.subrange(0, values@.len() as int) == values@);
    out
}

/// A history never grows beyond its cap, and what leaves it is what came
/// first: with `keep` at most `cap`, a history of at most `cap` items has
/// at most `cap` items after a new one came in, and those are the last
/// items of the old history followed by the new one.
pub proof fn law_history_is_capped(history: Seq<Decimal>, item: Decimal, cap: nat, keep: nat)
    requires
        history.len() <= cap,
        keep <= cap,
    ensures
        pushed_and_trimmed(history, item, cap, keep).len() <= cap,
        pushed_and_trimmed(history, item, cap, keep).len() <= history.len() + 1,
        forall|i: int|
            0 <= i < pushed_and_trimmed(history, item, cap, keep).len() ==> pushed_and_trimmed(
                history,
                item,
                cap,
                keep,
            )[i] == history.push(item)[history.len() + 1 - pushed_and_trimmed(
                history,
                item,
                cap,
                keep,
            ).len() + i],
{
}

/// The decimal `n / 10`.
pub fn tenths(n: u8) -> (r: Decimal)
    requires
        n <= 10,
    ensures
        r == Decimal::spec_new(n as int, 1),
        r.spec_mantissa() == n,
        r.spec_scale() == 1,
        Decimal::spec_zero().le_spec(r),
        r.le_spec(Decimal::spec_whole(1)),
{
    proof {
        lemma_parts(0, 0);
        lemma_parts(1, 0);
        assert(pow10(0) == 1);
        assert(pow10(1) == 10);
    }
    Decimal::new(n as i64, 1)
}

/// The sum `0 + v[n-1] + v[n-2] + ..` of the last `count` values, taken from
/// the most recent one backward; `None` when a partial sum overflows.
pub open spec fn sum_backward(values: Seq<Decimal>, count: nat) -> Option<Decimal>
    decreases count,
{
    if count == 0 {
        Some(Decimal::spec_zero())
    } else {
        match sum_backward(values, (count - 1) as nat) {
            Some(acc) => decimal_sum(acc, values[values.len() - count]),
            None => None,
        }
    }
}

/// The sum `0 + v[0] + v[1] + ..` of all values, in order.
pub open spec fn sum_forward(values: Seq<Decimal>) -> Option<Decimal>
    decreases values.len(),
{
    if values.len() == 0 {
        Some(Decimal::spec_zero())
    } else {
        match sum_forward(values.drop_last()) {
            Some(acc) => decimal_sum(acc, values.last()),
            None => None,
        }
    }
}

/// The mean of the last `count` values, summed backward.
pub open spec fn average_backward(values: Seq<Decimal>, count: nat) -> Option<Decimal> {
    match sum_backward(values, count) {
        Some(total) => decimal_quotient(total, Decimal::spec_whole(count as int)),
        None => None,
    }
}

/// The mean of all values, summed in order.
pub open spec fn average_forward(values: Seq<Decimal>) -> Option<Decimal> {
    match sum_forward(values) {
        Some(total) => decimal_quotient(total, Decimal::spec_whole(values.len() as int)),
        None => None,
    }
}

/// The simple moving average of the last `period` prices.
pub open spec fn spec_sma(prices: Seq<Decimal>, period: nat) -> Option<Decimal> {
    if prices.len() < period {
        None
    } else {
        average_backward(prices, period)
    }
}

/// The smoothing factor `2 / (period + 1)`.
pub open spec fn default_alpha(period: nat) -> Option<Decimal> {
    match decimal_sum(Decimal::spec_whole(period as int), Decimal::spec_whole(1)) {
        Some(d) => decimal_quotient(Decimal::spec_whole(2), d),
        None => None,
    }
}

/// One step of the recurrence: `alpha * price + (1 - alpha) * ema`.
pub open spec fn ema_step(alpha: Decimal, price: Decimal, ema: Decimal) -> Option<Decimal> {
    match (decimal_product(alpha, price), decimal_difference(Decimal::spec_whole(1), alpha)) {
        (Some(fresh), Some(rest)) => match decimal_product(rest, ema) {
            Some(kept) => decimal_sum(fresh, kept),
            None => None,
        },
        _ => None,
    }
}

/// The average after the first `upto` prices: the first price, then one step
/// of the recurrence for each further price.
pub open spec fn ema_over(alpha: Option<Decimal>, prices: Seq<Decimal>, upto: nat) -> Option<
    Decimal,
>
    decreases upto,
{
    if upto <= 1 {
        Some(prices[0])
    } else {
        match (alpha, ema_over(alpha, prices, (upto - 1) as nat)) {
            (Some(a), Some(e)) => ema_step(a, prices[upto - 1], e),
            _ => None,
        }
    }
}

/// The exponential moving average over all prices, with the given smoothing
/// factor or, without one, with `2 / (period + 1)`.
pub open spec fn spec_ema(prices: Seq<Decimal>, period: nat, alpha: Option<Decimal>) -> Option<
    Decimal,
> {
    if prices.len() == 0 {
        None
    } else {
        let factor = match alpha {
            Some(a) => Some(a),
            None => default_alpha(period),
        };
        ema_over(factor, prices, prices.len())
    }
}

/// The change from price `i - 1` to price `i`.
pub open spec fn price_change(prices: Seq<Decimal>, i: int) -> Option<Decimal> {
    decimal_difference(prices[i], prices[i - 1])
}

/// Every step's change can be represented.
pub open spec fn changes_defined(prices: Seq<Decimal>) -> bool {
    forall|i: int| 1 <= i < prices.len() ==> (#[trigger] price_change(prices, i)) is Some
}

/// The gain of step `i`: the change where the price rose, else zero.
pub open spec fn step_gain(prices: Seq<Decimal>, i: int) -> Decimal {
    if prices[i - 1].lt_spec(prices[i]) {
        price_change(prices, i).unwrap()
    } else {
        Decimal::spec_zero()
    }
}

/// The loss of step `i`: the negated change where the price fell, else
/// zero.
pub open spec fn step_loss(prices: Seq<Decimal>, i: int) -> Decimal {
    if prices[i].lt_spec(prices[i - 1]) {
        price_change(prices, i).unwrap().neg_spec()
    } else {
        Decimal::spec_zero()
    }
}

/// The gains of all steps, in order.
pub open spec fn gains(prices: Seq<Decimal>) -> Seq<Decimal> {
    Seq::new((prices.len() - 1) as nat, |j: int| step_gain(prices, j + 1))
}

/// The losses of all steps, in order.
pub open spec fn losses(prices: Seq<Decimal>) -> Seq<Decimal> {
    Seq::new((prices.len() - 1) as nat, |j: int| step_loss(prices, j + 1))
}

/// `x` held to the range from 0 to 100.
pub open spec fn clamp_percent(x: Decimal) -> Decimal {
    if x.lt_spec(Decimal::spec_zero()) {
        Decimal::spec_zero()
    } else if Decimal::spec_whole(100).lt_spec(x) {
        Decimal::spec_whole(100)
    } else {
        x
    }
}

/// The index from the average gain and the average loss: 100 when the
/// average loss is zero, else `100 - 100 / (1 + gain / loss)`, held to the
/// range from 0 to 100.
pub open spec fn spec_rsi_from_averages(avg_gain: Decimal, avg_loss: Decimal) -> Option<Decimal> {
    if avg_loss.is_zero_spec() {
        Some(Decimal::spec_whole(100))
    } else {
        match decimal_quotient(avg_gain, avg_loss) {
            None => None,
            Some(rs) => match decimal_sum(Decimal::spec_whole(1), rs) {
                None => None,
                Some(d) => match decimal_quotient(Decimal::spec_whole(100), d) {
                    None => None,
                    Some(q) => match decimal_difference(Decimal::spec_whole(100), q) {
                        None => None,
                        Some(x) => Some(clamp_percent(x)),
                    },
                },
            },
        }
    }
}

/// The relative strength index over the last `period` steps.
pub open spec fn spec_rsi(prices: Seq<Decimal>, period: nat) -> Option<Decimal> {
    if prices.len() <= period || !changes_defined(prices) {
        None
    } else {
        match (
            average_backward(gains(prices), period),
            average_backward(losses(prices), period),
        ) {
            (Some(g), Some(l)) => spec_rsi_from_averages(g, l),
            _ => None,
        }
    }
}

/// None of the last `period` steps is a loss: in each of them the price is
/// at least the price before.
pub open spec fn trailing_steps_without_loss(prices: Seq<Decimal>, period: nat) -> bool {
    forall|i: int|
        1 <= i && prices.len() - period <= i < prices.len() ==> prices[i - 1].le_spec(
            #[trigger] prices[i],
        )
}

/// The square of the distance of a price from a mean.
pub open spec fn squared_deviation(price: Decimal, mean: Decimal) -> Option<Decimal> {
    match decimal_difference(price, mean) {
        Some(d) => decimal_power(d, 2),
        None => None,
    }
}

/// The sum of the squared distances of all prices of a window from a mean.
pub open spec fn sum_squared_deviations(window: Seq<Decimal>, mean: Decimal) -> Option<Decimal>
    decreases window.len(),
{
    if window.len() == 0 {
        Some(Decimal::spec_zero())
    } else {
        match (
            sum_squared_deviations(window.drop_last(), mean),
            squared_deviation(window.last(), mean),
        ) {
            (Some(acc), Some(term)) => decimal_sum(acc, term),
            _ => None,
        }
    }
}

/// The population variance of the last `period` prices around their mean.
pub open spec fn spec_window_variance(prices: Seq<Decimal>, period: nat) -> Option<Decimal> {
    if prices.len() < period {
        None
    } else {
        match spec_sma(prices, period) {
            None => None,
            Some(mean) => match sum_squared_deviations(
                prices.subrange(prices.len() - period, prices.len() as int),
                mean,
            ) {
                None => None,
                Some(total) => decimal_quotient(total, Decimal::spec_whole(period as int)),
            },
        }
    }
}

/// The bands `(upper, middle, lower)` around the mean of the last `period`
/// prices: `middle ± deviation * multiplier`.
pub open spec fn spec_bollinger_bands(
    prices: Seq<Decimal>,
    period: nat,
    multiplier: Decimal,
    deviation: Decimal,
) -> Option<(Decimal, Decimal, Decimal)> {
    if prices.len() < period {
        None
    } else {
        match (spec_sma(prices, period), decimal_product(deviation, multiplier)) {
            (Some(middle), Some(width)) => match (
                decimal_sum(middle, width),
                decimal_difference(middle, width),
            ) {
                (Some(upper), Some(lower)) => Some((upper, middle, lower)),
                _ => None,
            },
            _ => None,
        }
    }
}

/// The line, the signal and the histogram: the line is the fast average less
/// the slow one, the signal is the line itself, and the histogram is zero.
pub open spec fn spec_macd(prices: Seq<Decimal>, fast_period: nat, slow_period: nat) -> Option<
    (Decimal, Decimal, Decimal),
> {
    if prices.len() < slow_period {
        None
    } else {
        match (spec_ema(prices, fast_period, None), spec_ema(prices, slow_period, None)) {
            (Some(fast), Some(slow)) => match decimal_difference(fast, slow) {
                Some(line) => Some((line, line, Decimal::spec_zero())),
                None => None,
            },
            _ => None,
        }
    }
}

/// Adds up the last `count` values, from the most recent one backward.
pub fn sum_last(values: &[Decimal], count: usize) -> (r: Option<Decimal>)
    requires
        count <= values@.len(),
    ensures
        r == sum_backward(values@, count as nat),
        (forall|k: int| values@.len() - count <= k < values@.len() ==> values@[k]
            == Decimal::spec_zero()) ==> r == Some(Decimal::spec_zero()),
{
    let mut acc: Option<Decimal> = Some(Decimal::zero());
    let mut k: usize = 0;
    while k < count
        invariant
            0 <= k <= count <= values@.len(),
            acc == sum_backward(values@, k as nat),
            (forall|j: int| values@.len() - k <= j < values@.len() ==> values@[j]
                == Decimal::spec_zero()) ==> acc == Some(Decimal::spec_zero()),
        decreases count - k,
    {
        k = k + 1;
        let item = values[values.len() - k];
        proof {
            lemma_parts(0, 0);
        }
        acc =
        match acc {
            Some(a) => a.checked_add(&item),
            None => None,
        };
    }
    acc
}

/// Adds up the values from index `start` up to, not including, `end`.
pub fn sum_range(values: &[Decimal], start: usize, end: usize) -> (r: Option<Decimal>)
    requires
        start <= end <= values@.len(),
    ensures
        r == sum_forward(values@.subrange(start as int, end as int)),
{
    let mut acc: Option<Decimal> = Some(Decimal::zero());
    let mut i: usize = start;
    while i < end
        invariant
            start <= i <= end <= values@.len(),
            acc == sum_forward(values@.subrange(start as int, i as int)),
        decreases end - i,
    {
        let item = values[i];
        proof {
            let next = values@.subrange(start as int, i + 1);
            assert(next.drop_last() == values@.subrange(start as int, i as int));
            assert(next.last() == item);
        }
        acc =
        match acc {
            Some(a) => a.checked_add(&item),
            None => None,
        };
        i = i + 1;
    }
    acc
}

/// The arithmetic mean of the last `period` prices; `None` when there are
/// fewer than `period` prices, when `period` is 0 or when the arithmetic
/// overflows.
pub fn calculate_sma(prices: &[Decimal], period: usize) -> (r: Option<Decimal>)
    ensures
        r == spec_sma(prices@, period as nat),
        prices@.len() < period ==> r is None,
        period == 0 ==> r is None,
{
    if prices.len() < period {
        return None;
    }
    match sum_last(prices, period) {
        Some(total) => total.checked_div(&Decimal::from_usize(period)),
        None => None,
    }
}

/// The exponential moving average over all prices: the first price, then
/// `alpha * price + (1 - alpha) * ema` for each further price, with `alpha`
/// defaulting to `2 / (period + 1)`; `None` when there is no price or when
/// the arithmetic overflows.
pub fn calculate_ema(prices: &[Decimal], period: usize, alpha: Option<Decimal>) -> (r: Option<
    Decimal,
>)
    ensures
        r == spec_ema(prices@, period as nat, alpha),
        prices@.len() == 0 ==> r is None,
        prices@.len() == 1 ==> r == Some(prices@[0]),
{
    if prices.len() == 0 {
        return None;
    }
    let one = Decimal::from_u64(1);
    let factor: Option<Decimal> = match alpha {
        Some(a) => Some(a),
        None => match Decimal::from_usize(period).checked_add(&one) {
            Some(d) => Decimal::from_u64(2).checked_div(&d),
            None => None,
        },
    };
    let mut ema: Option<Decimal> = Some(prices[0]);
    let mut i: usize = 1;
    while i < prices.len()
        invariant
            1 <= i <= prices@.len(),
            one == Decimal::spec_whole(1),
            ema == ema_over(factor, prices@, i as nat),
        decreases prices@.len() - i,
    {
        let price = prices[i];
        ema =
        match (factor, ema) {
            (Some(a), Some(e)) => next_ema(a, price, e),
            _ => None,
        };
        i = i + 1;
    }
    ema
}

fn next_ema(alpha: Decimal, price: Decimal, ema: Decimal) -> (r: Option<Decimal>)
    ensures
        r == ema_step(alpha, price, ema),
{
    let fresh = alpha.checked_mul(&price);
    let rest = Decimal::from_u64(1).checked_sub(&alpha);
    match (fresh, rest) {
        (Some(f), Some(c)) => match c.checked_mul(&ema) {
            Some(kept) => f.checked_add(&kept),
            None => None,
        },
        _ => None,
    }
}

/// Holds `x` to the range from 0 to 100.
pub fn clamp_to_percent(x: Decimal) -> (r: Decimal)
    ensures
        r == clamp_percent(x),
        Decimal::spec_zero().le_spec(r),
        r.le_spec(Decimal::spec_whole(100)),
{
    let zero = Decimal::zero();
    let hundred = Decimal::from_u64(100);
    proof {
        assert(pow10(0) == 1);
    }
    if x.lt(&zero) {
        zero
    } else if hundred.lt(&x) {
        hundred
    } else {
        x
    }
}

/// The relative strength index from the average gain and the average loss:
/// 100 when the average loss is zero, else `100 - 100 / (1 + gain / loss)`,
/// held to the range from 0 to 100; `None` when the arithmetic overflows.
pub fn rsi_from_averages(avg_gain: Decimal, avg_loss: Decimal) -> (r: Option<Decimal>)
    ensures
        r == spec_rsi_from_averages(avg_gain, avg_loss),
        avg_loss.is_zero_spec() ==> r == Some(Decimal::spec_whole(100)),
        r matches Some(x) ==> Decimal::spec_zero().le_spec(x) && x.le_spec(
            Decimal::spec_whole(100),
        ),
{
    let hundred = Decimal::from_u64(100);
    if avg_loss.is_zero() {
        proof {
            lemma_parts(0, 0);
            assert(pow10(0) == 1);
        }
        return Some(hundred);
    }
    let rs = match avg_gain.checked_div(&avg_loss) {
        Some(v) => v,
        None => { return None; },
    };
    let d = match Decimal::from_u64(1).checked_add(&rs) {
        Some(v) => v,
        None => { return None; },
    };
    let q = match hundred.checked_div(&d) {
        Some(v) => v,
        None => { return None; },
    };
    match hundred.checked_sub(&q) {
        Some(x) => Some(clamp_to_percent(x)),
        None => None,
    }
}

/// The relative strength index over the last `period` steps of the price
/// sequence. It needs more than `period` prices and is always between 0
/// and 100; it is 100 when none of the last `period` steps is a loss.
pub fn calculate_rsi(prices: &[Decimal], period: usize) -> (r: Option<Decimal>)
    ensures
        r == spec_rsi(prices@, period as nat),
        prices@.len() <= period ==> r is None,
        r matches Some(x) ==> Decimal::spec_zero().le_spec(x) && x.le_spec(
            Decimal::spec_whole(100),
        ),
        prices@.len() > period && changes_defined(prices@) && average_backward(
            gains(prices@),
            period as nat,
        ) is Some && trailing_steps_without_loss(prices@, period as nat) ==> r == Some(
            Decimal::spec_whole(100),
        ),
{
    if prices.len() <= period {
        return None;
    }
    let mut gain_list: Vec<Decimal> = Vec::new();
    let mut loss_list: Vec<Decimal> = Vec::new();
    let mut i: usize = 1;
    while i < prices.len()
        invariant
            1 <= i <= prices@.len(),
            gain_list@.len() == i - 1,
            loss_list@.len() == i - 1,
            forall|k: int| 1 <= k < i ==> (#[trigger] price_change(prices@, k)) is Some,
            forall|j: int| 0 <= j < i - 1 ==> gain_list@[j] == step_gain(prices@, j + 1),
            forall|j: int| 0 <= j < i - 1 ==> loss_list@[j] == step_loss(prices@, j + 1),
        decreases prices@.len() - i,
    {
        let change = match prices[i].checked_sub(&prices[i - 1]) {
            Some(c) => c,
            None => {
                assert(price_change(prices@, i as int) is None);
                return None;
            },
        };
        assert(price_change(prices@, i as int) == Some(change));
        if prices[i].gt(&prices[i - 1]) {
            gain_list.push(change);
            loss_list.push(Decimal::zero());
        } else if prices[i].lt(&prices[i - 1]) {
            gain_list.push(Decimal::zero());
            loss_list.push(change.neg());
        } else {
            gain_list.push(Decimal::zero());
            loss_list.push(Decimal::zero());
        }
        i = i + 1;
    }
    assert(changes_defined(prices@));
    assert(gain_list@ =~= gains(prices@));
    assert(loss_list@ =~= losses(prices@));
    let divisor = Decimal::from_usize(period);
    let gain_sum = sum_last(gain_list.as_slice(), period);
    let avg_gain = match gain_sum {
        Some(total) => total.checked_div(&divisor),
        None => None,
    };
    let loss_sum = sum_last(loss_list.as_slice(), period);
    let avg_loss = match loss_sum {
        Some(total) => total.checked_div(&divisor),
        None => None,
    };
    proof {
        lemma_parts(0, 0);
        if trailing_steps_without_loss(prices@, period as nat) {
            assert forall|k: int|
                loss_list@.len() - period <= k < loss_list@.len() implies loss_list@[k]
                == Decimal::spec_zero() by {
                assert(prices@[k].le_spec(prices@[k + 1]));
            }
        }
    }
    match (avg_gain, avg_loss) {
        (Some(g), Some(l)) => rsi_from_averages(g, l),
        _ => None,
    }
}

/// The population variance of the last `period` prices around their mean;
/// `None` when there are fewer than `period` prices, when `period` is 0 or
/// when the arithmetic overflows.
pub fn window_variance(prices: &[Decimal], period: usize) -> (r: Option<Decimal>)
    ensures
        r == spec_window_variance(prices@, period as nat),
        prices@.len() < period ==> r is None,
{
    if prices.len() < period {
        return None;
    }
    let mean = match calculate_sma(prices, period) {
        Some(m) => m,
        None => { return None; },
    };
    let start: usize = prices.len() - period;
    let ghost window = prices@.subrange(start as int, prices@.len() as int);
    let mut acc: Option<Decimal> = Some(Decimal::zero());
    let mut i: usize = start;
    while i < prices.len()
        invariant
            start <= i <= prices@.len(),
            acc == sum_squared_deviations(prices@.subrange(start as int, i as int), mean),
        decreases prices@.len() - i,
    {
        let price = prices[i];
        proof {
            let next = prices@.subrange(start as int, i + 1);
            assert(next.drop_last() == prices@.subrange(start as int, i as int));
            assert(next.last() == price);
        }
        let term = match price.checked_sub(&mean) {
            Some(d) => d.checked_square(),
            None => None,
        };
        acc =
        match (acc, term) {
            (Some(a), Some(t)) => a.checked_add(&t),
            _ => None,
        };
        i = i + 1;
    }
    match acc {
        Some(total) => total.checked_div(&Decimal::from_usize(period)),
        None => None,
    }
}

/// The bands `(upper, middle, lower)`: the mean of the last `period` prices
/// as the middle, and the middle plus and minus `std_deviation * std_dev`.
/// `std_deviation` is the standard deviation of that window, the square root
/// of [`window_variance`]. `None` when there are fewer than `period` prices,
/// when `period` is 0 or when the arithmetic overflows.
pub fn calculate_bollinger_bands(
    prices: &[Decimal],
    period: usize,
    std_dev: Decimal,
    std_deviation: Decimal,
) -> (r: Option<(Decimal, Decimal, Decimal)>)
    ensures
        r == spec_bollinger_bands(prices@, period as nat, std_dev, std_deviation),
        prices@.len() < period ==> r is None,
{
    if prices.len() < period {
        return None;
    }
    let middle = match calculate_sma(prices, period) {
        Some(m) => m,
        None => { return None; },
    };
    let width = match std_deviation.checked_mul(&std_dev) {
        Some(w) => w,
        None => { return None; },
    };
    match (middle.checked_add(&width), middle.checked_sub(&width)) {
        (Some(upper), Some(lower)) => Some((upper, middle, lower)),
        _ => None,
    }
}

/// The line, the signal and the histogram `(line, signal, histogram)`. The
/// line is the fast average less the slow one; the signal is the line itself
/// and the histogram is zero. `None` when there are fewer than `slow_period`
/// prices, when there is no price or when the arithmetic overflows.
pub fn calculate_macd(
    prices: &[Decimal],
    fast_period: usize,
    slow_period: usize,
    signal_period: usize,
) -> (r: Option<(Decimal, Decimal, Decimal)>)
    ensures
        r == spec_macd(prices@, fast_period as nat, slow_period as nat),
        prices@.len() < slow_period ==> r is None,
        r matches Some(m) ==> m.1 == m.0 && m.2.is_zero_spec(),
{
    if prices.len() < slow_period {
        return None;
    }
    let fast = calculate_ema(prices, fast_period, None);
    let slow = calculate_ema(prices, slow_period, None);
    match (fast, slow) {
        (Some(f), Some(s)) => match f.checked_sub(&s) {
            Some(line) => Some((line, line, Decimal::zero())),
            None => None,
        },
        _ => None,
    }
}

/// Whether the index is below 30.
pub fn is_oversold(rsi: Decimal) -> (r: bool)
    ensures
        r == rsi.lt_spec(Decimal::spec_whole(30)),
{
    rsi.lt(&Decimal::from_u64(30))
}

/// Whether the index is above 70.
pub fn is_overbought(rsi: Decimal) -> (r: bool)
    ensures
        r == Decimal::spec_whole(70).lt_spec(rsi),
{
    rsi.gt(&Decimal::from_u64(70))
}

/// Whether the last price rose while the last index value fell.
pub fn is_bullish_divergence(prices: &[Decimal], rsi_values: &[Decimal]) -> (r: bool)
    ensures
        r == (prices@.len() >= 2 && rsi_values@.len() >= 2 && prices@[prices@.len() - 2].lt_spec(
            prices@[prices@.len() - 1],
        ) && rsi_values@[rsi_values@.len() - 1].lt_spec(rsi_values@[rsi_values@.len() - 2])),
{
    if prices.len() < 2 || rsi_values.len() < 2 {
        return false;
    }
    let price_trend = prices[prices.len() - 1].gt(&prices[prices.len() - 2]);
    let rsi_trend = rsi_values[rsi_values.len() - 1].lt(&rsi_values[rsi_values.len() - 2]);
    price_trend && rsi_trend
}

/// Whether the last price fell while the last index value rose.
pub fn is_bearish_divergence(prices: &[Decimal], rsi_values: &[Decimal]) -> (r: bool)
    ensures
        r == (prices@.len() >= 2 && rsi_values@.len() >= 2 && prices@[prices@.len() - 1].lt_spec(
            prices@[prices@.len() - 2],
        ) && rsi_values@[rsi_values@.len() - 2].lt_spec(rsi_values@[rsi_values@.len() - 1])),
{
    if prices.len() < 2 || rsi_values.len() < 2 {
        return false;
    }
    let price_trend = prices[prices.len() - 1].lt(&prices[prices.len() - 2]);
    let rsi_trend = rsi_values[rsi_values.len() - 1].gt(&rsi_values[rsi_values.len() - 2]);
    price_trend && rsi_trend
}

} // verus!
