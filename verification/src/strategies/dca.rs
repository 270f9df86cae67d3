//! Periodic accumulation: buy a fixed amount at a fixed interval, up to a
//! cap on what is invested, and only while the price is below its recent
//! average once enough history is there.

use crate::decimal::{decimal_quotient, decimal_sum, decimal_text, Decimal};
use crate::error::Error;
use crate::models::{signal_view, MarketData, SignalAction, SignalView, StrategySignal};
use crate::params::{decimal_param, unsigned_param, ParamValue, ParamView, Parameters};
use crate::strategies::base::{
    average_forward, push_and_trim, pushed_and_trimmed, sum_range, tenths, Strategy,
};
use crate::time::Timestamp;
use vstd::prelude::*;

verus! {

/// The periodic accumulation strategy.
#[derive(Debug)]
pub struct DCAStrategy {
    name: String,
    symbol: String,
    enabled: bool,
    parameters: Parameters,
    investment_amount: Decimal,
    interval_hours: u64,
    last_buy_time: Option<Timestamp>,
    last_proposal_time: Option<Timestamp>,
    max_investment: Decimal,
    current_investment: Decimal,
    price_history: Vec<Decimal>,
    lookback_period: usize,
}

/// The state of a [`DCAStrategy`].
pub struct DcaView {
    pub name: Seq<char>,
    pub symbol: Seq<char>,
    pub enabled: bool,
    pub parameters: Map<Seq<char>, ParamView>,
    /// What one buy spends.
    pub investment_amount: Decimal,
    /// The least number of whole hours between two buys.
    pub interval_hours: u64,
    /// When the last buy was recorded.
    pub last_buy_time: Option<Timestamp>,
    /// When a buy was last proposed, as far as the proposals were committed.
    pub last_proposal_time: Option<Timestamp>,
    /// The cap on what is invested in total.
    pub max_investment: Decimal,
    /// What has been invested so far.
    pub current_investment: Decimal,
    /// The prices seen, oldest first.
    pub price_history: Seq<Decimal>,
    /// The number of prices that the trailing average spans.
    pub lookback_period: nat,
}

impl View for DCAStrategy {
    type V = DcaView;

    closed spec fn view(&self) -> DcaView {
        DcaView {
            name: self.name@,
            symbol: self.symbol@,
            enabled: self.enabled,
            parameters: self.parameters@,
            investment_amount: self.investment_amount,
            interval_hours: self.interval_hours,
            last_buy_time: self.last_buy_time,
            last_proposal_time: self.last_proposal_time,
            max_investment: self.max_investment,
            current_investment: self.current_investment,
            price_history: self.price_history@,
            lookback_period: self.lookback_period as nat,
        }
    }
}

/// The interval since an instant is over, or there is no such instant.
pub open spec fn interval_over(since: Option<Timestamp>, interval_hours: u64, now: Timestamp) -> bool {
    match since {
        Some(last) => last.spec_hours_until(now) >= interval_hours,
        None => true,
    }
}

/// The interval is over both since the last recorded buy and since the
/// last committed proposal.
pub open spec fn dca_interval_elapsed(v: DcaView, now: Timestamp) -> bool {
    &&& interval_over(v.last_buy_time, v.interval_hours, now)
    &&& interval_over(v.last_proposal_time, v.interval_hours, now)
}

/// The mean of the last `lookback_period` prices, once there are that many.
pub open spec fn dca_recent_average(v: DcaView) -> Option<Decimal> {
    if v.price_history.len() < v.lookback_period {
        None
    } else {
        average_forward(
            v.price_history.subrange(
                v.price_history.len() - v.lookback_period,
                v.price_history.len() as int,
            ),
        )
    }
}

/// Whether a buy is due: the interval is over, the cap is not reached, and
/// the price is below the recent average once there is enough history.
pub open spec fn dca_should_buy(v: DcaView, price: Decimal, now: Timestamp) -> bool {
    &&& dca_interval_elapsed(v, now)
    &&& v.current_investment.lt_spec(v.max_investment)
    &&& (v.price_history.len() < v.lookback_period || (dca_recent_average(v) matches Some(avg)
        && price.lt_spec(avg)))
}

/// The tier for a ratio of price to average: 0.8 for a price that is at
/// least 5 percent below the average (a ratio of at most 0.95), 0.6 for one
/// that is at least 2 percent below it (at most 0.98), else 0.4.
pub open spec fn dca_tier(ratio: Decimal) -> Decimal {
    if ratio.le_spec(Decimal::spec_new(95, 2)) {
        Decimal::spec_new(8, 1)
    } else if ratio.le_spec(Decimal::spec_new(98, 2)) {
        Decimal::spec_new(6, 1)
    } else {
        Decimal::spec_new(4, 1)
    }
}

/// The confidence of a buy at `price`: 0.5 while the history is short, else
/// the tier of the ratio of the price to the recent average.
pub open spec fn dca_confidence(v: DcaView, price: Decimal) -> Option<Decimal> {
    if v.price_history.len() < v.lookback_period {
        Some(Decimal::spec_new(5, 1))
    } else {
        match dca_recent_average(v) {
            None => None,
            Some(avg) => match decimal_quotient(price, avg) {
                None => None,
                Some(ratio) => Some(dca_tier(ratio)),
            },
        }
    }
}

/// The diagnostics attached to a proposal.
pub open spec fn dca_metadata(v: DcaView) -> Map<Seq<char>, ParamView> {
    Map::<Seq<char>, ParamView>::empty().insert(
        "investment_amount"@,
        ParamView::Text(decimal_text(v.investment_amount)),
    ).insert("interval_hours"@, ParamView::Unsigned(v.interval_hours)).insert(
        "current_investment"@,
        ParamView::Text(decimal_text(v.current_investment)),
    )
}

/// What the strategy proposes for a price at the time `now`: a buy of
/// `investment_amount / price` at that price when a buy is due and that
/// quantity is greater than zero, else nothing.
pub open spec fn dca_analysis(v: DcaView, price: Decimal, now: Timestamp) -> Option<SignalView> {
    if !v.enabled || !dca_should_buy(v, price, now) {
        None
    } else {
        match (dca_confidence(v, price), decimal_quotient(v.investment_amount, price)) {
            (Some(confidence), Some(quantity)) if quantity.is_positive_spec() => Some(
                SignalView {
                    strategy_name: v.name,
                    symbol: v.symbol,
                    action: SignalAction::Buy,
                    quantity,
                    price: Some(price),
                    confidence,
                    metadata: dca_metadata(v),
                },
            ),
            _ => None,
        }
    }
}

/// The state after a buy at the time `at` that brought the total invested
/// to `total`.
pub open spec fn dca_after_buy(v: DcaView, total: Decimal, at: Timestamp) -> DcaView {
    DcaView { last_buy_time: Some(at), current_investment: total, ..v }
}

/// The state after a buy of `amount` at the time `at`; `None` when the total
/// invested cannot be represented.
pub open spec fn dca_bought(v: DcaView, amount: Decimal, at: Timestamp) -> Option<DcaView> {
    match decimal_sum(v.current_investment, amount) {
        Some(total) => Some(dca_after_buy(v, total, at)),
        None => None,
    }
}

/// The state after the quote of a cycle was committed at the time `now`:
/// when the strategy proposes a buy for the quote, the time of the proposal
/// is noted; the price comes into the history.
pub open spec fn dca_after_quote(v: DcaView, price: Decimal, now: Timestamp) -> DcaView {
    DcaView {
        last_proposal_time: if dca_analysis(v, price, now) is Some {
            Some(now)
        } else {
            v.last_proposal_time
        },
        ..dca_after_price(v, price)
    }
}

/// The state after a price came into the history.
pub open spec fn dca_after_price(v: DcaView, price: Decimal) -> DcaView {
    DcaView {
        price_history: pushed_and_trimmed(
            v.price_history,
            price,
            2 * v.lookback_period,
            v.lookback_period,
        ),
        ..v
    }
}

/// Why a parameter set is rejected, if it is: the amount per buy and the cap
/// must be greater than zero where they read as decimals, the interval
/// must not be 0 and the lookback period must lie in 1..=100 where they
/// are whole numbers.
pub open spec fn dca_rejection(p: Map<Seq<char>, ParamView>) -> Option<Seq<char>> {
    if decimal_param(p, "investment_amount"@) matches Some(a) && a.le_spec(Decimal::spec_zero()) {
        Some("Investment amount must be positive"@)
    } else if unsigned_param(p, "interval_hours"@) == Some(0u64) {
        Some("Interval hours must be greater than 0"@)
    } else if decimal_param(p, "max_investment"@) matches Some(m) && m.le_spec(
        Decimal::spec_zero(),
    ) {
        Some("Max investment must be positive"@)
    } else if unsigned_param(p, "lookback_period"@) matches Some(n) && (n == 0 || n > 100) {
        Some("Lookback period must be between 1 and 100"@)
    } else {
        None
    }
}

/// The state after an accepted parameter set has been applied: each
/// recognized key that holds a value of its kind replaces the setting, and
/// the set is stored whole.
pub open spec fn dca_with_parameters(v: DcaView, p: Map<Seq<char>, ParamView>) -> DcaView {
    DcaView {
        parameters: p,
        investment_amount: match decimal_param(p, "investment_amount"@) {
            Some(a) => a,
            None => v.investment_amount,
        },
        interval_hours: match unsigned_param(p, "interval_hours"@) {
            Some(h) => h,
            None => v.interval_hours,
        },
        max_investment: match decimal_param(p, "max_investment"@) {
            Some(m) => m,
            None => v.max_investment,
        },
        lookback_period: match unsigned_param(p, "lookback_period"@) {
            Some(n) => (n as usize) as nat,
            None => v.lookback_period,
        },
        ..v
    }
}

/// The state of a strategy that was just set up.
pub open spec fn dca_initial(name: Seq<char>, symbol: Seq<char>) -> DcaView {
    DcaView {
        name,
        symbol,
        enabled: true,
        parameters: Map::<Seq<char>, ParamView>::empty(),
        investment_amount: Decimal::spec_whole(100),
        interval_hours: 24,
        last_buy_time: None,
        last_proposal_time: None,
        max_investment: Decimal::spec_whole(10000),
        current_investment: Decimal::spec_zero(),
        price_history: Seq::<Decimal>::empty(),
        lookback_period: 20,
    }
}

impl DCAStrategy {
    /// A strategy that buys for 100 every 24 hours, up to 10000 in total,
    /// with a trailing average over 20 prices.
    pub fn new(name: String, symbol: String) -> (r: DCAStrategy)
        ensures
            r@ == dca_initial(name@, symbol@),
    {
        DCAStrategy {
            name,
            symbol,
            enabled: true,
            parameters: Parameters::new(),
            investment_amount: Decimal::from_u64(100),
            interval_hours: 24,
            last_buy_time: None,
            last_proposal_time: None,
            max_investment: Decimal::from_u64(10000),
            current_investment: Decimal::zero(),
            price_history: Vec::new(),
            lookback_period: 20,
        }
    }

    fn should_buy(&self, market_data: &MarketData, now: &Timestamp) -> (r: bool)
        ensures
            r == dca_should_buy(self@, market_data.price, *now),
    {
        if let Some(last) = self.last_buy_time {
            if last.hours_until(now) < self.interval_hours as i128 {
                return false;
            }
        }
        if let Some(last) = self.last_proposal_time {
            if last.hours_until(now) < self.interval_hours as i128 {
                return false;
            }
        }
        if self.current_investment.ge(&self.max_investment) {
            return false;
        }
        if self.price_history.len() < self.lookback_period {
            return true;
        }
        match self.calculate_recent_average() {
            Some(avg) => market_data.price.lt(&avg),
            None => false,
        }
    }

    fn calculate_recent_average(&self) -> (r: Option<Decimal>)
        ensures
            r == dca_recent_average(self@),
    {
        let len = self.price_history.len();
        if len < self.lookback_period {
            return None;
        }
        let start: usize = len - self.lookback_period;
        match sum_range(self.price_history.as_slice(), start, len) {
            Some(total) => total.checked_div(&Decimal::from_usize(self.lookback_period)),
            None => None,
        }
    }

    fn calculate_confidence(&self, market_data: &MarketData) -> (r: Option<Decimal>)
        ensures
            r == dca_confidence(self@, market_data.price),
            r matches Some(c) ==> Decimal::spec_zero().le_spec(c) && c.le_spec(
                Decimal::spec_whole(1),
            ),
    {
        if self.price_history.len() < self.lookback_period {
            return Some(tenths(5));
        }
        let avg = match self.calculate_recent_average() {
            Some(a) => a,
            None => { return None; },
        };
        let ratio = match market_data.price.checked_div(&avg) {
            Some(x) => x,
            None => { return None; },
        };
        if ratio.le(&Decimal::new(95, 2)) {
            Some(tenths(8))
        } else if ratio.le(&Decimal::new(98, 2)) {
            Some(tenths(6))
        } else {
            Some(tenths(4))
        }
    }

    fn metadata(&self) -> (r: Parameters)
        ensures
            r@ == dca_metadata(self@),
    {
        let mut m = Parameters::new();
        m.insert("investment_amount", ParamValue::Text(self.investment_amount.to_text()));
        m.insert("interval_hours", ParamValue::Unsigned(self.interval_hours));
        m.insert("current_investment", ParamValue::Text(self.current_investment.to_text()));
        m
    }

    /// Takes a new price into the history. When the history is then longer
    /// than twice the lookback period, only the last `lookback_period`
    /// prices stay.
    pub fn update_price_history(&mut self, price: Decimal)
        ensures
            final(self)@ == dca_after_price(old(self)@, price),
            final(self)@.price_history.len() <= old(self)@.price_history.len() + 1,
            old(self)@.price_history.len() <= 2 * old(self)@.lookback_period ==> final(self)@
                .price_history.len() <= 2 * old(self)@.lookback_period,
    {
        let cap: u128 = 2 * (self.lookback_period as u128);
        push_and_trim(&mut self.price_history, price, cap, self.lookback_period);
    }

    /// Commits the quote of a cycle at the time `now`: when the strategy
    /// proposes a buy for the quote, the time of the proposal is noted, so
    /// that nothing more is proposed before the interval is over; the
    /// price comes into the history.
    pub fn commit_quote(&mut self, market_data: &MarketData, now: &Timestamp)
        ensures
            final(self)@ == dca_after_quote(old(self)@, market_data.price, *now),
    {
        let proposed = self.analyze(market_data, now).is_some();
        if proposed {
            self.last_proposal_time = Some(*now);
        }
        self.update_price_history(market_data.price);
    }

    /// Records a buy of `amount` at the time `now`. When the total invested
    /// cannot be represented, nothing changes and the result is `false`.
    pub fn record_buy(&mut self, amount: Decimal, now: Timestamp) -> (r: bool)
        ensures
            match dca_bought(old(self)@, amount, now) {
                Some(next) => r && final(self)@ == next,
                None => !r && final(self)@ == old(self)@,
            },
    {
        match self.current_investment.checked_add(&amount) {
            Some(total) => {
                self.last_buy_time = Some(now);
                self.current_investment = total;
                true
            },
            None => false,
        }
    }

    /// What one buy spends.
    pub fn investment_amount(&self) -> (r: Decimal)
        ensures
            r == self@.investment_amount,
    {
        self.investment_amount
    }

    /// Forgets what was invested and when.
    pub fn reset_investment(&mut self)
        ensures
            final(self)@ == (DcaView {
                last_buy_time: None,
                last_proposal_time: None,
                current_investment: Decimal::spec_zero(),
                ..old(self)@
            }),
    {
        self.current_investment = Decimal::zero();
        self.last_buy_time = None;
        self.last_proposal_time = None;
    }

    /// Why a parameter set is rejected, if it is.
    pub fn rejection(parameters: &Parameters) -> (r: Option<&'static str>)
        ensures
            match r {
                Some(text) => dca_rejection(parameters@) == Some(text@),
                None => dca_rejection(parameters@) is None,
            },
    {
        let zero = Decimal::zero();
        if let Some(a) = parameters.decimal("investment_amount") {
            if a.le(&zero) {
                return Some("Investment amount must be positive");
            }
        }
        if let Some(h) = parameters.unsigned("interval_hours") {
            if h == 0 {
                return Some("Interval hours must be greater than 0");
            }
        }
        if let Some(m) = parameters.decimal("max_investment") {
            if m.le(&zero) {
                return Some("Max investment must be positive");
            }
        }
        if let Some(n) = parameters.unsigned("lookback_period") {
            if n == 0 || n > 100 {
                return Some("Lookback period must be between 1 and 100");
            }
        }
        None
    }
}

impl Strategy for DCAStrategy {
    open spec fn name_spec(&self) -> Seq<char> {
        self@.name
    }

    open spec fn symbol_spec(&self) -> Seq<char> {
        self@.symbol
    }

    open spec fn enabled_spec(&self) -> bool {
        self@.enabled
    }

    open spec fn parameters_spec(&self) -> Map<Seq<char>, ParamView> {
        self@.parameters
    }

    open spec fn accepts(&self, parameters: Map<Seq<char>, ParamView>) -> bool {
        dca_rejection(parameters) is None
    }

    fn name(&self) -> (r: &str)
        ensures
            r@ == self@.name,
    {
        self.name.as_str()
    }

    fn symbol(&self) -> (r: &str)
        ensures
            r@ == self@.symbol,
    {
        self.symbol.as_str()
    }

    fn is_enabled(&self) -> (r: bool)
        ensures
            r == self@.enabled,
    {
        self.enabled
    }

    /// Proposes a buy when one is due at the time `now`; never within less
    /// than `interval_hours` whole hours of the last recorded buy or of the
    /// last committed proposal.
    fn analyze(&self, market_data: &MarketData, now: &Timestamp) -> (r: Option<StrategySignal>)
        ensures
            signal_view(r) == dca_analysis(self@, market_data.price, *now),
    {
        if !self.enabled {
            return None;
        }
        if !self.should_buy(market_data, now) {
            return None;
        }
        let confidence = self.calculate_confidence(market_data);
        let quantity = self.investment_amount.checked_div(&market_data.price);
        match (confidence, quantity) {
            (Some(c), Some(q)) if q.is_positive() => Some(
                StrategySignal {
                    strategy_name: self.name.clone(),
                    symbol: self.symbol.clone(),
                    action: SignalAction::Buy,
                    quantity: q,
                    price: Some(market_data.price),
                    confidence: c,
                    metadata: self.metadata(),
                },
            ),
            _ => None,
        }
    }

    fn update_parameters(&mut self, parameters: Parameters) -> (r: Result<(), Error>)
        ensures
            r is Ok ==> final(self)@ == dca_with_parameters(old(self)@, parameters@),
            r matches Err(e) ==> e matches Error::Strategy(text) && Some(text@) == dca_rejection(
                parameters@,
            ),
    {
        if let Some(text) = Self::rejection(&parameters) {
            return Err(Error::strategy(text));
        }
        if let Some(a) = parameters.decimal("investment_amount") {
            self.investment_amount = a;
        }
        if let Some(h) = parameters.unsigned("interval_hours") {
            self.interval_hours = h;
        }
        if let Some(m) = parameters.decimal("max_investment") {
            self.max_investment = m;
        }
        if let Some(n) = parameters.unsigned("lookback_period") {
            self.lookback_period = n as usize;
        }
        self.parameters = parameters;
        Ok(())
    }

    fn get_parameters(&self) -> (r: Parameters)
        ensures
            r@ == self@.parameters,
    {
        self.parameters.clone()
    }

    fn validate_parameters(&self, parameters: &Parameters) -> (r: Result<(), Error>)
        ensures
            r matches Err(e) ==> e matches Error::Strategy(text) && Some(text@) == dca_rejection(
                parameters@,
            ),
    {
        match Self::rejection(parameters) {
            Some(text) => Err(Error::strategy(text)),
            None => Ok(()),
        }
    }
}

/// No buy is proposed within less than `interval_hours` whole hours of the
/// last recorded buy, whatever the price and the rest of the state.
pub proof fn law_no_buy_within_interval(
    v: DcaView,
    last_buy: Timestamp,
    price: Decimal,
    now: Timestamp,
)
    requires
        v.last_buy_time == Some(last_buy),
        last_buy.spec_hours_until(now) < v.interval_hours,
    ensures
        dca_analysis(v, price, now) is None,
{
}

/// Two proposals are never less than the interval apart: when a buy is
/// proposed for a quote at one time and the quote is committed, nothing is
/// proposed at any time that is less than `interval_hours` whole hours
/// later, whatever the price then is.
pub proof fn law_no_two_proposals_within_interval(
    v: DcaView,
    first_price: Decimal,
    first: Timestamp,
    second_price: Decimal,
    second: Timestamp,
)
    requires
        dca_analysis(v, first_price, first) is Some,
        first.spec_hours_until(second) < v.interval_hours,
    ensures
        dca_analysis(dca_after_quote(v, first_price, first), second_price, second) is None,
{
}

/// Two calls a fixed offset apart, the offset being shorter than the
/// interval: once a buy is recorded at the first, nothing is proposed at the
/// second.
pub proof fn law_recorded_buy_blocks_next(
    v: DcaView,
    total: Decimal,
    first: Timestamp,
    second: Timestamp,
    price: Decimal,
)
    requires
        first.spec_hours_until(second) < v.interval_hours,
    ensures
        dca_analysis(dca_after_buy(v, total, first), price, second) is None,
{
}

} // verus!
