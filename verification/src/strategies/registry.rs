//! The closed set of strategy kinds behind one interface, and the registry
//! that holds the active strategies under their names.

use crate::config::StrategyConfig;
use crate::decimal::Decimal;
use crate::error::{same_text, Error};
use crate::models::{signal_view, MarketData, SignalAction, SignalView, StrategySignal};
use crate::params::{ParamView, Parameters};
use crate::strategies::base::Strategy;
use crate::strategies::dca::{
    dca_after_quote, dca_analysis, dca_bought, dca_initial, dca_rejection, dca_with_parameters,
    DCAStrategy, DcaView,
};
use crate::strategies::grid::{
    grid_analysis, grid_filled, grid_initial, grid_rejection, grid_with_parameters, GridStrategy,
    GridView,
};
use crate::strategies::mean_reversion::{
    reversion_after_price, reversion_analysis, reversion_initial, reversion_rejection,
    reversion_with_parameters, MeanReversionStrategy, MeanReversionView,
};
use crate::strategies::momentum::{
    momentum_after_quote, momentum_analysis, momentum_initial, momentum_rejection,
    momentum_with_parameters, MomentumStrategy, MomentumView,
};
use crate::time::Timestamp;
use vstd::prelude::*;
use vstd::string::StringExecFns;

verus! {

/// A strategy of one of the kinds that the engine knows.
#[derive(Debug)]
pub enum StrategyInstance {
    Dca(DCAStrategy),
    Grid(GridStrategy),
    Momentum(MomentumStrategy),
    MeanReversion(MeanReversionStrategy),
}

/// The state of a [`StrategyInstance`].
pub enum InstanceView {
    Dca(DcaView),
    Grid(GridView),
    Momentum(MomentumView),
    MeanReversion(MeanReversionView),
}

impl InstanceView {
    /// The name under which the strategy is registered.
    pub open spec fn name(self) -> Seq<char> {
        match self {
            InstanceView::Dca(v) => v.name,
            InstanceView::Grid(v) => v.name,
            InstanceView::Momentum(v) => v.name,
            InstanceView::MeanReversion(v) => v.name,
        }
    }

    /// Whether the strategy takes part in a cycle.
    pub open spec fn enabled(self) -> bool {
        match self {
            InstanceView::Dca(v) => v.enabled,
            InstanceView::Grid(v) => v.enabled,
            InstanceView::Momentum(v) => v.enabled,
            InstanceView::MeanReversion(v) => v.enabled,
        }
    }
}

impl View for StrategyInstance {
    type V = InstanceView;

    open spec fn view(&self) -> InstanceView {
        match *self {
            StrategyInstance::Dca(s) => InstanceView::Dca(s@),
            StrategyInstance::Grid(s) => InstanceView::Grid(s@),
            StrategyInstance::Momentum(s) => InstanceView::Momentum(s@),
            StrategyInstance::MeanReversion(s) => InstanceView::MeanReversion(s@),
        }
    }
}

/// Why a strategy rejects a parameter set, if it does: the reason of its
/// kind.
pub open spec fn instance_rejection(v: InstanceView, p: Map<Seq<char>, ParamView>) -> Option<
    Seq<char>,
> {
    match v {
        InstanceView::Dca(_) => dca_rejection(p),
        InstanceView::Grid(_) => grid_rejection(p),
        InstanceView::Momentum(_) => momentum_rejection(p),
        InstanceView::MeanReversion(_) => reversion_rejection(p),
    }
}

/// The state of a strategy after an accepted parameter set has been
/// applied: each recognized key of its kind that holds a value of its kind
/// replaces the setting, and the set is stored whole.
pub open spec fn instance_with_parameters(v: InstanceView, p: Map<Seq<char>, ParamView>) -> InstanceView {
    match v {
        InstanceView::Dca(s) => InstanceView::Dca(dca_with_parameters(s, p)),
        InstanceView::Grid(s) => InstanceView::Grid(grid_with_parameters(s, p)),
        InstanceView::Momentum(s) => InstanceView::Momentum(momentum_with_parameters(s, p)),
        InstanceView::MeanReversion(s) => InstanceView::MeanReversion(
            reversion_with_parameters(s, p),
        ),
    }
}

/// What a strategy proposes for a quote at the time `now`.
pub open spec fn instance_analysis(
    v: InstanceView,
    price: Decimal,
    volume: Decimal,
    now: Timestamp,
) -> Option<SignalView> {
    match v {
        InstanceView::Dca(s) => dca_analysis(s, price, now),
        InstanceView::Grid(s) => grid_analysis(s, price),
        InstanceView::Momentum(s) => momentum_analysis(s, price, volume),
        InstanceView::MeanReversion(s) => reversion_analysis(s, price),
    }
}

impl Strategy for StrategyInstance {
    open spec fn name_spec(&self) -> Seq<char> {
        self@.name()
    }

    open spec fn symbol_spec(&self) -> Seq<char> {
        match *self {
            StrategyInstance::Dca(s) => s.symbol_spec(),
            StrategyInstance::Grid(s) => s.symbol_spec(),
            StrategyInstance::Momentum(s) => s.symbol_spec(),
            StrategyInstance::MeanReversion(s) => s.symbol_spec(),
        }
    }

    open spec fn enabled_spec(&self) -> bool {
        self@.enabled()
    }

    open spec fn parameters_spec(&self) -> Map<Seq<char>, ParamView> {
        match *self {
            StrategyInstance::Dca(s) => s.parameters_spec(),
            StrategyInstance::Grid(s) => s.parameters_spec(),
            StrategyInstance::Momentum(s) => s.parameters_spec(),
            StrategyInstance::MeanReversion(s) => s.parameters_spec(),
        }
    }

    open spec fn accepts(&self, parameters: Map<Seq<char>, ParamView>) -> bool {
        match *self {
            StrategyInstance::Dca(s) => s.accepts(parameters),
            StrategyInstance::Grid(s) => s.accepts(parameters),
            StrategyInstance::Momentum(s) => s.accepts(parameters),
            StrategyInstance::MeanReversion(s) => s.accepts(parameters),
        }
    }

    fn name(&self) -> (r: &str) {
        match self {
            StrategyInstance::Dca(s) => s.name(),
            StrategyInstance::Grid(s) => s.name(),
            StrategyInstance::Momentum(s) => s.name(),
            StrategyInstance::MeanReversion(s) => s.name(),
        }
    }

    fn symbol(&self) -> (r: &str) {
        match self {
            StrategyInstance::Dca(s) => s.symbol(),
            StrategyInstance::Grid(s) => s.symbol(),
            StrategyInstance::Momentum(s) => s.symbol(),
            StrategyInstance::MeanReversion(s) => s.symbol(),
        }
    }

    fn is_enabled(&self) -> (r: bool) {
        match self {
            StrategyInstance::Dca(s) => s.is_enabled(),
            StrategyInstance::Grid(s) => s.is_enabled(),
            StrategyInstance::Momentum(s) => s.is_enabled(),
            StrategyInstance::MeanReversion(s) => s.is_enabled(),
        }
    }

    fn analyze(&self, market_data: &MarketData, now: &Timestamp) -> (r: Option<StrategySignal>)
        ensures
            signal_view(r) == instance_analysis(
                self@,
                market_data.price,
                market_data.volume_24h,
                *now,
            ),
    {
        match self {
            StrategyInstance::Dca(s) => s.analyze(market_data, now),
            StrategyInstance::Grid(s) => s.analyze(market_data, now),
            StrategyInstance::Momentum(s) => s.analyze(market_data, now),
            StrategyInstance::MeanReversion(s) => s.analyze(market_data, now),
        }
    }

    fn update_parameters(&mut self, parameters: Parameters) -> (r: Result<(), Error>)
        ensures
            r is Ok ==> final(self)@ == instance_with_parameters(old(self)@, parameters@),
            r matches Err(e) ==> e matches Error::Strategy(text) && Some(text@)
                == instance_rejection(old(self)@, parameters@),
    {
        match self {
            StrategyInstance::Dca(s) => s.update_parameters(parameters),
            StrategyInstance::Grid(s) => s.update_parameters(parameters),
            StrategyInstance::Momentum(s) => s.update_parameters(parameters),
            StrategyInstance::MeanReversion(s) => s.update_parameters(parameters),
        }
    }

    fn get_parameters(&self) -> (r: Parameters) {
        match self {
            StrategyInstance::Dca(s) => s.get_parameters(),
            StrategyInstance::Grid(s) => s.get_parameters(),
            StrategyInstance::Momentum(s) => s.get_parameters(),
            StrategyInstance::MeanReversion(s) => s.get_parameters(),
        }
    }

    fn validate_parameters(&self, parameters: &Parameters) -> (r: Result<(), Error>)
        ensures
            r is Ok <==> instance_rejection(self@, parameters@) is None,
            r matches Err(e) ==> e matches Error::Strategy(text) && Some(text@)
                == instance_rejection(self@, parameters@),
    {
        match self {
            StrategyInstance::Dca(s) => s.validate_parameters(parameters),
            StrategyInstance::Grid(s) => s.validate_parameters(parameters),
            StrategyInstance::Momentum(s) => s.validate_parameters(parameters),
            StrategyInstance::MeanReversion(s) => s.validate_parameters(parameters),
        }
    }
}

/// The state after the quote of a cycle was committed at the time `now`:
/// the strategies that keep a history take the quote in, a periodic
/// accumulation also notes the time when it proposes a buy for the quote; a
/// grid stays as it is.
pub open spec fn instance_after_quote(
    v: InstanceView,
    price: Decimal,
    volume: Decimal,
    now: Timestamp,
) -> InstanceView {
    match v {
        InstanceView::Dca(s) => InstanceView::Dca(dca_after_quote(s, price, now)),
        InstanceView::Grid(s) => InstanceView::Grid(s),
        InstanceView::Momentum(s) => InstanceView::Momentum(momentum_after_quote(s, price, volume)),
        InstanceView::MeanReversion(s) => InstanceView::MeanReversion(
            reversion_after_price(s, price),
        ),
    }
}

/// The state after a proposal was executed at the time `at`, if the
/// execution changes it: a periodic accumulation records a buy of its
/// amount; a grid marks the level at the proposal's price as filled.
pub open spec fn instance_after_fill(v: InstanceView, signal: SignalView, at: Timestamp) -> Option<
    InstanceView,
> {
    match v {
        InstanceView::Dca(s) => match dca_bought(s, s.investment_amount, at) {
            Some(next) => Some(InstanceView::Dca(next)),
            None => None,
        },
        InstanceView::Grid(s) => match signal.price {
            Some(price) => match grid_filled(s, price, signal.action == SignalAction::Buy) {
                Some(next) => Some(InstanceView::Grid(next)),
                None => None,
            },
            None => None,
        },
        _ => None,
    }
}

impl StrategyInstance {
    /// Commits the quote of a cycle, evaluated at the time `now`, to the
    /// strategy's state.
    pub fn commit_quote(&mut self, market_data: &MarketData, now: &Timestamp)
        ensures
            final(self)@ == instance_after_quote(
                old(self)@,
                market_data.price,
                market_data.volume_24h,
                *now,
            ),
    {
        match self {
            StrategyInstance::Dca(s) => s.commit_quote(market_data, now),
            StrategyInstance::Grid(_) => {},
            StrategyInstance::Momentum(s) => s.update_history(market_data),
            StrategyInstance::MeanReversion(s) => s.update_price_history(market_data.price),
        }
    }

    /// Tells the strategy that its proposal was executed at the time `at`.
    /// The result says whether the strategy's state changed.
    pub fn record_fill(&mut self, signal: &StrategySignal, at: Timestamp) -> (r: bool)
        ensures
            match instance_after_fill(old(self)@, signal@, at) {
                Some(next) => r && final(self)@ == next,
                None => !r && final(self)@ == old(self)@,
            },
    {
        match self {
            StrategyInstance::Dca(s) => {
                let amount = s.investment_amount();
                s.record_buy(amount, at)
            },
            StrategyInstance::Grid(s) => match signal.price {
                Some(price) => s.mark_order_filled(price, signal.action == SignalAction::Buy),
                None => false,
            },
            _ => false,
        }
    }
}

/// The strategy that settings describe: nothing when it is disabled or of
/// an unknown kind, else a fresh strategy of its kind with the parameters
/// applied; the reason when the parameters are rejected.
pub open spec fn built_strategy(
    name: Seq<char>,
    kind: Seq<char>,
    symbol: Seq<char>,
    enabled: bool,
    parameters: Map<Seq<char>, ParamView>,
) -> Result<Option<InstanceView>, Seq<char>> {
    if !enabled {
        Ok(None)
    } else if kind == "dca"@ {
        match dca_rejection(parameters) {
            Some(text) => Err(text),
            None => Ok(
                Some(InstanceView::Dca(dca_with_parameters(dca_initial(name, symbol), parameters))),
            ),
        }
    } else if kind == "grid"@ {
        match grid_rejection(parameters) {
            Some(text) => Err(text),
            None => Ok(
                Some(
                    InstanceView::Grid(grid_with_parameters(grid_initial(name, symbol), parameters)),
                ),
            ),
        }
    } else if kind == "momentum"@ {
        match momentum_rejection(parameters) {
            Some(text) => Err(text),
            None => Ok(
                Some(
                    InstanceView::Momentum(
                        momentum_with_parameters(momentum_initial(name, symbol), parameters),
                    ),
                ),
            ),
        }
    } else if kind == "mean_reversion"@ {
        match reversion_rejection(parameters) {
            Some(text) => Err(text),
            None => Ok(
                Some(
                    InstanceView::MeanReversion(
                        reversion_with_parameters(reversion_initial(name, symbol), parameters),
                    ),
                ),
            ),
        }
    } else {
        Ok(None)
    }
}

/// Sets up the strategy that settings describe under `name`.
pub fn build_strategy(name: &str, config: &StrategyConfig) -> (r: Result<
    Option<StrategyInstance>,
    Error,
>)
    ensures
        match built_strategy(
            name@,
            config.strategy_type@,
            config.symbol@,
            config.enabled,
            config.parameters@,
        ) {
            Ok(Some(v)) => r matches Ok(Some(s)) && s@ == v,
            Ok(None) => r matches Ok(None),
            Err(text) => r matches Err(Error::Strategy(t)) && t@ == text,
        },
{
    if !config.enabled {
        return Ok(None);
    }
    let kind = config.strategy_type.as_str();
    let own_name = String::from_str(name);
    let symbol = config.symbol.clone();
    let parameters = config.parameters.clone();
    if same_text(kind, "dca") {
        let mut s = DCAStrategy::new(own_name, symbol);
        match s.update_parameters(parameters) {
            Ok(()) => Ok(Some(StrategyInstance::Dca(s))),
            Err(e) => Err(e),
        }
    } else if same_text(kind, "grid") {
        let mut s = GridStrategy::new(own_name, symbol);
        match s.update_parameters(parameters) {
            Ok(()) => Ok(Some(StrategyInstance::Grid(s))),
            Err(e) => Err(e),
        }
    } else if same_text(kind, "momentum") {
        let mut s = MomentumStrategy::new(own_name, symbol);
        match s.update_parameters(parameters) {
            Ok(()) => Ok(Some(StrategyInstance::Momentum(s))),
            Err(e) => Err(e),
        }
    } else if same_text(kind, "mean_reversion") {
        let mut s = MeanReversionStrategy::new(own_name, symbol);
        match s.update_parameters(parameters) {
            Ok(()) => Ok(Some(StrategyInstance::MeanReversion(s))),
            Err(e) => Err(e),
        }
    } else {
        Ok(None)
    }
}

/// The first position from `start` on that holds a strategy of that name.
pub open spec fn position_of_name(strategies: Seq<InstanceView>, name: Seq<char>, start: nat) -> Option<
    nat,
>
    decreases strategies.len() - start,
{
    if start >= strategies.len() {
        None
    } else if strategies[start as int].name() == name {
        Some(start)
    } else {
        position_of_name(strategies, name, start + 1)
    }
}

/// The strategies after one was registered: it takes the place of the one
/// registered under its name, or the last place when there is none.
pub open spec fn registered(strategies: Seq<InstanceView>, strategy: InstanceView) -> Seq<
    InstanceView,
> {
    match position_of_name(strategies, strategy.name(), 0) {
        Some(i) => strategies.update(i as int, strategy),
        None => strategies.push(strategy),
    }
}

/// The strategies registered from the first `upto` settings, in order; the
/// reason when one of them is rejected.
pub open spec fn registry_from(configs: Seq<(String, StrategyConfig)>, upto: nat) -> Result<
    Seq<InstanceView>,
    Seq<char>,
>
    decreases upto,
{
    if upto == 0 {
        Ok(Seq::<InstanceView>::empty())
    } else {
        match registry_from(configs, (upto - 1) as nat) {
            Err(text) => Err(text),
            Ok(strategies) => {
                let entry = configs[upto - 1];
                match built_strategy(
                    entry.0@,
                    entry.1.strategy_type@,
                    entry.1.symbol@,
                    entry.1.enabled,
                    entry.1.parameters@,
                ) {
                    Err(text) => Err(text),
                    Ok(None) => Ok(strategies),
                    Ok(Some(v)) => Ok(registered(strategies, v)),
                }
            },
        }
    }
}

/// No two strategies share a name.
pub open spec fn names_distinct(strategies: Seq<InstanceView>) -> bool {
    forall|i: int, j: int|
        0 <= i < j < strategies.len() ==> strategies[i].name() != strategies[j].name()
}

/// The active strategies, each under its own name, in the order in which
/// they were first registered.
#[derive(Debug)]
pub struct StrategyRegistry {
    strategies: Vec<StrategyInstance>,
}

impl View for StrategyRegistry {
    type V = Seq<InstanceView>;

    closed spec fn view(&self) -> Seq<InstanceView> {
        Seq::new(self.strategies@.len(), |i: int| self.strategies@[i]@)
    }
}

impl StrategyRegistry {
    /// The registry without strategies.
    pub fn new() -> (r: StrategyRegistry)
        ensures
            r@ == Seq::<InstanceView>::empty(),
    {
        let r = StrategyRegistry { strategies: Vec::new() };
        assert(r@ =~= Seq::<InstanceView>::empty());
        r
    }

    /// The number of strategies.
    pub fn len(&self) -> (r: usize)
        ensures
            r == self@.len(),
    {
        self.strategies.len()
    }

    /// The position of the strategy registered under `name`.
    pub fn position(&self, name: &str) -> (r: Option<usize>)
        ensures
            match r {
                Some(i) => position_of_name(self@, name@, 0) == Some(i as nat) && i < self@.len()
                    && self@[i as int].name() == name@,
                None => position_of_name(self@, name@, 0) is None,
            },
    {
        let mut i: usize = 0;
        while i < self.strategies.len()
            invariant
                0 <= i <= self.strategies@.len(),
                self@.len() == self.strategies@.len(),
                position_of_name(self@, name@, 0) == position_of_name(self@, name@, i as nat),
            decreases self.strategies@.len() - i,
        {
            if same_text(self.strategies[i].name(), name) {
                return Some(i);
            }
            i = i + 1;
        }
        None
    }

    /// The strategy at a position.
    pub fn get(&self, index: usize) -> (r: &StrategyInstance)
        requires
            index < self@.len(),
        ensures
            r@ == self@[index as int],
    {
        &self.strategies[index]
    }

    /// Registers a strategy under its name, in place of any strategy that
    /// was registered under that name.
    pub fn insert(&mut self, strategy: StrategyInstance)
        ensures
            final(self)@ == registered(old(self)@, strategy@),
            names_distinct(old(self)@) ==> names_distinct(final(self)@),
    {
        let found = self.position(strategy.name());
        let ghost before = self@;
        let ghost added = strategy@;
        match found {
            Some(i) => {
                self.strategies.set(i, strategy);
                assert(self@ =~= before.update(i as int, added));
            },
            None => {
                self.strategies.push(strategy);
                assert(self@ =~= before.push(added));
                proof {
                    lemma_name_absent(before, added.name(), 0);
                }
            },
        }
    }

    /// Commits the quote of a cycle, evaluated at the time `now`, to the
    /// strategy at a position.
    pub fn commit_quote(&mut self, index: usize, market_data: &MarketData, now: &Timestamp)
        requires
            index < old(self)@.len(),
        ensures
            final(self)@ == old(self)@.update(
                index as int,
                instance_after_quote(
                    old(self)@[index as int],
                    market_data.price,
                    market_data.volume_24h,
                    *now,
                ),
            ),
    {
        let ghost before = self@;
        self.strategies[index].commit_quote(market_data, now);
        assert(self@ =~= before.update(
            index as int,
            instance_after_quote(
                before[index as int],
                market_data.price,
                market_data.volume_24h,
                *now,
            ),
        ));
    }

    /// Tells the strategy at a position that its proposal was executed at
    /// the time `at`. The result says whether the strategy's state changed.
    pub fn record_fill(&mut self, index: usize, signal: &StrategySignal, at: Timestamp) -> (r: bool)
        requires
            index < old(self)@.len(),
        ensures
            match instance_after_fill(old(self)@[index as int], signal@, at) {
                Some(next) => r && final(self)@ == old(self)@.update(index as int, next),
                None => !r && final(self)@ == old(self)@,
            },
    {
        let ghost before = self@;
        let r = self.strategies[index].record_fill(signal, at);
        proof {
            match instance_after_fill(before[index as int], signal@, at) {
                Some(next) => {
                    assert(self@ =~= before.update(index as int, next));
                },
                None => {
                    assert(self@ =~= before);
                },
            }
        }
        r
    }

    /// Registers the strategies that the settings describe, in their
    /// order. Disabled strategies and unknown kinds are passed over; a
    /// rejected parameter set ends the work with its error.
    pub fn from_config(configs: &Vec<(String, StrategyConfig)>) -> (r: Result<
        StrategyRegistry,
        Error,
    >)
        ensures
            match registry_from(configs@, configs@.len()) {
                Ok(strategies) => r matches Ok(registry) && registry@ == strategies,
                Err(text) => r matches Err(Error::Strategy(t)) && t@ == text,
            },
            r matches Ok(registry) ==> names_distinct(registry@),
    {
        let mut registry = StrategyRegistry::new();
        let mut i: usize = 0;
        while i < configs.len()
            invariant
                0 <= i <= configs@.len(),
                registry_from(configs@, i as nat) == Ok::<Seq<InstanceView>, Seq<char>>(
                    registry@,
                ),
                names_distinct(registry@),
            decreases configs@.len() - i,
        {
            let entry = &configs[i];
            match build_strategy(entry.0.as_str(), &entry.1) {
                Err(e) => {
                    proof {
                        lemma_rejection_stays(configs@, (i + 1) as nat, configs@.len());
                    }
                    return Err(e);
                },
                Ok(None) => {},
                Ok(Some(strategy)) => {
                    registry.insert(strategy);
                },
            }
            i = i + 1;
        }
        Ok(registry)
    }
}

/// Where no position from `start` on holds a name, none of them does.
pub proof fn lemma_name_absent(strategies: Seq<InstanceView>, name: Seq<char>, start: nat)
    requires
        position_of_name(strategies, name, start) is None,
    ensures
        forall|i: int| start <= i < strategies.len() ==> strategies[i].name() != name,
    decreases strategies.len() - start,
{
    if start < strategies.len() {
        lemma_name_absent(strategies, name, start + 1);
    }
}

/// Once the first settings are rejected, so are all.
pub proof fn lemma_rejection_stays(configs: Seq<(String, StrategyConfig)>, upto: nat, all: nat)
    requires
        upto <= all,
        registry_from(configs, upto) is Err,
    ensures
        registry_from(configs, all) == registry_from(configs, upto),
    decreases all - upto,
{
    if upto < all {
        lemma_rejection_stays(configs, upto, (all - 1) as nat);
    }
}

} // verus!
