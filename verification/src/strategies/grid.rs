//! Price ladder: a grid of buy levels below and sell levels above a base
//! price, each proposed once when the price crosses it.

use crate::decimal::{
    decimal_difference, decimal_product, decimal_quotient, decimal_sum, decimal_text,
    law_le_is_transitive, Decimal,
};
use crate::error::Error;
use crate::models::{signal_view, MarketData, SignalAction, SignalView, StrategySignal};
use crate::params::{decimal_param, unsigned_param, ParamValue, ParamView, Parameters};
use crate::strategies::base::{tenths, Strategy};
use crate::time::Timestamp;
use vstd::prelude::*;

verus! {

/// One level of the grid.
#[derive(Debug, Clone, Copy)]
pub struct GridLevel {
    /// The price at which the level's order stands.
    pub price: Decimal,
    /// Whether the level buys (below the base price) or sells (above it).
    pub is_buy: bool,
    /// Whether the level's order is still to be filled.
    pub active: bool,
}

/// The price ladder strategy.
#[derive(Debug)]
pub struct GridStrategy {
    name: String,
    symbol: String,
    enabled: bool,
    parameters: Parameters,
    grid_levels: Vec<GridLevel>,
    grid_spacing: Decimal,
    base_price: Option<Decimal>,
    position_size: Decimal,
    max_levels: usize,
    total_investment: Decimal,
    max_investment: Decimal,
}

/// The state of a [`GridStrategy`].
pub struct GridView {
    pub name: Seq<char>,
    pub symbol: Seq<char>,
    pub enabled: bool,
    pub parameters: Map<Seq<char>, ParamView>,
    /// The levels: the buy levels from the highest down, then the sell
    /// levels from the lowest up.
    pub grid_levels: Seq<GridLevel>,
    /// The step between two levels, in percent of the base price.
    pub grid_spacing: Decimal,
    /// The price around which the grid was laid out, if it was.
    pub base_price: Option<Decimal>,
    /// What one level's order is worth.
    pub position_size: Decimal,
    /// The number of levels on each side.
    pub max_levels: nat,
    /// What the filled buy levels have spent.
    pub total_investment: Decimal,
    /// The cap on what buy levels may spend.
    pub max_investment: Decimal,
}

impl View for GridStrategy {
    type V = GridView;

    closed spec fn view(&self) -> GridView {
        GridView {
            name: self.name@,
            symbol: self.symbol@,
            enabled: self.enabled,
            parameters: self.parameters@,
            grid_levels: self.grid_levels@,
            grid_spacing: self.grid_spacing,
            base_price: self.base_price,
            position_size: self.position_size,
            max_levels: self.max_levels as nat,
            total_investment: self.total_investment,
            max_investment: self.max_investment,
        }
    }
}

/// The part of the base price that lies between it and level `k`:
/// `spacing * k / 100`.
pub open spec fn grid_offset(spacing: Decimal, k: nat) -> Option<Decimal> {
    match decimal_product(spacing, Decimal::spec_whole(k as int)) {
        Some(p) => decimal_quotient(p, Decimal::spec_whole(100)),
        None => None,
    }
}

/// The price of buy level `k`: `base * (1 - spacing * k / 100)`.
pub open spec fn buy_level_price(base: Decimal, spacing: Decimal, k: nat) -> Option<Decimal> {
    match grid_offset(spacing, k) {
        Some(offset) => match decimal_difference(Decimal::spec_whole(1), offset) {
            Some(factor) => decimal_product(base, factor),
            None => None,
        },
        None => None,
    }
}

/// The price of sell level `k`: `base * (1 + spacing * k / 100)`.
pub open spec fn sell_level_price(base: Decimal, spacing: Decimal, k: nat) -> Option<Decimal> {
    match grid_offset(spacing, k) {
        Some(offset) => match decimal_sum(Decimal::spec_whole(1), offset) {
            Some(factor) => decimal_product(base, factor),
            None => None,
        },
        None => None,
    }
}

/// The prices of all levels `1..=n` on both sides can be represented.
pub open spec fn grid_prices_defined(base: Decimal, spacing: Decimal, n: nat) -> bool {
    &&& forall|k: nat| 1 <= k <= n ==> (#[trigger] buy_level_price(base, spacing, k)) is Some
    &&& forall|k: nat| 1 <= k <= n ==> (#[trigger] sell_level_price(base, spacing, k)) is Some
}

/// The grid around a base price: buy levels `1..=n`, then sell levels
/// `1..=n`, all of them active.
pub open spec fn grid_around(base: Decimal, spacing: Decimal, n: nat) -> Seq<GridLevel> {
    Seq::new(
        2 * n,
        |i: int|
            if i < n {
                GridLevel {
                    price: buy_level_price(base, spacing, (i + 1) as nat).unwrap(),
                    is_buy: true,
                    active: true,
                }
            } else {
                GridLevel {
                    price: sell_level_price(base, spacing, (i - n + 1) as nat).unwrap(),
                    is_buy: false,
                    active: true,
                }
            },
    )
}

/// A level whose buy order is due: active, and above the current price.
pub open spec fn buy_candidate(level: GridLevel, price: Decimal) -> bool {
    level.active && level.is_buy && price.lt_spec(level.price)
}

/// A level whose sell order is due: active, and below the current price.
pub open spec fn sell_candidate(level: GridLevel, price: Decimal) -> bool {
    level.active && !level.is_buy && level.price.lt_spec(price)
}

/// Among the first `upto` levels, the one whose buy order is due and whose
/// price is the lowest, that is the nearest to the current price; of
/// several at that price the first.
pub open spec fn nearest_buy(levels: Seq<GridLevel>, price: Decimal, upto: nat) -> Option<nat>
    decreases upto,
{
    if upto == 0 {
        None
    } else {
        let rest = nearest_buy(levels, price, (upto - 1) as nat);
        let level = levels[upto - 1];
        if buy_candidate(level, price) && (rest matches Some(best) ==> level.price.lt_spec(
            levels[best as int].price,
        )) {
            Some((upto - 1) as nat)
        } else {
            rest
        }
    }
}

/// Among the first `upto` levels, the one whose sell order is due and whose
/// price is the highest, that is the nearest to the current price; of
/// several at that price the first.
pub open spec fn nearest_sell(levels: Seq<GridLevel>, price: Decimal, upto: nat) -> Option<nat>
    decreases upto,
{
    if upto == 0 {
        None
    } else {
        let rest = nearest_sell(levels, price, (upto - 1) as nat);
        let level = levels[upto - 1];
        if sell_candidate(level, price) && (rest matches Some(best) ==> levels[best as int].price.lt_spec(
            level.price,
        )) {
            Some((upto - 1) as nat)
        } else {
            rest
        }
    }
}

/// The level to buy at: the one due that is nearest to the price, unless
/// the cap is reached.
pub open spec fn grid_buy_level(v: GridView, price: Decimal) -> Option<nat> {
    if v.max_investment.le_spec(v.total_investment) {
        None
    } else {
        nearest_buy(v.grid_levels, price, v.grid_levels.len())
    }
}

/// The level to sell at: the one due that is nearest to the price.
pub open spec fn grid_sell_level(v: GridView, price: Decimal) -> Option<nat> {
    nearest_sell(v.grid_levels, price, v.grid_levels.len())
}

/// How far a level lies from the base price, in percent of the base price,
/// counted downward for a buy and upward for a sell.
pub open spec fn grid_deviation(action: SignalAction, base: Decimal, level: Decimal) -> Option<
    Decimal,
> {
    let distance = if action == SignalAction::Buy {
        decimal_difference(base, level)
    } else {
        decimal_difference(level, base)
    };
    match distance {
        None => None,
        Some(d) => match decimal_quotient(d, base) {
            None => None,
            Some(part) => decimal_product(part, Decimal::spec_whole(100)),
        },
    }
}

/// The tier for a deviation: 0.9 beyond 5, 0.7 beyond 2, else 0.5.
pub open spec fn grid_tier(deviation: Decimal) -> Decimal {
    if Decimal::spec_whole(5).lt_spec(deviation) {
        Decimal::spec_new(9, 1)
    } else if Decimal::spec_whole(2).lt_spec(deviation) {
        Decimal::spec_new(7, 1)
    } else {
        Decimal::spec_new(5, 1)
    }
}

/// The confidence of an order at a level.
pub open spec fn grid_confidence(v: GridView, action: SignalAction, level: Decimal) -> Option<
    Decimal,
> {
    match v.base_price {
        Some(base) if action == SignalAction::Buy || action == SignalAction::Sell => {
            match grid_deviation(action, base, level) {
                Some(deviation) => Some(grid_tier(deviation)),
                None => None,
            }
        },
        _ => Some(Decimal::spec_new(5, 1)),
    }
}

/// The diagnostics attached to a proposal at a level.
pub open spec fn grid_metadata(v: GridView, level: Decimal) -> Map<Seq<char>, ParamView> {
    Map::<Seq<char>, ParamView>::empty().insert(
        "grid_level"@,
        ParamView::Text(decimal_text(level)),
    ).insert("position_size"@, ParamView::Text(decimal_text(v.position_size))).insert(
        "total_investment"@,
        ParamView::Text(decimal_text(v.total_investment)),
    )
}

/// The proposal for the order of one level: `position_size / level` at the
/// level's price, provided that quantity is greater than zero.
pub open spec fn grid_order(v: GridView, action: SignalAction, level: Decimal) -> Option<
    SignalView,
> {
    match (grid_confidence(v, action, level), decimal_quotient(v.position_size, level)) {
        (Some(confidence), Some(quantity)) if quantity.is_positive_spec() => Some(
            SignalView {
                strategy_name: v.name,
                symbol: v.symbol,
                action,
                quantity,
                price: Some(level),
                confidence,
                metadata: grid_metadata(v, level),
            },
        ),
        _ => None,
    }
}

/// What the strategy proposes for a price: the order of the buy level above
/// the price that is nearest to it, else that of the sell level below the
/// price that is nearest to it, else nothing. Without a grid it proposes
/// nothing.
pub open spec fn grid_analysis(v: GridView, price: Decimal) -> Option<SignalView> {
    if !v.enabled || v.base_price is None {
        None
    } else {
        match grid_buy_level(v, price) {
            Some(i) => grid_order(v, SignalAction::Buy, v.grid_levels[i as int].price),
            None => match grid_sell_level(v, price) {
                Some(i) => grid_order(v, SignalAction::Sell, v.grid_levels[i as int].price),
                None => None,
            },
        }
    }
}

/// A level that an order filled at `price` on the given side belongs to.
pub open spec fn fill_candidate(level: GridLevel, price: Decimal, is_buy: bool) -> bool {
    level.active && level.is_buy == is_buy && level.price.eq_spec(price)
}

/// The first level from `start` on that a fill belongs to.
pub open spec fn first_fill_from(
    levels: Seq<GridLevel>,
    price: Decimal,
    is_buy: bool,
    start: nat,
) -> Option<nat>
    decreases levels.len() - start,
{
    if start >= levels.len() {
        None
    } else if fill_candidate(levels[start as int], price, is_buy) {
        Some(start)
    } else {
        first_fill_from(levels, price, is_buy, start + 1)
    }
}

/// The state after the order of level `i` was filled: the level is no longer
/// active, and the total invested is `total`.
pub open spec fn grid_after_fill(v: GridView, i: nat, total: Decimal) -> GridView {
    GridView {
        grid_levels: v.grid_levels.update(
            i as int,
            GridLevel { active: false, ..v.grid_levels[i as int] },
        ),
        total_investment: total,
        ..v
    }
}

/// The state after an order at `price` on the given side was filled: the
/// first active level on that side with that price is no longer active, and
/// a buy adds `position_size` to the total invested. `None` when there is
/// no such level or when the total cannot be represented.
pub open spec fn grid_filled(v: GridView, price: Decimal, is_buy: bool) -> Option<GridView> {
    match first_fill_from(v.grid_levels, price, is_buy, 0) {
        None => None,
        Some(i) => if !is_buy {
            Some(grid_after_fill(v, i, v.total_investment))
        } else {
            match decimal_sum(v.total_investment, v.position_size) {
                Some(total) => Some(grid_after_fill(v, i, total)),
                None => None,
            }
        },
    }
}

/// Why a parameter set is rejected, if it is: the spacing must lie in
/// (0, 50] and the position size must be greater than zero where they read
/// as decimals, and the number of levels must lie in 1..=50 where it is a
/// whole number.
pub open spec fn grid_rejection(p: Map<Seq<char>, ParamView>) -> Option<Seq<char>> {
    if decimal_param(p, "grid_spacing"@) matches Some(s) && (s.le_spec(Decimal::spec_zero())
        || Decimal::spec_whole(50).lt_spec(s)) {
        Some("Grid spacing must be between 0 and 50"@)
    } else if decimal_param(p, "position_size"@) matches Some(s) && s.le_spec(
        Decimal::spec_zero(),
    ) {
        Some("Position size must be positive"@)
    } else if unsigned_param(p, "max_levels"@) matches Some(n) && (n == 0 || n > 50) {
        Some("Max levels must be between 1 and 50"@)
    } else {
        None
    }
}

/// The state after an accepted parameter set has been applied.
pub open spec fn grid_with_parameters(v: GridView, p: Map<Seq<char>, ParamView>) -> GridView {
    GridView {
        parameters: p,
        grid_spacing: match decimal_param(p, "grid_spacing"@) {
            Some(s) => s,
            None => v.grid_spacing,
        },
        position_size: match decimal_param(p, "position_size"@) {
            Some(s) => s,
            None => v.position_size,
        },
        max_levels: match unsigned_param(p, "max_levels"@) {
            Some(n) => (n as usize) as nat,
            None => v.max_levels,
        },
        max_investment: match decimal_param(p, "max_investment"@) {
            Some(m) => m,
            None => v.max_investment,
        },
        ..v
    }
}

/// The state of a strategy that was just set up.
pub open spec fn grid_initial(name: Seq<char>, symbol: Seq<char>) -> GridView {
    GridView {
        name,
        symbol,
        enabled: true,
        parameters: Map::<Seq<char>, ParamView>::empty(),
        grid_levels: Seq::<GridLevel>::empty(),
        grid_spacing: Decimal::spec_whole(1),
        base_price: None,
        position_size: Decimal::spec_whole(100),
        max_levels: 10,
        total_investment: Decimal::spec_zero(),
        max_investment: Decimal::spec_whole(5000),
    }
}

impl GridStrategy {
    /// A strategy with 10 levels on each side, 1 percent apart, worth 100
    /// each, that spends up to 5000. It has no grid yet.
    pub fn new(name: String, symbol: String) -> (r: GridStrategy)
        ensures
            r@ == grid_initial(name@, symbol@),
    {
        GridStrategy {
            name,
            symbol,
            enabled: true,
            parameters: Parameters::new(),
            grid_levels: Vec::new(),
            grid_spacing: Decimal::from_u64(1),
            base_price: None,
            position_size: Decimal::from_u64(100),
            max_levels: 10,
            total_investment: Decimal::zero(),
            max_investment: Decimal::from_u64(5000),
        }
    }

    fn level_price(base: Decimal, spacing: Decimal, k: usize, is_buy: bool) -> (r: Option<Decimal>)
        ensures
            is_buy ==> r == buy_level_price(base, spacing, k as nat),
            !is_buy ==> r == sell_level_price(base, spacing, k as nat),
    {
        let step = match spacing.checked_mul(&Decimal::from_usize(k)) {
            Some(p) => p,
            None => { return None; },
        };
        let offset = match step.checked_div(&Decimal::from_u64(100)) {
            Some(o) => o,
            None => { return None; },
        };
        let one = Decimal::from_u64(1);
        let factor = if is_buy {
            one.checked_sub(&offset)
        } else {
            one.checked_add(&offset)
        };
        match factor {
            Some(f) => base.checked_mul(&f),
            None => None,
        }
    }

    fn initialize_grid(&mut self, base_price: Decimal) -> (r: bool)
        ensures
            r == grid_prices_defined(
                base_price,
                old(self)@.grid_spacing,
                old(self)@.max_levels,
            ),
            r ==> final(self)@ == (GridView {
                base_price: Some(base_price),
                grid_levels: grid_around(
                    base_price,
                    old(self)@.grid_spacing,
                    old(self)@.max_levels,
                ),
                ..old(self)@
            }),
            !r ==> final(self)@ == old(self)@,
    {
        let n = self.max_levels;
        let spacing = self.grid_spacing;
        let mut levels: Vec<GridLevel> = Vec::new();
        let mut k: usize = 0;
        while k < n
            invariant
                0 <= k <= n,
                *self == *old(self),
                n == self.max_levels,
                spacing == self.grid_spacing,
                levels@.len() == k,
                forall|j: nat|
                    1 <= j <= k ==> (#[trigger] buy_level_price(base_price, spacing, j)) is Some,
                forall|i: int|
                    0 <= i < k ==> levels@[i] == (GridLevel {
                        price: buy_level_price(base_price, spacing, (i + 1) as nat).unwrap(),
                        is_buy: true,
                        active: true,
                    }),
            decreases n - k,
        {
            k = k + 1;
            match Self::level_price(base_price, spacing, k, true) {
                Some(price) => {
                    levels.push(GridLevel { price, is_buy: true, active: true });
                },
                None => {
                    assert(buy_level_price(base_price, spacing, k as nat) is None);
                    return false;
                },
            }
        }
        let mut m: usize = 0;
        while m < n
            invariant
                0 <= m <= n,
                *self == *old(self),
                n == self.max_levels,
                spacing == self.grid_spacing,
                levels@.len() == n + m,
                forall|j: nat|
                    1 <= j <= n ==> (#[trigger] buy_level_price(base_price, spacing, j)) is Some,
                forall|j: nat|
                    1 <= j <= m ==> (#[trigger] sell_level_price(base_price, spacing, j)) is Some,
                forall|i: int|
                    0 <= i < n ==> levels@[i] == (GridLevel {
                        price: buy_level_price(base_price, spacing, (i + 1) as nat).unwrap(),
                        is_buy: true,
                        active: true,
                    }),
                forall|i: int|
                    n <= i < n + m ==> levels@[i] == (GridLevel {
                        price: sell_level_price(base_price, spacing, (i - n + 1) as nat).unwrap(),
                        is_buy: false,
                        active: true,
                    }),
            decreases n - m,
        {
            m = m + 1;
            match Self::level_price(base_price, spacing, m, false) {
                Some(price) => {
                    levels.push(GridLevel { price, is_buy: false, active: true });
                },
                None => {
                    assert(sell_level_price(base_price, spacing, m as nat) is None);
                    return false;
                },
            }
        }
        assert(levels@ =~= grid_around(base_price, spacing, n as nat));
        self.base_price = Some(base_price);
        self.grid_levels = levels;
        true
    }

    fn should_place_buy_order(&self, market_data: &MarketData) -> (r: Option<usize>)
        ensures
            match r {
                Some(i) => grid_buy_level(self@, market_data.price) == Some(i as nat) && i
                    < self@.grid_levels.len(),
                None => grid_buy_level(self@, market_data.price) is None,
            },
    {
        if self.total_investment.ge(&self.max_investment) {
            return None;
        }
        let mut best: Option<usize> = None;
        let mut i: usize = 0;
        while i < self.grid_levels.len()
            invariant
                0 <= i <= self.grid_levels@.len(),
                match best {
                    Some(b) => b < i && nearest_buy(
                        self.grid_levels@,
                        market_data.price,
                        i as nat,
                    ) == Some(b as nat),
                    None => nearest_buy(self.grid_levels@, market_data.price, i as nat) is None,
                },
            decreases self.grid_levels@.len() - i,
        {
            let level = self.grid_levels[i];
            if level.active && level.is_buy && level.price.gt(&market_data.price) {
                let nearer = match best {
                    Some(b) => level.price.lt(&self.grid_levels[b].price),
                    None => true,
                };
                if nearer {
                    best = Some(i);
                }
            }
            i = i + 1;
        }
        best
    }

    fn should_place_sell_order(&self, market_data: &MarketData) -> (r: Option<usize>)
        ensures
            match r {
                Some(i) => grid_sell_level(self@, market_data.price) == Some(i as nat) && i
                    < self@.grid_levels.len(),
                None => grid_sell_level(self@, market_data.price) is None,
            },
    {
        let mut best: Option<usize> = None;
        let mut i: usize = 0;
        while i < self.grid_levels.len()
            invariant
                0 <= i <= self.grid_levels@.len(),
                match best {
                    Some(b) => b < i && nearest_sell(
                        self.grid_levels@,
                        market_data.price,
                        i as nat,
                    ) == Some(b as nat),
                    None => nearest_sell(self.grid_levels@, market_data.price, i as nat) is None,
                },
            decreases self.grid_levels@.len() - i,
        {
            let level = self.grid_levels[i];
            if level.active && !level.is_buy && level.price.lt(&market_data.price) {
                let nearer = match best {
                    Some(b) => level.price.gt(&self.grid_levels[b].price),
                    None => true,
                };
                if nearer {
                    best = Some(i);
                }
            }
            i = i + 1;
        }
        best
    }

    fn calculate_confidence(&self, action: SignalAction, price: Decimal) -> (r: Option<Decimal>)
        ensures
            r == grid_confidence(self@, action, price),
            r matches Some(c) ==> Decimal::spec_zero().le_spec(c) && c.le_spec(
                Decimal::spec_whole(1),
            ),
    {
        let base = match self.base_price {
            Some(b) => b,
            None => { return Some(tenths(5)); },
        };
        let distance = match action {
            SignalAction::Buy => base.checked_sub(&price),
            SignalAction::Sell => price.checked_sub(&base),
            _ => { return Some(tenths(5)); },
        };
        let part = match distance {
            Some(d) => d.checked_div(&base),
            None => None,
        };
        let deviation = match part {
            Some(p) => p.checked_mul(&Decimal::from_u64(100)),
            None => None,
        };
        match deviation {
            Some(d) => {
                if d.gt(&Decimal::from_u64(5)) {
                    Some(tenths(9))
                } else if d.gt(&Decimal::from_u64(2)) {
                    Some(tenths(7))
                } else {
                    Some(tenths(5))
                }
            },
            None => None,
        }
    }

    fn order(&self, action: SignalAction, level: Decimal) -> (r: Option<StrategySignal>)
        ensures
            signal_view(r) == grid_order(self@, action, level),
            r matches Some(s) ==> s.quantity.is_positive_spec() && Decimal::spec_zero().le_spec(
                s.confidence,
            ) && s.confidence.le_spec(Decimal::spec_whole(1)),
    {
        let confidence = self.calculate_confidence(action, level);
        let quantity = self.position_size.checked_div(&level);
        match (confidence, quantity) {
            (Some(c), Some(q)) if q.is_positive() => {
                let mut metadata = Parameters::new();
                metadata.insert("grid_level", ParamValue::Text(level.to_text()));
                metadata.insert("position_size", ParamValue::Text(self.position_size.to_text()));
                metadata.insert(
                    "total_investment",
                    ParamValue::Text(self.total_investment.to_text()),
                );
                Some(
                    StrategySignal {
                        strategy_name: self.name.clone(),
                        symbol: self.symbol.clone(),
                        action,
                        quantity: q,
                        price: Some(level),
                        confidence: c,
                        metadata,
                    },
                )
            },
            _ => None,
        }
    }

    /// Lays the grid out around `price`: buy levels `1..=max_levels` at
    /// `price * (1 - grid_spacing * k / 100)`, then sell levels
    /// `1..=max_levels` at `price * (1 + grid_spacing * k / 100)`, all of
    /// them active. When a level's price cannot be represented, nothing
    /// changes and the result is `false`.
    pub fn initialize_with_price(&mut self, price: Decimal) -> (r: bool)
        ensures
            r == grid_prices_defined(price, old(self)@.grid_spacing, old(self)@.max_levels),
            r ==> final(self)@ == (GridView {
                base_price: Some(price),
                grid_levels: grid_around(price, old(self)@.grid_spacing, old(self)@.max_levels),
                ..old(self)@
            }),
            r ==> final(self)@.grid_levels.len() == 2 * old(self)@.max_levels,
            !r ==> final(self)@ == old(self)@,
    {
        self.initialize_grid(price)
    }

    /// Marks the order of the first active level on the given side whose
    /// price equals `price` as filled; a filled buy adds `position_size` to
    /// the total invested. Without such a level, or when the total cannot be
    /// represented, nothing changes and the result is `false`.
    pub fn mark_order_filled(&mut self, price: Decimal, is_buy: bool) -> (r: bool)
        ensures
            match grid_filled(old(self)@, price, is_buy) {
                Some(next) => r && final(self)@ == next,
                None => !r && final(self)@ == old(self)@,
            },
    {
        let mut i: usize = 0;
        while i < self.grid_levels.len()
            invariant
                0 <= i <= self.grid_levels@.len(),
                *self == *old(self),
                first_fill_from(self.grid_levels@, price, is_buy, 0) == first_fill_from(
                    self.grid_levels@,
                    price,
                    is_buy,
                    i as nat,
                ),
            decreases self.grid_levels@.len() - i,
        {
            let level = self.grid_levels[i];
            if level.active && level.is_buy == is_buy && level.price.equals(&price) {
                let total = if is_buy {
                    match self.total_investment.checked_add(&self.position_size) {
                        Some(t) => t,
                        None => { return false; },
                    }
                } else {
                    self.total_investment
                };
                self.grid_levels.set(i, GridLevel { active: false, ..level });
                self.total_investment = total;
                return true;
            }
            i = i + 1;
        }
        false
    }

    /// Removes the grid and forgets what was invested.
    pub fn reset_grid(&mut self)
        ensures
            final(self)@ == (GridView {
                base_price: None,
                grid_levels: Seq::<GridLevel>::empty(),
                total_investment: Decimal::spec_zero(),
                ..old(self)@
            }),
    {
        self.base_price = None;
        self.grid_levels = Vec::new();
        self.total_investment = Decimal::zero();
    }

    /// The levels whose orders are still to be filled, as pairs of price and
    /// side (`true` for a buy), in the order of the grid.
    pub fn get_active_orders(&self) -> (r: Vec<(Decimal, bool)>)
        ensures
            r@ == self@.grid_levels.filter(|l: GridLevel| l.active).map_values(
                |l: GridLevel| (l.price, l.is_buy),
            ),
    {
        let mut out: Vec<(Decimal, bool)> = Vec::new();
        let mut i: usize = 0;
        while i < self.grid_levels.len()
            invariant
                0 <= i <= self.grid_levels@.len(),
                out@ == self.grid_levels@.subrange(0, i as int).filter(
                    |l: GridLevel| l.active,
                ).map_values(|l: GridLevel| (l.price, l.is_buy)),
            decreases self.grid_levels@.len() - i,
        {
            let level = self.grid_levels[i];
            proof {
                let pred = |l: GridLevel| l.active;
                let prev = self.grid_levels@.subrange(0, i as int);
                let next = self.grid_levels@.subrange(0, i + 1);
                assert(next == prev.push(level));
                assert(next.drop_last() == prev);
                reveal(Seq::filter);
                assert(next.filter(pred) == if pred(level) {
                    prev.filter(pred).push(level)
                } else {
                    prev.filter(pred)
                });
            }
            if level.active {
                out.push((level.price, level.is_buy));
            }
            i = i + 1;
        }
        assert(self.grid_levels@.subrange(0, self.grid_levels@.len() as int) == self.grid_levels@);
        out
    }

    /// Why a parameter set is rejected, if it is.
    pub fn rejection(parameters: &Parameters) -> (r: Option<&'static str>)
        ensures
            match r {
                Some(text) => grid_rejection(parameters@) == Some(text@),
                None => grid_rejection(parameters@) is None,
            },
    {
        let zero = Decimal::zero();
        if let Some(s) = parameters.decimal("grid_spacing") {
            if s.le(&zero) || s.gt(&Decimal::from_u64(50)) {
                return Some("Grid spacing must be between 0 and 50");
            }
        }
        if let Some(s) = parameters.decimal("position_size") {
            if s.le(&zero) {
                return Some("Position size must be positive");
            }
        }
        if let Some(n) = parameters.unsigned("max_levels") {
            if n == 0 || n > 50 {
                return Some("Max levels must be between 1 and 50");
            }
        }
        None
    }
}

impl Strategy for GridStrategy {
    open spec fn name_spec(&self) -> Seq<char> {
        self@.name
    }

    open spec fn symbol_spec(&self) -> Seq<char> {
        self@.symbol
    }

    open spec fn enabled_spec(&self) -> bool {
        self@.enabled
    }

    open spec fn parameters_spec(&self) -> Map<Seq<char>, ParamView> {
        self@.parameters
    }

    open spec fn accepts(&self, parameters: Map<Seq<char>, ParamView>) -> bool {
        grid_rejection(parameters) is None
    }

    fn name(&self) -> (r: &str)
        ensures
            r@ == self@.name,
    {
        self.name.as_str()
    }

    fn symbol(&self) -> (r: &str)
        ensures
            r@ == self@.symbol,
    {
        self.symbol.as_str()
    }

    fn is_enabled(&self) -> (r: bool)
        ensures
            r == self@.enabled,
    {
        self.enabled
    }

    /// Proposes the order of the buy level above the price that is nearest
    /// to it, else that of the sell level below the price that is nearest
    /// to it. The time plays no part.
    fn analyze(&self, market_data: &MarketData, now: &Timestamp) -> (r: Option<StrategySignal>)
        ensures
            signal_view(r) == grid_analysis(self@, market_data.price),
    {
        if !self.enabled {
            return None;
        }
        if self.base_price.is_none() {
            return None;
        }
        if let Some(i) = self.should_place_buy_order(market_data) {
            return self.order(SignalAction::Buy, self.grid_levels[i].price);
        }
        if let Some(i) = self.should_place_sell_order(market_data) {
            return self.order(SignalAction::Sell, self.grid_levels[i].price);
        }
        None
    }

    fn update_parameters(&mut self, parameters: Parameters) -> (r: Result<(), Error>)
        ensures
            r is Ok ==> final(self)@ == grid_with_parameters(old(self)@, parameters@),
            r matches Err(e) ==> e matches Error::Strategy(text) && Some(text@) == grid_rejection(
                parameters@,
            ),
    {
        if let Some(text) = Self::rejection(&parameters) {
            return Err(Error::strategy(text));
        }
        if let Some(s) = parameters.decimal("grid_spacing") {
            self.grid_spacing = s;
        }
        if let Some(s) = parameters.decimal("position_size") {
            self.position_size = s;
        }
        if let Some(n) = parameters.unsigned("max_levels") {
            self.max_levels = n as usize;
        }
        if let Some(m) = parameters.decimal("max_investment") {
            self.max_investment = m;
        }
        self.parameters = parameters;
        Ok(())
    }

    fn get_parameters(&self) -> (r: Parameters)
        ensures
            r@ == self@.parameters,
    {
        self.parameters.clone()
    }

    fn validate_parameters(&self, parameters: &Parameters) -> (r: Result<(), Error>)
        ensures
            r matches Err(e) ==> e matches Error::Strategy(text) && Some(text@) == grid_rejection(
                parameters@,
            ),
    {
        match Self::rejection(parameters) {
            Some(text) => Err(Error::strategy(text)),
            None => Ok(()),
        }
    }
}

/// A grid laid out around `base` with spacing `spacing` and `n` levels on
/// each side has exactly `2 * n` levels, all of them active; the first `n`
/// are the buy levels and no other level buys. For `k` in `1..=n`, the
/// `k`-th one is the buy level at `base * (1 - spacing * k / 100)` and the
/// `(n + k)`-th one is the sell level at `base * (1 + spacing * k / 100)`.
pub proof fn law_grid_layout(base: Decimal, spacing: Decimal, n: nat, k: nat)
    requires
        1 <= k <= n,
    ensures
        grid_around(base, spacing, n).len() == 2 * n,
        forall|i: int|
            0 <= i < 2 * n ==> ((#[trigger] grid_around(base, spacing, n)[i]).is_buy <==> i < n),
        forall|i: int| 0 <= i < 2 * n ==> (#[trigger] grid_around(base, spacing, n)[i]).active,
        grid_around(base, spacing, n)[k - 1].is_buy,
        grid_around(base, spacing, n)[k - 1].active,
        grid_around(base, spacing, n)[k - 1].price == buy_level_price(base, spacing, k).unwrap(),
        !grid_around(base, spacing, n)[n + k - 1].is_buy,
        grid_around(base, spacing, n)[n + k - 1].active,
        grid_around(base, spacing, n)[n + k - 1].price == sell_level_price(
            base,
            spacing,
            k,
        ).unwrap(),
{
}

/// The buy level that is chosen among the first `upto` levels is due, and no
/// level among them that is due has a lower price; none is chosen only
/// when none is due.
pub proof fn law_buy_level_is_nearest(levels: Seq<GridLevel>, price: Decimal, upto: nat)
    requires
        upto <= levels.len(),
    ensures
        match nearest_buy(levels, price, upto) {
            Some(i) => i < upto && buy_candidate(levels[i as int], price) && forall|j: int|
                0 <= j < upto && buy_candidate(levels[j], price) ==> levels[i as int].price.le_spec(
                    #[trigger] levels[j].price,
                ),
            None => forall|j: int| 0 <= j < upto ==> !buy_candidate(#[trigger] levels[j], price),
        },
    decreases upto,
{
    if upto > 0 {
        let before = (upto - 1) as nat;
        law_buy_level_is_nearest(levels, price, before);
        let rest = nearest_buy(levels, price, before);
        let last = levels[upto - 1];
        match nearest_buy(levels, price, upto) {
            Some(i) => {
                assert forall|j: int|
                    0 <= j < upto && buy_candidate(levels[j], price) implies levels[i as int].price.le_spec(
                    #[trigger] levels[j].price,
                ) by {
                    if i == before && j < before {
                        let best = rest.unwrap();
                        law_le_is_transitive(
                            last.price,
                            levels[best as int].price,
                            levels[j].price,
                        );
                    }
                }
            },
            None => {},
        }
    }
}

/// The sell level that is chosen among the first `upto` levels is due, and
/// no level among them that is due has a higher price; none is chosen only
/// when none is due.
pub proof fn law_sell_level_is_nearest(levels: Seq<GridLevel>, price: Decimal, upto: nat)
    requires
        upto <= levels.len(),
    ensures
        match nearest_sell(levels, price, upto) {
            Some(i) => i < upto && sell_candidate(levels[i as int], price) && forall|j: int|
                0 <= j < upto && sell_candidate(levels[j], price) ==> (#[trigger] levels[j].price).le_spec(
                    levels[i as int].price,
                ),
            None => forall|j: int| 0 <= j < upto ==> !sell_candidate(#[trigger] levels[j], price),
        },
    decreases upto,
{
    if upto > 0 {
        let before = (upto - 1) as nat;
        law_sell_level_is_nearest(levels, price, before);
        let rest = nearest_sell(levels, price, before);
        let last = levels[upto - 1];
        match nearest_sell(levels, price, upto) {
            Some(i) => {
                assert forall|j: int|
                    0 <= j < upto && sell_candidate(levels[j], price) implies (
                #[trigger] levels[j].price).le_spec(levels[i as int].price) by {
                    if i == before && j < before {
                        let best = rest.unwrap();
                        law_le_is_transitive(
                            levels[j].price,
                            levels[best as int].price,
                            last.price,
                        );
                    }
                }
            },
            None => {},
        }
    }
}

/// A level that was filled is not proposed again: after a fill of level `i`
/// that level is neither a buy nor a sell candidate at any price.
pub proof fn law_filled_level_leaves(v: GridView, i: nat, total: Decimal, price: Decimal)
    requires
        i < v.grid_levels.len(),
    ensures
        !buy_candidate(grid_after_fill(v, i, total).grid_levels[i as int], price),
        !sell_candidate(grid_after_fill(v, i, total).grid_levels[i as int], price),
{
}

} // verus!
