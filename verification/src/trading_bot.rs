//! The orchestrator's decisions: the risk evaluator, the execution gate, the
//! orders that proposals turn into, the trade statistics, the
//! lifecycle of the scheduling loop and the status report.
//!
//! The loop itself, which waits, fetches and submits, lives outside this
//! library. It hands what it fetched to the functions of this module and
//! carries out what they decide.

use crate::config::{Config, RiskManagementConfig};
use crate::decimal::{decimal_product, decimal_quotient, Decimal};
use crate::error::Error;
use crate::models::{
    signal_view, AccountInfo, BotStatus, MarketData, Order, OrderSide, OrderStatus, OrderType,
    Position, RiskMetrics, SignalAction, SignalView, StrategySignal,
};
use crate::strategies::base::Strategy;
use crate::strategies::registry::{
    instance_after_fill, instance_after_quote, instance_analysis, names_distinct, registry_from,
    InstanceView, StrategyInstance, StrategyRegistry,
};
use crate::time::Timestamp;
use vstd::prelude::*;

verus! {

/// The seconds between two ticks of the scheduling loop.
pub const TICK_INTERVAL_SECONDS: u64 = 5;

/// The seconds to wait after a cycle that was aborted.
pub const BACKOFF_SECONDS: u64 = 10;

/// The worth of a trade: `quantity * price`.
pub open spec fn notional(quantity: Decimal, price: Decimal) -> Option<Decimal> {
    decimal_product(quantity, price)
}

/// A position whose worth, `size * current_price`, can be represented and
/// does not exceed `limit`.
pub open spec fn position_within_limit(position: Position, limit: Decimal) -> bool {
    notional(position.size, position.current_price) matches Some(value) && value.le_spec(limit)
}

/// The account has not lost more than `max_daily_loss`, and no open
/// position is worth more than `max_position_size`.
pub open spec fn portfolio_within_limits(config: RiskManagementConfig, account: AccountInfo) -> bool {
    &&& !account.total_pnl.lt_spec(config.max_daily_loss.neg_spec())
    &&& forall|i: int|
        0 <= i < account.positions@.len() ==> position_within_limit(
            #[trigger] account.positions@[i],
            config.max_position_size,
        )
}

/// A proposal without a price, or one whose worth can be represented and
/// does not exceed `limit`.
pub open spec fn worth_within(signal: SignalView, limit: Decimal) -> bool {
    match signal.price {
        Some(price) => notional(signal.quantity, price) matches Some(value) && value.le_spec(
            limit,
        ),
        None => true,
    }
}

/// The execution gate: the proposal's worth is covered by the available
/// balance and within the largest position, and its confidence is at
/// least 0.5.
pub open spec fn gate_accepts(
    config: RiskManagementConfig,
    signal: SignalView,
    account: AccountInfo,
) -> bool {
    &&& worth_within(signal, account.available_balance)
    &&& worth_within(signal, config.max_position_size)
    &&& Decimal::spec_new(5, 1).le_spec(signal.confidence)
}

/// The risk evaluator.
#[derive(Debug, Clone, Copy)]
pub struct RiskManager {
    config: RiskManagementConfig,
}

impl RiskManager {
    /// The limits that the evaluator enforces.
    pub closed spec fn limits(&self) -> RiskManagementConfig {
        self.config
    }

    pub fn new(config: RiskManagementConfig) -> (r: RiskManager)
        ensures
            r.limits() == config,
    {
        RiskManager { config }
    }

    /// Whether the account is within the portfolio limits.
    pub fn check_risk_limits(&self, account_info: &AccountInfo) -> (r: bool)
        ensures
            r == portfolio_within_limits(self.limits(), *account_info),
    {
        if account_info.total_pnl.lt(&self.config.max_daily_loss.neg()) {
            return false;
        }
        let mut i: usize = 0;
        while i < account_info.positions.len()
            invariant
                0 <= i <= account_info.positions@.len(),
                forall|j: int|
                    0 <= j < i ==> position_within_limit(
                        #[trigger] account_info.positions@[j],
                        self.config.max_position_size,
                    ),
            decreases account_info.positions@.len() - i,
        {
            let position = &account_info.positions[i];
            let within = match position.size.checked_mul(&position.current_price) {
                Some(value) => value.le(&self.config.max_position_size),
                None => false,
            };
            if !within {
                return false;
            }
            i = i + 1;
        }
        true
    }

    /// Whether a proposal is within the limit on the worth of a position.
    pub fn check_signal_risk(&self, signal: &StrategySignal, account_info: &AccountInfo) -> (r: bool)
        ensures
            r == worth_within(signal@, self.limits().max_position_size),
    {
        worth_is_within(signal, &self.config.max_position_size)
    }

    /// The execution gate. A proposal is admitted only when its worth is covered
    /// by the available balance, when it is within the limit on the worth
    /// of a position, and when its confidence is at least 0.5.
    pub fn should_execute_signal(&self, signal: &StrategySignal, account_info: &AccountInfo) -> (r:
        bool)
        ensures
            r == gate_accepts(self.limits(), signal@, *account_info),
    {
        if !worth_is_within(signal, &account_info.available_balance) {
            return false;
        }
        if !self.check_signal_risk(signal, account_info) {
            return false;
        }
        signal.confidence.ge(&Decimal::new(5, 1))
    }

    /// One strategy's part of a cycle: the proposal that the strategy makes
    /// for the quote, if it is enabled and the proposal is admitted for execution.
    pub fn evaluate(
        &self,
        strategy: &StrategyInstance,
        market_data: &MarketData,
        account_info: &AccountInfo,
        now: &Timestamp,
    ) -> (r: Option<StrategySignal>)
        ensures
            signal_view(r) == accepted_proposal(
                self.limits(),
                strategy@,
                market_data.price,
                market_data.volume_24h,
                *account_info,
                *now,
            ),
    {
        if !strategy.is_enabled() {
            return None;
        }
        match strategy.analyze(market_data, now) {
            Some(signal) => {
                if self.should_execute_signal(&signal, account_info) {
                    Some(signal)
                } else {
                    None
                }
            },
            None => None,
        }
    }
}

/// The proposal of a strategy for a quote that is to be executed: the one
/// it makes, provided the strategy is enabled and it is admitted for execution.
pub open spec fn accepted_proposal(
    config: RiskManagementConfig,
    strategy: InstanceView,
    price: Decimal,
    volume: Decimal,
    account: AccountInfo,
    now: Timestamp,
) -> Option<SignalView> {
    if !strategy.enabled() {
        None
    } else {
        match instance_analysis(strategy, price, volume, now) {
            Some(signal) => if gate_accepts(config, signal, account) {
                Some(signal)
            } else {
                None
            },
            None => None,
        }
    }
}

fn worth_is_within(signal: &StrategySignal, limit: &Decimal) -> (r: bool)
    ensures
        r == worth_within(signal@, *limit),
{
    match signal.price {
        Some(price) => match signal.quantity.checked_mul(&price) {
            Some(value) => value.le(limit),
            None => false,
        },
        None => true,
    }
}

/// A proposal whose worth exceeds the available balance does not pass the
/// gate, whatever its confidence and whatever the limit on the worth of a
/// position.
pub proof fn law_gate_rejects_unaffordable(
    config: RiskManagementConfig,
    signal: SignalView,
    account: AccountInfo,
    price: Decimal,
    worth: Decimal,
)
    requires
        signal.price == Some(price),
        notional(signal.quantity, price) == Some(worth),
        account.available_balance.lt_spec(worth),
    ensures
        !gate_accepts(config, signal, account),
{
}

/// The counters and results that the engine keeps while it runs.
#[derive(Debug, Clone, Copy)]
pub struct TradeStats {
    /// The executions attempted.
    pub total_trades: u64,
    /// The executions that succeeded.
    pub successful_trades: u64,
    /// The executions that failed.
    pub failed_trades: u64,
    pub total_pnl: Decimal,
    pub daily_pnl: Decimal,
    /// The UTC day, counted from 1970-01-01, on which the daily result was
    /// last reset.
    pub last_reset_date: i64,
}

/// The statistics after an update from a snapshot with the result
/// `total_pnl`, observed on the UTC day `day`. The total result is the
/// snapshot's. When the day is later than the day of the last reset, the
/// daily result is reset to zero and the day is noted; else the daily
/// result is the snapshot's.
pub open spec fn stats_after_update(stats: TradeStats, total_pnl: Decimal, day: int) -> TradeStats {
    if day > stats.last_reset_date {
        TradeStats {
            total_pnl,
            daily_pnl: Decimal::spec_zero(),
            last_reset_date: day as i64,
            ..stats
        }
    } else {
        TradeStats { total_pnl, daily_pnl: total_pnl, ..stats }
    }
}

/// The statistics after an execution that succeeded.
pub open spec fn stats_after_success(stats: TradeStats) -> TradeStats {
    TradeStats {
        total_trades: (stats.total_trades + 1) as u64,
        successful_trades: (stats.successful_trades + 1) as u64,
        ..stats
    }
}

/// The statistics after an execution that failed.
pub open spec fn stats_after_failure(stats: TradeStats) -> TradeStats {
    TradeStats {
        total_trades: (stats.total_trades + 1) as u64,
        failed_trades: (stats.failed_trades + 1) as u64,
        ..stats
    }
}

impl TradeStats {
    /// Statistics without trades, whose daily result was last reset on the
    /// day of `now`.
    pub fn new(now: &Timestamp) -> (r: TradeStats)
        ensures
            r == (TradeStats {
                total_trades: 0,
                successful_trades: 0,
                failed_trades: 0,
                total_pnl: Decimal::spec_zero(),
                daily_pnl: Decimal::spec_zero(),
                last_reset_date: now.spec_utc_day() as i64,
            }),
    {
        TradeStats {
            total_trades: 0,
            successful_trades: 0,
            failed_trades: 0,
            total_pnl: Decimal::zero(),
            daily_pnl: Decimal::zero(),
            last_reset_date: now.utc_day(),
        }
    }

    /// Takes the results of an account snapshot observed at the time `now`.
    pub fn update_trade_stats(&mut self, account_info: &AccountInfo, now: &Timestamp)
        ensures
            *final(self) == stats_after_update(
                *old(self),
                account_info.total_pnl,
                now.spec_utc_day(),
            ),
    {
        let today = now.utc_day();
        self.total_pnl = account_info.total_pnl;
        if today > self.last_reset_date {
            self.daily_pnl = Decimal::zero();
            self.last_reset_date = today;
        } else {
            self.daily_pnl = account_info.total_pnl;
        }
    }

    /// Counts an execution that succeeded.
    pub fn record_success(&mut self)
        requires
            old(self).total_trades < u64::MAX,
            old(self).successful_trades < u64::MAX,
        ensures
            *final(self) == stats_after_success(*old(self)),
            final(self).total_trades == old(self).total_trades + 1,
            final(self).successful_trades == old(self).successful_trades + 1,
            final(self).failed_trades == old(self).failed_trades,
    {
        self.total_trades = self.total_trades + 1;
        self.successful_trades = self.successful_trades + 1;
    }

    /// Counts an execution that failed.
    pub fn record_failure(&mut self)
        requires
            old(self).total_trades < u64::MAX,
            old(self).failed_trades < u64::MAX,
        ensures
            *final(self) == stats_after_failure(*old(self)),
            final(self).total_trades == old(self).total_trades + 1,
            final(self).failed_trades == old(self).failed_trades + 1,
            final(self).successful_trades == old(self).successful_trades,
    {
        self.total_trades = self.total_trades + 1;
        self.failed_trades = self.failed_trades + 1;
    }

    /// Counts the outcome of an order that was submitted, and hands the
    /// error of a failed one on.
    pub fn record_placement(&mut self, placed: Result<String, Error>) -> (r: Result<(), Error>)
        requires
            old(self).total_trades < u64::MAX,
            old(self).successful_trades < u64::MAX,
            old(self).failed_trades < u64::MAX,
        ensures
            match placed {
                Ok(_) => r is Ok && *final(self) == stats_after_success(*old(self)),
                Err(e) => r == Err::<(), Error>(e) && *final(self) == stats_after_failure(
                    *old(self),
                ),
            },
    {
        match placed {
            Ok(_) => {
                self.record_success();
                Ok(())
            },
            Err(e) => {
                self.record_failure();
                Err(e)
            },
        }
    }
}

/// The daily result is reset exactly once when the day advances between
/// two updates in a row, however many updates come on the new day: the
/// first update observed on a later day resets it and notes the day, and a
/// further update observed on that same day does not reset it again.
pub proof fn law_daily_reset_once(
    stats: TradeStats,
    first_pnl: Decimal,
    later_pnl: Decimal,
    day: int,
)
    requires
        day > stats.last_reset_date,
        day <= i64::MAX,
    ensures
        stats_after_update(stats, first_pnl, day).daily_pnl == Decimal::spec_zero(),
        stats_after_update(stats, first_pnl, day).last_reset_date == day,
        stats_after_update(stats_after_update(stats, first_pnl, day), later_pnl, day).daily_pnl
            == later_pnl,
        stats_after_update(
            stats_after_update(stats, first_pnl, day),
            later_pnl,
            day,
        ).last_reset_date == day,
{
}

/// Updates observed on the day of the last reset, or before it, never reset
/// the daily result.
pub proof fn law_no_reset_within_day(stats: TradeStats, pnl: Decimal, day: int)
    requires
        day <= stats.last_reset_date,
    ensures
        stats_after_update(stats, pnl, day).daily_pnl == pnl,
        stats_after_update(stats, pnl, day).last_reset_date == stats.last_reset_date,
{
}

/// What is to be done with an admitted proposal.
#[derive(Debug)]
pub enum ExecutionPlan {
    /// A dry run: nothing is submitted and the execution counts as a
    /// success.
    DryRun,
    /// The proposal is neither a buy nor a sell: it is dropped without
    /// effect.
    Dropped,
    /// The order to submit to the exchange.
    Submit(Order),
}

/// The side of the order for an action, if the action is a buy or a sell.
pub open spec fn order_side(action: SignalAction) -> Option<OrderSide> {
    match action {
        SignalAction::Buy => Some(OrderSide::Buy),
        SignalAction::Sell => Some(OrderSide::Sell),
        _ => None,
    }
}

/// The kind of order for a proposal: with a price a limit order, without
/// one a market order.
pub open spec fn order_kind(price: Option<Decimal>) -> OrderType {
    if price is Some {
        OrderType::Limit
    } else {
        OrderType::Market
    }
}

/// `order` is the pending order for `signal` on the given side, with the
/// identifier `id`, made at the time `now`.
pub open spec fn is_order_for(
    order: Order,
    signal: SignalView,
    side: OrderSide,
    id: Seq<char>,
    now: Timestamp,
) -> bool {
    &&& order.id@ == id
    &&& order.symbol@ == signal.symbol
    &&& order.side == side
    &&& order.order_type == order_kind(signal.price)
    &&& order.quantity == signal.quantity
    &&& order.price == signal.price
    &&& order.status == OrderStatus::Pending
    &&& order.created_at == now
    &&& order.updated_at is None
    &&& order.filled_quantity == Decimal::spec_zero()
    &&& order.average_price is None
}

/// `plan` is what is to be done with `signal`: in a dry run nothing, else
/// an order for a buy or a sell, and nothing for any other action.
pub open spec fn is_plan_for(
    plan: ExecutionPlan,
    signal: SignalView,
    dry_run: bool,
    id: Seq<char>,
    now: Timestamp,
) -> bool {
    if dry_run {
        plan is DryRun
    } else {
        match order_side(signal.action) {
            None => plan is Dropped,
            Some(side) => plan matches ExecutionPlan::Submit(order) && is_order_for(
                order,
                signal,
                side,
                id,
                now,
            ),
        }
    }
}

/// Turns an admitted proposal into what is to be done. An
/// order gets the identifier `order_id` and the time `now`.
pub fn plan_execution(signal: &StrategySignal, dry_run: bool, order_id: String, now: Timestamp) -> (r:
    ExecutionPlan)
    ensures
        is_plan_for(r, signal@, dry_run, order_id@, now),
{
    if dry_run {
        return ExecutionPlan::DryRun;
    }
    let side = match signal.action {
        SignalAction::Buy => OrderSide::Buy,
        SignalAction::Sell => OrderSide::Sell,
        _ => { return ExecutionPlan::Dropped; },
    };
    let order_type = if signal.price.is_some() {
        OrderType::Limit
    } else {
        OrderType::Market
    };
    ExecutionPlan::Submit(
        Order {
            id: order_id,
            symbol: signal.symbol.clone(),
            side,
            order_type,
            quantity: signal.quantity,
            price: signal.price,
            status: OrderStatus::Pending,
            created_at: now,
            updated_at: None,
            filled_quantity: Decimal::zero(),
            average_price: None,
        },
    )
}

/// Executes an admitted proposal as far as that is possible
/// without the exchange: a dry run is counted as a success at once, a
/// proposal that is neither a buy nor a sell is dropped, and an order is
/// handed back for submission, its outcome to be counted with
/// [`TradeStats::record_placement`].
pub fn execute_signal(
    stats: &mut TradeStats,
    signal: &StrategySignal,
    dry_run: bool,
    order_id: String,
    now: Timestamp,
) -> (r: ExecutionPlan)
    requires
        old(stats).total_trades < u64::MAX,
        old(stats).successful_trades < u64::MAX,
    ensures
        is_plan_for(r, signal@, dry_run, order_id@, now),
        dry_run ==> *final(stats) == stats_after_success(*old(stats)),
        !dry_run ==> *final(stats) == *old(stats),
{
    let plan = plan_execution(signal, dry_run, order_id, now);
    if dry_run {
        stats.record_success();
    }
    plan
}

/// How a cycle goes on once the account snapshot was asked for.
#[derive(Debug, Clone, Copy, PartialEq, Eq, Structural)]
pub enum CycleDecision {
    /// No snapshot came: the cycle is over, and the loop waits
    /// [`BACKOFF_SECONDS`] before it goes on.
    Abort,
    /// The portfolio is outside its limits: no strategy is evaluated.
    Skip,
    /// The strategies are evaluated in the order of the registry.
    Evaluate,
}

/// The first steps of a cycle: without a snapshot the cycle is aborted;
/// with a portfolio outside its limits it is skipped; else the statistics
/// take the snapshot's results and the strategies are to be evaluated.
pub fn begin_cycle(
    risk: &RiskManager,
    stats: &mut TradeStats,
    snapshot: &Result<AccountInfo, Error>,
    now: &Timestamp,
) -> (r: CycleDecision)
    ensures
        match *snapshot {
            Err(_) => r == CycleDecision::Abort && *final(stats) == *old(stats),
            Ok(account) => if portfolio_within_limits(risk.limits(), account) {
                r == CycleDecision::Evaluate && *final(stats) == stats_after_update(
                    *old(stats),
                    account.total_pnl,
                    now.spec_utc_day(),
                )
            } else {
                r == CycleDecision::Skip && *final(stats) == *old(stats)
            },
        },
{
    match snapshot {
        Err(_) => CycleDecision::Abort,
        Ok(account) => {
            if !risk.check_risk_limits(account) {
                CycleDecision::Skip
            } else {
                stats.update_trade_stats(account, now);
                CycleDecision::Evaluate
            }
        },
    }
}

/// How a cycle goes on once the quote for a strategy was asked for: without
/// a quote the cycle is aborted, with one it goes on.
pub fn after_quote(fetched: &Result<MarketData, Error>) -> (r: CycleDecision)
    ensures
        r == if *fetched is Ok {
            CycleDecision::Evaluate
        } else {
            CycleDecision::Abort
        },
{
    match fetched {
        Ok(_) => CycleDecision::Evaluate,
        Err(_) => CycleDecision::Abort,
    }
}

/// The seconds to wait after a cycle, before the next tick is awaited.
pub fn wait_after(decision: CycleDecision) -> (r: u64)
    ensures
        r == if decision == CycleDecision::Abort {
            BACKOFF_SECONDS
        } else {
            0
        },
{
    match decision {
        CycleDecision::Abort => BACKOFF_SECONDS,
        _ => 0,
    }
}

/// Where the scheduling loop stands.
#[derive(Debug, Clone, Copy, PartialEq, Eq, Structural)]
pub enum BotState {
    Stopped,
    Running,
    Stopping,
}

/// What the loop has to do with the market data feed.
#[derive(Debug, Clone, Copy, PartialEq, Eq, Structural)]
pub enum FeedAction {
    /// Nothing.
    Keep,
    /// Open the connection.
    Open,
    /// Close the connection.
    Close,
}

/// The lifecycle of the scheduling loop: its state, and whether the
/// connection to the market data feed is held.
#[derive(Debug, Clone, Copy, PartialEq, Eq, Structural)]
pub struct Lifecycle {
    pub state: BotState,
    pub feed_connected: bool,
}

/// The lifecycle after a start: the loop is running.
pub open spec fn lifecycle_after_start(l: Lifecycle) -> Lifecycle {
    Lifecycle { state: BotState::Running, ..l }
}

/// The lifecycle after a request to stop: a running loop is stopping, and
/// the connection to the feed is no longer held.
pub open spec fn lifecycle_after_stop(l: Lifecycle) -> Lifecycle {
    Lifecycle {
        state: if l.state == BotState::Running {
            BotState::Stopping
        } else {
            l.state
        },
        feed_connected: false,
    }
}

/// What a request to stop asks for: to close the feed when the connection
/// is held.
pub open spec fn stop_action(l: Lifecycle) -> FeedAction {
    if l.feed_connected {
        FeedAction::Close
    } else {
        FeedAction::Keep
    }
}

impl Lifecycle {
    /// A loop that has not started.
    pub fn new() -> (r: Lifecycle)
        ensures
            r == (Lifecycle { state: BotState::Stopped, feed_connected: false }),
    {
        Lifecycle { state: BotState::Stopped, feed_connected: false }
    }

    /// Whether the loop is running, and so goes into another tick.
    pub fn is_running(&self) -> (r: bool)
        ensures
            r == (self.state == BotState::Running),
    {
        self.state == BotState::Running
    }

    /// Starts the loop: it runs from now on, and the feed is to be opened
    /// unless the connection is held already.
    pub fn start(&mut self) -> (r: FeedAction)
        ensures
            *final(self) == lifecycle_after_start(*old(self)),
            r == if old(self).feed_connected {
                FeedAction::Keep
            } else {
                FeedAction::Open
            },
    {
        self.state = BotState::Running;
        if self.feed_connected {
            FeedAction::Keep
        } else {
            FeedAction::Open
        }
    }

    /// Notes whether opening the feed succeeded. A failure stops the loop
    /// before its first tick.
    pub fn feed_opened(&mut self, connected: bool)
        ensures
            final(self).feed_connected == connected,
            final(self).state == if connected {
                old(self).state
            } else {
                BotState::Stopped
            },
    {
        self.feed_connected = connected;
        if !connected {
            self.state = BotState::Stopped;
        }
    }

    /// Asks the loop to stop. A running loop is stopping from now on and
    /// ends after its current tick; the feed is to be closed when the
    /// connection is held. Asking again, or asking a loop that is not
    /// running, changes nothing more.
    pub fn stop(&mut self) -> (r: FeedAction)
        ensures
            *final(self) == lifecycle_after_stop(*old(self)),
            r == stop_action(*old(self)),
    {
        if self.state == BotState::Running {
            self.state = BotState::Stopping;
        }
        if self.feed_connected {
            self.feed_connected = false;
            FeedAction::Close
        } else {
            FeedAction::Keep
        }
    }

    /// Notes that the loop has ended.
    pub fn stopped(&mut self)
        ensures
            final(self).state == BotState::Stopped,
            final(self).feed_connected == old(self).feed_connected,
    {
        self.state = BotState::Stopped;
    }
}

/// Stopping is idempotent and safe in every state: after a request to stop
/// the loop is not running, a second request changes nothing and asks
/// for nothing, and a request never asks to close a feed that is not held.
pub proof fn law_stop_is_idempotent(l: Lifecycle)
    ensures
        lifecycle_after_stop(l).state != BotState::Running,
        lifecycle_after_stop(lifecycle_after_stop(l)) == lifecycle_after_stop(l),
        stop_action(lifecycle_after_stop(l)) == FeedAction::Keep,
        !l.feed_connected ==> stop_action(l) == FeedAction::Keep,
{
}

/// The share of executions that succeeded: `successful / total`, and 0
/// without executions.
pub open spec fn win_rate(stats: TradeStats) -> Decimal {
    if stats.total_trades > 0 {
        match decimal_quotient(
            Decimal::spec_whole(stats.successful_trades as int),
            Decimal::spec_whole(stats.total_trades as int),
        ) {
            Some(rate) => rate,
            None => Decimal::spec_zero(),
        }
    } else {
        Decimal::spec_zero()
    }
}

/// The whole seconds from `start` to `now`, 0 when `now` is earlier, and
/// at most `u64::MAX`.
pub open spec fn uptime_seconds(start: Timestamp, now: Timestamp) -> u64 {
    let seconds = start.spec_seconds_until(now);
    if seconds < 0 {
        0
    } else if seconds > u64::MAX {
        u64::MAX
    } else {
        seconds as u64
    }
}

/// The status report at the time `now`. The drawdowns, the Sharpe ratio
/// and the largest position risk are reported as 0, the profit factor as
/// 1 and the number of positions as 0.
pub fn get_status(is_running: bool, start_time: Timestamp, now: &Timestamp, stats: &TradeStats) -> (r:
    BotStatus)
    ensures
        r.is_running == is_running,
        r.start_time == start_time,
        r.uptime_seconds == uptime_seconds(start_time, *now),
        r.total_trades == stats.total_trades,
        r.successful_trades == stats.successful_trades,
        r.failed_trades == stats.failed_trades,
        r.current_positions == 0,
        r.risk_metrics.current_drawdown == Decimal::spec_zero(),
        r.risk_metrics.max_drawdown == Decimal::spec_zero(),
        r.risk_metrics.daily_pnl == stats.daily_pnl,
        r.risk_metrics.total_pnl == stats.total_pnl,
        r.risk_metrics.win_rate == win_rate(*stats),
        r.risk_metrics.profit_factor == Decimal::spec_whole(1),
        r.risk_metrics.sharpe_ratio == Decimal::spec_zero(),
        r.risk_metrics.max_position_risk == Decimal::spec_zero(),
{
    let seconds: i128 = start_time.seconds_until(now);
    let uptime: u64 = if seconds < 0 {
        0
    } else if seconds > u64::MAX as i128 {
        u64::MAX
    } else {
        seconds as u64
    };
    let rate = if stats.total_trades > 0 {
        match Decimal::from_u64(stats.successful_trades).checked_div(
            &Decimal::from_u64(stats.total_trades),
        ) {
            Some(x) => x,
            None => Decimal::zero(),
        }
    } else {
        Decimal::zero()
    };
    BotStatus {
        is_running,
        start_time,
        uptime_seconds: uptime,
        total_trades: stats.total_trades,
        successful_trades: stats.successful_trades,
        failed_trades: stats.failed_trades,
        current_positions: 0,
        risk_metrics: RiskMetrics {
            current_drawdown: Decimal::zero(),
            max_drawdown: Decimal::zero(),
            daily_pnl: stats.daily_pnl,
            total_pnl: stats.total_pnl,
            win_rate: rate,
            profit_factor: Decimal::from_u64(1),
            sharpe_ratio: Decimal::zero(),
            max_position_risk: Decimal::zero(),
        },
    }
}

/// The engine: the registered strategies, the risk evaluator, the
/// statistics and the lifecycle of the scheduling loop.
#[derive(Debug)]
pub struct TradingBot {
    strategies: StrategyRegistry,
    risk_manager: RiskManager,
    lifecycle: Lifecycle,
    start_time: Timestamp,
    trade_stats: TradeStats,
    dry_run: bool,
}

/// The state of a [`TradingBot`].
pub struct BotView {
    /// The registered strategies, in the order of the registry.
    pub strategies: Seq<InstanceView>,
    /// The limits that the risk evaluator enforces.
    pub limits: RiskManagementConfig,
    pub lifecycle: Lifecycle,
    pub start_time: Timestamp,
    pub stats: TradeStats,
    /// Whether orders are only counted, not placed.
    pub dry_run: bool,
}

impl View for TradingBot {
    type V = BotView;

    closed spec fn view(&self) -> BotView {
        BotView {
            strategies: self.strategies@,
            limits: self.risk_manager.limits(),
            lifecycle: self.lifecycle,
            start_time: self.start_time,
            stats: self.trade_stats,
            dry_run: self.dry_run,
        }
    }
}

/// The strategies after the one at a position was told that its proposal
/// was executed at the time `at`.
pub open spec fn strategies_after_fill(
    strategies: Seq<InstanceView>,
    index: usize,
    signal: SignalView,
    at: Timestamp,
) -> Seq<InstanceView> {
    match instance_after_fill(strategies[index as int], signal, at) {
        Some(next) => strategies.update(index as int, next),
        None => strategies,
    }
}

/// The statistics can count one more execution.
pub open spec fn can_count(stats: TradeStats) -> bool {
    stats.total_trades < u64::MAX && stats.successful_trades < u64::MAX && stats.failed_trades
        < u64::MAX
}

impl TradingBot {
    /// Sets the engine up from its settings at the time `now`: the
    /// strategies that the settings describe are registered in their order,
    /// nothing has been traded, and the loop has not started. A rejected
    /// parameter set gives its error.
    pub fn new(config: &Config, now: Timestamp) -> (r: Result<TradingBot, Error>)
        ensures
            match registry_from(config.strategies@, config.strategies@.len()) {
                Ok(strategies) => r matches Ok(bot) && bot@ == (BotView {
                    strategies,
                    limits: config.risk_management,
                    lifecycle: Lifecycle { state: BotState::Stopped, feed_connected: false },
                    start_time: now,
                    stats: TradeStats {
                        total_trades: 0,
                        successful_trades: 0,
                        failed_trades: 0,
                        total_pnl: Decimal::spec_zero(),
                        daily_pnl: Decimal::spec_zero(),
                        last_reset_date: now.spec_utc_day() as i64,
                    },
                    dry_run: config.trading.dry_run,
                }) && names_distinct(bot@.strategies),
                Err(text) => r matches Err(Error::Strategy(t)) && t@ == text,
            },
    {
        let strategies = match StrategyRegistry::from_config(&config.strategies) {
            Ok(registry) => registry,
            Err(e) => { return Err(e); },
        };
        Ok(
            TradingBot {
                strategies,
                risk_manager: RiskManager::new(config.risk_management),
                lifecycle: Lifecycle::new(),
                start_time: now,
                trade_stats: TradeStats::new(&now),
                dry_run: config.trading.dry_run,
            },
        )
    }

    /// Starts the scheduling loop; see [`Lifecycle::start`].
    pub fn start(&mut self) -> (r: FeedAction)
        ensures
            final(self)@ == (BotView {
                lifecycle: lifecycle_after_start(old(self)@.lifecycle),
                ..old(self)@
            }),
            r == if old(self)@.lifecycle.feed_connected {
                FeedAction::Keep
            } else {
                FeedAction::Open
            },
    {
        self.lifecycle.start()
    }

    /// Notes whether opening the feed succeeded; see
    /// [`Lifecycle::feed_opened`].
    pub fn feed_opened(&mut self, connected: bool)
        ensures
            final(self)@ == (BotView {
                lifecycle: Lifecycle {
                    feed_connected: connected,
                    state: if connected {
                        old(self)@.lifecycle.state
                    } else {
                        BotState::Stopped
                    },
                },
                ..old(self)@
            }),
    {
        self.lifecycle.feed_opened(connected);
    }

    /// Asks the scheduling loop to stop; see [`Lifecycle::stop`].
    pub fn stop(&mut self) -> (r: FeedAction)
        ensures
            final(self)@ == (BotView {
                lifecycle: lifecycle_after_stop(old(self)@.lifecycle),
                ..old(self)@
            }),
            r == stop_action(old(self)@.lifecycle),
    {
        self.lifecycle.stop()
    }

    /// Notes that the scheduling loop has ended.
    pub fn stopped(&mut self)
        ensures
            final(self)@ == (BotView {
                lifecycle: Lifecycle { state: BotState::Stopped, ..old(self)@.lifecycle },
                ..old(self)@
            }),
    {
        self.lifecycle.stopped();
    }

    /// Whether the loop goes into another tick.
    pub fn is_running(&self) -> (r: bool)
        ensures
            r == (self@.lifecycle.state == BotState::Running),
    {
        self.lifecycle.is_running()
    }

    /// The number of registered strategies.
    pub fn strategy_count(&self) -> (r: usize)
        ensures
            r == self@.strategies.len(),
    {
        self.strategies.len()
    }

    /// The strategy at a position of the registry.
    pub fn strategy(&self, index: usize) -> (r: &StrategyInstance)
        requires
            index < self@.strategies.len(),
        ensures
            r@ == self@.strategies[index as int],
    {
        self.strategies.get(index)
    }

    /// The statistics.
    pub fn trade_stats(&self) -> (r: TradeStats)
        ensures
            r == self@.stats,
    {
        self.trade_stats
    }

    /// Whether the statistics can count one more execution.
    pub fn can_count(&self) -> (r: bool)
        ensures
            r == can_count(self@.stats),
    {
        self.trade_stats.total_trades < u64::MAX && self.trade_stats.successful_trades < u64::MAX
            && self.trade_stats.failed_trades < u64::MAX
    }

    /// The first steps of a cycle; see [`begin_cycle`].
    pub fn trading_cycle(&mut self, snapshot: &Result<AccountInfo, Error>, now: &Timestamp) -> (r:
        CycleDecision)
        ensures
            match *snapshot {
                Err(_) => r == CycleDecision::Abort && final(self)@ == old(self)@,
                Ok(account) => if portfolio_within_limits(old(self)@.limits, account) {
                    r == CycleDecision::Evaluate && final(self)@ == (BotView {
                        stats: stats_after_update(
                            old(self)@.stats,
                            account.total_pnl,
                            now.spec_utc_day(),
                        ),
                        ..old(self)@
                    })
                } else {
                    r == CycleDecision::Skip && final(self)@ == old(self)@
                },
            },
    {
        begin_cycle(&self.risk_manager, &mut self.trade_stats, snapshot, now)
    }

    /// The proposal of the strategy at a position for a quote, if the
    /// strategy is enabled and the proposal is admitted for execution.
    pub fn evaluate_strategy(
        &self,
        index: usize,
        market_data: &MarketData,
        account_info: &AccountInfo,
        now: &Timestamp,
    ) -> (r: Option<StrategySignal>)
        requires
            index < self@.strategies.len(),
        ensures
            signal_view(r) == accepted_proposal(
                self@.limits,
                self@.strategies[index as int],
                market_data.price,
                market_data.volume_24h,
                *account_info,
                *now,
            ),
    {
        self.risk_manager.evaluate(self.strategies.get(index), market_data, account_info, now)
    }

    /// Commits the quote of a cycle, evaluated at the time `now`, to the
    /// strategy at a position.
    pub fn commit_quote(&mut self, index: usize, market_data: &MarketData, now: &Timestamp)
        requires
            index < old(self)@.strategies.len(),
        ensures
            final(self)@ == (BotView {
                strategies: old(self)@.strategies.update(
                    index as int,
                    instance_after_quote(
                        old(self)@.strategies[index as int],
                        market_data.price,
                        market_data.volume_24h,
                        *now,
                    ),
                ),
                ..old(self)@
            }),
    {
        self.strategies.commit_quote(index, market_data, now);
    }

    /// Whether a proposal is admitted for execution; see
    /// [`RiskManager::should_execute_signal`].
    pub fn should_execute_signal(&self, signal: &StrategySignal, account_info: &AccountInfo) -> (r:
        bool)
        ensures
            r == gate_accepts(self@.limits, signal@, *account_info),
    {
        self.risk_manager.should_execute_signal(signal, account_info)
    }

    /// Executes an admitted proposal of the strategy at a position as far
    /// as that is possible without the exchange. In a dry run the
    /// execution counts as a success at once and the strategy is told
    /// that its proposal was executed; a proposal that is neither a buy
    /// nor a sell is dropped; else the order is handed back for
    /// submission, its outcome to be counted with
    /// [`TradingBot::record_placement`].
    pub fn execute_signal(
        &mut self,
        index: usize,
        signal: &StrategySignal,
        order_id: String,
        now: Timestamp,
    ) -> (r: ExecutionPlan)
        requires
            index < old(self)@.strategies.len(),
            can_count(old(self)@.stats),
        ensures
            is_plan_for(r, signal@, old(self)@.dry_run, order_id@, now),
            final(self)@ == if old(self)@.dry_run {
                BotView {
                    stats: stats_after_success(old(self)@.stats),
                    strategies: strategies_after_fill(old(self)@.strategies, index, signal@, now),
                    ..old(self)@
                }
            } else {
                old(self)@
            },
    {
        let plan = execute_signal(&mut self.trade_stats, signal, self.dry_run, order_id, now);
        if self.dry_run {
            self.strategies.record_fill(index, signal, now);
        }
        plan
    }

    /// Counts the outcome of an order that was submitted for the strategy
    /// at a position, and hands the error of a failed one on. After a
    /// success the strategy is told that its proposal was executed.
    pub fn record_placement(
        &mut self,
        index: usize,
        signal: &StrategySignal,
        placed: Result<String, Error>,
        now: Timestamp,
    ) -> (r: Result<(), Error>)
        requires
            index < old(self)@.strategies.len(),
            can_count(old(self)@.stats),
        ensures
            match placed {
                Ok(_) => r is Ok && final(self)@ == (BotView {
                    stats: stats_after_success(old(self)@.stats),
                    strategies: strategies_after_fill(old(self)@.strategies, index, signal@, now),
                    ..old(self)@
                }),
                Err(e) => r == Err::<(), Error>(e) && final(self)@ == (BotView {
                    stats: stats_after_failure(old(self)@.stats),
                    ..old(self)@
                }),
            },
    {
        let filled = placed.is_ok();
        let r = self.trade_stats.record_placement(placed);
        if filled {
            self.strategies.record_fill(index, signal, now);
        }
        r
    }

    /// The status report at the time `now`; see [`get_status`].
    pub fn get_status(&self, now: &Timestamp) -> (r: BotStatus)
        ensures
            r.is_running == (self@.lifecycle.state == BotState::Running),
            r.start_time == self@.start_time,
            r.uptime_seconds == uptime_seconds(self@.start_time, *now),
            r.total_trades == self@.stats.total_trades,
            r.successful_trades == self@.stats.successful_trades,
            r.failed_trades == self@.stats.failed_trades,
            r.current_positions == 0,
            r.risk_metrics.current_drawdown == Decimal::spec_zero(),
            r.risk_metrics.max_drawdown == Decimal::spec_zero(),
            r.risk_metrics.daily_pnl == self@.stats.daily_pnl,
            r.risk_metrics.total_pnl == self@.stats.total_pnl,
            r.risk_metrics.win_rate == win_rate(self@.stats),
            r.risk_metrics.profit_factor == Decimal::spec_whole(1),
            r.risk_metrics.sharpe_ratio == Decimal::spec_zero(),
            r.risk_metrics.max_position_risk == Decimal::spec_zero(),
    {
        get_status(self.lifecycle.is_running(), self.start_time, now, &self.trade_stats)
    }
}

} // verus!
