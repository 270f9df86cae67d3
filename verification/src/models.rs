//! The data that flows through the engine: quotes, proposals, orders,
//! positions, account snapshots and status reports.

use crate::decimal::Decimal;
use crate::params::{ParamView, Parameters};
use crate::time::Timestamp;
use vstd::prelude::*;

verus! {

/// A market quote for one symbol.
#[derive(Debug)]
pub struct MarketData {
    pub symbol: String,
    pub price: Decimal,
    pub volume_24h: Decimal,
    pub change_24h: Decimal,
    pub high_24h: Decimal,
    pub low_24h: Decimal,
    pub timestamp: Timestamp,
}

/// An order as handed to the exchange.
#[derive(Debug)]
pub struct Order {
    pub id: String,
    pub symbol: String,
    pub side: OrderSide,
    pub order_type: OrderType,
    pub quantity: Decimal,
    pub price: Option<Decimal>,
    pub status: OrderStatus,
    pub created_at: Timestamp,
    pub updated_at: Option<Timestamp>,
    pub filled_quantity: Decimal,
    pub average_price: Option<Decimal>,
}

#[derive(Debug, Clone, Copy, PartialEq, Eq, Structural)]
pub enum OrderSide {
    Buy,
    Sell,
}

#[derive(Debug, Clone, Copy, PartialEq, Eq, Structural)]
pub enum OrderType {
    Market,
    Limit,
    Stop,
    StopLimit,
}

#[derive(Debug, Clone, Copy, PartialEq, Eq, Structural)]
pub enum OrderStatus {
    Pending,
    Open,
    PartiallyFilled,
    Filled,
    Cancelled,
    Rejected,
    Expired,
}

/// An open position.
#[derive(Debug)]
pub struct Position {
    pub symbol: String,
    pub side: PositionSide,
    pub size: Decimal,
    pub entry_price: Decimal,
    pub current_price: Decimal,
    pub unrealized_pnl: Decimal,
    pub realized_pnl: Decimal,
    pub margin: Decimal,
    pub timestamp: Timestamp,
}

#[derive(Debug, Clone, Copy, PartialEq, Eq, Structural)]
pub enum PositionSide {
    Long,
    Short,
}

/// The account as the exchange reported it at one moment.
#[derive(Debug)]
pub struct AccountInfo {
    pub balance: Decimal,
    pub available_balance: Decimal,
    pub total_pnl: Decimal,
    pub total_margin: Decimal,
    pub positions: Vec<Position>,
    pub open_orders: Vec<Order>,
}

/// An executed trade.
#[derive(Debug)]
pub struct Trade {
    pub id: String,
    pub symbol: String,
    pub side: OrderSide,
    pub quantity: Decimal,
    pub price: Decimal,
    pub fee: Decimal,
    pub timestamp: Timestamp,
}

/// What a strategy proposes for one cycle.
#[derive(Debug)]
pub struct StrategySignal {
    pub strategy_name: String,
    pub symbol: String,
    pub action: SignalAction,
    pub quantity: Decimal,
    pub price: Option<Decimal>,
    /// The strategy's certainty, between 0 and 1.
    pub confidence: Decimal,
    pub metadata: Parameters,
}

/// A proposal with its texts as characters and its diagnostics as a map.
pub struct SignalView {
    pub strategy_name: Seq<char>,
    pub symbol: Seq<char>,
    pub action: SignalAction,
    pub quantity: Decimal,
    pub price: Option<Decimal>,
    pub confidence: Decimal,
    pub metadata: Map<Seq<char>, ParamView>,
}

impl View for StrategySignal {
    type V = SignalView;

    open spec fn view(&self) -> SignalView {
        SignalView {
            strategy_name: self.strategy_name@,
            symbol: self.symbol@,
            action: self.action,
            quantity: self.quantity,
            price: self.price,
            confidence: self.confidence,
            metadata: self.metadata@,
        }
    }
}

/// The view of a proposal, if there is one.
pub open spec fn signal_view(signal: Option<StrategySignal>) -> Option<SignalView> {
    match signal {
        Some(s) => Some(s@),
        None => None,
    }
}

#[derive(Debug, Clone, Copy, PartialEq, Eq, Structural)]
pub enum SignalAction {
    Buy,
    Sell,
    Hold,
    Close,
}

/// Performance figures of the running engine.
#[derive(Debug)]
pub struct RiskMetrics {
    pub current_drawdown: Decimal,
    pub max_drawdown: Decimal,
    pub daily_pnl: Decimal,
    pub total_pnl: Decimal,
    pub win_rate: Decimal,
    pub profit_factor: Decimal,
    pub sharpe_ratio: Decimal,
    pub max_position_risk: Decimal,
}

/// A report on the running engine.
#[derive(Debug)]
pub struct BotStatus {
    pub is_running: bool,
    pub start_time: Timestamp,
    pub uptime_seconds: u64,
    pub total_trades: u64,
    pub successful_trades: u64,
    pub failed_trades: u64,
    pub current_positions: u32,
    pub risk_metrics: RiskMetrics,
}

} // verus!
