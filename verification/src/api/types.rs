//! The shapes of the messages that the exchange and the engine exchange.

use crate::decimal::Decimal;
use vstd::prelude::*;

verus! {

/// The envelope of every answer of the exchange.
#[derive(Debug)]
pub struct HyperliquidResponse<T> {
    pub success: bool,
    pub data: Option<T>,
    pub error: Option<String>,
}

#[derive(Debug)]
pub struct MarketInfo {
    pub name: String,
    pub only_isolated: bool,
    pub sz_decimals: u32,
    pub wei_decimals: u32,
    pub is_inverse: bool,
    pub min_order_size: Decimal,
    pub max_leverage: Decimal,
}

#[derive(Debug)]
pub struct AssetInfo {
    pub name: String,
    pub sz_decimals: u32,
    pub wei_decimals: u32,
    pub only_isolated: bool,
}

#[derive(Debug)]
pub struct Meta {
    pub universe: Vec<AssetInfo>,
    /// Each entry as the text in which it came.
    pub amms: Vec<String>,
    pub open_interest: Vec<(String, Decimal)>,
}

#[derive(Debug)]
pub struct L2Book {
    pub coin: String,
    pub levels: Vec<[Decimal; 2]>,
    pub time: u64,
}

#[derive(Debug)]
pub struct Ticker {
    pub coin: String,
    pub px: Decimal,
    pub sz: Decimal,
    pub time: u64,
}

#[derive(Debug, Clone, Copy)]
pub struct Candle {
    pub t: u64,
    pub o: Decimal,
    pub h: Decimal,
    pub l: Decimal,
    pub c: Decimal,
    pub v: Decimal,
}

/// The state of a user's account as the exchange reports it.
#[derive(Debug)]
pub struct UserState {
    pub asset_positions: Vec<AssetPosition>,
    pub cross_margin_summary: Option<CrossMarginSummary>,
    pub margin_summary: Option<MarginSummary>,
    pub time: u64,
    pub withdrawable: Decimal,
}

#[derive(Debug)]
pub struct AssetPosition {
    pub position: Position,
    pub type_: String,
    pub coin: String,
    pub pnl: Decimal,
    pub value: Decimal,
    pub entry_px: Decimal,
    pub leverage: Decimal,
    /// The signed size: positive for a long position, negative for a short
    /// one.
    pub sz: Decimal,
    pub unrealized_pnl: Decimal,
}

#[derive(Debug)]
pub struct Position {
    pub coin: String,
    pub entry_px: Decimal,
    pub leverage: Decimal,
    pub liquidation_px: Option<Decimal>,
    pub margin_used: Decimal,
    pub max_leverage: Decimal,
    pub position_value: Decimal,
    pub return_on_equity: Decimal,
    pub szi: Decimal,
    pub unrealized_pnl: Decimal,
}

#[derive(Debug, Clone, Copy)]
pub struct CrossMarginSummary {
    pub account_value: Decimal,
    pub total_margin_used: Decimal,
    pub total_ntl_pos: Decimal,
    pub total_raw_usd: Decimal,
}

#[derive(Debug, Clone, Copy)]
pub struct MarginSummary {
    pub account_value: Decimal,
    pub total_margin_used: Decimal,
    pub total_ntl_pos: Decimal,
    pub total_raw_usd: Decimal,
}

/// An order in the exchange's form.
#[derive(Debug)]
pub struct OrderRequest {
    /// The asset's number.
    pub a: u32,
    /// Whether the order buys.
    pub b: bool,
    /// The price.
    pub p: Decimal,
    /// The size.
    pub s: Decimal,
    /// Whether the order may only reduce a position.
    pub r: bool,
    /// The kind of order.
    pub t: String,
    /// The client's number for the order.
    pub cid: u64,
}

#[derive(Debug)]
pub struct OrderResponse {
    pub status: String,
    /// The rest of the answer as the text in which it came.
    pub response: Option<String>,
}

#[derive(Debug)]
pub struct CancelRequest {
    pub coin: String,
    /// The order's number.
    pub oid: u64,
}

#[derive(Debug)]
pub struct CancelResponse {
    pub status: String,
    /// The rest of the answer as the text in which it came.
    pub response: Option<String>,
}

#[derive(Debug)]
pub struct WebSocketMessage {
    pub channel: String,
    /// The message's content as the text in which it came.
    pub data: String,
}

/// What a subscription asks for.
#[derive(Debug)]
pub struct SubscriptionTopic {
    /// The kind of updates: `ticker`, `l2Book` or `candle`.
    pub kind: String,
    pub coin: String,
    /// The length of a candle, for candles only.
    pub interval: Option<String>,
}

/// A request to the market data feed.
#[derive(Debug)]
pub struct WebSocketSubscription {
    pub method: String,
    pub subscription: SubscriptionTopic,
}

} // verus!
