//! Strategy evaluation and risk-gated execution for an automated trading
//! engine: technical indicators, strategy state machines, the risk
//! evaluator, trade statistics and the decisions of the scheduling loop.

pub mod decimal;
pub mod error;
pub mod time;
pub mod params;
pub mod models;
pub mod strategies;
pub mod config;
pub mod trading_bot;
pub mod api;
pub mod utils;
