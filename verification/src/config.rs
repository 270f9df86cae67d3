//! The settings of the engine and the checks that they must pass.

use crate::decimal::Decimal;
use crate::error::Error;
use crate::params::Parameters;
use vstd::prelude::*;
use vstd::string::StringExecFns;

verus! {

/// All settings.
#[derive(Debug)]
pub struct Config {
    pub hyperliquid: HyperliquidConfig,
    pub trading: TradingConfig,
    /// The strategies to set up, each under its name.
    pub strategies: Vec<(String, StrategyConfig)>,
    pub risk_management: RiskManagementConfig,
    pub logging: LoggingConfig,
}

/// How to reach the exchange.
#[derive(Debug)]
pub struct HyperliquidConfig {
    pub base_url: String,
    pub ws_url: String,
    pub api_key: String,
    pub private_key: String,
    pub testnet: bool,
}

/// How to trade.
#[derive(Debug, Clone, Copy)]
pub struct TradingConfig {
    /// Whether orders are only counted, not placed.
    pub dry_run: bool,
    pub max_positions: u32,
    pub default_slippage: Decimal,
    pub order_timeout_seconds: u64,
    pub retry_attempts: u32,
    pub retry_delay_ms: u64,
}

/// One strategy to set up.
#[derive(Debug)]
pub struct StrategyConfig {
    pub enabled: bool,
    /// The kind of strategy: `dca`, `grid`, `momentum` or `mean_reversion`.
    pub strategy_type: String,
    pub symbol: String,
    pub position_size: Decimal,
    pub parameters: Parameters,
}

/// The limits that the risk evaluator enforces.
#[derive(Debug, Clone, Copy)]
pub struct RiskManagementConfig {
    pub max_daily_loss: Decimal,
    pub max_position_size: Decimal,
    pub stop_loss_percentage: Decimal,
    pub take_profit_percentage: Decimal,
    pub max_drawdown_percentage: Decimal,
}

/// How to log.
#[derive(Debug)]
pub struct LoggingConfig {
    pub level: String,
    pub file_path: Option<String>,
    pub max_file_size_mb: u64,
    pub max_files: u32,
}

/// Why settings are refused, if they are: both keys must be there, at least
/// one position must be allowed, and the largest position must be greater
/// than zero.
pub open spec fn config_rejection(c: Config) -> Option<Seq<char>> {
    if c.hyperliquid.api_key@.len() == 0 {
        Some("API key is required"@)
    } else if c.hyperliquid.private_key@.len() == 0 {
        Some("Private key is required"@)
    } else if c.trading.max_positions == 0 {
        Some("Max positions must be greater than 0"@)
    } else if c.risk_management.max_position_size.le_spec(Decimal::spec_zero()) {
        Some("Max position size must be greater than 0"@)
    } else {
        None
    }
}

impl Config {
    /// Checks the settings; the first check that fails gives the error.
    pub fn validate(&self) -> (r: Result<(), Error>)
        ensures
            r is Ok <==> config_rejection(*self) is None,
            r matches Err(e) ==> e matches Error::Config(text) && Some(text@) == config_rejection(
                *self,
            ),
    {
        if self.hyperliquid.api_key.as_str().is_empty() {
            return Err(Error::config("API key is required"));
        }
        if self.hyperliquid.private_key.as_str().is_empty() {
            return Err(Error::config("Private key is required"));
        }
        if self.trading.max_positions == 0 {
            return Err(Error::config("Max positions must be greater than 0"));
        }
        if self.risk_management.max_position_size.le(&Decimal::zero()) {
            return Err(Error::config("Max position size must be greater than 0"));
        }
        Ok(())
    }
}

impl Default for Config {
    /// Settings for a dry run on the test network, without keys and without
    /// strategies.
    fn default() -> (r: Config)
        ensures
            r.hyperliquid.base_url@ == "https://api.hyperliquid.xyz"@,
            r.hyperliquid.ws_url@ == "wss://api.hyperliquid.xyz/ws"@,
            r.hyperliquid.api_key@.len() == 0,
            r.hyperliquid.private_key@.len() == 0,
            r.hyperliquid.testnet,
            r.trading.dry_run,
            r.trading.max_positions == 10,
            r.trading.default_slippage == Decimal::spec_new(1, 2),
            r.trading.order_timeout_seconds == 30,
            r.trading.retry_attempts == 3,
            r.trading.retry_delay_ms == 1000,
            r.strategies@.len() == 0,
            r.risk_management.max_daily_loss == Decimal::spec_whole(1000),
            r.risk_management.max_position_size == Decimal::spec_whole(10000),
            r.risk_management.stop_loss_percentage == Decimal::spec_whole(5),
            r.risk_management.take_profit_percentage == Decimal::spec_whole(10),
            r.risk_management.max_drawdown_percentage == Decimal::spec_whole(20),
            r.logging.level@ == "info"@,
            r.logging.file_path matches Some(path) && path@ == "logs/bot.log"@,
            r.logging.max_file_size_mb == 100,
            r.logging.max_files == 10,
            config_rejection(r) == Some("API key is required"@),
    {
        Config {
            hyperliquid: HyperliquidConfig {
                base_url: String::from_str("https://api.hyperliquid.xyz"),
                ws_url: String::from_str("wss://api.hyperliquid.xyz/ws"),
                api_key: String::new(),
                private_key: String::new(),
                testnet: true,
            },
            trading: TradingConfig {
                dry_run: true,
                max_positions: 10,
                default_slippage: Decimal::new(1, 2),
                order_timeout_seconds: 30,
                retry_attempts: 3,
                retry_delay_ms: 1000,
            },
            strategies: Vec::new(),
            risk_management: RiskManagementConfig {
                max_daily_loss: Decimal::new(1000, 0),
                max_position_size: Decimal::new(10000, 0),
                stop_loss_percentage: Decimal::new(5, 0),
                take_profit_percentage: Decimal::new(10, 0),
                max_drawdown_percentage: Decimal::new(20, 0),
            },
            logging: LoggingConfig {
                level: String::from_str("info"),
                file_path: Some(String::from_str("logs/bot.log")),
                max_file_size_mb: 100,
                max_files: 10,
            },
        }
    }
}

} // verus!
