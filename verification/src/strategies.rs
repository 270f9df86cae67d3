//! The strategies and the indicators they are built on.

pub mod base;
pub mod dca;
pub mod grid;
pub mod mean_reversion;
pub mod momentum;
pub mod registry;

pub use base::Strategy;
pub use dca::DCAStrategy;
pub use grid::GridStrategy;
pub use mean_reversion::MeanReversionStrategy;
pub use momentum::MomentumStrategy;
