//! The indicators and their shared de-duplication engine.

pub mod adaptive;
pub mod bollinger_bands;
pub mod exponential_moving_average;
pub mod max_drawdown;
pub mod max_drawup;
pub mod maximum;
pub mod minimum;
pub mod relative_strength_index;
pub mod simple_moving_average;
pub mod standard_deviation;

pub use adaptive::{AdaptiveTimeDetector, DetectedFrequency};
pub use bollinger_bands::{BollingerBands, BollingerBandsOutput};
pub use exponential_moving_average::ExponentialMovingAverage;
pub use max_drawdown::MaxDrawdown;
pub use max_drawup::MaxDrawup;
pub use maximum::Maximum;
pub use minimum::Minimum;
pub use relative_strength_index::RelativeStrengthIndex;
pub use simple_moving_average::SimpleMovingAverage;
pub use standard_deviation::StandardDeviation;
