//! Strategies, the signals they make, and the engine that runs them.

pub mod context;
pub mod engine;
pub mod risk;
pub mod signal;
pub mod strategies;
pub mod traits;

pub use context::{MarketSnapshot, OrderSnapshot, PositionSnapshot, PricePoint, StrategyContext};
pub use signal::{Signal, SignalMetadata, SignalStrength, SignalType};
pub use traits::{
    FloatValue, ParameterDef, ParameterType, ParameterValue, Strategy, StrategyConfig,
    StrategyMetadata,
};
pub use risk::{RiskConfig, RiskGuard, RiskViolation};
pub use engine::{EngineConfig, SignalRecord, SignalResult, StrategyEngine, StrategyHandle, StrategyStatus};
