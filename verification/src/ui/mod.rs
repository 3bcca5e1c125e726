//! What the interface shows, as text: the rows of the tables and the figures
//! of the order book. Drawing is left to whoever has a terminal.

pub mod orderbook;
pub mod tables;

pub use orderbook::{BookStats, DepthRow, Tendency};
pub use tables::{MarketRow, OrderRow, PositionRow, Tab};
