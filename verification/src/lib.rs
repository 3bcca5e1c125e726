//! Strategy evaluation, risk management and order-book analytics for
//! trading on binary prediction markets.

pub mod api;
pub mod channel;
pub mod clock;
pub mod collections;
pub mod config;
pub mod decimal;
pub mod error;
pub mod events;
pub mod state;
pub mod text;
pub mod ui;
pub mod strategy;
