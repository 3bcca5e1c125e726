//! What happens to the application: keys, ticks, and news from the
//! exchange.

pub mod handler;
pub mod input;

pub use handler::{EventHandler, MouseKind, StoreSnapshot};
pub use input::{InputEvent, Key, Modifiers};

use vstd::prelude::*;
use crate::decimal::Decimal;
use crate::state::Notification;

verus! {

/// News from the exchange's stream.
#[derive(Debug, Clone)]
pub enum WsMessageType {
    PriceUpdate { token_id: String, bid: Decimal, ask: Decimal },
    OrderUpdate { order_id: String, status: String },
    Trade { token_id: String, price: Decimal, size: Decimal },
}

/// An event of the application's own making.
#[derive(Debug, Clone)]
pub enum AppEvent {
    DataRefreshed,
    WsMessage(WsMessageType),
    ConnectionChanged(bool),
    Error(String),
    Notification(Notification),
}

/// How events are read.
#[derive(Debug, Clone, Copy)]
pub struct EventConfig {
    /// Milliseconds between two ticks.
    pub tick_rate_ms: u64,
    pub mouse_capture: bool,
    pub paste_capture: bool,
}

impl Default for EventConfig {
    fn default() -> (r: Self)
        ensures
            r.tick_rate_ms == 250,
            r.mouse_capture,
            r.paste_capture,
    {
        EventConfig { tick_rate_ms: 250, mouse_capture: true, paste_capture: true }
    }
}

impl EventConfig {
    /// The configuration with a tick every `ms` milliseconds.
    pub fn with_tick_rate_ms(self, ms: u64) -> (r: Self)
        ensures
            r == (EventConfig { tick_rate_ms: ms, ..self }),
    {
        EventConfig { tick_rate_ms: ms, ..self }
    }

    /// The configuration with mouse capture on or off.
    pub fn with_mouse_capture(self, capture: bool) -> (r: Self)
        ensures
            r == (EventConfig { mouse_capture: capture, ..self }),
    {
        EventConfig { mouse_capture: capture, ..self }
    }
}

} // verus!
