//! Signals: what a strategy proposes to trade.

use vstd::prelude::*;
use vstd::string::StringExecFns;
use crate::clock::{Timestamp, seconds_between, elapsed_seconds};
use crate::collections::TextMap;
use crate::decimal::Decimal;
use crate::state::OrderSide;
use crate::text::{integer_text, integer_to_text};

verus! {

/// Seconds a signal lives where nothing else is asked for.
pub const DEFAULT_TTL_SECS: u64 = 60;

/// What a signal is for.
#[derive(Debug, Clone, Copy, PartialEq, Eq, Structural)]
pub enum SignalType {
    /// Open a position.
    Entry,
    /// Close a position.
    Exit,
    /// Close a position that has lost too much.
    StopLoss,
    /// Close a position that has gained enough.
    TakeProfit,
    /// Change the size of a position.
    Rebalance,
}

/// How strongly a strategy holds a signal.
#[derive(Debug, Clone, Copy, PartialEq, Eq, Structural)]
pub enum SignalStrength {
    Weak,
    Medium,
    Strong,
    VeryStrong,
}

/// What a strategy notes on a signal for itself.
#[derive(Debug)]
pub struct SignalMetadata {
    /// Named figures the signal was derived from.
    pub indicators: TextMap<Decimal>,
}

/// A proposed trade.
#[derive(Debug)]
pub struct Signal {
    pub id: String,
    /// The strategy that made the signal; the engine sets it.
    pub strategy_name: String,
    pub market_id: String,
    pub token_id: String,
    pub side: OrderSide,
    pub signal_type: SignalType,
    pub strength: SignalStrength,
    /// The limit price asked for.
    pub price: Option<Decimal>,
    pub size: Decimal,
    pub stop_loss: Option<Decimal>,
    pub take_profit: Option<Decimal>,
    /// Seconds after `created_at` at which the signal expires.
    pub ttl: u64,
    pub created_at: Timestamp,
    pub reason: String,
    pub metadata: SignalMetadata,
}

/// A signal as a value.
pub struct SignalView {
    pub id: Seq<char>,
    pub strategy_name: Seq<char>,
    pub market_id: Seq<char>,
    pub token_id: Seq<char>,
    pub side: OrderSide,
    pub signal_type: SignalType,
    pub strength: SignalStrength,
    pub price: Option<Decimal>,
    pub size: Decimal,
    pub stop_loss: Option<Decimal>,
    pub take_profit: Option<Decimal>,
    pub ttl: u64,
    pub created_at: Timestamp,
    pub reason: Seq<char>,
    pub indicators: Seq<(Seq<char>, Decimal)>,
}

impl View for Signal {
    type V = SignalView;

    open spec fn view(&self) -> SignalView {
        SignalView {
            id: self.id@,
            strategy_name: self.strategy_name@,
            market_id: self.market_id@,
            token_id: self.token_id@,
            side: self.side,
            signal_type: self.signal_type,
            strength: self.strength,
            price: self.price,
            size: self.size,
            stop_loss: self.stop_loss,
            take_profit: self.take_profit,
            ttl: self.ttl,
            created_at: self.created_at,
            reason: self.reason@,
            indicators: self.metadata.indicators@,
        }
    }
}

impl DeepView for Signal {
    type V = SignalView;

    open spec fn deep_view(&self) -> SignalView {
        self@
    }
}

/// The word for a side in a signal's id.
pub open spec fn side_word(side: OrderSide) -> Seq<char> {
    match side {
        OrderSide::Buy => "buy"@,
        OrderSide::Sell => "sell"@,
    }
}

/// The id of a signal: when it was made, and for which market, token and
/// side.
pub open spec fn signal_id(
    created_at: Timestamp,
    market_id: Seq<char>,
    token_id: Seq<char>,
    side: OrderSide,
) -> Seq<char> {
    "sig-"@ + integer_text(created_at as int) + "-"@ + market_id + "-"@ + token_id + "-"@
        + side_word(side)
}

/// A signal as [`Signal::new_at`] makes it.
pub open spec fn fresh_signal(
    market_id: Seq<char>,
    token_id: Seq<char>,
    side: OrderSide,
    size: Decimal,
    now: Timestamp,
) -> SignalView {
    SignalView {
        id: signal_id(now, market_id, token_id, side),
        strategy_name: Seq::empty(),
        market_id,
        token_id,
        side,
        signal_type: SignalType::Entry,
        strength: SignalStrength::Medium,
        price: None,
        size,
        stop_loss: None,
        take_profit: None,
        ttl: DEFAULT_TTL_SECS,
        created_at: now,
        reason: Seq::empty(),
        indicators: Seq::empty(),
    }
}

impl SignalView {
    /// Whether the signal has expired at `now`: its age in whole seconds has
    /// reached its time to live.
    pub open spec fn is_expired_at(self, now: Timestamp) -> bool {
        seconds_between(self.created_at, now) >= self.ttl
    }
}

impl Clone for Signal {
    fn clone(&self) -> (r: Self)
        ensures
            r@ == self@,
    {
        let indicators = self.metadata.indicators.clone();
        proof {
            assert(indicators@ =~= self.metadata.indicators@);
        }
        Signal {
            id: self.id.clone(),
            strategy_name: self.strategy_name.clone(),
            market_id: self.market_id.clone(),
            token_id: self.token_id.clone(),
            side: self.side,
            signal_type: self.signal_type,
            strength: self.strength,
            price: self.price,
            size: self.size,
            stop_loss: self.stop_loss,
            take_profit: self.take_profit,
            ttl: self.ttl,
            created_at: self.created_at,
            reason: self.reason.clone(),
            metadata: SignalMetadata { indicators },
        }
    }
}

impl Signal {
    /// A signal made at `now` with nothing set but market, token, side and
    /// size: an entry of medium strength, without price, that lives
    /// [`DEFAULT_TTL_SECS`].
    pub fn new_at(market_id: &str, token_id: &str, side: OrderSide, size: Decimal, now: Timestamp) -> (r:
        Self)
        ensures
            r@ == fresh_signal(market_id@, token_id@, side, size, now),
    {
        let word = match side {
            OrderSide::Buy => "buy",
            OrderSide::Sell => "sell",
        };
        let id = "sig-".to_owned().concat(integer_to_text(now).as_str()).concat("-").concat(
            market_id,
        ).concat("-").concat(token_id).concat("-").concat(word);
        Signal {
            id,
            strategy_name: String::new(),
            market_id: market_id.to_owned(),
            token_id: token_id.to_owned(),
            side,
            signal_type: SignalType::Entry,
            strength: SignalStrength::Medium,
            price: None,
            size,
            stop_loss: None,
            take_profit: None,
            ttl: DEFAULT_TTL_SECS,
            created_at: now,
            reason: String::new(),
            metadata: SignalMetadata { indicators: TextMap::new() },
        }
    }

    /// A buy signal made now.
    pub fn buy(market_id: &str, token_id: &str, size: Decimal) -> (r: Self)
        ensures
            r@ == fresh_signal(market_id@, token_id@, OrderSide::Buy, size, r.created_at),
    {
        Self::new_at(market_id, token_id, OrderSide::Buy, size, crate::clock::now())
    }

    /// A sell signal made now.
    pub fn sell(market_id: &str, token_id: &str, size: Decimal) -> (r: Self)
        ensures
            r@ == fresh_signal(market_id@, token_id@, OrderSide::Sell, size, r.created_at),
    {
        Self::new_at(market_id, token_id, OrderSide::Sell, size, crate::clock::now())
    }

    pub fn with_strategy(self, name: &str) -> (r: Self)
        ensures
            r@ == (SignalView { strategy_name: name@, ..self@ }),
    {
        let mut s = self;
        s.strategy_name = name.to_owned();
        s
    }

    pub fn with_type(self, signal_type: SignalType) -> (r: Self)
        ensures
            r@ == (SignalView { signal_type, ..self@ }),
    {
        let mut s = self;
        s.signal_type = signal_type;
        s
    }

    pub fn with_strength(self, strength: SignalStrength) -> (r: Self)
        ensures
            r@ == (SignalView { strength, ..self@ }),
    {
        let mut s = self;
        s.strength = strength;
        s
    }

    pub fn with_price(self, price: Decimal) -> (r: Self)
        ensures
            r@ == (SignalView { price: Some(price), ..self@ }),
    {
        let mut s = self;
        s.price = Some(price);
        s
    }

    pub fn with_stop_loss(self, stop_loss: Decimal) -> (r: Self)
        ensures
            r@ == (SignalView { stop_loss: Some(stop_loss), ..self@ }),
    {
        let mut s = self;
        s.stop_loss = Some(stop_loss);
        s
    }

    pub fn with_take_profit(self, take_profit: Decimal) -> (r: Self)
        ensures
            r@ == (SignalView { take_profit: Some(take_profit), ..self@ }),
    {
        let mut s = self;
        s.take_profit = Some(take_profit);
        s
    }

    pub fn with_ttl(self, ttl: u64) -> (r: Self)
        ensures
            r@ == (SignalView { ttl, ..self@ }),
    {
        let mut s = self;
        s.ttl = ttl;
        s
    }

    pub fn with_reason(self, reason: String) -> (r: Self)
        ensures
            r@ == (SignalView { reason: reason@, ..self@ }),
    {
        let mut s = self;
        s.reason = reason;
        s
    }

    /// Notes a named figure on the signal, in the place of an older figure
    /// of that name.
    pub fn with_indicator(self, name: &str, value: Decimal) -> (r: Self)
        ensures
            r@ == (SignalView {
                indicators: crate::collections::put(self@.indicators, name@, value),
                ..self@
            }),
    {
        let mut s = self;
        s.metadata.indicators.insert(name.to_owned(), value);
        s
    }

    /// Whether the signal has expired at `now`.
    pub fn is_expired_at(&self, now: Timestamp) -> (r: bool)
        ensures
            r == self@.is_expired_at(now),
    {
        let age = elapsed_seconds(self.created_at, now);
        age >= 0 && age as u64 >= self.ttl
    }

    /// Whether the signal has expired by the machine's clock: the answer of
    /// [`Signal::is_expired_at`] for the instant that the clock gave.
    pub fn is_expired(&self) -> (r: bool)
        ensures
            exists|now: Timestamp| r == #[trigger] self@.is_expired_at(now),
    {
        let now = crate::clock::now();
        let r = self.is_expired_at(now);
        proof {
            assert(r == self@.is_expired_at(now));
        }
        r
    }
}

} // verus!
