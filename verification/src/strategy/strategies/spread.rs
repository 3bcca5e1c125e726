//! Market making: quote a bid below and an ask above the mid price, and
//! quote less on the side on which inventory has built up.

use vstd::prelude::*;
use vstd::string::StringExecFns;
use crate::clock::Timestamp;
use crate::collections::{TextMap, distinct_keys, has_key, lookup, put};
use crate::decimal::{
    Decimal, decimal_difference, decimal_product, decimal_quotient, fixed_or_plain, sum,
};
use crate::error::{Error, Result};
use crate::state::{MarketStatus, OrderSide};
use crate::strategy::context::{MarketSnapshot, MarketSnapshotView, StrategyContext};
use crate::strategy::signal::{Signal, SignalStrength, SignalType, SignalView, fresh_signal};
use crate::strategy::strategies::{
    configured_decimal, declare, declares, float_of, float_value, percent_text,
    percent_to_text, read_decimal,
};
use crate::strategy::traits::{
    ParameterDef, ParameterType, ParameterValue, Strategy, StrategyConfig, StrategyMetadata,
};
use crate::text::str_eq;

verus! {

/// Seconds a quote lives.
pub const QUOTE_TTL_SECS: u64 = 300;

/// The tunable figures of the strategy.
#[derive(Debug, Clone, Copy)]
pub struct SpreadParams {
    /// The spread a market must have.
    pub min_spread: Decimal,
    /// How far below the mid price the bid is put.
    pub bid_offset: Decimal,
    /// How far above the mid price the ask is put.
    pub ask_offset: Decimal,
    /// The size of a quote before inventory is looked at.
    pub order_size: Decimal,
    /// The liquidity a market must have.
    pub min_liquidity: Decimal,
    /// The inventory at which the strategy stops quoting.
    pub max_inventory_imbalance: Decimal,
}

/// The spread strategy.
#[derive(Debug)]
pub struct SpreadStrategy {
    params: SpreadParams,
    inventory: TextMap<Decimal>,
}

/// The spread of a market: the one it reports, else an estimate that
/// widens towards the extremes, `0.02 + |mid - 0.5| * 0.1`.
pub open spec fn implied_spread(reported: Option<Decimal>, mid: Decimal) -> Option<Decimal> {
    match reported {
        Some(s) => Some(s),
        None => match decimal_difference(mid, Decimal::of(5, 1)) {
            Some(d) => match decimal_product(d.abs(), Decimal::of(1, 1)) {
                Some(w) => sum(Decimal::of(2, 2), w),
                None => None,
            },
            None => None,
        },
    }
}

/// The inventory held in a market; zero where none is noted.
pub open spec fn inventory_of(inventory: Seq<(Seq<char>, Decimal)>, market: Seq<char>) -> Decimal {
    match lookup(inventory, market) {
        Some(v) => v,
        None => Decimal::of(0, 0),
    }
}

/// The size of a quote: `base`, cut by `min(|inventory| / max, 0.8)` of
/// itself on the side that would add to the inventory.
pub open spec fn adjusted_size(params: SpreadParams, base: Decimal, inventory: Decimal, side: OrderSide) -> Option<
    Decimal,
> {
    if params.max_inventory_imbalance.is_zero() {
        Some(base)
    } else {
        match decimal_quotient(inventory.abs(), params.max_inventory_imbalance) {
            Some(ratio) => if (side == OrderSide::Buy && inventory.gt(Decimal::of(0, 0))) || (side
                == OrderSide::Sell && inventory.lt(Decimal::of(0, 0))) {
                match decimal_difference(Decimal::of(1, 0), ratio.spec_min(Decimal::of(8, 1))) {
                    Some(f) => decimal_product(base, f),
                    None => None,
                }
            } else {
                Some(base)
            },
            None => None,
        }
    }
}

/// The quote on one side: a weak entry at `price` that lives
/// [`QUOTE_TTL_SECS`].
pub open spec fn quote(
    market: MarketSnapshotView,
    side: OrderSide,
    price: Decimal,
    size: Decimal,
    mid: Decimal,
    spread: Decimal,
    now: Timestamp,
) -> Option<SignalView> {
    match percent_text(spread) {
        Some(s) => Some(
            SignalView {
                strategy_name: "spread"@,
                signal_type: SignalType::Entry,
                strength: SignalStrength::Weak,
                price: Some(price),
                ttl: QUOTE_TTL_SECS,
                reason: if side == OrderSide::Buy {
                    "Spread bid: "@ + fixed_or_plain(price, 4) + " (mid: "@ + fixed_or_plain(mid, 4) + ", spread: "@ + s + "%)"@
                } else {
                    "Spread ask: "@ + fixed_or_plain(price, 4) + " (mid: "@ + fixed_or_plain(mid, 4) + ", spread: "@ + s + "%)"@
                },
                ..fresh_signal(market.condition_id, market.first_token(), side, size, now)
            },
        ),
        None => None,
    }
}

/// The quote on one side, where its size does not come out below 0.1.
pub open spec fn side_quote(
    params: SpreadParams,
    market: MarketSnapshotView,
    side: OrderSide,
    price: Decimal,
    inventory: Decimal,
    mid: Decimal,
    spread: Decimal,
    now: Timestamp,
) -> Option<SignalView> {
    match adjusted_size(params, params.order_size, inventory, side) {
        Some(size) => if size.lt(Decimal::of(1, 1)) {
            None
        } else {
            quote(market, side, price, size, mid, spread, now)
        },
        None => None,
    }
}

/// The two prices of a market that the strategy quotes: the mid price less
/// the bid offset and plus the ask offset. There are none for a market that
/// is not active, lacks liquidity or spread, has no price, would be quoted
/// at or below zero or at or above one, or in which the inventory has
/// reached its limit.
pub open spec fn quoted_prices(params: SpreadParams, inventory: Decimal, market: MarketSnapshotView) -> Option<
    (Decimal, Decimal, Decimal),
> {
    if market.status != MarketStatus::Active || market.liquidity.lt(params.min_liquidity) {
        None
    } else {
        match market.yes_price() {
            Some(mid) => match implied_spread(market.spread, mid) {
                Some(spread) => if spread.lt(params.min_spread) {
                    None
                } else {
                    match (decimal_difference(mid, params.bid_offset), sum(mid, params.ask_offset)) {
                        (Some(bid), Some(ask)) => if bid.le(Decimal::of(0, 0)) || ask.ge(
                            Decimal::of(1, 0),
                        ) || inventory.abs().ge(params.max_inventory_imbalance) {
                            None
                        } else {
                            Some((bid, ask, spread))
                        },
                        _ => None,
                    }
                },
                None => None,
            },
            None => None,
        }
    }
}

/// What the strategy proposes for one market: the bid, then the ask, each
/// where it is due.
pub open spec fn decision(
    params: SpreadParams,
    inventory: Decimal,
    market: MarketSnapshotView,
    now: Timestamp,
) -> Seq<SignalView> {
    match quoted_prices(params, inventory, market) {
        Some((bid, ask, spread)) => {
            let mid = market.yes_price()->0;
            let bids = match side_quote(
                params,
                market,
                OrderSide::Buy,
                bid,
                inventory,
                mid,
                spread,
                now,
            ) {
                Some(s) => seq![s],
                None => Seq::empty(),
            };
            match side_quote(params, market, OrderSide::Sell, ask, inventory, mid, spread, now) {
                Some(s) => bids.push(s),
                None => bids,
            }
        },
        None => Seq::empty(),
    }
}

/// The signals for the first `n` markets of a context, in order.
pub open spec fn evaluation(
    params: SpreadParams,
    inventory: Seq<(Seq<char>, Decimal)>,
    ctx: &StrategyContext,
    n: nat,
) -> Seq<SignalView>
    decreases n,
{
    if n == 0 {
        Seq::empty()
    } else {
        let market = ctx.markets@[n - 1].1@;
        evaluation(params, inventory, ctx, (n - 1) as nat) + decision(
            params,
            inventory_of(inventory, market.condition_id),
            market,
            ctx.timestamp,
        )
    }
}

/// The inventory after a signal was executed: a buy adds its size, a sell
/// takes it away; a failed execution, or a sum out of range, changes
/// nothing.
pub open spec fn after_execution(
    inventory: Seq<(Seq<char>, Decimal)>,
    signal: SignalView,
    success: bool,
) -> Seq<(Seq<char>, Decimal)> {
    if !success {
        inventory
    } else {
        match sum(
            inventory_of(inventory, signal.market_id),
            match signal.side {
                OrderSide::Buy => signal.size,
                OrderSide::Sell => signal.size.neg(),
            },
        ) {
            Some(v) => put(inventory, signal.market_id, v),
            None => inventory,
        }
    }
}

impl SpreadStrategy {
    /// The tunable figures.
    pub closed spec fn params(&self) -> SpreadParams {
        self.params
    }

    /// The inventory, by market.
    pub closed spec fn inventory(&self) -> Seq<(Seq<char>, Decimal)> {
        self.inventory@
    }

    /// The figures the strategy starts with.
    pub open spec fn default_params() -> SpreadParams {
        SpreadParams {
            min_spread: Decimal::of(2, 2),
            bid_offset: Decimal::of(1, 2),
            ask_offset: Decimal::of(1, 2),
            order_size: Decimal::of(5, 0),
            min_liquidity: Decimal::of(1000, 0),
            max_inventory_imbalance: Decimal::of(50, 0),
        }
    }

    /// The strategy with a minimum spread of 0.02, offsets of 0.01, a size of
    /// 5, a minimum liquidity of 1000 and an inventory limit of 50, holding
    /// nothing.
    pub fn new() -> (r: Self)
        ensures
            r.params() == Self::default_params(),
            r.inventory().len() == 0,
            distinct_keys(r.inventory()),
    {
        SpreadStrategy {
            params: SpreadParams {
                min_spread: Decimal::new(2, 2),
                bid_offset: Decimal::new(1, 2),
                ask_offset: Decimal::new(1, 2),
                order_size: Decimal::new(5, 0),
                min_liquidity: Decimal::new(1000, 0),
                max_inventory_imbalance: Decimal::new(50, 0),
            },
            inventory: TextMap::new(),
        }
    }

    pub fn with_min_spread(self, spread: Decimal) -> (r: Self)
        ensures
            r.params() == (SpreadParams { min_spread: spread, ..self.params() }),
            r.inventory() == self.inventory(),
    {
        let mut s = self;
        s.params.min_spread = spread;
        s
    }

    pub fn with_bid_offset(self, offset: Decimal) -> (r: Self)
        ensures
            r.params() == (SpreadParams { bid_offset: offset, ..self.params() }),
            r.inventory() == self.inventory(),
    {
        let mut s = self;
        s.params.bid_offset = offset;
        s
    }

    pub fn with_ask_offset(self, offset: Decimal) -> (r: Self)
        ensures
            r.params() == (SpreadParams { ask_offset: offset, ..self.params() }),
            r.inventory() == self.inventory(),
    {
        let mut s = self;
        s.params.ask_offset = offset;
        s
    }

    pub fn with_order_size(self, size: Decimal) -> (r: Self)
        ensures
            r.params() == (SpreadParams { order_size: size, ..self.params() }),
            r.inventory() == self.inventory(),
    {
        let mut s = self;
        s.params.order_size = size;
        s
    }

    fn get_inventory(&self, market_id: &str) -> (r: Decimal)
        ensures
            r == inventory_of(self.inventory(), market_id@),
    {
        match self.inventory.get(market_id) {
            Some(v) => *v,
            None => Decimal::zero(),
        }
    }

    fn estimate_spread(reported: Option<Decimal>, mid: Decimal) -> (r: Option<Decimal>)
        ensures
            r == implied_spread(reported, mid),
    {
        match reported {
            Some(s) => Some(s),
            None => match mid.checked_sub(Decimal::new(5, 1)) {
                Some(d) => match d.abs().checked_mul(Decimal::new(1, 1)) {
                    Some(w) => Decimal::new(2, 2).checked_add(w),
                    None => None,
                },
                None => None,
            },
        }
    }

    /// The size of a quote on `side` for the given inventory.
    pub fn adjust_size_for_inventory(&self, base_size: Decimal, inventory: Decimal, side: OrderSide) -> (r:
        Option<Decimal>)
        ensures
            r == adjusted_size(self.params(), base_size, inventory, side),
    {
        if self.params.max_inventory_imbalance.is_zero() {
            return Some(base_size);
        }
        let ratio = match inventory.abs().checked_div(self.params.max_inventory_imbalance) {
            Some(r) => r,
            None => {
                return None;
            },
        };
        let reduce = match side {
            OrderSide::Buy => inventory.is_gt(Decimal::zero()),
            OrderSide::Sell => inventory.is_lt(Decimal::zero()),
        };
        if reduce {
            match Decimal::one().checked_sub(ratio.min(Decimal::new(8, 1))) {
                Some(f) => base_size.checked_mul(f),
                None => None,
            }
        } else {
            Some(base_size)
        }
    }

    fn make_quote(
        market: &MarketSnapshot,
        side: OrderSide,
        price: Decimal,
        size: Decimal,
        mid: Decimal,
        spread: Decimal,
        now: Timestamp,
    ) -> (r: Option<Signal>)
        ensures
            match r {
                Some(s) => quote(market@, side, price, size, mid, spread, now) == Some(s@),
                None => quote(market@, side, price, size, mid, spread, now) is None,
            },
    {
        let s = match percent_to_text(spread) {
            Some(s) => s,
            None => {
                return None;
            },
        };
        let word = match side {
            OrderSide::Buy => "Spread bid: ",
            OrderSide::Sell => "Spread ask: ",
        };
        let reason = word.to_owned().concat(price.to_fixed_or_plain(4).as_str()).concat(" (mid: ").concat(
            mid.to_fixed_or_plain(4).as_str(),
        ).concat(", spread: ").concat(s.as_str()).concat("%)");
        let token = market.first_token();
        Some(
            Signal::new_at(market.condition_id.as_str(), token.as_str(), side, size, now).with_strategy(
                "spread",
            ).with_type(SignalType::Entry).with_strength(SignalStrength::Weak).with_price(
                price,
            ).with_ttl(QUOTE_TTL_SECS).with_reason(reason),
        )
    }

    fn quote_side(
        &self,
        market: &MarketSnapshot,
        side: OrderSide,
        price: Decimal,
        inventory: Decimal,
        mid: Decimal,
        spread: Decimal,
        now: Timestamp,
    ) -> (r: Option<Signal>)
        ensures
            match r {
                Some(s) => side_quote(
                    self.params(),
                    market@,
                    side,
                    price,
                    inventory,
                    mid,
                    spread,
                    now,
                ) == Some(s@),
                None => side_quote(self.params(), market@, side, price, inventory, mid, spread, now) is None,
            },
    {
        match self.adjust_size_for_inventory(self.params.order_size, inventory, side) {
            Some(size) => if size.is_lt(Decimal::new(1, 1)) {
                None
            } else {
                Self::make_quote(market, side, price, size, mid, spread, now)
            },
            None => None,
        }
    }

    fn prices(&self, inventory: Decimal, market: &MarketSnapshot) -> (r: Option<(Decimal, Decimal, Decimal)>)
        ensures
            r == quoted_prices(self.params(), inventory, market@),
    {
        if market.status != MarketStatus::Active {
            return None;
        }
        if market.liquidity.is_lt(self.params.min_liquidity) {
            return None;
        }
        let mid = match market.yes_price() {
            Some(p) => p,
            None => {
                return None;
            },
        };
        let spread = match Self::estimate_spread(market.spread, mid) {
            Some(s) => s,
            None => {
                return None;
            },
        };
        if spread.is_lt(self.params.min_spread) {
            return None;
        }
        let (bid, ask) = match (
            mid.checked_sub(self.params.bid_offset),
            mid.checked_add(self.params.ask_offset),
        ) {
            (Some(b), Some(a)) => (b, a),
            _ => {
                return None;
            },
        };
        if bid.is_le(Decimal::zero()) || ask.is_ge(Decimal::one()) {
            return None;
        }
        if inventory.abs().is_ge(self.params.max_inventory_imbalance) {
            return None;
        }
        Some((bid, ask, spread))
    }
}

/// The figures after a configuration was read: every parameter that the
/// configuration names, of the right type and within its range. There are
/// none where one parameter is of the wrong type or out of its range.
pub open spec fn initialized(params: SpreadParams, configured: Seq<(Seq<char>, ParameterValue)>) -> Option<
    SpreadParams,
> {
    match (
        configured_decimal(
            lookup(configured, "min_spread"@),
            params.min_spread,
            Decimal::of(5, 3),
            Decimal::of(20, 2),
        ),
        configured_decimal(
            lookup(configured, "bid_offset"@),
            params.bid_offset,
            Decimal::of(1, 3),
            Decimal::of(10, 2),
        ),
        configured_decimal(
            lookup(configured, "ask_offset"@),
            params.ask_offset,
            Decimal::of(1, 3),
            Decimal::of(10, 2),
        ),
        configured_decimal(
            lookup(configured, "order_size"@),
            params.order_size,
            Decimal::of(1, 0),
            Decimal::of(100, 0),
        ),
    ) {
        (Some(min_spread), Some(bid_offset), Some(ask_offset), Some(order_size)) => Some(
            SpreadParams { min_spread, bid_offset, ask_offset, order_size, ..params },
        ),
        _ => None,
    }
}

/// The figures after one parameter was set by hand, or the complaint.
pub open spec fn with_parameter(params: SpreadParams, name: Seq<char>, value: ParameterValue) -> core::result::Result<
    SpreadParams,
    Seq<char>,
> {
    match value.as_decimal() {
        Some(v) => if name == "min_spread"@ {
            Ok(SpreadParams { min_spread: v, ..params })
        } else if name == "bid_offset"@ {
            Ok(SpreadParams { bid_offset: v, ..params })
        } else if name == "ask_offset"@ {
            Ok(SpreadParams { ask_offset: v, ..params })
        } else if name == "order_size"@ {
            Ok(SpreadParams { order_size: v, ..params })
        } else if name == "max_inventory_imbalance"@ {
            Ok(SpreadParams { max_inventory_imbalance: v, ..params })
        } else {
            Err("Unknown parameter"@)
        },
        None => if name == "min_spread"@ || name == "bid_offset"@ || name == "ask_offset"@ || name
            == "order_size"@ || name == "max_inventory_imbalance"@ {
            Err("Expected decimal"@)
        } else {
            Err("Unknown parameter"@)
        },
    }
}

impl Strategy for SpreadStrategy {
    open spec fn name_text(&self) -> Seq<char> {
        "spread"@
    }

    fn name(&self) -> (r: &str) {
        "spread"
    }

    fn metadata(&self) -> (r: StrategyMetadata)
        ensures
            r.name@ == "Spread/Market Making"@,
            r.description@ == "Provides liquidity by placing orders on both sides of the spread"@,
            r.version@ == "1.0.0"@,
            r.author matches Some(a) && a@ == "Clobster"@,
            r.tags@.len() == 3,
            r.tags@[0]@ == "market-making"@,
            r.tags@[1]@ == "spread"@,
            r.tags@[2]@ == "liquidity"@,
    {
        let mut tags: Vec<String> = Vec::new();
        tags.push("market-making".to_owned());
        tags.push("spread".to_owned());
        tags.push("liquidity".to_owned());
        StrategyMetadata {
            name: "Spread/Market Making".to_owned(),
            description: "Provides liquidity by placing orders on both sides of the spread".to_owned(),
            version: "1.0.0".to_owned(),
            author: Some("Clobster".to_owned()),
            tags,
        }
    }

    /// Takes from `config` every parameter that it names. A parameter of the
    /// wrong type or out of its range is an invalid input, and then nothing
    /// is taken.
    fn initialize(&mut self, config: &StrategyConfig) -> (r: Result<()>)
        ensures
            final(self).inventory() == old(self).inventory(),
            match r {
                Ok(()) => Some(final(self).params()) == initialized(
                    old(self).params(),
                    config.parameters@,
                ),
                Err(e) => initialized(old(self).params(), config.parameters@) is None && e.is_invalid_input(
                    "Parameter of the wrong type or out of range"@,
                ) && final(self).params() == old(self).params(),
            },
    {
        let read = (
            read_decimal(
                &config.parameters,
                "min_spread",
                self.params.min_spread,
                Decimal::new(5, 3),
                Decimal::new(20, 2),
            ),
            read_decimal(
                &config.parameters,
                "bid_offset",
                self.params.bid_offset,
                Decimal::new(1, 3),
                Decimal::new(10, 2),
            ),
            read_decimal(
                &config.parameters,
                "ask_offset",
                self.params.ask_offset,
                Decimal::new(1, 3),
                Decimal::new(10, 2),
            ),
            read_decimal(
                &config.parameters,
                "order_size",
                self.params.order_size,
                Decimal::new(1, 0),
                Decimal::new(100, 0),
            ),
        );
        match read {
            (Some(min_spread), Some(bid_offset), Some(ask_offset), Some(order_size)) => {
                self.params.min_spread = min_spread;
                self.params.bid_offset = bid_offset;
                self.params.ask_offset = ask_offset;
                self.params.order_size = order_size;
                Ok(())
            },
            _ => Err(Error::invalid_input("Parameter of the wrong type or out of range")),
        }
    }

    /// The quotes for the markets of `ctx`, in their order: for each market
    /// its bid, then its ask. The inventory does not change.
    fn evaluate(&mut self, ctx: &StrategyContext) -> (r: Vec<Signal>)
        ensures
            distinct_keys(old(self).inventory()),
            distinct_keys(final(self).inventory()),
            final(self).params() == old(self).params(),
            final(self).inventory() == old(self).inventory(),
            r.deep_view() == evaluation(
                old(self).params(),
                old(self).inventory(),
                ctx,
                ctx.markets@.len(),
            ),
    {
        proof {
            use_type_invariant(&self.inventory);
        }
        let n = ctx.markets.len();
        let mut signals: Vec<Signal> = Vec::new();
        let mut i: usize = 0;
        proof {
            assert(signals.deep_view() =~= Seq::<SignalView>::empty());
        }
        while i < n
            invariant
                i <= n == ctx.markets@.len(),
                distinct_keys(old(self).inventory()),
                signals.deep_view() == evaluation(self.params(), self.inventory(), ctx, i as nat),
            decreases n - i,
        {
            let market = ctx.markets.value_at(i);
            let inventory = self.get_inventory(market.condition_id.as_str());
            let ghost before = signals.deep_view();
            let ghost due = decision(self.params(), inventory, market@, ctx.timestamp);
            match self.prices(inventory, market) {
                Some((bid, ask, spread)) => {
                    let mid = match market.yes_price() {
                        Some(p) => p,
                        None => Decimal::zero(),
                    };
                    let ghost mut made = Seq::<SignalView>::empty();
                    match self.quote_side(
                        market,
                        OrderSide::Buy,
                        bid,
                        inventory,
                        mid,
                        spread,
                        ctx.timestamp,
                    ) {
                        Some(signal) => {
                            signals.push(signal);
                            proof {
                                made = seq![signal@];
                            }
                        },
                        None => {},
                    }
                    proof {
                        assert(signals.deep_view() =~= before + made);
                    }
                    match self.quote_side(
                        market,
                        OrderSide::Sell,
                        ask,
                        inventory,
                        mid,
                        spread,
                        ctx.timestamp,
                    ) {
                        Some(signal) => {
                            signals.push(signal);
                            proof {
                                made = made.push(signal@);
                            }
                        },
                        None => {},
                    }
                    proof {
                        assert(made == due);
                        assert(signals.deep_view() =~= before + due);
                    }
                },
                None => {
                    proof {
                        assert(before + due =~= before);
                    }
                },
            }
            i += 1;
        }
        proof {
            use_type_invariant(&self.inventory);
        }
        signals
    }

    /// An order was filled. The inventory is kept by executed signals, not by
    /// fills: nothing changes.
    fn on_order_filled(&mut self, order_id: &str, filled_price: Decimal, filled_size: Decimal)
        ensures
            final(self).params() == old(self).params(),
            final(self).inventory() == old(self).inventory(),
    {
    }

    /// Adds the size of an executed buy to the inventory of its market, and
    /// takes the size of an executed sell away.
    fn on_signal_executed(&mut self, signal: &Signal, success: bool)
        ensures
            distinct_keys(old(self).inventory()),
            distinct_keys(final(self).inventory()),
            final(self).params() == old(self).params(),
            final(self).inventory() == after_execution(old(self).inventory(), signal@, success),
    {
        proof {
            use_type_invariant(&self.inventory);
        }
        if !success {
            return ;
        }
        let delta = match signal.side {
            OrderSide::Buy => signal.size,
            OrderSide::Sell => signal.size.neg(),
        };
        let current = self.get_inventory(signal.market_id.as_str());
        match current.checked_add(delta) {
            Some(v) => {
                self.inventory.insert(signal.market_id.clone(), v);
            },
            None => {},
        }
        proof {
            use_type_invariant(&self.inventory);
        }
    }

    /// The five parameters: the minimum spread, the two offsets, the size
    /// and the inventory limit.
    fn parameters(&self) -> (r: TextMap<ParameterDef>)
        ensures
            r@.len() == 5,
            r@[0].0 == "min_spread"@,
            declares(
                r@[0].1,
                "min_spread"@,
                "Minimum spread required to place orders"@,
                ParameterType::Float,
                float_of(0, 2, 2),
                float_of(0, 5, 3),
                float_of(0, 20, 2),
            ),
            r@[1].0 == "bid_offset"@,
            declares(
                r@[1].1,
                "bid_offset"@,
                "Offset below mid-price for bid orders"@,
                ParameterType::Float,
                float_of(0, 1, 2),
                float_of(0, 1, 3),
                float_of(0, 10, 2),
            ),
            r@[2].0 == "ask_offset"@,
            declares(
                r@[2].1,
                "ask_offset"@,
                "Offset above mid-price for ask orders"@,
                ParameterType::Float,
                float_of(0, 1, 2),
                float_of(0, 1, 3),
                float_of(0, 10, 2),
            ),
            r@[3].0 == "order_size"@,
            declares(
                r@[3].1,
                "order_size"@,
                "Size per order in USDC"@,
                ParameterType::Float,
                float_of(5, 5, 0),
                float_of(1, 1, 0),
                float_of(100, 100, 0),
            ),
            r@[4].0 == "max_inventory_imbalance"@,
            declares(
                r@[4].1,
                "max_inventory_imbalance"@,
                "Maximum inventory imbalance allowed"@,
                ParameterType::Float,
                float_of(50, 50, 0),
                float_of(10, 10, 0),
                float_of(500, 500, 0),
            ),
    {
        let mut params: TextMap<ParameterDef> = TextMap::new();
        proof {
            reveal_strlit("min_spread");
            reveal_strlit("bid_offset");
            reveal_strlit("ask_offset");
            reveal_strlit("order_size");
            reveal_strlit("max_inventory_imbalance");
            assert("min_spread"@[0] == 'm');
            assert("bid_offset"@[0] == 'b');
            assert("ask_offset"@[0] == 'a');
            assert("order_size"@[0] == 'o');
            assert("max_inventory_imbalance"@.len() == 23);
            assert("min_spread"@.len() == 10);
            assert("bid_offset"@.len() == 10);
            assert("ask_offset"@.len() == 10);
            assert("order_size"@.len() == 10);
        }
        params.push_new(
            "min_spread".to_owned(),
            declare(
                "min_spread",
                "Minimum spread required to place orders",
                ParameterType::Float,
                float_value(0, 2, 2),
                float_value(0, 5, 3),
                float_value(0, 20, 2),
            ),
        );
        proof {
            assert forall|k: Seq<char>| has_key(params@, k) implies k == "min_spread"@ by {}
        }
        params.push_new(
            "bid_offset".to_owned(),
            declare(
                "bid_offset",
                "Offset below mid-price for bid orders",
                ParameterType::Float,
                float_value(0, 1, 2),
                float_value(0, 1, 3),
                float_value(0, 10, 2),
            ),
        );
        proof {
            assert forall|k: Seq<char>| has_key(params@, k) implies k == "min_spread"@ || k
                == "bid_offset"@ by {
                let i = crate::collections::index_of(params@, k);
                assert(i == 0 || i == 1);
            }
        }
        params.push_new(
            "ask_offset".to_owned(),
            declare(
                "ask_offset",
                "Offset above mid-price for ask orders",
                ParameterType::Float,
                float_value(0, 1, 2),
                float_value(0, 1, 3),
                float_value(0, 10, 2),
            ),
        );
        proof {
            assert forall|k: Seq<char>| has_key(params@, k) implies k == "min_spread"@ || k
                == "bid_offset"@ || k == "ask_offset"@ by {
                let i = crate::collections::index_of(params@, k);
                assert(i == 0 || i == 1 || i == 2);
            }
        }
        params.push_new(
            "order_size".to_owned(),
            declare(
                "order_size",
                "Size per order in USDC",
                ParameterType::Float,
                float_value(5, 5, 0),
                float_value(1, 1, 0),
                float_value(100, 100, 0),
            ),
        );
        proof {
            assert forall|k: Seq<char>| has_key(params@, k) implies k.len() == 10 by {
                let i = crate::collections::index_of(params@, k);
                assert(i == 0 || i == 1 || i == 2 || i == 3);
            }
        }
        params.push_new(
            "max_inventory_imbalance".to_owned(),
            declare(
                "max_inventory_imbalance",
                "Maximum inventory imbalance allowed",
                ParameterType::Float,
                float_value(50, 50, 0),
                float_value(10, 10, 0),
                float_value(500, 500, 0),
            ),
        );
        params
    }

    /// Sets one parameter. An unknown name or a value that is no number is
    /// an invalid input, and then nothing changes.
    fn set_parameter(&mut self, name: &str, value: ParameterValue) -> (r: Result<()>)
        ensures
            final(self).inventory() == old(self).inventory(),
            match r {
                Ok(()) => Ok::<SpreadParams, Seq<char>>(final(self).params()) == with_parameter(
                    old(self).params(),
                    name@,
                    value,
                ),
                Err(e) => final(self).params() == old(self).params() && (with_parameter(
                    old(self).params(),
                    name@,
                    value,
                ) matches Err(msg) && e.is_invalid_input(msg)),
            },
    {
        let known = str_eq(name, "min_spread") || str_eq(name, "bid_offset") || str_eq(
            name,
            "ask_offset",
        ) || str_eq(name, "order_size") || str_eq(name, "max_inventory_imbalance");
        if !known {
            return Err(Error::invalid_input("Unknown parameter"));
        }
        let v = match value.as_decimal() {
            Some(v) => v,
            None => {
                return Err(Error::invalid_input("Expected decimal"));
            },
        };
        if str_eq(name, "min_spread") {
            self.params.min_spread = v;
        } else if str_eq(name, "bid_offset") {
            self.params.bid_offset = v;
        } else if str_eq(name, "ask_offset") {
            self.params.ask_offset = v;
        } else if str_eq(name, "order_size") {
            self.params.order_size = v;
        } else {
            self.params.max_inventory_imbalance = v;
        }
        Ok(())
    }
}

impl Default for SpreadStrategy {
    fn default() -> (r: Self)
        ensures
            r.params() == Self::default_params(),
            r.inventory().len() == 0,
    {
        Self::new()
    }
}

} // verus!
