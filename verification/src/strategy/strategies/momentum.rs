//! Momentum: follow the trend that the two exponential moving averages
//! show, and leave at a stop or at a target.

use vstd::prelude::*;
use vstd::string::StringExecFns;
use crate::clock::Timestamp;
use crate::collections::{TextMap, distinct_keys, has_key, lemma_put, lookup, put, without};
use crate::decimal::{
    Decimal, decimal_difference, decimal_product, decimal_quotient, fixed_or_plain, sum,
};
use crate::error::{Error, Result};
use crate::state::{MarketStatus, OrderSide};
use crate::strategy::context::{MarketSnapshot, MarketSnapshotView, StrategyContext, holds_market};
use crate::strategy::signal::{Signal, SignalStrength, SignalType, SignalView, fresh_signal};
use crate::strategy::strategies::{
    configured_count, configured_decimal, count_of, declare, declares, float_of, float_value, only_at, percent_text, percent_to_text, read_count, read_decimal, to_count,
};
use crate::strategy::traits::{
    ParameterDef, ParameterType, ParameterValue, Strategy, StrategyConfig, StrategyMetadata,
};
use crate::text::str_eq;

verus! {

/// A position the strategy tracks.
#[derive(Debug, Clone, Copy)]
pub struct MomentumPosition {
    pub entry_price: Decimal,
    pub side: OrderSide,
    /// The price at which the loss is cut.
    pub stop_loss: Decimal,
    /// The price at which the profit is taken.
    pub take_profit: Decimal,
}

/// The tunable figures of the strategy.
#[derive(Debug, Clone, Copy)]
pub struct MomentumParams {
    pub short_ema_periods: usize,
    pub long_ema_periods: usize,
    /// The momentum beyond which the strategy acts.
    pub momentum_threshold: Decimal,
    /// The size of every signal.
    pub position_size: Decimal,
    /// The volume a market must have.
    pub min_volume: Decimal,
    /// The loss, as a part of the entry price, at which a position is left.
    pub stop_loss_pct: Decimal,
    /// The gain, as a part of the entry price, at which a position is left.
    pub take_profit_pct: Decimal,
}

/// The momentum strategy.
#[derive(Debug)]
pub struct MomentumStrategy {
    params: MomentumParams,
    positions: TextMap<MomentumPosition>,
}

/// `(short - long) / long`, with no value where an average is missing or
/// the long one is zero.
pub open spec fn momentum_of(short: Option<Decimal>, long: Option<Decimal>) -> Option<Decimal> {
    match (short, long) {
        (Some(s), Some(l)) => if l.is_zero() {
            None
        } else {
            match decimal_difference(s, l) {
                Some(d) => decimal_quotient(d, l),
                None => None,
            }
        },
        _ => None,
    }
}

/// Whether a tracked position is to be left at `price`: a bought position
/// at or below its stop and at or above its target, a sold position the
/// other way round. The stop is looked at first.
pub open spec fn exit_trigger(position: MomentumPosition, price: Decimal) -> Option<SignalType> {
    match position.side {
        OrderSide::Buy => if price.le(position.stop_loss) {
            Some(SignalType::StopLoss)
        } else if price.ge(position.take_profit) {
            Some(SignalType::TakeProfit)
        } else {
            None
        },
        OrderSide::Sell => if price.ge(position.stop_loss) {
            Some(SignalType::StopLoss)
        } else if price.le(position.take_profit) {
            Some(SignalType::TakeProfit)
        } else {
            None
        },
    }
}

/// `price * (1 - part)`.
pub open spec fn lowered(price: Decimal, part: Decimal) -> Option<Decimal> {
    match decimal_difference(Decimal::of(1, 0), part) {
        Some(f) => decimal_product(price, f),
        None => None,
    }
}

/// `price * (1 + part)`.
pub open spec fn raised(price: Decimal, part: Decimal) -> Option<Decimal> {
    match sum(Decimal::of(1, 0), part) {
        Some(f) => decimal_product(price, f),
        None => None,
    }
}

/// The position that an entry at `price` opens: for a buy the stop below
/// and the target above the price, for a sell the other way round.
pub open spec fn opened(params: MomentumParams, price: Decimal, side: OrderSide) -> Option<
    MomentumPosition,
> {
    match side {
        OrderSide::Buy => match (
            lowered(price, params.stop_loss_pct),
            raised(price, params.take_profit_pct),
        ) {
            (Some(stop_loss), Some(take_profit)) => Some(
                MomentumPosition { entry_price: price, side, stop_loss, take_profit },
            ),
            _ => None,
        },
        OrderSide::Sell => match (
            raised(price, params.stop_loss_pct),
            lowered(price, params.take_profit_pct),
        ) {
            (Some(stop_loss), Some(take_profit)) => Some(
                MomentumPosition { entry_price: price, side, stop_loss, take_profit },
            ),
            _ => None,
        },
    }
}

/// The signal before the reason is written on it.
pub open spec fn base_signal(
    params: MomentumParams,
    market: MarketSnapshotView,
    side: OrderSide,
    signal_type: SignalType,
    strength: SignalStrength,
    price: Decimal,
    now: Timestamp,
) -> SignalView {
    SignalView {
        strategy_name: "momentum"@,
        signal_type,
        strength,
        price: Some(price),
        ..fresh_signal(market.condition_id, market.first_token(), side, params.position_size, now)
    }
}

/// The signal that leaves a tracked position at its stop or its target.
pub open spec fn exit_signal(
    params: MomentumParams,
    position: MomentumPosition,
    market: MarketSnapshotView,
    price: Decimal,
    exit_type: SignalType,
    now: Timestamp,
) -> SignalView {
    SignalView {
        reason: if exit_type == SignalType::StopLoss {
            "Stop loss triggered at "@ + fixed_or_plain(price, 4) + " (entry: "@
                + fixed_or_plain(position.entry_price, 4) + ")"@
        } else {
            "Take profit triggered at "@ + fixed_or_plain(price, 4) + " (entry: "@
                + fixed_or_plain(position.entry_price, 4) + ")"@
        },
        ..base_signal(
            params,
            market,
            position.side.opposite(),
            exit_type,
            if exit_type == SignalType::StopLoss {
                SignalStrength::VeryStrong
            } else {
                SignalStrength::Strong
            },
            price,
            now,
        )
    }
}

/// The entry on a momentum above the threshold: a buy with its stop and
/// its target, strong beyond twice the threshold.
pub open spec fn bullish_signal(
    params: MomentumParams,
    market: MarketSnapshotView,
    price: Decimal,
    momentum: Decimal,
    now: Timestamp,
) -> Option<SignalView> {
    match (
        opened(params, price, OrderSide::Buy),
        decimal_product(params.momentum_threshold, Decimal::of(2, 0)),
        percent_text(momentum),
        percent_text(params.momentum_threshold),
    ) {
        (Some(position), Some(twice), Some(m), Some(t)) => Some(
            SignalView {
                stop_loss: Some(position.stop_loss),
                take_profit: Some(position.take_profit),
                reason: "Bullish momentum: "@ + m + "% (threshold: "@ + t + "%)"@,
                ..base_signal(
                    params,
                    market,
                    OrderSide::Buy,
                    SignalType::Entry,
                    if momentum.gt(twice) {
                        SignalStrength::Strong
                    } else {
                        SignalStrength::Medium
                    },
                    price,
                    now,
                )
            },
        ),
        _ => None,
    }
}

/// The exit on a momentum below the negated threshold, for a market in
/// which a position is held: a sell, strong beyond twice the threshold.
pub open spec fn bearish_signal(
    params: MomentumParams,
    market: MarketSnapshotView,
    price: Decimal,
    momentum: Decimal,
    holds: bool,
    now: Timestamp,
) -> Option<SignalView> {
    match (
        decimal_product(params.momentum_threshold.neg(), Decimal::of(2, 0)),
        percent_text(momentum),
    ) {
        (Some(twice), Some(m)) => if holds {
            Some(
                SignalView {
                    reason: "Bearish momentum: "@ + m + "%"@,
                    ..base_signal(
                        params,
                        market,
                        OrderSide::Sell,
                        SignalType::Exit,
                        if momentum.lt(twice) {
                            SignalStrength::Strong
                        } else {
                            SignalStrength::Medium
                        },
                        price,
                        now,
                    )
                },
            )
        } else {
            None
        },
        _ => None,
    }
}

/// Whether the strategy looks at a market at all: it is active and has the
/// volume asked for.
pub open spec fn eligible(params: MomentumParams, market: MarketSnapshotView) -> bool {
    market.status == MarketStatus::Active && !market.volume_24h.lt(params.min_volume)
}

/// What the strategy proposes for one market. A tracked position is first
/// held against its stop and its target; only where neither is reached is
/// the momentum looked at, and then a tracked market gets nothing.
pub open spec fn decision(
    params: MomentumParams,
    held: Option<MomentumPosition>,
    market: MarketSnapshotView,
    short: Option<Decimal>,
    long: Option<Decimal>,
    holds: bool,
    now: Timestamp,
) -> Option<SignalView> {
    if !eligible(params, market) {
        None
    } else {
        match market.yes_price() {
            Some(price) => if held matches Some(p) && exit_trigger(p, price) is Some {
                Some(
                    exit_signal(
                        params,
                        held->0,
                        market,
                        price,
                        exit_trigger(held->0, price)->0,
                        now,
                    ),
                )
            } else {
                match momentum_of(short, long) {
                    Some(momentum) => if held is Some {
                        None
                    } else if momentum.gt(params.momentum_threshold) {
                        bullish_signal(params, market, price, momentum, now)
                    } else if momentum.lt(params.momentum_threshold.neg()) {
                        bearish_signal(params, market, price, momentum, holds, now)
                    } else {
                        None
                    },
                    None => None,
                }
            },
            None => None,
        }
    }
}

/// The signals for the first `n` markets of a context, in order.
pub open spec fn evaluation(
    params: MomentumParams,
    positions: Seq<(Seq<char>, MomentumPosition)>,
    ctx: &StrategyContext,
    n: nat,
) -> Seq<SignalView>
    decreases n,
{
    if n == 0 {
        Seq::empty()
    } else {
        let before = evaluation(params, positions, ctx, (n - 1) as nat);
        let market = ctx.markets@[n - 1].1@;
        match decision(
            params,
            lookup(positions, market.condition_id),
            market,
            ctx.spec_ema(market.condition_id, params.short_ema_periods),
            ctx.spec_ema(market.condition_id, params.long_ema_periods),
            holds_market(ctx.positions@, market.condition_id),
            ctx.timestamp,
        ) {
            Some(signal) => before.push(signal),
            None => before,
        }
    }
}

/// The positions tracked after a signal was executed: an entry opens one at
/// the signal's price, any kind of exit closes the one of its market, a
/// failed execution changes nothing.
pub open spec fn after_execution(
    params: MomentumParams,
    positions: Seq<(Seq<char>, MomentumPosition)>,
    signal: SignalView,
    success: bool,
) -> Seq<(Seq<char>, MomentumPosition)> {
    if !success {
        positions
    } else if signal.signal_type == SignalType::Entry {
        match opened(
            params,
            match signal.price {
                Some(p) => p,
                None => Decimal::of(0, 0),
            },
            signal.side,
        ) {
            Some(position) => put(positions, signal.market_id, position),
            None => positions,
        }
    } else if signal.signal_type == SignalType::Exit || signal.signal_type == SignalType::StopLoss
        || signal.signal_type == SignalType::TakeProfit {
        without(positions, signal.market_id)
    } else {
        positions
    }
}

/// A bought position entered at `entry` has its stop at
/// `entry * (1 - stop_loss_pct)` and its target at
/// `entry * (1 + take_profit_pct)`. It is left for the stop exactly where
/// the price is at or below the stop, and for the target exactly where the
/// price is above the stop and at or above the target: never for both. In a
/// market the strategy looks at, that exit is all it proposes, whatever the
/// momentum is.
pub proof fn lemma_stop_and_target(
    params: MomentumParams,
    positions: Seq<(Seq<char>, MomentumPosition)>,
    entry_signal: SignalView,
    entry: Decimal,
    market: MarketSnapshotView,
    price: Decimal,
    short: Option<Decimal>,
    long: Option<Decimal>,
    holds: bool,
    now: Timestamp,
)
    requires
        crate::collections::distinct_keys(positions),
        entry_signal.signal_type == SignalType::Entry,
        entry_signal.side == OrderSide::Buy,
        entry_signal.price == Some(entry),
        opened(params, entry, OrderSide::Buy) is Some,
        eligible(params, market),
        market.yes_price() == Some(price),
    ensures
        ({
            let position = opened(params, entry, OrderSide::Buy)->0;
            let held = lookup(
                after_execution(params, positions, entry_signal, true),
                entry_signal.market_id,
            );
            &&& held == Some(position)
            &&& Some(position.stop_loss) == lowered(entry, params.stop_loss_pct)
            &&& Some(position.take_profit) == raised(entry, params.take_profit_pct)
            &&& exit_trigger(position, price) == Some(SignalType::StopLoss) <==> price.le(
                position.stop_loss,
            )
            &&& exit_trigger(position, price) == Some(SignalType::TakeProfit) <==> !price.le(
                position.stop_loss,
            ) && price.ge(position.take_profit)
            &&& exit_trigger(position, price) matches Some(exit_type) ==> decision(
                params,
                Some(position),
                market,
                short,
                long,
                holds,
                now,
            ) == Some(exit_signal(params, position, market, price, exit_type, now))
        }),
{
    let position = opened(params, entry, OrderSide::Buy)->0;
    lemma_put(positions, entry_signal.market_id, position);
}

/// What is proposed for a market bears the market's id. For a market in
/// which a position is tracked it is the exit at the stop or at the target,
/// or nothing: never an entry.
pub proof fn lemma_decision_is_for_its_market(
    params: MomentumParams,
    held: Option<MomentumPosition>,
    market: MarketSnapshotView,
    short: Option<Decimal>,
    long: Option<Decimal>,
    holds: bool,
    now: Timestamp,
)
    ensures
        decision(params, held, market, short, long, holds, now) matches Some(s) ==> (s.market_id
            == market.condition_id && (held is Some ==> s.signal_type == SignalType::StopLoss
            || s.signal_type == SignalType::TakeProfit)),
{
}

/// Markets that bear other ids propose nothing for `id`.
pub proof fn lemma_other_markets(
    params: MomentumParams,
    positions: Seq<(Seq<char>, MomentumPosition)>,
    ctx: &StrategyContext,
    n: nat,
    id: Seq<char>,
)
    requires
        n <= ctx.markets@.len(),
        forall|k: int| 0 <= k < n ==> (#[trigger] ctx.markets@[k]).1@.condition_id != id,
    ensures
        forall|b: int|
            0 <= b < evaluation(params, positions, ctx, n).len() ==> (#[trigger] evaluation(
                params,
                positions,
                ctx,
                n,
            )[b]).market_id != id,
    decreases n,
{
    if n > 0 {
        lemma_other_markets(params, positions, ctx, (n - 1) as nat, id);
        let before = evaluation(params, positions, ctx, (n - 1) as nat);
        let after = evaluation(params, positions, ctx, n);
        let market = ctx.markets@[n - 1].1@;
        assert(ctx.markets@[n - 1].1@.condition_id != id);
        lemma_decision_is_for_its_market(
            params,
            lookup(positions, market.condition_id),
            market,
            ctx.spec_ema(market.condition_id, params.short_ema_periods),
            ctx.spec_ema(market.condition_id, params.long_ema_periods),
            holds_market(ctx.positions@, market.condition_id),
            ctx.timestamp,
        );
        assert forall|b: int| 0 <= b < after.len() implies (#[trigger] after[b]).market_id != id by {
            if b < before.len() {
                assert(after[b] == before[b]);
            }
        }
    }
}

/// The stop and the target come before everything else, and exclude each
/// other. Where the market at the place `j` is the only one of the first
/// `n` that bears its id, the strategy looks at it, and a position is
/// tracked for it whose stop or target the price has reached, the
/// evaluation of those markets holds that one exit, behind the signals of
/// the markets before it, and no other signal for that market: neither the
/// other exit nor an entry, whatever the momentum is.
pub proof fn lemma_exit_of_a_tracked_position(
    params: MomentumParams,
    positions: Seq<(Seq<char>, MomentumPosition)>,
    ctx: &StrategyContext,
    n: nat,
    j: int,
    position: MomentumPosition,
    price: Decimal,
    exit_type: SignalType,
)
    requires
        0 <= j < n <= ctx.markets@.len(),
        forall|k: int|
            0 <= k < n && k != j ==> (#[trigger] ctx.markets@[k]).1@.condition_id
                != ctx.markets@[j].1@.condition_id,
        lookup(positions, ctx.markets@[j].1@.condition_id) == Some(position),
        eligible(params, ctx.markets@[j].1@),
        ctx.markets@[j].1@.yes_price() == Some(price),
        exit_trigger(position, price) == Some(exit_type),
    ensures
        exit_type == SignalType::StopLoss || exit_type == SignalType::TakeProfit,
        position.side == OrderSide::Buy ==> (exit_type == SignalType::StopLoss <==> price.le(
            position.stop_loss,
        )),
        position.side == OrderSide::Sell ==> (exit_type == SignalType::StopLoss <==> price.ge(
            position.stop_loss,
        )),
        only_at(
            evaluation(params, positions, ctx, n),
            exit_signal(params, position, ctx.markets@[j].1@, price, exit_type, ctx.timestamp),
            evaluation(params, positions, ctx, j as nat).len() as int,
        ),
    decreases n,
{
    let id = ctx.markets@[j].1@.condition_id;
    let exit = exit_signal(params, position, ctx.markets@[j].1@, price, exit_type, ctx.timestamp);
    let market = ctx.markets@[n - 1].1@;
    let before = evaluation(params, positions, ctx, (n - 1) as nat);
    let after = evaluation(params, positions, ctx, n);
    let a = evaluation(params, positions, ctx, j as nat).len() as int;
    let proposed = decision(
        params,
        lookup(positions, market.condition_id),
        market,
        ctx.spec_ema(market.condition_id, params.short_ema_periods),
        ctx.spec_ema(market.condition_id, params.long_ema_periods),
        holds_market(ctx.positions@, market.condition_id),
        ctx.timestamp,
    );
    lemma_decision_is_for_its_market(
        params,
        lookup(positions, market.condition_id),
        market,
        ctx.spec_ema(market.condition_id, params.short_ema_periods),
        ctx.spec_ema(market.condition_id, params.long_ema_periods),
        holds_market(ctx.positions@, market.condition_id),
        ctx.timestamp,
    );
    if n - 1 == j {
        lemma_other_markets(params, positions, ctx, (n - 1) as nat, id);
        assert(proposed == Some(exit));
        assert(after == before.push(exit));
        assert forall|b: int|
            0 <= b < after.len() && (#[trigger] after[b]).market_id == exit.market_id implies b
            == a by {
            if b < a {
                assert(after[b] == before[b]);
            }
        }
    } else {
        lemma_exit_of_a_tracked_position(
            params,
            positions,
            ctx,
            (n - 1) as nat,
            j,
            position,
            price,
            exit_type,
        );
        assert(ctx.markets@[n - 1].1@.condition_id != id);
        match proposed {
            Some(signal) => {
                assert(after == before.push(signal));
                assert(signal.market_id != id);
                assert(after[a] == before[a]);
                assert forall|b: int|
                    0 <= b < after.len() && (#[trigger] after[b]).market_id
                        == exit.market_id implies b == a by {
                    if b < before.len() {
                        assert(after[b] == before[b]);
                    }
                }
            },
            None => {
                assert(after == before);
            },
        }
    }
}

impl MomentumStrategy {
    /// The tunable figures.
    pub closed spec fn params(&self) -> MomentumParams {
        self.params
    }

    /// The tracked positions, by market.
    pub closed spec fn held(&self) -> Seq<(Seq<char>, MomentumPosition)> {
        self.positions@
    }

    /// The figures the strategy starts with.
    pub open spec fn default_params() -> MomentumParams {
        MomentumParams {
            short_ema_periods: 9,
            long_ema_periods: 21,
            momentum_threshold: Decimal::of(5, 2),
            position_size: Decimal::of(10, 0),
            min_volume: Decimal::of(500, 0),
            stop_loss_pct: Decimal::of(10, 2),
            take_profit_pct: Decimal::of(20, 2),
        }
    }

    /// The strategy with averages over 9 and 21 points, a threshold of
    /// 0.05, a size of 10, a minimum volume of 500, a stop at 0.10 and a
    /// target at 0.20, tracking nothing.
    pub fn new() -> (r: Self)
        ensures
            r.params() == Self::default_params(),
            r.held().len() == 0,
            distinct_keys(r.held()),
    {
        MomentumStrategy {
            params: MomentumParams {
                short_ema_periods: 9,
                long_ema_periods: 21,
                momentum_threshold: Decimal::new(5, 2),
                position_size: Decimal::new(10, 0),
                min_volume: Decimal::new(500, 0),
                stop_loss_pct: Decimal::new(10, 2),
                take_profit_pct: Decimal::new(20, 2),
            },
            positions: TextMap::new(),
        }
    }

    pub fn with_short_ema(self, periods: usize) -> (r: Self)
        ensures
            r.params() == (MomentumParams { short_ema_periods: periods, ..self.params() }),
            r.held() == self.held(),
    {
        let mut s = self;
        s.params.short_ema_periods = periods;
        s
    }

    pub fn with_long_ema(self, periods: usize) -> (r: Self)
        ensures
            r.params() == (MomentumParams { long_ema_periods: periods, ..self.params() }),
            r.held() == self.held(),
    {
        let mut s = self;
        s.params.long_ema_periods = periods;
        s
    }

    pub fn with_momentum_threshold(self, threshold: Decimal) -> (r: Self)
        ensures
            r.params() == (MomentumParams { momentum_threshold: threshold, ..self.params() }),
            r.held() == self.held(),
    {
        let mut s = self;
        s.params.momentum_threshold = threshold;
        s
    }

    pub fn with_position_size(self, size: Decimal) -> (r: Self)
        ensures
            r.params() == (MomentumParams { position_size: size, ..self.params() }),
            r.held() == self.held(),
    {
        let mut s = self;
        s.params.position_size = size;
        s
    }

    pub fn with_stop_loss(self, pct: Decimal) -> (r: Self)
        ensures
            r.params() == (MomentumParams { stop_loss_pct: pct, ..self.params() }),
            r.held() == self.held(),
    {
        let mut s = self;
        s.params.stop_loss_pct = pct;
        s
    }

    pub fn with_take_profit(self, pct: Decimal) -> (r: Self)
        ensures
            r.params() == (MomentumParams { take_profit_pct: pct, ..self.params() }),
            r.held() == self.held(),
    {
        let mut s = self;
        s.params.take_profit_pct = pct;
        s
    }

    fn calculate_momentum(&self, ctx: &StrategyContext, condition_id: &str) -> (r: Option<Decimal>)
        ensures
            r == momentum_of(
                ctx.spec_ema(condition_id@, self.params().short_ema_periods),
                ctx.spec_ema(condition_id@, self.params().long_ema_periods),
            ),
    {
        let short_ema = match ctx.ema(condition_id, self.params.short_ema_periods) {
            Some(e) => e,
            None => {
                return None;
            },
        };
        let long_ema = match ctx.ema(condition_id, self.params.long_ema_periods) {
            Some(e) => e,
            None => {
                return None;
            },
        };
        if long_ema.is_zero() {
            return None;
        }
        match short_ema.checked_sub(long_ema) {
            Some(d) => d.checked_div(long_ema),
            None => None,
        }
    }

    /// Whether `position` is to be left at `current_price`, and why.
    pub fn check_stop_loss_take_profit(position: &MomentumPosition, current_price: Decimal) -> (r:
        Option<SignalType>)
        ensures
            r == exit_trigger(*position, current_price),
    {
        match position.side {
            OrderSide::Buy => {
                if current_price.is_le(position.stop_loss) {
                    Some(SignalType::StopLoss)
                } else if current_price.is_ge(position.take_profit) {
                    Some(SignalType::TakeProfit)
                } else {
                    None
                }
            },
            OrderSide::Sell => {
                if current_price.is_ge(position.stop_loss) {
                    Some(SignalType::StopLoss)
                } else if current_price.is_le(position.take_profit) {
                    Some(SignalType::TakeProfit)
                } else {
                    None
                }
            },
        }
    }

    fn lower(price: Decimal, part: Decimal) -> (r: Option<Decimal>)
        ensures
            r == lowered(price, part),
    {
        match Decimal::one().checked_sub(part) {
            Some(f) => price.checked_mul(f),
            None => None,
        }
    }

    fn raise(price: Decimal, part: Decimal) -> (r: Option<Decimal>)
        ensures
            r == raised(price, part),
    {
        match Decimal::one().checked_add(part) {
            Some(f) => price.checked_mul(f),
            None => None,
        }
    }

    fn open(&self, price: Decimal, side: OrderSide) -> (r: Option<MomentumPosition>)
        ensures
            r == opened(self.params(), price, side),
    {
        let levels = match side {
            OrderSide::Buy => (
                Self::lower(price, self.params.stop_loss_pct),
                Self::raise(price, self.params.take_profit_pct),
            ),
            OrderSide::Sell => (
                Self::raise(price, self.params.stop_loss_pct),
                Self::lower(price, self.params.take_profit_pct),
            ),
        };
        match levels {
            (Some(stop_loss), Some(take_profit)) => Some(
                MomentumPosition { entry_price: price, side, stop_loss, take_profit },
            ),
            _ => None,
        }
    }

    fn start_signal(
        &self,
        market: &MarketSnapshot,
        side: OrderSide,
        signal_type: SignalType,
        strength: SignalStrength,
        price: Decimal,
        now: Timestamp,
    ) -> (r: Signal)
        ensures
            r@ == base_signal(self.params(), market@, side, signal_type, strength, price, now),
    {
        let token = market.first_token();
        Signal::new_at(
            market.condition_id.as_str(),
            token.as_str(),
            side,
            self.params.position_size,
            now,
        ).with_strategy("momentum").with_type(signal_type).with_strength(strength).with_price(price)
    }

    fn propose_exit(
        &self,
        position: &MomentumPosition,
        market: &MarketSnapshot,
        price: Decimal,
        exit_type: SignalType,
        now: Timestamp,
    ) -> (r: Signal)
        requires
            exit_type == SignalType::StopLoss || exit_type == SignalType::TakeProfit,
        ensures
            r@ == exit_signal(self.params(), *position, market@, price, exit_type, now),
    {
        let at = price.to_fixed_or_plain(4);
        let entry = position.entry_price.to_fixed_or_plain(4);
        let (strength, reason) = match exit_type {
            SignalType::StopLoss => (
                SignalStrength::VeryStrong,
                "Stop loss triggered at ".to_owned().concat(at.as_str()).concat(" (entry: ").concat(
                    entry.as_str(),
                ).concat(")"),
            ),
            _ => (
                SignalStrength::Strong,
                "Take profit triggered at ".to_owned().concat(at.as_str()).concat(" (entry: ").concat(
                    entry.as_str(),
                ).concat(")"),
            ),
        };
        self.start_signal(market, position.side.opposite(), exit_type, strength, price, now).with_reason(
            reason,
        )
    }

    fn propose_bullish(&self, market: &MarketSnapshot, price: Decimal, momentum: Decimal, now: Timestamp) -> (r:
        Option<Signal>)
        ensures
            match r {
                Some(s) => bullish_signal(self.params(), market@, price, momentum, now) == Some(s@),
                None => bullish_signal(self.params(), market@, price, momentum, now) is None,
            },
    {
        let (position, twice, m, t) = match (
            self.open(price, OrderSide::Buy),
            self.params.momentum_threshold.checked_mul(Decimal::two()),
            percent_to_text(momentum),
            percent_to_text(self.params.momentum_threshold),
        ) {
            (Some(position), Some(twice), Some(m), Some(t)) => (position, twice, m, t),
            _ => {
                return None;
            },
        };
        let strength = if momentum.is_gt(twice) {
            SignalStrength::Strong
        } else {
            SignalStrength::Medium
        };
        let reason = "Bullish momentum: ".to_owned().concat(m.as_str()).concat("% (threshold: ").concat(
            t.as_str(),
        ).concat("%)");
        Some(
            self.start_signal(market, OrderSide::Buy, SignalType::Entry, strength, price, now).with_stop_loss(
                position.stop_loss,
            ).with_take_profit(position.take_profit).with_reason(reason),
        )
    }

    fn propose_bearish(
        &self,
        market: &MarketSnapshot,
        price: Decimal,
        momentum: Decimal,
        ctx: &StrategyContext,
    ) -> (r: Option<Signal>)
        ensures
            match r {
                Some(s) => bearish_signal(
                    self.params(),
                    market@,
                    price,
                    momentum,
                    holds_market(ctx.positions@, market@.condition_id),
                    ctx.timestamp,
                ) == Some(s@),
                None => bearish_signal(
                    self.params(),
                    market@,
                    price,
                    momentum,
                    holds_market(ctx.positions@, market@.condition_id),
                    ctx.timestamp,
                ) is None,
            },
    {
        let (twice, m) = match (
            self.params.momentum_threshold.neg().checked_mul(Decimal::two()),
            percent_to_text(momentum),
        ) {
            (Some(twice), Some(m)) => (twice, m),
            _ => {
                return None;
            },
        };
        let strength = if momentum.is_lt(twice) {
            SignalStrength::Strong
        } else {
            SignalStrength::Medium
        };
        if !ctx.has_position_in_market(market.condition_id.as_str()) {
            return None;
        }
        let reason = "Bearish momentum: ".to_owned().concat(m.as_str()).concat("%");
        Some(
            self.start_signal(
                market,
                OrderSide::Sell,
                SignalType::Exit,
                strength,
                price,
                ctx.timestamp,
            ).with_reason(reason),
        )
    }

    fn decide(&self, market: &MarketSnapshot, ctx: &StrategyContext) -> (r: Option<Signal>)
        ensures
            match r {
                Some(s) => decision(
                    self.params(),
                    lookup(self.held(), market@.condition_id),
                    market@,
                    ctx.spec_ema(market@.condition_id, self.params().short_ema_periods),
                    ctx.spec_ema(market@.condition_id, self.params().long_ema_periods),
                    holds_market(ctx.positions@, market@.condition_id),
                    ctx.timestamp,
                ) == Some(s@),
                None => decision(
                    self.params(),
                    lookup(self.held(), market@.condition_id),
                    market@,
                    ctx.spec_ema(market@.condition_id, self.params().short_ema_periods),
                    ctx.spec_ema(market@.condition_id, self.params().long_ema_periods),
                    holds_market(ctx.positions@, market@.condition_id),
                    ctx.timestamp,
                ) is None,
            },
    {
        if market.status != MarketStatus::Active {
            return None;
        }
        if market.volume_24h.is_lt(self.params.min_volume) {
            return None;
        }
        let price = match market.yes_price() {
            Some(p) => p,
            None => {
                return None;
            },
        };
        let held = self.positions.get(market.condition_id.as_str());
        if let Some(position) = held {
            if let Some(exit_type) = Self::check_stop_loss_take_profit(position, price) {
                return Some(self.propose_exit(position, market, price, exit_type, ctx.timestamp));
            }
        }
        let momentum = match self.calculate_momentum(ctx, market.condition_id.as_str()) {
            Some(m) => m,
            None => {
                return None;
            },
        };
        if held.is_some() {
            return None;
        }
        if momentum.is_gt(self.params.momentum_threshold) {
            self.propose_bullish(market, price, momentum, ctx.timestamp)
        } else if momentum.is_lt(self.params.momentum_threshold.neg()) {
            self.propose_bearish(market, price, momentum, ctx)
        } else {
            None
        }
    }
}

/// The figures after a configuration was read: every parameter that the
/// configuration names, of the right type and within its range. There are
/// none where one parameter is of the wrong type or out of its range.
pub open spec fn initialized(params: MomentumParams, configured: Seq<(Seq<char>, ParameterValue)>) -> Option<
    MomentumParams,
> {
    match (
        configured_count(lookup(configured, "short_ema_periods"@), params.short_ema_periods, 3, 50),
        configured_count(lookup(configured, "long_ema_periods"@), params.long_ema_periods, 10, 100),
        configured_decimal(
            lookup(configured, "momentum_threshold"@),
            params.momentum_threshold,
            Decimal::of(1, 2),
            Decimal::of(30, 2),
        ),
        configured_decimal(
            lookup(configured, "position_size"@),
            params.position_size,
            Decimal::of(1, 0),
            Decimal::of(1000, 0),
        ),
        configured_decimal(
            lookup(configured, "stop_loss_pct"@),
            params.stop_loss_pct,
            Decimal::of(2, 2),
            Decimal::of(50, 2),
        ),
        configured_decimal(
            lookup(configured, "take_profit_pct"@),
            params.take_profit_pct,
            Decimal::of(5, 2),
            Decimal::of(1, 0),
        ),
        configured_decimal(
            lookup(configured, "min_volume"@),
            params.min_volume,
            Decimal::of(0, 0),
            Decimal::of(100000, 0),
        ),
    ) {
        (
            Some(short_ema_periods),
            Some(long_ema_periods),
            Some(momentum_threshold),
            Some(position_size),
            Some(stop_loss_pct),
            Some(take_profit_pct),
            Some(min_volume),
        ) => Some(
            MomentumParams {
                short_ema_periods,
                long_ema_periods,
                momentum_threshold,
                position_size,
                min_volume,
                stop_loss_pct,
                take_profit_pct,
            },
        ),
        _ => None,
    }
}

/// The figures after one parameter was set by hand, or the complaint.
pub open spec fn with_parameter(params: MomentumParams, name: Seq<char>, value: ParameterValue) -> core::result::Result<
    MomentumParams,
    Seq<char>,
> {
    if name == "short_ema_periods"@ {
        match count_of(value) {
            Some(v) => Ok(MomentumParams { short_ema_periods: v, ..params }),
            None => Err("Expected integer"@),
        }
    } else if name == "long_ema_periods"@ {
        match count_of(value) {
            Some(v) => Ok(MomentumParams { long_ema_periods: v, ..params }),
            None => Err("Expected integer"@),
        }
    } else if name == "momentum_threshold"@ {
        match value.as_decimal() {
            Some(v) => Ok(MomentumParams { momentum_threshold: v, ..params }),
            None => Err("Expected decimal"@),
        }
    } else if name == "stop_loss_pct"@ {
        match value.as_decimal() {
            Some(v) => Ok(MomentumParams { stop_loss_pct: v, ..params }),
            None => Err("Expected decimal"@),
        }
    } else if name == "take_profit_pct"@ {
        match value.as_decimal() {
            Some(v) => Ok(MomentumParams { take_profit_pct: v, ..params }),
            None => Err("Expected decimal"@),
        }
    } else if name == "position_size"@ {
        match value.as_decimal() {
            Some(v) => Ok(MomentumParams { position_size: v, ..params }),
            None => Err("Expected decimal"@),
        }
    } else if name == "min_volume"@ {
        match value.as_decimal() {
            Some(v) => Ok(MomentumParams { min_volume: v, ..params }),
            None => Err("Expected decimal"@),
        }
    } else {
        Err("Unknown parameter"@)
    }
}

impl Strategy for MomentumStrategy {
    open spec fn name_text(&self) -> Seq<char> {
        "momentum"@
    }

    fn name(&self) -> (r: &str) {
        "momentum"
    }

    fn metadata(&self) -> (r: StrategyMetadata)
        ensures
            r.name@ == "Momentum"@,
            r.description@ == "Trend-following strategy using EMA crossovers to identify momentum"@,
            r.version@ == "1.0.0"@,
            r.author matches Some(a) && a@ == "Clobster"@,
            r.tags@.len() == 2,
            r.tags@[0]@ == "momentum"@,
            r.tags@[1]@ == "trend-following"@,
    {
        let mut tags: Vec<String> = Vec::new();
        tags.push("momentum".to_owned());
        tags.push("trend-following".to_owned());
        StrategyMetadata {
            name: "Momentum".to_owned(),
            description: "Trend-following strategy using EMA crossovers to identify momentum".to_owned(),
            version: "1.0.0".to_owned(),
            author: Some("Clobster".to_owned()),
            tags,
        }
    }

    /// Takes from `config` every parameter that it names. A parameter of the
    /// wrong type or out of its range is an invalid input, and then nothing
    /// is taken.
    fn initialize(&mut self, config: &StrategyConfig) -> (r: Result<()>)
        ensures
            final(self).held() == old(self).held(),
            match r {
                Ok(()) => Some(final(self).params()) == initialized(
                    old(self).params(),
                    config.parameters@,
                ),
                Err(e) => initialized(old(self).params(), config.parameters@) is None && e.is_invalid_input(
                    "Parameter of the wrong type or out of range"@,
                ) && final(self).params() == old(self).params(),
            },
    {
        let read = (
            read_count(&config.parameters, "short_ema_periods", self.params.short_ema_periods, 3, 50),
            read_count(&config.parameters, "long_ema_periods", self.params.long_ema_periods, 10, 100),
            read_decimal(
                &config.parameters,
                "momentum_threshold",
                self.params.momentum_threshold,
                Decimal::new(1, 2),
                Decimal::new(30, 2),
            ),
            read_decimal(
                &config.parameters,
                "position_size",
                self.params.position_size,
                Decimal::new(1, 0),
                Decimal::new(1000, 0),
            ),
            read_decimal(
                &config.parameters,
                "stop_loss_pct",
                self.params.stop_loss_pct,
                Decimal::new(2, 2),
                Decimal::new(50, 2),
            ),
            read_decimal(
                &config.parameters,
                "take_profit_pct",
                self.params.take_profit_pct,
                Decimal::new(5, 2),
                Decimal::new(1, 0),
            ),
            read_decimal(
                &config.parameters,
                "min_volume",
                self.params.min_volume,
                Decimal::new(0, 0),
                Decimal::new(100000, 0),
            ),
        );
        match read {
            (
                Some(short_ema_periods),
                Some(long_ema_periods),
                Some(momentum_threshold),
                Some(position_size),
                Some(stop_loss_pct),
                Some(take_profit_pct),
                Some(min_volume),
            ) => {
                self.params = MomentumParams {
                    short_ema_periods,
                    long_ema_periods,
                    momentum_threshold,
                    position_size,
                    min_volume,
                    stop_loss_pct,
                    take_profit_pct,
                };
                Ok(())
            },
            _ => Err(Error::invalid_input("Parameter of the wrong type or out of range")),
        }
    }

    /// The signals for the markets of `ctx`, in their order. Nothing that
    /// the strategy tracks changes.
    fn evaluate(&mut self, ctx: &StrategyContext) -> (r: Vec<Signal>)
        ensures
            distinct_keys(old(self).held()),
            distinct_keys(final(self).held()),
            final(self).params() == old(self).params(),
            final(self).held() == old(self).held(),
            r.deep_view() == evaluation(
                old(self).params(),
                old(self).held(),
                ctx,
                ctx.markets@.len(),
            ),
    {
        proof {
            use_type_invariant(&self.positions);
        }
        let n = ctx.markets.len();
        let mut signals: Vec<Signal> = Vec::new();
        let mut i: usize = 0;
        proof {
            assert(signals.deep_view() =~= Seq::<SignalView>::empty());
        }
        while i < n
            invariant
                i <= n == ctx.markets@.len(),
                distinct_keys(old(self).held()),
                signals.deep_view() == evaluation(self.params(), self.held(), ctx, i as nat),
            decreases n - i,
        {
            let market = ctx.markets.value_at(i);
            let ghost before = signals.deep_view();
            match self.decide(market, ctx) {
                Some(signal) => {
                    signals.push(signal);
                    proof {
                        assert(signals.deep_view() =~= before.push(signal@));
                    }
                },
                None => {},
            }
            i += 1;
        }
        proof {
            use_type_invariant(&self.positions);
        }
        signals
    }

    /// Tracks the position of an executed entry and drops the position of
    /// an executed exit.
    fn on_signal_executed(&mut self, signal: &Signal, success: bool)
        ensures
            distinct_keys(old(self).held()),
            distinct_keys(final(self).held()),
            final(self).params() == old(self).params(),
            final(self).held() == after_execution(
                old(self).params(),
                old(self).held(),
                signal@,
                success,
            ),
    {
        proof {
            use_type_invariant(&self.positions);
        }
        if !success {
            return ;
        }
        match signal.signal_type {
            SignalType::Entry => {
                let entry_price = match signal.price {
                    Some(p) => p,
                    None => Decimal::zero(),
                };
                match self.open(entry_price, signal.side) {
                    Some(position) => {
                        self.positions.insert(signal.market_id.clone(), position);
                    },
                    None => {},
                }
            },
            SignalType::Exit | SignalType::StopLoss | SignalType::TakeProfit => {
                self.positions.remove(signal.market_id.as_str());
            },
            _ => {},
        }
        proof {
            use_type_invariant(&self.positions);
        }
    }

    /// The seven parameters: the periods of the two averages, the
    /// threshold, the stop, the target, the size and the minimum volume.
    fn parameters(&self) -> (r: TextMap<ParameterDef>)
        ensures
            r@.len() == 7,
            r@[0].0 == "short_ema_periods"@,
            declares(
                r@[0].1,
                "short_ema_periods"@,
                "Periods for short-term EMA"@,
                ParameterType::Integer,
                ParameterValue::Integer(9),
                ParameterValue::Integer(3),
                ParameterValue::Integer(50),
            ),
            r@[1].0 == "long_ema_periods"@,
            declares(
                r@[1].1,
                "long_ema_periods"@,
                "Periods for long-term EMA"@,
                ParameterType::Integer,
                ParameterValue::Integer(21),
                ParameterValue::Integer(10),
                ParameterValue::Integer(100),
            ),
            r@[2].0 == "momentum_threshold"@,
            declares(
                r@[2].1,
                "momentum_threshold"@,
                "Minimum momentum for entry signal"@,
                ParameterType::Float,
                float_of(0, 5, 2),
                float_of(0, 1, 2),
                float_of(0, 30, 2),
            ),
            r@[3].0 == "stop_loss_pct"@,
            declares(
                r@[3].1,
                "stop_loss_pct"@,
                "Stop loss percentage"@,
                ParameterType::Float,
                float_of(0, 10, 2),
                float_of(0, 2, 2),
                float_of(0, 50, 2),
            ),
            r@[4].0 == "take_profit_pct"@,
            declares(
                r@[4].1,
                "take_profit_pct"@,
                "Take profit percentage"@,
                ParameterType::Float,
                float_of(0, 20, 2),
                float_of(0, 5, 2),
                float_of(1, 1, 0),
            ),
            r@[5].0 == "position_size"@,
            declares(
                r@[5].1,
                "position_size"@,
                "Default position size in USDC"@,
                ParameterType::Decimal,
                ParameterValue::Decimal(Decimal::of(10, 0)),
                ParameterValue::Decimal(Decimal::of(1, 0)),
                ParameterValue::Decimal(Decimal::of(1000, 0)),
            ),
            r@[6].0 == "min_volume"@,
            declares(
                r@[6].1,
                "min_volume"@,
                "Minimum market volume required for trading"@,
                ParameterType::Decimal,
                ParameterValue::Decimal(Decimal::of(500, 0)),
                ParameterValue::Decimal(Decimal::of(0, 0)),
                ParameterValue::Decimal(Decimal::of(100000, 0)),
            ),
    {
        let mut params: TextMap<ParameterDef> = TextMap::new();
        proof {
            reveal_strlit("short_ema_periods");
            reveal_strlit("long_ema_periods");
            reveal_strlit("momentum_threshold");
            reveal_strlit("stop_loss_pct");
            reveal_strlit("take_profit_pct");
            reveal_strlit("position_size");
            reveal_strlit("min_volume");
            assert("short_ema_periods"@.len() == 17);
            assert("long_ema_periods"@.len() == 16);
            assert("momentum_threshold"@.len() == 18);
            assert("stop_loss_pct"@.len() == 13);
            assert("take_profit_pct"@.len() == 15);
            assert("position_size"@.len() == 13);
            assert("min_volume"@.len() == 10);
            assert("position_size"@[0] != "stop_loss_pct"@[0]);
        }
        params.push_new(
            "short_ema_periods".to_owned(),
            declare(
                "short_ema_periods",
                "Periods for short-term EMA",
                ParameterType::Integer,
                ParameterValue::Integer(9),
                ParameterValue::Integer(3),
                ParameterValue::Integer(50),
            ),
        );
        proof {
            assert forall|k: Seq<char>| has_key(params@, k) implies k.len() == 17 by {}
        }
        params.push_new(
            "long_ema_periods".to_owned(),
            declare(
                "long_ema_periods",
                "Periods for long-term EMA",
                ParameterType::Integer,
                ParameterValue::Integer(21),
                ParameterValue::Integer(10),
                ParameterValue::Integer(100),
            ),
        );
        proof {
            assert forall|k: Seq<char>| has_key(params@, k) implies k.len() == 17 || k.len()
                == 16 by {
                let i = crate::collections::index_of(params@, k);
                assert(i == 0 || i == 1);
            }
        }
        params.push_new(
            "momentum_threshold".to_owned(),
            declare(
                "momentum_threshold",
                "Minimum momentum for entry signal",
                ParameterType::Float,
                float_value(0, 5, 2),
                float_value(0, 1, 2),
                float_value(0, 30, 2),
            ),
        );
        proof {
            assert forall|k: Seq<char>| has_key(params@, k) implies k.len() == 17 || k.len() == 16
                || k.len() == 18 by {
                let i = crate::collections::index_of(params@, k);
                assert(i == 0 || i == 1 || i == 2);
            }
        }
        params.push_new(
            "stop_loss_pct".to_owned(),
            declare(
                "stop_loss_pct",
                "Stop loss percentage",
                ParameterType::Float,
                float_value(0, 10, 2),
                float_value(0, 2, 2),
                float_value(0, 50, 2),
            ),
        );
        proof {
            assert forall|k: Seq<char>| has_key(params@, k) implies k.len() == 17 || k.len() == 16
                || k.len() == 18 || k == "stop_loss_pct"@ by {
                let i = crate::collections::index_of(params@, k);
                assert(i == 0 || i == 1 || i == 2 || i == 3);
            }
        }
        params.push_new(
            "take_profit_pct".to_owned(),
            declare(
                "take_profit_pct",
                "Take profit percentage",
                ParameterType::Float,
                float_value(0, 20, 2),
                float_value(0, 5, 2),
                float_value(1, 1, 0),
            ),
        );
        proof {
            assert forall|k: Seq<char>| has_key(params@, k) implies k.len() == 17 || k.len() == 16
                || k.len() == 18 || k.len() == 15 || k == "stop_loss_pct"@ by {
                let i = crate::collections::index_of(params@, k);
                assert(i == 0 || i == 1 || i == 2 || i == 3 || i == 4);
            }
        }
        params.push_new(
            "position_size".to_owned(),
            declare(
                "position_size",
                "Default position size in USDC",
                ParameterType::Decimal,
                ParameterValue::Decimal(Decimal::new(10, 0)),
                ParameterValue::Decimal(Decimal::new(1, 0)),
                ParameterValue::Decimal(Decimal::new(1000, 0)),
            ),
        );
        proof {
            assert forall|k: Seq<char>| has_key(params@, k) implies k.len() == 17 || k.len() == 16
                || k.len() == 18 || k.len() == 15 || k.len() == 13 by {
                let i = crate::collections::index_of(params@, k);
                assert(i == 0 || i == 1 || i == 2 || i == 3 || i == 4 || i == 5);
            }
        }
        params.push_new(
            "min_volume".to_owned(),
            declare(
                "min_volume",
                "Minimum market volume required for trading",
                ParameterType::Decimal,
                ParameterValue::Decimal(Decimal::new(500, 0)),
                ParameterValue::Decimal(Decimal::new(0, 0)),
                ParameterValue::Decimal(Decimal::new(100000, 0)),
            ),
        );
        params
    }

    /// Sets one parameter. An unknown name or a value of the wrong type is
    /// an invalid input, and then nothing changes.
    fn set_parameter(&mut self, name: &str, value: ParameterValue) -> (r: Result<()>)
        ensures
            final(self).held() == old(self).held(),
            match r {
                Ok(()) => Ok::<MomentumParams, Seq<char>>(final(self).params()) == with_parameter(
                    old(self).params(),
                    name@,
                    value,
                ),
                Err(e) => final(self).params() == old(self).params() && (with_parameter(
                    old(self).params(),
                    name@,
                    value,
                ) matches Err(msg) && e.is_invalid_input(msg)),
            },
    {
        if str_eq(name, "short_ema_periods") {
            match to_count(&value) {
                Some(v) => {
                    self.params.short_ema_periods = v;
                    Ok(())
                },
                None => Err(Error::invalid_input("Expected integer")),
            }
        } else if str_eq(name, "long_ema_periods") {
            match to_count(&value) {
                Some(v) => {
                    self.params.long_ema_periods = v;
                    Ok(())
                },
                None => Err(Error::invalid_input("Expected integer")),
            }
        } else if str_eq(name, "momentum_threshold") {
            match value.as_decimal() {
                Some(v) => {
                    self.params.momentum_threshold = v;
                    Ok(())
                },
                None => Err(Error::invalid_input("Expected decimal")),
            }
        } else if str_eq(name, "stop_loss_pct") {
            match value.as_decimal() {
                Some(v) => {
                    self.params.stop_loss_pct = v;
                    Ok(())
                },
                None => Err(Error::invalid_input("Expected decimal")),
            }
        } else if str_eq(name, "take_profit_pct") {
            match value.as_decimal() {
                Some(v) => {
                    self.params.take_profit_pct = v;
                    Ok(())
                },
                None => Err(Error::invalid_input("Expected decimal")),
            }
        } else if str_eq(name, "position_size") {
            match value.as_decimal() {
                Some(v) => {
                    self.params.position_size = v;
                    Ok(())
                },
                None => Err(Error::invalid_input("Expected decimal")),
            }
        } else if str_eq(name, "min_volume") {
            match value.as_decimal() {
                Some(v) => {
                    self.params.min_volume = v;
                    Ok(())
                },
                None => Err(Error::invalid_input("Expected decimal")),
            }
        } else {
            Err(Error::invalid_input("Unknown parameter"))
        }
    }
}

impl Default for MomentumStrategy {
    fn default() -> (r: Self)
        ensures
            r.params() == Self::default_params(),
            r.held().len() == 0,
    {
        Self::new()
    }
}

} // verus!
