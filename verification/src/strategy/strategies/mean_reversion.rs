//! Mean reversion: buy what has fallen below its moving average, sell what
//! has risen above it, and leave when the price is back at the average.

use vstd::prelude::*;
use vstd::string::StringExecFns;
use crate::clock::Timestamp;
use crate::collections::{TextMap, distinct_keys, has_key, lemma_without, lookup, put, without};
use crate::decimal::{Decimal, decimal_difference, decimal_product, decimal_quotient};
use crate::error::{Error, Result};
use crate::state::{MarketStatus, OrderSide};
use crate::strategy::context::{MarketSnapshot, MarketSnapshotView, StrategyContext};
use crate::strategy::signal::{Signal, SignalStrength, SignalType, SignalView, fresh_signal};
use crate::strategy::strategies::{
    configured_count, configured_decimal, count_of, declare, declares, float_of, float_value, only_at, percent_text, percent_to_text, read_count, read_decimal, to_count,
};
use crate::strategy::traits::{
    ParameterDef, ParameterType, ParameterValue, Strategy, StrategyConfig, StrategyMetadata,
};
use crate::text::str_eq;

verus! {

/// What is remembered of an entry.
#[derive(Debug, Clone, Copy)]
pub struct EntryInfo {
    pub entry_price: Decimal,
    pub side: OrderSide,
    /// The moving average at the time of the entry.
    pub ma_at_entry: Decimal,
}

/// The tunable figures of the strategy.
#[derive(Debug, Clone, Copy)]
pub struct MeanReversionParams {
    /// The number of points of the moving average.
    pub ma_periods: usize,
    /// How far the price must be from the average to enter.
    pub entry_threshold: Decimal,
    /// How near the price must be to the average of the entry to leave.
    pub exit_threshold: Decimal,
    /// The size of every signal.
    pub position_size: Decimal,
    /// The liquidity a market must have.
    pub min_liquidity: Decimal,
}

/// The mean reversion strategy.
#[derive(Debug)]
pub struct MeanReversionStrategy {
    params: MeanReversionParams,
    entered_markets: TextMap<EntryInfo>,
}

/// `(current - ma) / ma`, zero where `ma` is zero.
pub open spec fn deviation_of(current: Decimal, ma: Decimal) -> Option<Decimal> {
    if ma.is_zero() {
        Some(Decimal::of(0, 0))
    } else {
        match decimal_difference(current, ma) {
            Some(d) => decimal_quotient(d, ma),
            None => None,
        }
    }
}

/// The signal before the reason is written on it.
pub open spec fn base_signal(
    params: MeanReversionParams,
    market: MarketSnapshotView,
    side: OrderSide,
    signal_type: SignalType,
    strength: SignalStrength,
    price: Decimal,
    now: Timestamp,
) -> SignalView {
    SignalView {
        strategy_name: "mean_reversion"@,
        signal_type,
        strength,
        price: Some(price),
        ..fresh_signal(market.condition_id, market.first_token(), side, params.position_size, now)
    }
}

/// The exit from a tracked entry, due where the price is within the exit
/// threshold of the average at entry.
pub open spec fn exit_signal(
    params: MeanReversionParams,
    entry: EntryInfo,
    market: MarketSnapshotView,
    price: Decimal,
    now: Timestamp,
) -> Option<SignalView> {
    match deviation_of(price, entry.ma_at_entry) {
        Some(exit_deviation) => if exit_deviation.abs().lt(params.exit_threshold) {
            match (percent_text(exit_deviation), percent_text(params.exit_threshold)) {
                (Some(d), Some(t)) => Some(
                    SignalView {
                        reason: "Mean reversion exit: deviation "@ + d + "% (threshold "@ + t
                            + "%)"@,
                        ..base_signal(
                            params,
                            market,
                            entry.side.opposite(),
                            SignalType::Exit,
                            SignalStrength::Medium,
                            price,
                            now,
                        )
                    },
                ),
                _ => None,
            }
        } else {
            None
        },
        None => None,
    }
}

/// The entry into an untracked market, due where the price is further from
/// the average than the entry threshold: a buy below the average, a sell
/// above it, strong beyond twice the threshold.
pub open spec fn entry_signal(
    params: MeanReversionParams,
    market: MarketSnapshotView,
    price: Decimal,
    ma: Decimal,
    deviation: Decimal,
    now: Timestamp,
) -> Option<SignalView> {
    if deviation.abs().gt(params.entry_threshold) {
        let below = deviation.lt(Decimal::of(0, 0));
        let shown = if below {
            percent_text(deviation.abs())
        } else {
            percent_text(deviation)
        };
        match (shown, decimal_product(params.entry_threshold, Decimal::of(2, 0))) {
            (Some(text), Some(twice)) => Some(
                SignalView {
                    reason: if below {
                        "Mean reversion entry: price "@ + text + "% below MA"@
                    } else {
                        "Mean reversion entry: price "@ + text + "% above MA"@
                    },
                    indicators: seq![("ma_at_entry"@, ma)],
                    ..base_signal(
                        params,
                        market,
                        if below {
                            OrderSide::Buy
                        } else {
                            OrderSide::Sell
                        },
                        SignalType::Entry,
                        if deviation.abs().gt(twice) {
                            SignalStrength::Strong
                        } else {
                            SignalStrength::Medium
                        },
                        price,
                        now,
                    )
                },
            ),
            _ => None,
        }
    } else {
        None
    }
}

/// What the strategy proposes for one market: nothing for a market that is
/// not active, lacks liquidity, has no price or no moving average; else an
/// exit where an entry is tracked, an entry where none is.
pub open spec fn decision(
    params: MeanReversionParams,
    entry: Option<EntryInfo>,
    market: MarketSnapshotView,
    ma: Option<Decimal>,
    now: Timestamp,
) -> Option<SignalView> {
    if market.status != MarketStatus::Active || market.liquidity.lt(params.min_liquidity) {
        None
    } else {
        match (market.yes_price(), ma) {
            (Some(price), Some(ma)) => match deviation_of(price, ma) {
                Some(deviation) => match entry {
                    Some(e) => exit_signal(params, e, market, price, now),
                    None => entry_signal(params, market, price, ma, deviation, now),
                },
                None => None,
            },
            _ => None,
        }
    }
}

/// The outcome of an evaluation: the signals, and the entries still
/// tracked.
pub struct Evaluation {
    pub signals: Seq<SignalView>,
    pub entered: Seq<(Seq<char>, EntryInfo)>,
}

/// The evaluation of the first `n` markets of a context, in order. An exit
/// ends the tracking of its market at once.
pub open spec fn evaluation(
    params: MeanReversionParams,
    entered: Seq<(Seq<char>, EntryInfo)>,
    ctx: &StrategyContext,
    n: nat,
) -> Evaluation
    decreases n,
{
    if n == 0 {
        Evaluation { signals: Seq::empty(), entered }
    } else {
        let before = evaluation(params, entered, ctx, (n - 1) as nat);
        let market = ctx.markets@[n - 1].1@;
        match decision(
            params,
            lookup(before.entered, market.condition_id),
            market,
            ctx.spec_sma(market.condition_id, params.ma_periods),
            ctx.timestamp,
        ) {
            Some(signal) => Evaluation {
                signals: before.signals.push(signal),
                entered: if signal.signal_type == SignalType::Exit {
                    without(before.entered, market.condition_id)
                } else {
                    before.entered
                },
            },
            None => before,
        }
    }
}

/// The average noted on an entry signal, else its price, else zero.
pub open spec fn noted_average(signal: SignalView) -> Decimal {
    match lookup(signal.indicators, "ma_at_entry"@) {
        Some(ma) => ma,
        None => match signal.price {
            Some(p) => p,
            None => Decimal::of(0, 0),
        },
    }
}

/// The entries tracked after a signal was executed: an entry is tracked, an
/// exit ends the tracking of its market, a failed execution changes
/// nothing.
pub open spec fn after_execution(
    entered: Seq<(Seq<char>, EntryInfo)>,
    signal: SignalView,
    success: bool,
) -> Seq<(Seq<char>, EntryInfo)> {
    if !success {
        entered
    } else if signal.signal_type == SignalType::Entry {
        put(
            entered,
            signal.market_id,
            EntryInfo {
                entry_price: match signal.price {
                    Some(p) => p,
                    None => Decimal::of(0, 0),
                },
                side: signal.side,
                ma_at_entry: noted_average(signal),
            },
        )
    } else if signal.signal_type == SignalType::Exit {
        without(entered, signal.market_id)
    } else {
        entered
    }
}

/// No entry is proposed while the price is within the entry threshold of
/// the average.
pub proof fn lemma_no_entry_within_threshold(
    params: MeanReversionParams,
    market: MarketSnapshotView,
    ma: Decimal,
    now: Timestamp,
)
    requires
        market.yes_price() matches Some(price) && deviation_of(price, ma) matches Some(d)
            && !d.abs().gt(params.entry_threshold),
    ensures
        decision(params, None, market, Some(ma), now) is None,
{
}

/// Once the price is within the exit threshold of the average at entry, a
/// tracked entry in a market that the strategy looks at yields its exit:
/// one signal, of the side opposite to the entry, at the current price.
pub proof fn lemma_exit_once_threshold_is_met(
    params: MeanReversionParams,
    entry: EntryInfo,
    market: MarketSnapshotView,
    price: Decimal,
    ma: Decimal,
    now: Timestamp,
)
    requires
        market.status == MarketStatus::Active,
        !market.liquidity.lt(params.min_liquidity),
        market.yes_price() == Some(price),
        deviation_of(price, ma) is Some,
        deviation_of(price, entry.ma_at_entry) matches Some(d) && d.abs().lt(params.exit_threshold)
            && percent_text(d) is Some,
        percent_text(params.exit_threshold) is Some,
    ensures
        decision(params, Some(entry), market, Some(ma), now) matches Some(s) && s.signal_type
            == SignalType::Exit && s.side == entry.side.opposite() && s.price == Some(price) && s.size
            == params.position_size,
{
}

/// A tracked entry yields at most an exit, never an entry; and the exit,
/// once proposed, ends the tracking: a second evaluation finds no entry to
/// leave, and ending the tracking again changes nothing.
pub proof fn lemma_exit_ends_tracking(
    params: MeanReversionParams,
    entered: Seq<(Seq<char>, EntryInfo)>,
    entry: EntryInfo,
    market: MarketSnapshotView,
    ma: Option<Decimal>,
    now: Timestamp,
)
    requires
        crate::collections::distinct_keys(entered),
        lookup(entered, market.condition_id) == Some(entry),
    ensures
        decision(params, Some(entry), market, ma, now) matches Some(s) ==> s.signal_type
            == SignalType::Exit && s.side == entry.side.opposite(),
        lookup(without(entered, market.condition_id), market.condition_id) is None,
        without(without(entered, market.condition_id), market.condition_id) == without(
            entered,
            market.condition_id,
        ),
{
    lemma_without(entered, market.condition_id);
}

/// An executed exit ends the tracking of its market and of no other; told
/// a second time it changes nothing; and an execution that failed changes
/// nothing at all.
pub proof fn lemma_executed_exit(entered: Seq<(Seq<char>, EntryInfo)>, signal: SignalView)
    requires
        distinct_keys(entered),
        signal.signal_type == SignalType::Exit,
    ensures
        distinct_keys(after_execution(entered, signal, true)),
        lookup(after_execution(entered, signal, true), signal.market_id) is None,
        forall|key: Seq<char>|
            key != signal.market_id ==> #[trigger] lookup(after_execution(entered, signal, true), key)
                == lookup(entered, key),
        after_execution(after_execution(entered, signal, true), signal, true) == after_execution(
            entered,
            signal,
            true,
        ),
        after_execution(entered, signal, false) == entered,
{
    lemma_without(entered, signal.market_id);
}

/// What is proposed for a market bears the market's id; it is an exit
/// where an entry is tracked, and an entry where none is.
pub proof fn lemma_decision_is_for_its_market(
    params: MeanReversionParams,
    entry: Option<EntryInfo>,
    market: MarketSnapshotView,
    ma: Option<Decimal>,
    now: Timestamp,
)
    ensures
        decision(params, entry, market, ma, now) matches Some(s) ==> (s.market_id
            == market.condition_id && (s.signal_type == SignalType::Exit <==> entry is Some) && (
        s.signal_type == SignalType::Entry <==> entry is None)),
{
}

/// One exit per tracked entry. In an evaluation of the first `n` markets
/// of a context, whatever ids the markets bear: an entry is never added
/// and never changed; every exit is for a market whose entry was tracked
/// before the evaluation and is not tracked after it; and no two exits are
/// for the same market.
pub proof fn lemma_one_exit_per_entry(
    params: MeanReversionParams,
    entered: Seq<(Seq<char>, EntryInfo)>,
    ctx: &StrategyContext,
    n: nat,
)
    requires
        distinct_keys(entered),
        n <= ctx.markets@.len(),
    ensures
        distinct_keys(evaluation(params, entered, ctx, n).entered),
        forall|key: Seq<char>|
            (#[trigger] lookup(evaluation(params, entered, ctx, n).entered, key)) is Some ==> lookup(
                evaluation(params, entered, ctx, n).entered,
                key,
            ) == lookup(entered, key),
        forall|i: int|
            0 <= i < evaluation(params, entered, ctx, n).signals.len() && (
            #[trigger] evaluation(params, entered, ctx, n).signals[i]).signal_type == SignalType::Exit
                ==> lookup(entered, evaluation(params, entered, ctx, n).signals[i].market_id) is Some
                && lookup(
                evaluation(params, entered, ctx, n).entered,
                evaluation(params, entered, ctx, n).signals[i].market_id,
            ) is None,
        forall|a: int, b: int|
            0 <= a < b < evaluation(params, entered, ctx, n).signals.len() && (
            #[trigger] evaluation(params, entered, ctx, n).signals[a]).signal_type == SignalType::Exit
                && (#[trigger] evaluation(params, entered, ctx, n).signals[b]).signal_type
                == SignalType::Exit ==> evaluation(params, entered, ctx, n).signals[a].market_id
                != evaluation(params, entered, ctx, n).signals[b].market_id,
    decreases n,
{
    if n > 0 {
        lemma_one_exit_per_entry(params, entered, ctx, (n - 1) as nat);
        let before = evaluation(params, entered, ctx, (n - 1) as nat);
        let after = evaluation(params, entered, ctx, n);
        let market = ctx.markets@[n - 1].1@;
        let entry = lookup(before.entered, market.condition_id);
        let proposed = decision(
            params,
            entry,
            market,
            ctx.spec_sma(market.condition_id, params.ma_periods),
            ctx.timestamp,
        );
        lemma_decision_is_for_its_market(
            params,
            entry,
            market,
            ctx.spec_sma(market.condition_id, params.ma_periods),
            ctx.timestamp,
        );
        lemma_without(before.entered, market.condition_id);
        match proposed {
            Some(signal) => {
                assert(after.signals == before.signals.push(signal));
                assert forall|i: int|
                    0 <= i < after.signals.len() && (#[trigger] after.signals[i]).signal_type
                        == SignalType::Exit implies lookup(entered, after.signals[i].market_id) is Some
                    && lookup(after.entered, after.signals[i].market_id) is None by {
                    if i < before.signals.len() {
                        assert(after.signals[i] == before.signals[i]);
                    }
                }
                assert forall|a: int, b: int|
                    0 <= a < b < after.signals.len() && (#[trigger] after.signals[a]).signal_type
                        == SignalType::Exit && (#[trigger] after.signals[b]).signal_type
                        == SignalType::Exit implies after.signals[a].market_id
                    != after.signals[b].market_id by {
                    assert(after.signals[a] == before.signals[a]);
                    if b < before.signals.len() {
                        assert(after.signals[b] == before.signals[b]);
                    }
                }
            },
            None => {},
        }
    }
}

/// Markets that bear other ids leave the entry of `id` alone: after the
/// first `n` markets, none of which bears `id`, what is tracked for `id` is
/// what was, and no signal is for `id`.
pub proof fn lemma_other_markets(
    params: MeanReversionParams,
    entered: Seq<(Seq<char>, EntryInfo)>,
    ctx: &StrategyContext,
    n: nat,
    id: Seq<char>,
)
    requires
        distinct_keys(entered),
        n <= ctx.markets@.len(),
        forall|k: int| 0 <= k < n ==> (#[trigger] ctx.markets@[k]).1@.condition_id != id,
    ensures
        lookup(evaluation(params, entered, ctx, n).entered, id) == lookup(entered, id),
        forall|b: int|
            0 <= b < evaluation(params, entered, ctx, n).signals.len() ==> (
            #[trigger] evaluation(params, entered, ctx, n).signals[b]).market_id != id,
    decreases n,
{
    if n > 0 {
        lemma_other_markets(params, entered, ctx, (n - 1) as nat, id);
        lemma_one_exit_per_entry(params, entered, ctx, (n - 1) as nat);
        let before = evaluation(params, entered, ctx, (n - 1) as nat);
        let after = evaluation(params, entered, ctx, n);
        let market = ctx.markets@[n - 1].1@;
        assert(ctx.markets@[n - 1].1@.condition_id != id);
        lemma_decision_is_for_its_market(
            params,
            lookup(before.entered, market.condition_id),
            market,
            ctx.spec_sma(market.condition_id, params.ma_periods),
            ctx.timestamp,
        );
        lemma_without(before.entered, market.condition_id);
        assert forall|b: int| 0 <= b < after.signals.len() implies (#[trigger] after.signals[b]).market_id
            != id by {
            if b < before.signals.len() {
                assert(after.signals[b] == before.signals[b]);
            }
        }
    }
}

/// An exit bears the id of its market and the side opposite to the entry
/// it leaves.
pub proof fn lemma_exit_leaves_the_entry(
    params: MeanReversionParams,
    entry: EntryInfo,
    market: MarketSnapshotView,
    ma: Option<Decimal>,
    now: Timestamp,
)
    ensures
        decision(params, Some(entry), market, ma, now) matches Some(s) ==> (s.signal_type
            == SignalType::Exit && s.side == entry.side.opposite() && s.market_id
            == market.condition_id),
{
}

/// The exit of a tracked entry is proposed, once. Where the market at the
/// place `j` is the only one of the first `n` that bears its id, and an
/// entry is tracked for it whose exit is due, the evaluation of those
/// markets holds that exit, behind the signals of the markets before it,
/// and no other signal for that market; and the entry is no longer
/// tracked.
pub proof fn lemma_exit_of_a_tracked_entry(
    params: MeanReversionParams,
    entered: Seq<(Seq<char>, EntryInfo)>,
    ctx: &StrategyContext,
    n: nat,
    j: int,
    entry: EntryInfo,
    exit: SignalView,
)
    requires
        distinct_keys(entered),
        0 <= j < n <= ctx.markets@.len(),
        forall|k: int|
            0 <= k < n && k != j ==> (#[trigger] ctx.markets@[k]).1@.condition_id
                != ctx.markets@[j].1@.condition_id,
        lookup(entered, ctx.markets@[j].1@.condition_id) == Some(entry),
        decision(
            params,
            Some(entry),
            ctx.markets@[j].1@,
            ctx.spec_sma(ctx.markets@[j].1@.condition_id, params.ma_periods),
            ctx.timestamp,
        ) == Some(exit),
    ensures
        exit.signal_type == SignalType::Exit,
        exit.side == entry.side.opposite(),
        exit.market_id == ctx.markets@[j].1@.condition_id,
        lookup(evaluation(params, entered, ctx, n).entered, exit.market_id) is None,
        only_at(
            evaluation(params, entered, ctx, n).signals,
            exit,
            evaluation(params, entered, ctx, j as nat).signals.len() as int,
        ),
    decreases n,
{
    let id = ctx.markets@[j].1@.condition_id;
    let market = ctx.markets@[n - 1].1@;
    let before = evaluation(params, entered, ctx, (n - 1) as nat);
    let after = evaluation(params, entered, ctx, n);
    let a = evaluation(params, entered, ctx, j as nat).signals.len() as int;
    lemma_exit_leaves_the_entry(
        params,
        entry,
        ctx.markets@[j].1@,
        ctx.spec_sma(id, params.ma_periods),
        ctx.timestamp,
    );
    lemma_one_exit_per_entry(params, entered, ctx, (n - 1) as nat);
    lemma_without(before.entered, market.condition_id);
    let proposed = decision(
        params,
        lookup(before.entered, market.condition_id),
        market,
        ctx.spec_sma(market.condition_id, params.ma_periods),
        ctx.timestamp,
    );
    lemma_decision_is_for_its_market(
        params,
        lookup(before.entered, market.condition_id),
        market,
        ctx.spec_sma(market.condition_id, params.ma_periods),
        ctx.timestamp,
    );
    if n - 1 == j {
        lemma_other_markets(params, entered, ctx, (n - 1) as nat, id);
        assert(proposed == Some(exit));
        assert(after.signals == before.signals.push(exit));
        assert(after.entered == without(before.entered, id));
        assert forall|b: int|
            0 <= b < after.signals.len() && (#[trigger] after.signals[b]).market_id
                == exit.market_id implies b == a by {
            if b < a {
                assert(after.signals[b] == before.signals[b]);
            }
        }
    } else {
        lemma_exit_of_a_tracked_entry(params, entered, ctx, (n - 1) as nat, j, entry, exit);
        assert(ctx.markets@[n - 1].1@.condition_id != id);
        match proposed {
            Some(signal) => {
                assert(after.signals == before.signals.push(signal));
                assert(signal.market_id != id);
                assert(after.signals[a] == before.signals[a]);
                assert forall|b: int|
                    0 <= b < after.signals.len() && (#[trigger] after.signals[b]).market_id
                        == exit.market_id implies b == a by {
                    if b < before.signals.len() {
                        assert(after.signals[b] == before.signals[b]);
                    }
                }
            },
            None => {
                assert(after == before);
            },
        }
    }
}

/// Once an exit was proposed for a market, the tracking has ended: an
/// evaluation that follows, of whatever context, proposes no exit for that
/// market.
pub proof fn lemma_no_second_exit(
    params: MeanReversionParams,
    entered: Seq<(Seq<char>, EntryInfo)>,
    first: &StrategyContext,
    second: &StrategyContext,
    i: int,
    j: int,
)
    requires
        distinct_keys(entered),
        0 <= i < evaluation(params, entered, first, first.markets@.len()).signals.len(),
        evaluation(params, entered, first, first.markets@.len()).signals[i].signal_type
            == SignalType::Exit,
        0 <= j < evaluation(
            params,
            evaluation(params, entered, first, first.markets@.len()).entered,
            second,
            second.markets@.len(),
        ).signals.len(),
    ensures
        ({
            let once = evaluation(params, entered, first, first.markets@.len());
            let again = evaluation(params, once.entered, second, second.markets@.len());
            !(again.signals[j].signal_type == SignalType::Exit && again.signals[j].market_id
                == once.signals[i].market_id)
        }),
{
    let once = evaluation(params, entered, first, first.markets@.len());
    lemma_one_exit_per_entry(params, entered, first, first.markets@.len());
    lemma_one_exit_per_entry(params, once.entered, second, second.markets@.len());
}

impl MeanReversionStrategy {
    /// The tunable figures.
    pub closed spec fn params(&self) -> MeanReversionParams {
        self.params
    }

    /// The tracked entries, by market.
    pub closed spec fn entered(&self) -> Seq<(Seq<char>, EntryInfo)> {
        self.entered_markets@
    }

    /// The figures the strategy starts with.
    pub open spec fn default_params() -> MeanReversionParams {
        MeanReversionParams {
            ma_periods: 20,
            entry_threshold: Decimal::of(10, 2),
            exit_threshold: Decimal::of(2, 2),
            position_size: Decimal::of(10, 0),
            min_liquidity: Decimal::of(1000, 0),
        }
    }

    /// The strategy with a moving average of 20 points, an entry threshold
    /// of 0.10, an exit threshold of 0.02, a size of 10 and a minimum
    /// liquidity of 1000, tracking nothing.
    pub fn new() -> (r: Self)
        ensures
            r.params() == Self::default_params(),
            r.entered().len() == 0,
            distinct_keys(r.entered()),
    {
        MeanReversionStrategy {
            params: MeanReversionParams {
                ma_periods: 20,
                entry_threshold: Decimal::new(10, 2),
                exit_threshold: Decimal::new(2, 2),
                position_size: Decimal::new(10, 0),
                min_liquidity: Decimal::new(1000, 0),
            },
            entered_markets: TextMap::new(),
        }
    }

    pub fn with_ma_periods(self, periods: usize) -> (r: Self)
        ensures
            r.params() == (MeanReversionParams { ma_periods: periods, ..self.params() }),
            r.entered() == self.entered(),
    {
        let mut s = self;
        s.params.ma_periods = periods;
        s
    }

    pub fn with_entry_threshold(self, threshold: Decimal) -> (r: Self)
        ensures
            r.params() == (MeanReversionParams { entry_threshold: threshold, ..self.params() }),
            r.entered() == self.entered(),
    {
        let mut s = self;
        s.params.entry_threshold = threshold;
        s
    }

    pub fn with_exit_threshold(self, threshold: Decimal) -> (r: Self)
        ensures
            r.params() == (MeanReversionParams { exit_threshold: threshold, ..self.params() }),
            r.entered() == self.entered(),
    {
        let mut s = self;
        s.params.exit_threshold = threshold;
        s
    }

    pub fn with_position_size(self, size: Decimal) -> (r: Self)
        ensures
            r.params() == (MeanReversionParams { position_size: size, ..self.params() }),
            r.entered() == self.entered(),
    {
        let mut s = self;
        s.params.position_size = size;
        s
    }

    fn calculate_deviation(current: Decimal, ma: Decimal) -> (r: Option<Decimal>)
        ensures
            r == deviation_of(current, ma),
    {
        if ma.is_zero() {
            Some(Decimal::zero())
        } else {
            match current.checked_sub(ma) {
                Some(d) => d.checked_div(ma),
                None => None,
            }
        }
    }

    fn start_signal(
        &self,
        market: &MarketSnapshot,
        side: OrderSide,
        signal_type: SignalType,
        strength: SignalStrength,
        price: Decimal,
        now: Timestamp,
    ) -> (r: Signal)
        ensures
            r@ == base_signal(self.params(), market@, side, signal_type, strength, price, now),
    {
        let token = market.first_token();
        Signal::new_at(
            market.condition_id.as_str(),
            token.as_str(),
            side,
            self.params.position_size,
            now,
        ).with_strategy("mean_reversion").with_type(signal_type).with_strength(strength).with_price(
            price,
        )
    }

    fn propose_exit(&self, entry: EntryInfo, market: &MarketSnapshot, price: Decimal, now: Timestamp) -> (r:
        Option<Signal>)
        ensures
            match r {
                Some(s) => exit_signal(self.params(), entry, market@, price, now) == Some(s@),
                None => exit_signal(self.params(), entry, market@, price, now) is None,
            },
    {
        let exit_deviation = match Self::calculate_deviation(price, entry.ma_at_entry) {
            Some(d) => d,
            None => {
                return None;
            },
        };
        if !exit_deviation.abs().is_lt(self.params.exit_threshold) {
            return None;
        }
        let (d, t) = match (
            percent_to_text(exit_deviation),
            percent_to_text(self.params.exit_threshold),
        ) {
            (Some(d), Some(t)) => (d, t),
            _ => {
                return None;
            },
        };
        let reason = "Mean reversion exit: deviation ".to_owned().concat(d.as_str()).concat(
            "% (threshold ",
        ).concat(t.as_str()).concat("%)");
        Some(
            self.start_signal(
                market,
                entry.side.opposite(),
                SignalType::Exit,
                SignalStrength::Medium,
                price,
                now,
            ).with_reason(reason),
        )
    }

    fn propose_entry(
        &self,
        market: &MarketSnapshot,
        price: Decimal,
        ma: Decimal,
        deviation: Decimal,
        now: Timestamp,
    ) -> (r: Option<Signal>)
        ensures
            match r {
                Some(s) => entry_signal(self.params(), market@, price, ma, deviation, now) == Some(
                    s@,
                ),
                None => entry_signal(self.params(), market@, price, ma, deviation, now) is None,
            },
    {
        if !deviation.abs().is_gt(self.params.entry_threshold) {
            return None;
        }
        let below = deviation.is_lt(Decimal::zero());
        let shown = if below {
            percent_to_text(deviation.abs())
        } else {
            percent_to_text(deviation)
        };
        let (text, twice) = match (shown, self.params.entry_threshold.checked_mul(Decimal::two())) {
            (Some(text), Some(twice)) => (text, twice),
            _ => {
                return None;
            },
        };
        let (side, reason) = if below {
            (
                OrderSide::Buy,
                "Mean reversion entry: price ".to_owned().concat(text.as_str()).concat("% below MA"),
            )
        } else {
            (
                OrderSide::Sell,
                "Mean reversion entry: price ".to_owned().concat(text.as_str()).concat("% above MA"),
            )
        };
        let strength = if deviation.abs().is_gt(twice) {
            SignalStrength::Strong
        } else {
            SignalStrength::Medium
        };
        let signal = self.start_signal(market, side, SignalType::Entry, strength, price, now).with_reason(
            reason,
        ).with_indicator("ma_at_entry", ma);
        proof {
            let empty = Seq::<(Seq<char>, Decimal)>::empty();
            assert(!has_key(empty, "ma_at_entry"@));
            assert(put(empty, "ma_at_entry"@, ma) =~= seq![("ma_at_entry"@, ma)]);
        }
        Some(signal)
    }

    fn decide(&self, market: &MarketSnapshot, ctx: &StrategyContext) -> (r: Option<Signal>)
        ensures
            match r {
                Some(s) => decision(
                    self.params(),
                    lookup(self.entered(), market@.condition_id),
                    market@,
                    ctx.spec_sma(market@.condition_id, self.params().ma_periods),
                    ctx.timestamp,
                ) == Some(s@),
                None => decision(
                    self.params(),
                    lookup(self.entered(), market@.condition_id),
                    market@,
                    ctx.spec_sma(market@.condition_id, self.params().ma_periods),
                    ctx.timestamp,
                ) is None,
            },
    {
        if market.status != MarketStatus::Active {
            return None;
        }
        if market.liquidity.is_lt(self.params.min_liquidity) {
            return None;
        }
        let price = match market.yes_price() {
            Some(p) => p,
            None => {
                return None;
            },
        };
        let ma = match ctx.sma(market.condition_id.as_str(), self.params.ma_periods) {
            Some(m) => m,
            None => {
                return None;
            },
        };
        let deviation = match Self::calculate_deviation(price, ma) {
            Some(d) => d,
            None => {
                return None;
            },
        };
        match self.entered_markets.get(market.condition_id.as_str()) {
            Some(entry) => self.propose_exit(*entry, market, price, ctx.timestamp),
            None => self.propose_entry(market, price, ma, deviation, ctx.timestamp),
        }
    }
}

/// The figures after a configuration was read: every parameter that the
/// configuration names, of the right type and within its range. There are
/// none where one parameter is of the wrong type or out of its range.
pub open spec fn initialized(
    params: MeanReversionParams,
    configured: Seq<(Seq<char>, ParameterValue)>,
) -> Option<MeanReversionParams> {
    match (
        configured_count(lookup(configured, "ma_periods"@), params.ma_periods, 5, 100),
        configured_decimal(
            lookup(configured, "entry_threshold"@),
            params.entry_threshold,
            Decimal::of(1, 2),
            Decimal::of(50, 2),
        ),
        configured_decimal(
            lookup(configured, "exit_threshold"@),
            params.exit_threshold,
            Decimal::of(5, 3),
            Decimal::of(10, 2),
        ),
        configured_decimal(
            lookup(configured, "position_size"@),
            params.position_size,
            Decimal::of(1, 0),
            Decimal::of(1000, 0),
        ),
        configured_decimal(
            lookup(configured, "min_liquidity"@),
            params.min_liquidity,
            Decimal::of(0, 0),
            Decimal::of(1000000, 0),
        ),
    ) {
        (
            Some(ma_periods),
            Some(entry_threshold),
            Some(exit_threshold),
            Some(position_size),
            Some(min_liquidity),
        ) => Some(
            MeanReversionParams {
                ma_periods,
                entry_threshold,
                exit_threshold,
                position_size,
                min_liquidity,
            },
        ),
        _ => None,
    }
}

/// The figures after one parameter was set by hand, or the complaint.
pub open spec fn with_parameter(
    params: MeanReversionParams,
    name: Seq<char>,
    value: ParameterValue,
) -> core::result::Result<MeanReversionParams, Seq<char>> {
    if name == "ma_periods"@ {
        match count_of(value) {
            Some(v) => Ok(MeanReversionParams { ma_periods: v, ..params }),
            None => Err("Expected integer"@),
        }
    } else if name == "entry_threshold"@ {
        match value.as_decimal() {
            Some(v) => Ok(MeanReversionParams { entry_threshold: v, ..params }),
            None => Err("Expected decimal"@),
        }
    } else if name == "exit_threshold"@ {
        match value.as_decimal() {
            Some(v) => Ok(MeanReversionParams { exit_threshold: v, ..params }),
            None => Err("Expected decimal"@),
        }
    } else if name == "position_size"@ {
        match value.as_decimal() {
            Some(v) => Ok(MeanReversionParams { position_size: v, ..params }),
            None => Err("Expected decimal"@),
        }
    } else if name == "min_liquidity"@ {
        match value.as_decimal() {
            Some(v) => Ok(MeanReversionParams { min_liquidity: v, ..params }),
            None => Err("Expected decimal"@),
        }
    } else {
        Err("Unknown parameter"@)
    }
}

impl Strategy for MeanReversionStrategy {
    open spec fn name_text(&self) -> Seq<char> {
        "mean_reversion"@
    }

    fn name(&self) -> (r: &str) {
        "mean_reversion"
    }

    fn metadata(&self) -> (r: StrategyMetadata)
        ensures
            r.name@ == "Mean Reversion"@,
            r.description@
                == "Trades price deviations from moving average, betting on reversion to mean"@,
            r.version@ == "1.0.0"@,
            r.author matches Some(a) && a@ == "Clobster"@,
            r.tags@.len() == 2,
            r.tags@[0]@ == "mean-reversion"@,
            r.tags@[1]@ == "statistical"@,
    {
        let mut tags: Vec<String> = Vec::new();
        tags.push("mean-reversion".to_owned());
        tags.push("statistical".to_owned());
        StrategyMetadata {
            name: "Mean Reversion".to_owned(),
            description: "Trades price deviations from moving average, betting on reversion to mean".to_owned(),
            version: "1.0.0".to_owned(),
            author: Some("Clobster".to_owned()),
            tags,
        }
    }

    /// Takes from `config` every parameter that it names. A parameter of the
    /// wrong type or out of its range is an invalid input, and then nothing
    /// is taken.
    fn initialize(&mut self, config: &StrategyConfig) -> (r: Result<()>)
        ensures
            final(self).entered() == old(self).entered(),
            match r {
                Ok(()) => Some(final(self).params()) == initialized(
                    old(self).params(),
                    config.parameters@,
                ),
                Err(e) => initialized(old(self).params(), config.parameters@) is None && e.is_invalid_input(
                    "Parameter of the wrong type or out of range"@,
                ) && final(self).params() == old(self).params(),
            },
    {
        let read = (
            read_count(&config.parameters, "ma_periods", self.params.ma_periods, 5, 100),
            read_decimal(
                &config.parameters,
                "entry_threshold",
                self.params.entry_threshold,
                Decimal::new(1, 2),
                Decimal::new(50, 2),
            ),
            read_decimal(
                &config.parameters,
                "exit_threshold",
                self.params.exit_threshold,
                Decimal::new(5, 3),
                Decimal::new(10, 2),
            ),
            read_decimal(
                &config.parameters,
                "position_size",
                self.params.position_size,
                Decimal::new(1, 0),
                Decimal::new(1000, 0),
            ),
            read_decimal(
                &config.parameters,
                "min_liquidity",
                self.params.min_liquidity,
                Decimal::new(0, 0),
                Decimal::new(1000000, 0),
            ),
        );
        match read {
            (
                Some(ma_periods),
                Some(entry_threshold),
                Some(exit_threshold),
                Some(position_size),
                Some(min_liquidity),
            ) => {
                self.params = MeanReversionParams {
                    ma_periods,
                    entry_threshold,
                    exit_threshold,
                    position_size,
                    min_liquidity,
                };
                Ok(())
            },
            _ => Err(Error::invalid_input("Parameter of the wrong type or out of range")),
        }
    }

    /// The signals for the markets of `ctx`, in their order. An exit ends
    /// the tracking of its market.
    fn evaluate(&mut self, ctx: &StrategyContext) -> (r: Vec<Signal>)
        ensures
            distinct_keys(old(self).entered()),
            distinct_keys(final(self).entered()),
            final(self).params() == old(self).params(),
            r.deep_view() == evaluation(
                old(self).params(),
                old(self).entered(),
                ctx,
                ctx.markets@.len(),
            ).signals,
            final(self).entered() == evaluation(
                old(self).params(),
                old(self).entered(),
                ctx,
                ctx.markets@.len(),
            ).entered,
    {
        proof {
            use_type_invariant(&self.entered_markets);
        }
        let n = ctx.markets.len();
        let mut signals: Vec<Signal> = Vec::new();
        let mut i: usize = 0;
        proof {
            assert(signals.deep_view() =~= Seq::<SignalView>::empty());
        }
        while i < n
            invariant
                i <= n == ctx.markets@.len(),
                distinct_keys(old(self).entered()),
                self.params() == old(self).params(),
                signals.deep_view() == evaluation(
                    old(self).params(),
                    old(self).entered(),
                    ctx,
                    i as nat,
                ).signals,
                self.entered() == evaluation(
                    old(self).params(),
                    old(self).entered(),
                    ctx,
                    i as nat,
                ).entered,
            decreases n - i,
        {
            let market = ctx.markets.value_at(i);
            let ghost before = signals.deep_view();
            match self.decide(market, ctx) {
                Some(signal) => {
                    if signal.signal_type == SignalType::Exit {
                        self.entered_markets.remove(market.condition_id.as_str());
                    }
                    signals.push(signal);
                    proof {
                        assert(signals.deep_view() =~= before.push(signal@));
                    }
                },
                None => {},
            }
            i += 1;
        }
        proof {
            use_type_invariant(&self.entered_markets);
        }
        signals
    }

    /// Tracks an executed entry and ends the tracking of an executed exit.
    fn on_signal_executed(&mut self, signal: &Signal, success: bool)
        ensures
            distinct_keys(old(self).entered()),
            distinct_keys(final(self).entered()),
            final(self).params() == old(self).params(),
            final(self).entered() == after_execution(old(self).entered(), signal@, success),
    {
        proof {
            use_type_invariant(&self.entered_markets);
        }
        if !success {
            return ;
        }
        match signal.signal_type {
            SignalType::Entry => {
                let price = match signal.price {
                    Some(p) => p,
                    None => Decimal::zero(),
                };
                let ma_at_entry = match signal.metadata.indicators.get("ma_at_entry") {
                    Some(ma) => *ma,
                    None => price,
                };
                self.entered_markets.insert(
                    signal.market_id.clone(),
                    EntryInfo { entry_price: price, side: signal.side, ma_at_entry },
                );
            },
            SignalType::Exit => {
                self.entered_markets.remove(signal.market_id.as_str());
            },
            _ => {},
        }
        proof {
            use_type_invariant(&self.entered_markets);
        }
    }

    /// The five parameters: the period of the moving average, the two
    /// thresholds, the size and the minimum liquidity.
    fn parameters(&self) -> (r: TextMap<ParameterDef>)
        ensures
            r@.len() == 5,
            r@[0].0 == "ma_periods"@,
            declares(
                r@[0].1,
                "ma_periods"@,
                "Number of periods for moving average"@,
                ParameterType::Integer,
                ParameterValue::Integer(20),
                ParameterValue::Integer(5),
                ParameterValue::Integer(100),
            ),
            r@[1].0 == "entry_threshold"@,
            declares(
                r@[1].1,
                "entry_threshold"@,
                "Deviation from MA required for entry (as decimal)"@,
                ParameterType::Float,
                float_of(0, 10, 2),
                float_of(0, 1, 2),
                float_of(0, 50, 2),
            ),
            r@[2].0 == "exit_threshold"@,
            declares(
                r@[2].1,
                "exit_threshold"@,
                "Deviation from MA for exit (as decimal)"@,
                ParameterType::Float,
                float_of(0, 2, 2),
                float_of(0, 5, 3),
                float_of(0, 10, 2),
            ),
            r@[3].0 == "position_size"@,
            declares(
                r@[3].1,
                "position_size"@,
                "Default position size in USDC"@,
                ParameterType::Decimal,
                ParameterValue::Decimal(Decimal::of(10, 0)),
                ParameterValue::Decimal(Decimal::of(1, 0)),
                ParameterValue::Decimal(Decimal::of(1000, 0)),
            ),
            r@[4].0 == "min_liquidity"@,
            declares(
                r@[4].1,
                "min_liquidity"@,
                "Minimum market liquidity required for trading"@,
                ParameterType::Decimal,
                ParameterValue::Decimal(Decimal::of(1000, 0)),
                ParameterValue::Decimal(Decimal::of(0, 0)),
                ParameterValue::Decimal(Decimal::of(1000000, 0)),
            ),
    {
        let mut params: TextMap<ParameterDef> = TextMap::new();
        proof {
            reveal_strlit("ma_periods");
            reveal_strlit("entry_threshold");
            reveal_strlit("exit_threshold");
            reveal_strlit("position_size");
            reveal_strlit("min_liquidity");
            assert("ma_periods"@.len() == 10);
            assert("entry_threshold"@.len() == 15);
            assert("exit_threshold"@.len() == 14);
            assert("position_size"@.len() == 13);
            assert("min_liquidity"@.len() == 13);
            assert("position_size"@[0] != "min_liquidity"@[0]);
        }
        params.push_new(
            "ma_periods".to_owned(),
            declare(
                "ma_periods",
                "Number of periods for moving average",
                ParameterType::Integer,
                ParameterValue::Integer(20),
                ParameterValue::Integer(5),
                ParameterValue::Integer(100),
            ),
        );
        proof {
            assert forall|k: Seq<char>| has_key(params@, k) implies k == "ma_periods"@ by {}
        }
        params.push_new(
            "entry_threshold".to_owned(),
            declare(
                "entry_threshold",
                "Deviation from MA required for entry (as decimal)",
                ParameterType::Float,
                float_value(0, 10, 2),
                float_value(0, 1, 2),
                float_value(0, 50, 2),
            ),
        );
        proof {
            assert forall|k: Seq<char>| has_key(params@, k) implies k == "ma_periods"@ || k
                == "entry_threshold"@ by {
                let i = crate::collections::index_of(params@, k);
                assert(i == 0 || i == 1);
            }
        }
        params.push_new(
            "exit_threshold".to_owned(),
            declare(
                "exit_threshold",
                "Deviation from MA for exit (as decimal)",
                ParameterType::Float,
                float_value(0, 2, 2),
                float_value(0, 5, 3),
                float_value(0, 10, 2),
            ),
        );
        proof {
            assert forall|k: Seq<char>| has_key(params@, k) implies k == "ma_periods"@ || k
                == "entry_threshold"@ || k == "exit_threshold"@ by {
                let i = crate::collections::index_of(params@, k);
                assert(i == 0 || i == 1 || i == 2);
            }
        }
        params.push_new(
            "position_size".to_owned(),
            declare(
                "position_size",
                "Default position size in USDC",
                ParameterType::Decimal,
                ParameterValue::Decimal(Decimal::new(10, 0)),
                ParameterValue::Decimal(Decimal::new(1, 0)),
                ParameterValue::Decimal(Decimal::new(1000, 0)),
            ),
        );
        proof {
            assert forall|k: Seq<char>| has_key(params@, k) implies k == "ma_periods"@ || k
                == "entry_threshold"@ || k == "exit_threshold"@ || k == "position_size"@ by {
                let i = crate::collections::index_of(params@, k);
                assert(i == 0 || i == 1 || i == 2 || i == 3);
            }
        }
        params.push_new(
            "min_liquidity".to_owned(),
            declare(
                "min_liquidity",
                "Minimum market liquidity required for trading",
                ParameterType::Decimal,
                ParameterValue::Decimal(Decimal::new(1000, 0)),
                ParameterValue::Decimal(Decimal::new(0, 0)),
                ParameterValue::Decimal(Decimal::new(1000000, 0)),
            ),
        );
        params
    }

    /// Sets one parameter. An unknown name or a value of the wrong type is
    /// an invalid input, and then nothing changes.
    fn set_parameter(&mut self, name: &str, value: ParameterValue) -> (r: Result<()>)
        ensures
            final(self).entered() == old(self).entered(),
            match r {
                Ok(()) => Ok::<MeanReversionParams, Seq<char>>(final(self).params())
                    == with_parameter(old(self).params(), name@, value),
                Err(e) => final(self).params() == old(self).params() && (with_parameter(
                    old(self).params(),
                    name@,
                    value,
                ) matches Err(msg) && e.is_invalid_input(msg)),
            },
    {
        if str_eq(name, "ma_periods") {
            match to_count(&value) {
                Some(v) => {
                    self.params.ma_periods = v;
                    Ok(())
                },
                None => Err(Error::invalid_input("Expected integer")),
            }
        } else if str_eq(name, "entry_threshold") {
            match value.as_decimal() {
                Some(v) => {
                    self.params.entry_threshold = v;
                    Ok(())
                },
                None => Err(Error::invalid_input("Expected decimal")),
            }
        } else if str_eq(name, "exit_threshold") {
            match value.as_decimal() {
                Some(v) => {
                    self.params.exit_threshold = v;
                    Ok(())
                },
                None => Err(Error::invalid_input("Expected decimal")),
            }
        } else if str_eq(name, "position_size") {
            match value.as_decimal() {
                Some(v) => {
                    self.params.position_size = v;
                    Ok(())
                },
                None => Err(Error::invalid_input("Expected decimal")),
            }
        } else if str_eq(name, "min_liquidity") {
            match value.as_decimal() {
                Some(v) => {
                    self.params.min_liquidity = v;
                    Ok(())
                },
                None => Err(Error::invalid_input("Expected decimal")),
            }
        } else {
            Err(Error::invalid_input("Unknown parameter"))
        }
    }
}

impl Default for MeanReversionStrategy {
    fn default() -> (r: Self)
        ensures
            r.params() == Self::default_params(),
            r.entered().len() == 0,
    {
        Self::new()
    }
}

} // verus!
