//! The engine: it keeps the registered strategies, evaluates those that are
//! due, holds their signals against the risk guard, queues what passes, and
//! turns queued signals into orders.

use vstd::prelude::*;
use vstd::string::StringExecFns;
use crate::channel::{ActionSender, send_action};
use crate::clock::{Timestamp, elapsed_seconds, seconds_between};
use crate::collections::{TextMap, distinct_keys, has_key, index_of, lemma_index_of, lookup};
use crate::decimal::Decimal;
use crate::error::{Error, Result};
use crate::state::{Action, OrderRequest, OrderSide, OrderType};
use crate::strategy::context::{PositionSnapshot, StrategyContext};
use crate::strategy::risk::{RiskConfig, RiskGuard, first_violation};
use crate::strategy::signal::{Signal, SignalView};
use crate::strategy::traits::{Strategy, StrategyConfig};
use crate::text::str_eq;

verus! {

/// Where a registered strategy stands.
#[derive(Debug, Clone, Copy, PartialEq, Eq, Structural)]
pub enum StrategyStatus {
    /// Not evaluated.
    Stopped,
    /// Evaluated when due.
    Running,
    /// Not evaluated until it is started again.
    Paused,
    /// Failed too often; not evaluated.
    Error,
}

impl StrategyStatus {
    /// The status with its sign.
    pub fn label(&self) -> (r: &'static str)
        ensures
            r@ == match *self {
                StrategyStatus::Stopped => "⏹ Stopped"@,
                StrategyStatus::Running => "▶ Running"@,
                StrategyStatus::Paused => "⏸ Paused"@,
                StrategyStatus::Error => "⚠ Error"@,
            },
    {
        match self {
            StrategyStatus::Stopped => "⏹ Stopped",
            StrategyStatus::Running => "▶ Running",
            StrategyStatus::Paused => "⏸ Paused",
            StrategyStatus::Error => "⚠ Error",
        }
    }
}

/// A registered strategy with what the engine keeps of it.
pub struct StrategyHandle {
    pub strategy: Box<dyn Strategy>,
    pub config: StrategyConfig,
    pub status: StrategyStatus,
    /// When the strategy was last evaluated.
    pub last_evaluated: Option<Timestamp>,
    pub signals_generated: usize,
    pub signals_executed: usize,
    /// Evaluations that failed since the last one that did not.
    pub errors: usize,
}

impl StrategyHandle {
    /// Whether the handle is as it is made for a registration with `config`:
    /// stopped, never evaluated, with nothing counted.
    pub open spec fn is_new(&self, config: StrategyConfig) -> bool {
        &&& self.config == config
        &&& self.status == StrategyStatus::Stopped
        &&& self.last_evaluated is None
        &&& self.signals_generated == 0
        &&& self.signals_executed == 0
        &&& self.errors == 0
    }

    /// The handle of a strategy that is about to be registered.
    pub fn new(strategy: Box<dyn Strategy>, config: StrategyConfig) -> (r: Self)
        ensures
            r.is_new(config),
    {
        StrategyHandle {
            strategy,
            config,
            status: StrategyStatus::Stopped,
            last_evaluated: None,
            signals_generated: 0,
            signals_executed: 0,
            errors: 0,
        }
    }
}

/// What came of an executed signal.
#[derive(Debug, Clone)]
pub enum SignalResult {
    OrderPlaced { order_id: String },
    Filled { order_id: String, filled_price: Decimal },
    Rejected { reason: String },
    Cancelled,
}

/// An entry of the engine's history.
#[derive(Debug, Clone)]
pub struct SignalRecord {
    pub signal: Signal,
    pub executed: bool,
    pub executed_at: Option<Timestamp>,
    pub result: Option<SignalResult>,
}

/// An entry of the history as a value.
pub struct SignalRecordView {
    pub signal: SignalView,
    pub executed: bool,
    pub executed_at: Option<Timestamp>,
    pub has_result: bool,
}

impl View for SignalRecord {
    type V = SignalRecordView;

    open spec fn view(&self) -> SignalRecordView {
        SignalRecordView {
            signal: self.signal@,
            executed: self.executed,
            executed_at: self.executed_at,
            has_result: self.result is Some,
        }
    }
}

impl DeepView for SignalRecord {
    type V = SignalRecordView;

    open spec fn deep_view(&self) -> SignalRecordView {
        self@
    }
}

/// How the engine is set up.
#[derive(Debug)]
pub struct EngineConfig {
    pub risk_config: RiskConfig,
    /// Failed evaluations in a row after which a strategy is set aside.
    pub max_strategy_errors: usize,
    /// Entries the history keeps.
    pub max_signal_history: usize,
    pub evaluation_interval_ms: u64,
}

impl Default for EngineConfig {
    fn default() -> (r: Self)
        ensures
            r.max_strategy_errors == 5,
            r.max_signal_history == 1000,
            r.evaluation_interval_ms == 1000,
            r.risk_config.is_default(),
    {
        EngineConfig {
            risk_config: RiskConfig::default(),
            max_strategy_errors: 5,
            max_signal_history: 1000,
            evaluation_interval_ms: 1000,
        }
    }
}

/// Whether a strategy is to be evaluated at `now`: it is running and
/// enabled, and was never evaluated or was evaluated at least its interval
/// ago. After a last evaluation that lies in the future no time has passed.
pub open spec fn is_due(handle: StrategyHandle, now: Timestamp) -> bool {
    &&& handle.status == StrategyStatus::Running
    &&& handle.config.enabled
    &&& match handle.last_evaluated {
        Some(last) => seconds_between(last, now) >= handle.config.min_signal_interval_secs,
        None => true,
    }
}

/// `a + b`, at most `usize::MAX`.
pub open spec fn capped_sum(a: usize, b: usize) -> usize {
    if a + b > usize::MAX {
        usize::MAX
    } else {
        (a + b) as usize
    }
}

/// What the engine notes of an evaluation. One that succeeded is stamped,
/// its signals are counted and the count of failures starts anew; one that
/// failed is counted, and the strategy is set aside once `max_errors`
/// evaluations have failed in a row.
pub open spec fn after_evaluation(
    handle: StrategyHandle,
    produced: Option<usize>,
    now: Timestamp,
    max_errors: usize,
) -> StrategyHandle {
    match produced {
        Some(n) => StrategyHandle {
            last_evaluated: Some(now),
            signals_generated: capped_sum(handle.signals_generated, n),
            errors: 0,
            ..handle
        },
        None => StrategyHandle {
            errors: capped_sum(handle.errors, 1),
            status: if capped_sum(handle.errors, 1) >= max_errors {
                StrategyStatus::Error
            } else {
                handle.status
            },
            ..handle
        },
    }
}

/// Whether `after` is `before` after one evaluation at `now` that
/// succeeded: stamped, no failures counted, and otherwise as it was but for
/// the strategy's own state and the count of its signals.
pub open spec fn evaluated(before: StrategyHandle, after: StrategyHandle, now: Timestamp) -> bool {
    &&& after.config == before.config
    &&& after.status == before.status
    &&& after.last_evaluated == Some(now)
    &&& after.signals_generated >= before.signals_generated
    &&& after.signals_executed == before.signals_executed
    &&& after.errors == 0
}

/// The signals with `name` as the name of their strategy.
pub open spec fn tagged(signals: Seq<SignalView>, name: Seq<char>) -> Seq<SignalView> {
    signals.map_values(|s: SignalView| SignalView { strategy_name: name, ..s })
}

/// The signals that break no limit, in their order.
pub open spec fn approved(
    signals: Seq<SignalView>,
    limits: RiskConfig,
    positions: Seq<(Seq<char>, PositionSnapshot)>,
) -> Seq<SignalView>
    decreases signals.len(),
{
    if signals.len() == 0 {
        signals
    } else {
        let rest = approved(signals.drop_last(), limits, positions);
        if first_violation(limits, signals.last(), positions) is None {
            rest.push(signals.last())
        } else {
            rest
        }
    }
}

/// Every approved signal breaks no limit and was among the signals.
pub proof fn lemma_approved(
    signals: Seq<SignalView>,
    limits: RiskConfig,
    positions: Seq<(Seq<char>, PositionSnapshot)>,
)
    ensures
        forall|i: int|
            0 <= i < approved(signals, limits, positions).len() ==> first_violation(
                limits,
                #[trigger] approved(signals, limits, positions)[i],
                positions,
            ) is None && signals.contains(approved(signals, limits, positions)[i]),
    decreases signals.len(),
{
    if signals.len() > 0 {
        lemma_approved(signals.drop_last(), limits, positions);
        let rest = approved(signals.drop_last(), limits, positions);
        assert forall|i: int| 0 <= i < approved(signals, limits, positions).len() implies first_violation(
            limits,
            #[trigger] approved(signals, limits, positions)[i],
            positions,
        ) is None && signals.contains(approved(signals, limits, positions)[i]) by {
            if i < rest.len() {
                let k = choose|k: int|
                    0 <= k < signals.drop_last().len() && signals.drop_last()[k] == rest[i];
                assert(signals[k] == rest[i]);
            } else {
                assert(signals[signals.len() - 1] == signals.last());
            }
        }
    }
}

/// Whether signals of the strategy `name` are executed without being asked
/// for: the strategy says so, or is not registered.
pub open spec fn auto_executes(handles: Seq<(Seq<char>, StrategyHandle)>, name: Seq<char>) -> bool {
    match lookup(handles, name) {
        Some(h) => h.config.auto_execute,
        None => true,
    }
}

/// Whether a queued signal is executed when the queue is drained at `now`:
/// it has not expired, and its strategy lets it be executed.
pub open spec fn executable(
    handles: Seq<(Seq<char>, StrategyHandle)>,
    signal: SignalView,
    now: Timestamp,
) -> bool {
    !signal.is_expired_at(now) && auto_executes(handles, signal.strategy_name)
}

/// The queued signals that are executed when the queue is drained at
/// `now`, in their order.
pub open spec fn to_execute(
    handles: Seq<(Seq<char>, StrategyHandle)>,
    pending: Seq<SignalView>,
    now: Timestamp,
) -> Seq<SignalView>
    decreases pending.len(),
{
    if pending.len() == 0 {
        pending
    } else {
        let rest = to_execute(handles, pending.drop_last(), now);
        if executable(handles, pending.last(), now) {
            rest.push(pending.last())
        } else {
            rest
        }
    }
}

/// Only signals that have not expired and whose strategy lets them be
/// executed are executed when the queue is drained, and each of them was
/// queued.
pub proof fn lemma_to_execute(
    handles: Seq<(Seq<char>, StrategyHandle)>,
    pending: Seq<SignalView>,
    now: Timestamp,
)
    ensures
        forall|i: int|
            0 <= i < to_execute(handles, pending, now).len() ==> executable(
                handles,
                #[trigger] to_execute(handles, pending, now)[i],
                now,
            ) && pending.contains(to_execute(handles, pending, now)[i]),
    decreases pending.len(),
{
    if pending.len() > 0 {
        lemma_to_execute(handles, pending.drop_last(), now);
        let rest = to_execute(handles, pending.drop_last(), now);
        assert forall|i: int| 0 <= i < to_execute(handles, pending, now).len() implies executable(
            handles,
            #[trigger] to_execute(handles, pending, now)[i],
            now,
        ) && pending.contains(to_execute(handles, pending, now)[i]) by {
            if i < rest.len() {
                let k = choose|k: int|
                    0 <= k < pending.drop_last().len() && pending.drop_last()[k] == rest[i];
                assert(pending[k] == rest[i]);
            } else {
                assert(pending[pending.len() - 1] == pending.last());
            }
        }
    }
}

/// An order request as a value.
pub struct OrderRequestView {
    pub market_id: Seq<char>,
    pub token_id: Seq<char>,
    pub side: OrderSide,
    pub price: Option<Decimal>,
    pub size: Decimal,
    pub order_type: OrderType,
}

impl View for OrderRequest {
    type V = OrderRequestView;

    open spec fn view(&self) -> OrderRequestView {
        OrderRequestView {
            market_id: self.market_id@,
            token_id: self.token_id@,
            side: self.side,
            price: self.price,
            size: self.size,
            order_type: self.order_type,
        }
    }
}

/// The limit order that a signal with a price asks for.
pub open spec fn order_for(signal: SignalView) -> Option<OrderRequestView> {
    match signal.price {
        Some(price) => Some(
            OrderRequestView {
                market_id: signal.market_id,
                token_id: signal.token_id,
                side: signal.side,
                price: Some(price),
                size: signal.size,
                order_type: OrderType::Limit,
            },
        ),
        None => None,
    }
}

/// The history with one more executed signal: the entry is added at the
/// end, and the oldest entry leaves where the history would pass `max`.
pub open spec fn recorded(
    history: Seq<SignalRecordView>,
    signal: SignalView,
    now: Timestamp,
    max: usize,
) -> Seq<SignalRecordView> {
    let longer = history.push(
        SignalRecordView { signal, executed: true, executed_at: Some(now), has_result: false },
    );
    if longer.len() > max {
        longer.remove(0)
    } else {
        longer
    }
}

/// The history with the given signals executed one after the other.
pub open spec fn recorded_all(
    history: Seq<SignalRecordView>,
    signals: Seq<SignalView>,
    now: Timestamp,
    max: usize,
) -> Seq<SignalRecordView>
    decreases signals.len(),
{
    if signals.len() == 0 {
        history
    } else {
        recorded(recorded_all(history, signals.drop_last(), now, max), signals.last(), now, max)
    }
}

/// The ids of signals.
pub open spec fn ids_of(signals: Seq<SignalView>) -> Seq<Seq<char>> {
    signals.map_values(|s: SignalView| s.id)
}

/// The signals whose id is not `id`, in their order.
pub open spec fn without_id(signals: Seq<SignalView>, id: Seq<char>) -> Seq<SignalView>
    decreases signals.len(),
{
    if signals.len() == 0 {
        signals
    } else {
        let rest = without_id(signals.drop_last(), id);
        if signals.last().id != id {
            rest.push(signals.last())
        } else {
            rest
        }
    }
}

/// Whether `after` holds the strategies of `before` under the same names in
/// the same order, each with the configuration and the status it had.
pub open spec fn same_registry(
    before: Seq<(Seq<char>, StrategyHandle)>,
    after: Seq<(Seq<char>, StrategyHandle)>,
) -> bool {
    &&& after.len() == before.len()
    &&& forall|k: int|
        0 <= k < before.len() ==> (#[trigger] after[k]).0 == before[k].0 && after[k].1.config
            == before[k].1.config && after[k].1.status == before[k].1.status
}

/// Whether `name` is the name of a registered strategy that is due at
/// `now`.
pub open spec fn named_by_due(
    handles: Seq<(Seq<char>, StrategyHandle)>,
    name: Seq<char>,
    now: Timestamp,
) -> bool {
    exists|k: int| 0 <= k < handles.len() && (#[trigger] handles[k]).0 == name && is_due(handles[k].1, now)
}

/// Whether a tick at `now` leads from the strategies `before` to the
/// strategies `after` and to `signals`: every strategy that is due was
/// evaluated at `now`, every other one is as it was, and each signal bears
/// the name of a strategy that was due.
pub open spec fn ticked(
    before: Seq<(Seq<char>, StrategyHandle)>,
    after: Seq<(Seq<char>, StrategyHandle)>,
    signals: Seq<SignalView>,
    now: Timestamp,
) -> bool {
    &&& forall|i: int|
        0 <= i < signals.len() ==> named_by_due(before, (#[trigger] signals[i]).strategy_name, now)
    &&& forall|k: int|
        0 <= k < before.len() ==> if is_due((#[trigger] before[k]).1, now) {
            evaluated(before[k].1, after[k].1, now)
        } else {
            after[k] == before[k]
        }
}

/// The signals that are executed among the first `i` of the queue.
pub open spec fn executed_through(
    handles: Seq<(Seq<char>, StrategyHandle)>,
    pending: Seq<SignalView>,
    now: Timestamp,
    i: int,
) -> Seq<SignalView> {
    to_execute(handles, pending.take(i), now)
}

/// Whether `j` is the place of the first signal with the id `id`.
pub open spec fn is_first_with_id(signals: Seq<SignalView>, id: Seq<char>, j: int) -> bool {
    &&& 0 <= j < signals.len()
    &&& signals[j].id == id
    &&& forall|k: int| 0 <= k < j ==> (#[trigger] signals[k]).id != id
}

/// The first signal with the id `id`.
pub open spec fn first_with_id(signals: Seq<SignalView>, id: Seq<char>) -> Option<SignalView> {
    if exists|j: int| is_first_with_id(signals, id, j) {
        Some(signals[choose|j: int| is_first_with_id(signals, id, j)])
    } else {
        None
    }
}

/// The handle after one more of its signals was executed; the strategy
/// itself may have changed as it was told.
pub open spec fn counted_execution(before: StrategyHandle, after: StrategyHandle) -> bool {
    &&& after.config == before.config
    &&& after.status == before.status
    &&& after.last_evaluated == before.last_evaluated
    &&& after.signals_generated == before.signals_generated
    &&& after.signals_executed == capped_sum(before.signals_executed, 1)
    &&& after.errors == before.errors
}

/// How many of the signals bear the name `name` as that of their strategy.
pub open spec fn executions(signals: Seq<SignalView>, name: Seq<char>) -> nat
    decreases signals.len(),
{
    if signals.len() == 0 {
        0
    } else {
        let rest = executions(signals.drop_last(), name);
        if signals.last().strategy_name == name {
            rest + 1
        } else {
            rest
        }
    }
}

/// The handle after `times` of its signals were executed, where that is
/// one at least: they are counted, up to `usize::MAX`, and the strategy
/// itself may have changed as it was told.
pub open spec fn counted_times(before: StrategyHandle, after: StrategyHandle, times: nat) -> bool {
    &&& after.config == before.config
    &&& after.status == before.status
    &&& after.last_evaluated == before.last_evaluated
    &&& after.signals_generated == before.signals_generated
    &&& after.signals_executed == if before.signals_executed + times > usize::MAX {
        usize::MAX
    } else {
        (before.signals_executed + times) as usize
    }
    &&& after.errors == before.errors
}

/// Whether `after` is the registry `before` after the signals `done` were
/// executed: every strategy stands where it stood under its name, with as
/// many executions counted as `done` has signals of its name, and a
/// strategy of which `done` has none is as it was.
pub open spec fn counted_all(
    before: Seq<(Seq<char>, StrategyHandle)>,
    after: Seq<(Seq<char>, StrategyHandle)>,
    done: Seq<SignalView>,
) -> bool {
    &&& after.len() == before.len()
    &&& forall|k: int|
        0 <= k < before.len() ==> (#[trigger] after[k]).0 == before[k].0 && if executions(
            done,
            before[k].0,
        ) == 0 {
            after[k] == before[k]
        } else {
            counted_times(before[k].1, after[k].1, executions(done, before[k].0))
        }
}

/// One more executed signal is one more execution counted for the strategy
/// it names, and none for any other.
pub proof fn lemma_counted_step(
    before: Seq<(Seq<char>, StrategyHandle)>,
    mid: Seq<(Seq<char>, StrategyHandle)>,
    after: Seq<(Seq<char>, StrategyHandle)>,
    done: Seq<SignalView>,
    signal: SignalView,
)
    requires
        counted_all(before, mid, done),
        after.len() == mid.len(),
        forall|k: int|
            0 <= k < mid.len() ==> (#[trigger] after[k]).0 == mid[k].0 && if mid[k].0
                == signal.strategy_name {
                counted_execution(mid[k].1, after[k].1)
            } else {
                after[k] == mid[k]
            },
    ensures
        counted_all(before, after, done.push(signal)),
{
    let next = done.push(signal);
    assert(next.drop_last() =~= done);
    assert(next.last() == signal);
    assert forall|k: int| 0 <= k < before.len() implies (#[trigger] after[k]).0 == before[k].0
        && if executions(next, before[k].0) == 0 {
        after[k] == before[k]
    } else {
        counted_times(before[k].1, after[k].1, executions(next, before[k].0))
    } by {
        assert(mid[k].0 == before[k].0);
        assert(after[k].0 == mid[k].0);
    }
}

/// Whether a drain of the queue `pending` at `now` that came as far as the
/// place `i` leads from the strategies `handles` and the history `history`
/// to `after` and `history_after`, with the result `r`. The signals before
/// `i` that are executable had a price and were executed: they are in the
/// history and are counted for their strategies. A drain that succeeds
/// came to the end of the queue and returns their ids. One that fails
/// stopped at an executable signal: for want of a price, or else because
/// the channel did not take its order.
pub open spec fn drained_to(
    handles: Seq<(Seq<char>, StrategyHandle)>,
    pending: Seq<SignalView>,
    history: Seq<SignalRecordView>,
    max: usize,
    after: Seq<(Seq<char>, StrategyHandle)>,
    history_after: Seq<SignalRecordView>,
    r: Result<Vec<String>>,
    now: Timestamp,
    i: int,
) -> bool {
    &&& 0 <= i <= pending.len()
    &&& forall|j: int|
        0 <= j < i && executable(handles, #[trigger] pending[j], now) ==> pending[j].price is Some
    &&& history_after == recorded_all(history, executed_through(handles, pending, now, i), now, max)
    &&& counted_all(handles, after, executed_through(handles, pending, now, i))
    &&& match r {
        Ok(ids) => i == pending.len() && ids.deep_view() == ids_of(
            executed_through(handles, pending, now, i),
        ),
        Err(e) => i < pending.len() && executable(handles, pending[i], now) && (if pending[i].price
            is None {
            e.is_invalid_input("Signal must have a price for limit order"@)
        } else {
            e is Channel
        }),
    }
}

/// One executed signal is one execution for the strategy it names and
/// none for any other.
pub proof fn lemma_one_execution(signal: SignalView, name: Seq<char>)
    ensures
        executions(seq![signal], name) == if signal.strategy_name == name {
            1nat
        } else {
            0nat
        },
{
    let one = seq![signal];
    assert(one.drop_last() =~= Seq::<SignalView>::empty());
    assert(one.last() == signal);
    assert(executions(one.drop_last(), name) == 0);
}

/// Where no queued signal is executable, nothing is executed however far
/// the drain comes.
pub proof fn lemma_nothing_to_execute(
    handles: Seq<(Seq<char>, StrategyHandle)>,
    pending: Seq<SignalView>,
    now: Timestamp,
    i: int,
)
    requires
        0 <= i <= pending.len(),
        forall|j: int| 0 <= j < pending.len() ==> !executable(handles, #[trigger] pending[j], now),
    ensures
        executed_through(handles, pending, now, i).len() == 0,
    decreases i,
{
    if i > 0 {
        lemma_nothing_to_execute(handles, pending, now, i - 1);
        assert(pending.take(i).drop_last() =~= pending.take(i - 1));
        assert(pending.take(i).last() == pending[i - 1]);
    }
}

/// A queue that holds only signals that have expired or whose strategy
/// does not let them be executed unasked is dropped whole: the drain
/// succeeds with no ids, and neither the history nor any strategy hears
/// of it.
pub proof fn lemma_drain_of_nothing(
    handles: Seq<(Seq<char>, StrategyHandle)>,
    pending: Seq<SignalView>,
    history: Seq<SignalRecordView>,
    max: usize,
    after: Seq<(Seq<char>, StrategyHandle)>,
    history_after: Seq<SignalRecordView>,
    r: Result<Vec<String>>,
    now: Timestamp,
    i: int,
)
    requires
        drained_to(handles, pending, history, max, after, history_after, r, now, i),
        forall|j: int| 0 <= j < pending.len() ==> !executable(handles, #[trigger] pending[j], now),
    ensures
        r matches Ok(ids) && ids.deep_view().len() == 0,
        history_after == history,
        after == handles,
{
    lemma_nothing_to_execute(handles, pending, now, i);
    let done = executed_through(handles, pending, now, i);
    assert(done =~= Seq::<SignalView>::empty());
    assert forall|k: int| 0 <= k < handles.len() implies after[k] == handles[k] by {
        assert(executions(done, handles[k].0) == 0);
        assert(after[k].0 == handles[k].0);
    }
    assert(after =~= handles);
}

/// Whatever the outcome of a drain, the signals it executed had not
/// expired, came from strategies that let their signals be executed
/// unasked, and were queued: no other signal reaches the history or the
/// counters.
pub proof fn lemma_drain_executes_the_executable(
    handles: Seq<(Seq<char>, StrategyHandle)>,
    pending: Seq<SignalView>,
    now: Timestamp,
    i: int,
)
    requires
        0 <= i <= pending.len(),
    ensures
        forall|j: int|
            0 <= j < executed_through(handles, pending, now, i).len() ==> executable(
                handles,
                #[trigger] executed_through(handles, pending, now, i)[j],
                now,
            ) && pending.contains(executed_through(handles, pending, now, i)[j]),
{
    lemma_to_execute(handles, pending.take(i), now);
    assert forall|j: int| 0 <= j < executed_through(handles, pending, now, i).len() implies executable(
        handles,
        #[trigger] executed_through(handles, pending, now, i)[j],
        now,
    ) && pending.contains(executed_through(handles, pending, now, i)[j]) by {
        let s = executed_through(handles, pending, now, i)[j];
        assert(pending.take(i).contains(s));
        let k = choose|k: int| 0 <= k < pending.take(i).len() && pending.take(i)[k] == s;
        assert(pending[k] == s);
    }
}

/// A drain that succeeds has executed only signals that have a price, and
/// every signal it executed was executable: of the queued signals that had
/// expired, or whose strategy does not let them be executed unasked, none
/// is in the history or among the ids.
pub proof fn lemma_drain_that_succeeds(
    handles: Seq<(Seq<char>, StrategyHandle)>,
    pending: Seq<SignalView>,
    history: Seq<SignalRecordView>,
    max: usize,
    after: Seq<(Seq<char>, StrategyHandle)>,
    history_after: Seq<SignalRecordView>,
    r: Result<Vec<String>>,
    now: Timestamp,
    i: int,
)
    requires
        drained_to(handles, pending, history, max, after, history_after, r, now, i),
        r is Ok,
    ensures
        forall|j: int|
            0 <= j < pending.len() && executable(handles, #[trigger] pending[j], now)
                ==> pending[j].price is Some,
        history_after == recorded_all(history, to_execute(handles, pending, now), now, max),
        r->Ok_0.deep_view() == ids_of(to_execute(handles, pending, now)),
        forall|j: int|
            0 <= j < to_execute(handles, pending, now).len() ==> executable(
                handles,
                #[trigger] to_execute(handles, pending, now)[j],
                now,
            ),
{
    assert(pending.take(pending.len() as int) =~= pending);
    lemma_to_execute(handles, pending, now);
}

/// The handle after its strategy was told of something: nothing that the
/// engine keeps has changed.
pub open spec fn told(before: StrategyHandle, after: StrategyHandle) -> bool {
    &&& after.config == before.config
    &&& after.status == before.status
    &&& after.last_evaluated == before.last_evaluated
    &&& after.signals_generated == before.signals_generated
    &&& after.signals_executed == before.signals_executed
    &&& after.errors == before.errors
}

/// Registries that hold the same names with the same configurations let
/// the same strategies execute.
pub proof fn lemma_same_registry(
    before: Seq<(Seq<char>, StrategyHandle)>,
    after: Seq<(Seq<char>, StrategyHandle)>,
)
    requires
        distinct_keys(before),
        same_registry(before, after),
    ensures
        distinct_keys(after),
        forall|name: Seq<char>| #[trigger] has_key(after, name) == has_key(before, name),
        forall|name: Seq<char>|
            has_key(before, name) ==> #[trigger] index_of(after, name) == index_of(before, name),
        forall|name: Seq<char>| #[trigger]
            auto_executes(after, name) == auto_executes(before, name),
{
    assert forall|i: int, j: int| 0 <= i < j < after.len() implies (#[trigger] after[i]).0 != (
    #[trigger] after[j]).0 by {
        assert(before[i].0 != before[j].0);
    }
    assert forall|name: Seq<char>| #[trigger] has_key(after, name) == has_key(before, name) by {
        if has_key(after, name) {
            let i = index_of(after, name);
            assert(before[i].0 == name);
        }
        if has_key(before, name) {
            let i = index_of(before, name);
            assert(after[i].0 == name);
        }
    }
    assert forall|name: Seq<char>| has_key(before, name) implies #[trigger] index_of(after, name)
        == index_of(before, name) by {
        let i = index_of(before, name);
        assert(after[i].0 == name);
        lemma_index_of(after, name, i);
    }
    assert forall|name: Seq<char>| #[trigger]
        auto_executes(after, name) == auto_executes(before, name) by {
        if has_key(before, name) {
            let i = index_of(before, name);
            assert(after[i].0 == name);
            lemma_index_of(after, name, i);
            lemma_index_of(before, name, i);
        }
    }
}

/// Whether `after` is `before` with the status of the strategy `name` set
/// to `status`, and nothing else changed.
pub open spec fn status_set(
    before: Seq<(Seq<char>, StrategyHandle)>,
    after: Seq<(Seq<char>, StrategyHandle)>,
    name: Seq<char>,
    status: StrategyStatus,
) -> bool {
    &&& has_key(before, name)
    &&& after == before.update(
        index_of(before, name),
        (name, StrategyHandle { status, ..before[index_of(before, name)].1 }),
    )
}

/// Whether `after` is `before` with the configuration of the strategy
/// `name` replaced by `config`, and nothing else changed.
pub open spec fn config_set(
    before: Seq<(Seq<char>, StrategyHandle)>,
    after: Seq<(Seq<char>, StrategyHandle)>,
    name: Seq<char>,
    config: StrategyConfig,
) -> bool {
    &&& has_key(before, name)
    &&& after == before.update(
        index_of(before, name),
        (name, StrategyHandle { config, ..before[index_of(before, name)].1 }),
    )
}

/// Whether no strategy `name` is registered, nothing has changed, and `e`
/// says so.
pub open spec fn not_found(
    before: Seq<(Seq<char>, StrategyHandle)>,
    after: Seq<(Seq<char>, StrategyHandle)>,
    name: Seq<char>,
    e: Error,
) -> bool {
    &&& !has_key(before, name)
    &&& after == before
    &&& e.is_invalid_input("Strategy '"@ + name + "' not found"@)
}

/// A signal that has a price as the order it asks for.
pub fn signal_to_order(signal: &Signal) -> (r: Result<OrderRequest>)
    ensures
        match r {
            Ok(order) => order_for(signal@) == Some(order@),
            Err(e) => order_for(signal@) is None && e.is_invalid_input(
                "Signal must have a price for limit order"@,
            ),
        },
{
    match signal.price {
        Some(price) => Ok(
            OrderRequest {
                market_id: signal.market_id.clone(),
                token_id: signal.token_id.clone(),
                side: signal.side,
                price: Some(price),
                size: signal.size,
                order_type: OrderType::Limit,
            },
        ),
        None => Err(Error::invalid_input("Signal must have a price for limit order")),
    }
}

/// Whether a strategy is to be evaluated at `now`.
pub fn due(handle: &StrategyHandle, now: Timestamp) -> (r: bool)
    ensures
        r == is_due(*handle, now),
{
    if handle.status != StrategyStatus::Running || !handle.config.enabled {
        return false;
    }
    match handle.last_evaluated {
        Some(last) => {
            let elapsed = elapsed_seconds(last, now);
            elapsed >= 0 && elapsed as u64 >= handle.config.min_signal_interval_secs
        },
        None => true,
    }
}

fn add_capped(a: usize, b: usize) -> (r: usize)
    ensures
        r == capped_sum(a, b),
{
    if b > usize::MAX - a {
        usize::MAX
    } else {
        a + b
    }
}

/// Notes an evaluation on the handle of its strategy: `produced` is the
/// number of signals of an evaluation that succeeded, `None` for one that
/// failed.
pub fn record_evaluation(handle: &mut StrategyHandle, produced: Option<usize>, now: Timestamp, max_errors: usize)
    ensures
        *final(handle) == after_evaluation(*old(handle), produced, now, max_errors),
{
    match produced {
        Some(n) => {
            handle.last_evaluated = Some(now);
            handle.signals_generated = add_capped(handle.signals_generated, n);
            handle.errors = 0;
        },
        None => {
            handle.errors = add_capped(handle.errors, 1);
            if handle.errors >= max_errors {
                handle.status = StrategyStatus::Error;
            }
        },
    }
}

/// Writes `name` on every signal as the name of its strategy.
pub fn tag_signals(signals: &mut Vec<Signal>, name: &str)
    ensures
        final(signals).deep_view() == tagged(old(signals).deep_view(), name@),
{
    let n = signals.len();
    let mut i: usize = 0;
    while i < n
        invariant
            i <= n == signals@.len(),
            n == old(signals)@.len(),
            forall|k: int|
                0 <= k < i ==> (#[trigger] signals@[k])@ == (SignalView {
                    strategy_name: name@,
                    ..old(signals)@[k]@
                }),
            forall|k: int| i <= k < n ==> (#[trigger] signals@[k])@ == old(signals)@[k]@,
        decreases n - i,
    {
        let mut s = signals[i].clone();
        s.strategy_name = name.to_owned();
        signals.set(i, s);
        i += 1;
    }
    proof {
        assert(signals.deep_view() =~= tagged(old(signals).deep_view(), name@));
    }
}

/// The signals that break no limit of `guard`, in their order.
pub fn apply_risk_checks(guard: &RiskGuard, signals: &Vec<Signal>, ctx: &StrategyContext) -> (r: Vec<
    Signal,
>)
    ensures
        r.deep_view() == approved(signals.deep_view(), guard.limits(), ctx.positions@),
{
    let ghost all = signals.deep_view();
    let mut out: Vec<Signal> = Vec::new();
    let mut i: usize = 0;
    proof {
        assert(all.take(0) =~= Seq::<SignalView>::empty());
        assert(out.deep_view() =~= Seq::<SignalView>::empty());
    }
    while i < signals.len()
        invariant
            i <= signals@.len(),
            all == signals.deep_view(),
            out.deep_view() == approved(all.take(i as int), guard.limits(), ctx.positions@),
        decreases signals@.len() - i,
    {
        proof {
            assert(all.take(i + 1).drop_last() =~= all.take(i as int));
            assert(all.take(i + 1).last() == signals@[i as int]@);
        }
        let ghost before = out.deep_view();
        match guard.check_signal(&signals[i], ctx) {
            Ok(()) => {
                out.push(signals[i].clone());
                proof {
                    assert(out.deep_view() =~= before.push(signals@[i as int]@));
                }
            },
            Err(_) => {},
        }
        i += 1;
    }
    proof {
        assert(all.take(all.len() as int) =~= all);
    }
    out
}

fn append_signals(all: &mut Vec<Signal>, more: &Vec<Signal>)
    ensures
        final(all).deep_view() == old(all).deep_view() + more.deep_view(),
{
    let mut i: usize = 0;
    proof {
        assert(all.deep_view() =~= old(all).deep_view() + more.deep_view().take(0));
    }
    while i < more.len()
        invariant
            i <= more@.len(),
            all.deep_view() == old(all).deep_view() + more.deep_view().take(i as int),
        decreases more@.len() - i,
    {
        let ghost before = all.deep_view();
        all.push(more[i].clone());
        proof {
            assert(all.deep_view() =~= before.push(more@[i as int]@));
            assert(more.deep_view().take(i + 1) =~= more.deep_view().take(i as int).push(
                more@[i as int]@,
            ));
        }
        i += 1;
    }
    proof {
        assert(more.deep_view().take(more@.len() as int) =~= more.deep_view());
    }
}

/// The engine.
pub struct StrategyEngine {
    strategies: TextMap<StrategyHandle>,
    risk_guard: RiskGuard,
    action_tx: ActionSender,
    pending_signals: Vec<Signal>,
    signal_history: Vec<SignalRecord>,
    config: EngineConfig,
    running: bool,
}

impl StrategyEngine {
    /// The registered strategies, by name, in the order of registration.
    pub closed spec fn handles(&self) -> Seq<(Seq<char>, StrategyHandle)> {
        self.strategies@
    }

    /// The signals that wait to be executed, oldest first.
    pub closed spec fn pending(&self) -> Seq<SignalView> {
        self.pending_signals.deep_view()
    }

    /// The history, oldest entry first.
    pub closed spec fn history(&self) -> Seq<SignalRecordView> {
        self.signal_history.deep_view()
    }

    /// The limits of the risk guard.
    pub closed spec fn limits(&self) -> RiskConfig {
        self.risk_guard.limits()
    }

    /// Whether the engine evaluates.
    pub closed spec fn is_running(&self) -> bool {
        self.running
    }

    /// Failed evaluations in a row after which a strategy is set aside.
    pub closed spec fn max_errors(&self) -> usize {
        self.config.max_strategy_errors
    }

    /// Entries the history keeps.
    pub closed spec fn max_history(&self) -> usize {
        self.config.max_signal_history
    }

    /// The risk guard.
    pub closed spec fn guard(&self) -> RiskGuard {
        self.risk_guard
    }

    /// The channel on which orders go out.
    pub closed spec fn sender(&self) -> ActionSender {
        self.action_tx
    }

    /// The configuration the engine was made with or was given since.
    pub closed spec fn settings(&self) -> EngineConfig {
        self.config
    }

    /// Whether `other` is the same engine but for its strategies, its queue
    /// and its history: it runs or does not as `other` does, with the same
    /// limits, the same configuration and the same channel.
    pub open spec fn same_setup(&self, other: &StrategyEngine) -> bool {
        &&& self.is_running() == other.is_running()
        &&& self.limits() == other.limits()
        &&& self.max_errors() == other.max_errors()
        &&& self.max_history() == other.max_history()
        &&& self.guard() == other.guard()
        &&& self.sender() == other.sender()
        &&& self.settings() == other.settings()
    }

    /// An engine that is stopped and holds nothing, with the limits of
    /// `config`.
    pub fn new(action_tx: ActionSender, config: EngineConfig) -> (r: Self)
        ensures
            r.handles().len() == 0,
            r.pending().len() == 0,
            r.history().len() == 0,
            !r.is_running(),
            r.limits().same_limits(config.risk_config),
            r.max_errors() == config.max_strategy_errors,
            r.max_history() == config.max_signal_history,
    {
        let r = StrategyEngine {
            strategies: TextMap::new(),
            risk_guard: RiskGuard::new(config.risk_config.clone()),
            action_tx,
            pending_signals: Vec::new(),
            signal_history: Vec::new(),
            config,
            running: false,
        };
        proof {
            assert(r.pending_signals.deep_view() =~= Seq::<SignalView>::empty());
            assert(r.signal_history.deep_view() =~= Seq::<SignalRecordView>::empty());
        }
        r
    }

    /// Takes a strategy in under `name` where `initialized` says that it
    /// took its configuration. A name that is taken is an invalid input; a
    /// strategy that did not take its configuration is refused with its own
    /// error. The engine is unchanged where it refuses.
    pub fn enroll(&mut self, name: String, handle: StrategyHandle, initialized: Result<()>) -> (r: Result<
        (),
    >)
        ensures
            final(self).same_setup(old(self)),
            final(self).pending() == old(self).pending(),
            final(self).history() == old(self).history(),
            r is Ok <==> !has_key(old(self).handles(), name@) && initialized is Ok,
            r is Ok ==> final(self).handles() == old(self).handles().push((name@, handle)),
            r is Err ==> final(self).handles() == old(self).handles(),
            r matches Err(e) ==> if has_key(old(self).handles(), name@) {
                e.is_invalid_input("Strategy '"@ + name@ + "' already registered"@)
            } else {
                initialized == Err::<(), Error>(e)
            },
    {
        if self.strategies.contains_key(name.as_str()) {
            let msg = "Strategy '".to_owned().concat(name.as_str()).concat("' already registered");
            return Err(Error::invalid_input(msg.as_str()));
        }
        match initialized {
            Ok(()) => {},
            Err(e) => {
                return Err(e);
            },
        }
        self.strategies.push_new(name, handle);
        Ok(())
    }

    /// Registers a strategy under its name: the strategy is asked to take
    /// `config`, and is then kept, stopped. A name that is taken, or a
    /// strategy that refuses its configuration, is an error, and then the
    /// engine is unchanged.
    pub fn register<S: Strategy + 'static>(&mut self, strategy: S, config: StrategyConfig) -> (r: Result<
        (),
    >)
        ensures
            final(self).same_setup(old(self)),
            final(self).pending() == old(self).pending(),
            final(self).history() == old(self).history(),
            r is Err ==> final(self).handles() == old(self).handles(),
            has_key(old(self).handles(), strategy.name_text()) ==> (r matches Err(e)
                && e.is_invalid_input("Strategy '"@ + strategy.name_text() + "' already registered"@)),
            r is Ok ==> final(self).handles().len() == old(self).handles().len() + 1,
            r is Ok ==> final(self).handles().drop_last() == old(self).handles(),
            r is Ok ==> final(self).handles().last().0 == strategy.name_text(),
            r is Ok ==> !has_key(old(self).handles(), strategy.name_text()),
            r is Ok ==> final(self).handles().last().1.is_new(config),
    {
        let name = strategy.name().to_owned();
        let mut handle = StrategyHandle::new(Box::new(strategy), config);
        if self.strategies.contains_key(name.as_str()) {
            let msg = "Strategy '".to_owned().concat(name.as_str()).concat("' already registered");
            return Err(Error::invalid_input(msg.as_str()));
        }
        let initialized = handle.strategy.initialize(&handle.config);
        let r = self.enroll(name, handle, initialized);
        proof {
            if r is Ok {
                assert(self.handles().drop_last() =~= old(self).handles());
            }
        }
        r
    }

    /// Takes the strategy `name` out and lets it shut down. An unknown name
    /// changes nothing and is no error; the strategy's own error is
    /// returned, the strategy being gone all the same.
    pub fn unregister(&mut self, name: &str) -> (r: Result<()>)
        ensures
            final(self).same_setup(old(self)),
            final(self).pending() == old(self).pending(),
            final(self).history() == old(self).history(),
            final(self).handles() == crate::collections::without(old(self).handles(), name@),
            !has_key(old(self).handles(), name@) ==> r is Ok,
    {
        match self.strategies.remove(name) {
            Some(handle) => {
                let mut handle = handle;
                handle.strategy.shutdown()
            },
            None => Ok(()),
        }
    }

    fn set_status(&mut self, name: &str, status: StrategyStatus) -> (r: Result<()>)
        ensures
            final(self).same_setup(old(self)),
            final(self).pending() == old(self).pending(),
            final(self).history() == old(self).history(),
            match r {
                Ok(()) => status_set(old(self).handles(), final(self).handles(), name@, status),
                Err(e) => not_found(old(self).handles(), final(self).handles(), name@, e),
            },
    {
        match self.strategies.position(name) {
            Some(i) => {
                let handle = self.strategies.value_at_mut(i);
                handle.status = status;
                Ok(())
            },
            None => {
                let msg = "Strategy '".to_owned().concat(name).concat("' not found");
                Err(Error::invalid_input(msg.as_str()))
            },
        }
    }

    /// Sets the strategy `name` running. An unknown name is an invalid
    /// input.
    pub fn start_strategy(&mut self, name: &str) -> (r: Result<()>)
        ensures
            final(self).same_setup(old(self)),
            final(self).pending() == old(self).pending(),
            final(self).history() == old(self).history(),
            match r {
                Ok(()) => status_set(
                    old(self).handles(),
                    final(self).handles(),
                    name@,
                    StrategyStatus::Running,
                ),
                Err(e) => not_found(old(self).handles(), final(self).handles(), name@, e),
            },
    {
        self.set_status(name, StrategyStatus::Running)
    }

    /// Stops the strategy `name`. An unknown name is an invalid input.
    pub fn stop_strategy(&mut self, name: &str) -> (r: Result<()>)
        ensures
            final(self).same_setup(old(self)),
            final(self).pending() == old(self).pending(),
            final(self).history() == old(self).history(),
            match r {
                Ok(()) => status_set(
                    old(self).handles(),
                    final(self).handles(),
                    name@,
                    StrategyStatus::Stopped,
                ),
                Err(e) => not_found(old(self).handles(), final(self).handles(), name@, e),
            },
    {
        self.set_status(name, StrategyStatus::Stopped)
    }

    /// Pauses the strategy `name`. An unknown name is an invalid input.
    pub fn pause_strategy(&mut self, name: &str) -> (r: Result<()>)
        ensures
            final(self).same_setup(old(self)),
            final(self).pending() == old(self).pending(),
            final(self).history() == old(self).history(),
            match r {
                Ok(()) => status_set(
                    old(self).handles(),
                    final(self).handles(),
                    name@,
                    StrategyStatus::Paused,
                ),
                Err(e) => not_found(old(self).handles(), final(self).handles(), name@, e),
            },
    {
        self.set_status(name, StrategyStatus::Paused)
    }

    /// Lets the engine evaluate.
    pub fn start(&mut self)
        ensures
            final(self).is_running(),
            final(self).handles() == old(self).handles(),
            final(self).pending() == old(self).pending(),
            final(self).history() == old(self).history(),
            final(self).limits() == old(self).limits(),
            final(self).max_errors() == old(self).max_errors(),
            final(self).max_history() == old(self).max_history(),
    {
        self.running = true;
    }

    /// Keeps the engine from evaluating. What is queued stays queued.
    pub fn stop(&mut self)
        ensures
            !final(self).is_running(),
            final(self).handles() == old(self).handles(),
            final(self).pending() == old(self).pending(),
            final(self).history() == old(self).history(),
            final(self).limits() == old(self).limits(),
            final(self).max_errors() == old(self).max_errors(),
            final(self).max_history() == old(self).max_history(),
    {
        self.running = false;
    }

    /// Replaces the configuration of the strategy `name`. An unknown name
    /// is an invalid input.
    pub fn update_config(&mut self, name: &str, config: StrategyConfig) -> (r: Result<()>)
        ensures
            final(self).same_setup(old(self)),
            final(self).pending() == old(self).pending(),
            final(self).history() == old(self).history(),
            match r {
                Ok(()) => config_set(old(self).handles(), final(self).handles(), name@, config),
                Err(e) => not_found(old(self).handles(), final(self).handles(), name@, e),
            },
    {
        match self.strategies.position(name) {
            Some(i) => {
                let handle = self.strategies.value_at_mut(i);
                handle.config = config;
                Ok(())
            },
            None => {
                let msg = "Strategy '".to_owned().concat(name).concat("' not found");
                Err(Error::invalid_input(msg.as_str()))
            },
        }
    }

    /// The signals that wait to be executed.
    pub fn pending_signals(&self) -> (r: &[Signal])
        ensures
            r@.len() == self.pending().len(),
            forall|i: int| 0 <= i < r@.len() ==> (#[trigger] r@[i])@ == self.pending()[i],
    {
        self.pending_signals.as_slice()
    }

    /// The history.
    pub fn signal_history(&self) -> (r: &[SignalRecord])
        ensures
            r@.len() == self.history().len(),
            forall|i: int| 0 <= i < r@.len() ==> (#[trigger] r@[i])@ == self.history()[i],
    {
        self.signal_history.as_slice()
    }

    /// The registered strategies.
    pub fn strategies(&self) -> (r: &TextMap<StrategyHandle>)
        ensures
            r@ == self.handles(),
    {
        &self.strategies
    }

    /// The handle of the strategy `name`, to be changed in place.
    pub fn get_strategy_mut(&mut self, name: &str) -> (r: Option<&mut StrategyHandle>)
        ensures
            final(self).same_setup(old(self)),
            final(self).pending() == old(self).pending(),
            final(self).history() == old(self).history(),
            match r {
                Some(h) => has_key(old(self).handles(), name@) && *h == old(self).handles()[index_of(
                    old(self).handles(),
                    name@,
                )].1 && final(self).handles() == old(self).handles().update(
                    index_of(old(self).handles(), name@),
                    (name@, *final(h)),
                ),
                None => !has_key(old(self).handles(), name@) && final(self).handles() == old(self).handles(),
            },
    {
        self.strategies.get_mut(name)
    }

    /// Whether the engine evaluates.
    pub fn running(&self) -> (r: bool)
        ensures
            r == self.is_running(),
    {
        self.running
    }

    /// Takes every queued signal with the id `signal_id` out of the queue.
    pub fn clear_signal(&mut self, signal_id: &str)
        ensures
            final(self).same_setup(old(self)),
            final(self).handles() == old(self).handles(),
            final(self).history() == old(self).history(),
            final(self).pending() == without_id(old(self).pending(), signal_id@),
    {
        let kept = Self::others(&self.pending_signals, signal_id);
        self.pending_signals = kept;
    }

    fn others(signals: &Vec<Signal>, signal_id: &str) -> (r: Vec<Signal>)
        ensures
            r.deep_view() == without_id(signals.deep_view(), signal_id@),
    {
        let ghost all = signals.deep_view();
        let mut out: Vec<Signal> = Vec::new();
        let mut i: usize = 0;
        proof {
            assert(all.take(0) =~= Seq::<SignalView>::empty());
            assert(out.deep_view() =~= Seq::<SignalView>::empty());
        }
        while i < signals.len()
            invariant
                i <= signals@.len(),
                all == signals.deep_view(),
                out.deep_view() == without_id(all.take(i as int), signal_id@),
            decreases signals@.len() - i,
        {
            proof {
                assert(all.take(i + 1).drop_last() =~= all.take(i as int));
                assert(all.take(i + 1).last() == signals@[i as int]@);
            }
            let ghost before = out.deep_view();
            if !str_eq(signals[i].id.as_str(), signal_id) {
                out.push(signals[i].clone());
                proof {
                    assert(out.deep_view() =~= before.push(signals@[i as int]@));
                }
            }
            i += 1;
        }
        proof {
            assert(all.take(all.len() as int) =~= all);
        }
        out
    }

    /// Empties the queue.
    pub fn clear_all_signals(&mut self)
        ensures
            final(self).same_setup(old(self)),
            final(self).handles() == old(self).handles(),
            final(self).history() == old(self).history(),
            final(self).pending().len() == 0,
    {
        self.pending_signals = Vec::new();
        proof {
            assert(self.pending_signals.deep_view() =~= Seq::<SignalView>::empty());
        }
    }

    /// One tick at the instant that the machine's clock gives: what
    /// [`StrategyEngine::evaluate_at`] does for that instant.
    pub fn evaluate(&mut self, ctx: &StrategyContext) -> (r: Vec<Signal>)
        ensures
            !old(self).is_running() ==> r@.len() == 0 && *final(self) == *old(self),
            old(self).is_running() ==> final(self).same_setup(old(self)) && final(self).history()
                == old(self).history() && final(self).pending() == old(self).pending()
                + r.deep_view() && same_registry(old(self).handles(), final(self).handles()),
            forall|i: int|
                0 <= i < r@.len() ==> first_violation(
                    old(self).limits(),
                    (#[trigger] r@[i])@,
                    ctx.positions@,
                ) is None,
            old(self).is_running() ==> exists|now: Timestamp| #[trigger]
                ticked(old(self).handles(), final(self).handles(), r.deep_view(), now),
    {
        let now = crate::clock::now();
        let r = self.evaluate_at(ctx, now);
        proof {
            if old(self).is_running() {
                assert forall|i: int| 0 <= i < r.deep_view().len() implies named_by_due(
                    old(self).handles(),
                    (#[trigger] r.deep_view()[i]).strategy_name,
                    now,
                ) by {
                    assert(r.deep_view()[i] == r@[i]@);
                }
                assert(ticked(old(self).handles(), self.handles(), r.deep_view(), now));
            }
        }
        r
    }

    /// One tick at `now`. A stopped engine returns nothing and changes
    /// nothing. A running engine asks every strategy that is due for its
    /// signals, showing it the markets its configuration lets through,
    /// writes the strategy's name on them, and notes the evaluation; the
    /// signals that break no limit are returned, and queued in that order
    /// behind what was queued before. Strategies that are not due are left
    /// as they are.
    pub fn evaluate_at(&mut self, ctx: &StrategyContext, now: Timestamp) -> (r: Vec<Signal>)
        ensures
            !old(self).is_running() ==> r@.len() == 0 && *final(self) == *old(self),
            old(self).is_running() ==> final(self).same_setup(old(self)) && final(self).history()
                == old(self).history() && final(self).pending() == old(self).pending()
                + r.deep_view() && same_registry(old(self).handles(), final(self).handles()),
            forall|i: int|
                0 <= i < r@.len() ==> first_violation(
                    old(self).limits(),
                    (#[trigger] r@[i])@,
                    ctx.positions@,
                ) is None,
            forall|i: int|
                0 <= i < r@.len() ==> named_by_due(
                    old(self).handles(),
                    (#[trigger] r@[i])@.strategy_name,
                    now,
                ),
            old(self).is_running() ==> forall|k: int|
                0 <= k < old(self).handles().len() ==> if is_due(
                    (#[trigger] old(self).handles()[k]).1,
                    now,
                ) {
                    evaluated(old(self).handles()[k].1, final(self).handles()[k].1, now)
                } else {
                    final(self).handles()[k] == old(self).handles()[k]
                },
    {
        if !self.running {
            return Vec::new();
        }
        let n = self.strategies.len();
        let mut all: Vec<Signal> = Vec::new();
        let mut i: usize = 0;
        proof {
            assert(all.deep_view() =~= Seq::<SignalView>::empty());
        }
        while i < n
            invariant
                i <= n == old(self).strategies@.len(),
                self.strategies@.len() == n,
                self.risk_guard == old(self).risk_guard,
                self.action_tx == old(self).action_tx,
                self.config == old(self).config,
                self.running == old(self).running,
                self.pending_signals == old(self).pending_signals,
                self.signal_history == old(self).signal_history,
                forall|k: int| 0 <= k < n ==> (#[trigger] self.strategies@[k]).0 == old(self).strategies@[k].0,
                forall|k: int|
                    0 <= k < i ==> if is_due((#[trigger] old(self).strategies@[k]).1, now) {
                        evaluated(old(self).strategies@[k].1, self.strategies@[k].1, now)
                    } else {
                        self.strategies@[k] == old(self).strategies@[k]
                    },
                forall|k: int| i <= k < n ==> (#[trigger] self.strategies@[k]) == old(self).strategies@[k],
                forall|j: int|
                    0 <= j < all.deep_view().len() ==> named_by_due(
                        old(self).strategies@,
                        (#[trigger] all.deep_view()[j]).strategy_name,
                        now,
                    ),
            decreases n - i,
        {
            if due(self.strategies.value_at(i), now) {
                let ghost before = self.strategies@;
                let max_errors = self.config.max_strategy_errors;
                let name = self.strategies.key_at(i).clone();
                let handle = self.strategies.value_at_mut(i);
                let filtered = ctx.filtered(
                    &handle.config.include_markets,
                    &handle.config.exclude_markets,
                );
                let mut signals = handle.strategy.evaluate(&filtered);
                tag_signals(&mut signals, name.as_str());
                record_evaluation(handle, Some(signals.len()), now, max_errors);
                let ghost collected = all.deep_view();
                append_signals(&mut all, &signals);
                proof {
                    assert(is_due(old(self).strategies@[i as int].1, now));
                    assert forall|j: int| 0 <= j < all.deep_view().len() implies named_by_due(
                        old(self).strategies@,
                        (#[trigger] all.deep_view()[j]).strategy_name,
                        now,
                    ) by {
                        if j >= collected.len() {
                            assert(all.deep_view()[j] == signals.deep_view()[j - collected.len()]);
                            assert(all.deep_view()[j].strategy_name == old(self).strategies@[i as int].0);
                        } else {
                            assert(all.deep_view()[j] == collected[j]);
                        }
                    }
                }
            }
            i += 1;
        }
        let approved_signals = apply_risk_checks(&self.risk_guard, &all, ctx);
        proof {
            lemma_approved(all.deep_view(), self.risk_guard.limits(), ctx.positions@);
            assert forall|j: int| 0 <= j < approved_signals@.len() implies named_by_due(
                old(self).handles(),
                (#[trigger] approved_signals@[j])@.strategy_name,
                now,
            ) by {
                let s = approved_signals.deep_view()[j];
                assert(s == approved_signals@[j]@);
                assert(all.deep_view().contains(s));
                let k = choose|k: int| 0 <= k < all.deep_view().len() && all.deep_view()[k] == s;
                assert(named_by_due(old(self).strategies@, all.deep_view()[k].strategy_name, now));
            }
            assert forall|j: int| 0 <= j < approved_signals@.len() implies first_violation(
                old(self).limits(),
                (#[trigger] approved_signals@[j])@,
                ctx.positions@,
            ) is None by {
                assert(approved_signals.deep_view()[j] == approved_signals@[j]@);
            }
        }
        append_signals(&mut self.pending_signals, &approved_signals);
        approved_signals
    }

    /// Tells the strategy of a signal that one more of its signals was
    /// executed, and counts it. A signal of no registered strategy changes
    /// nothing.
    fn note_execution(&mut self, signal: &Signal)
        ensures
            final(self).same_setup(old(self)),
            final(self).pending_signals == old(self).pending_signals,
            final(self).signal_history == old(self).signal_history,
            same_registry(old(self).handles(), final(self).handles()),
            forall|k: int|
                0 <= k < old(self).handles().len() ==> if (#[trigger] old(self).handles()[k]).0
                    == signal@.strategy_name {
                    counted_execution(old(self).handles()[k].1, final(self).handles()[k].1)
                } else {
                    final(self).handles()[k] == old(self).handles()[k]
                },
            counted_all(old(self).handles(), final(self).handles(), seq![signal@]),
    {
        self.tell_of_execution(signal);
        proof {
            assert forall|name: Seq<char>| #[trigger] executions(seq![signal@], name) == if signal@.strategy_name
                == name {
                1nat
            } else {
                0nat
            } by {
                lemma_one_execution(signal@, name);
            }
        }
    }

    fn tell_of_execution(&mut self, signal: &Signal)
        ensures
            final(self).same_setup(old(self)),
            final(self).pending_signals == old(self).pending_signals,
            final(self).signal_history == old(self).signal_history,
            same_registry(old(self).handles(), final(self).handles()),
            forall|k: int|
                0 <= k < old(self).handles().len() ==> if (#[trigger] old(self).handles()[k]).0
                    == signal@.strategy_name {
                    counted_execution(old(self).handles()[k].1, final(self).handles()[k].1)
                } else {
                    final(self).handles()[k] == old(self).handles()[k]
                },
    {
        match self.strategies.position(signal.strategy_name.as_str()) {
            Some(i) => {
                let ghost before = self.strategies@;
                let m = self.strategies.len();
                let handle = self.strategies.value_at_mut(i);
                handle.signals_executed = add_capped(handle.signals_executed, 1);
                handle.strategy.on_signal_executed(signal, true);
                proof {
                    assert forall|k: int| 0 <= k < before.len() implies if (#[trigger] before[k]).0
                        == signal@.strategy_name {
                        counted_execution(before[k].1, self.strategies@[k].1)
                    } else {
                        self.strategies@[k] == before[k]
                    } by {
                        if k != i {
                            if k < i {
                                assert(before[k].0 != before[i as int].0);
                            } else {
                                assert(before[i as int].0 != before[k].0);
                            }
                        }
                    }
                }
            },
            None => {
                proof {
                    assert forall|k: int| 0 <= k < self.strategies@.len() implies (
                    #[trigger] self.strategies@[k]).0 != signal@.strategy_name by {
                        if self.strategies@[k].0 == signal@.strategy_name {
                            assert(has_key(self.strategies@, signal@.strategy_name));
                        }
                    }
                }
            },
        }
    }

    fn lets_execute(&self, name: &str) -> (r: bool)
        ensures
            r == auto_executes(self.handles(), name@),
    {
        match self.strategies.get(name) {
            Some(handle) => handle.config.auto_execute,
            None => true,
        }
    }

    /// Drains the queue at the instant that the machine's clock gives:
    /// what [`StrategyEngine::execute_pending_at`] does for that instant.
    pub fn execute_pending_signals(&mut self) -> (r: Result<Vec<String>>)
        ensures
            final(self).same_setup(old(self)),
            final(self).pending().len() == 0,
            same_registry(old(self).handles(), final(self).handles()),
            exists|now: Timestamp, i: int| #[trigger]
                drained_to(
                    old(self).handles(),
                    old(self).pending(),
                    old(self).history(),
                    old(self).max_history(),
                    final(self).handles(),
                    final(self).history(),
                    r,
                    now,
                    i,
                ),
    {
        let now = crate::clock::now();
        let r = self.execute_pending_at(now);
        proof {
            let i = choose|i: int| #[trigger]
                drained_to(
                    old(self).handles(),
                    old(self).pending(),
                    old(self).history(),
                    old(self).max_history(),
                    self.handles(),
                    self.history(),
                    r,
                    now,
                    i,
                );
            assert(drained_to(
                old(self).handles(),
                old(self).pending(),
                old(self).history(),
                old(self).max_history(),
                self.handles(),
                self.history(),
                r,
                now,
                i,
            ));
        }
        r
    }

    /// Drains the queue at `now`, oldest signal first. A signal that has
    /// expired, or whose strategy does not let its signals be executed
    /// unasked, is dropped: no order goes out for it and the history does
    /// not hear of it. Every other signal is turned into a limit order,
    /// handed to the channel, noted in the history and counted, and its
    /// strategy is told. The ids of the executed signals are returned. The
    /// first signal that has no price, or that the channel does not take,
    /// ends the draining with an error; the rest of the queue is then lost.
    pub fn execute_pending_at(&mut self, now: Timestamp) -> (r: Result<Vec<String>>)
        ensures
            final(self).same_setup(old(self)),
            final(self).pending().len() == 0,
            same_registry(old(self).handles(), final(self).handles()),
            exists|i: int| #[trigger]
                drained_to(
                    old(self).handles(),
                    old(self).pending(),
                    old(self).history(),
                    old(self).max_history(),
                    final(self).handles(),
                    final(self).history(),
                    r,
                    now,
                    i,
                ),
    {
        let mut signals: Vec<Signal> = Vec::new();
        std::mem::swap(&mut signals, &mut self.pending_signals);
        let n0 = self.strategies.len();
        let mut executed: Vec<String> = Vec::new();
        let mut i: usize = 0;
        let ghost pending = signals.deep_view();
        let ghost handles = self.strategies@;
        proof {
            assert(self.pending() =~= Seq::<SignalView>::empty());
            assert(pending.take(0) =~= Seq::<SignalView>::empty());
            assert(executed.deep_view() =~= ids_of(executed_through(handles, pending, now, 0)));
        }
        while i < signals.len()
            invariant
                i <= signals@.len(),
                pending == signals.deep_view(),
                pending == old(self).pending(),
                handles == old(self).handles(),
                distinct_keys(handles),
                self.same_setup(old(self)),
                self.pending().len() == 0,
                self.max_history() == old(self).max_history(),
                same_registry(handles, self.strategies@),
                self.history() == recorded_all(
                    old(self).history(),
                    executed_through(handles, pending, now, i as int),
                    now,
                    old(self).max_history(),
                ),
                executed.deep_view() == ids_of(executed_through(handles, pending, now, i as int)),
                forall|j: int|
                    0 <= j < i && executable(handles, #[trigger] pending[j], now) ==> pending[j].price
                        is Some,
                counted_all(handles, self.strategies@, executed_through(handles, pending, now, i as int)),
            decreases signals@.len() - i,
        {
            proof {
                assert(pending.take(i + 1).drop_last() =~= pending.take(i as int));
                assert(pending.take(i + 1).last() == signals@[i as int]@);
                assert(pending[i as int] == signals@[i as int]@);
                lemma_same_registry(handles, self.strategies@);
            }
            let expired = signals[i].is_expired_at(now);
            let allowed = self.lets_execute(signals[i].strategy_name.as_str());
            if !expired && allowed {
                let order = match signal_to_order(&signals[i]) {
                    Ok(o) => o,
                    Err(e) => {
                        let r = Err(e);
                        proof {
                            assert(drained_to(
                                handles,
                                pending,
                                old(self).history(),
                                old(self).max_history(),
                                self.handles(),
                                self.history(),
                                r,
                                now,
                                i as int,
                            ));
                        }
                        return r;
                    },
                };
                match send_action(&self.action_tx, Action::PlaceOrder(order)) {
                    Ok(()) => {},
                    Err(msg) => {
                        let r = Err(Error::channel(msg.as_str()));
                        proof {
                            assert(drained_to(
                                handles,
                                pending,
                                old(self).history(),
                                old(self).max_history(),
                                self.handles(),
                                self.history(),
                                r,
                                now,
                                i as int,
                            ));
                        }
                        return r;
                    },
                }
                let ghost before_ids = executed.deep_view();
                let ghost before_registry = self.strategies@;
                self.record_signal(&signals[i], now);
                executed.push(signals[i].id.clone());
                self.note_execution(&signals[i]);
                proof {
                    let done = executed_through(handles, pending, now, i as int);
                    let next = executed_through(handles, pending, now, i + 1);
                    assert(next == done.push(signals@[i as int]@));
                    assert(next.drop_last() =~= done);
                    assert(next.last() == signals@[i as int]@);
                    assert(executed.deep_view() =~= before_ids.push(signals@[i as int]@.id));
                    assert(ids_of(next) =~= ids_of(done).push(signals@[i as int]@.id));
                    lemma_counted_step(
                        handles,
                        before_registry,
                        self.strategies@,
                        done,
                        signals@[i as int]@,
                    );
                }
            }
            i += 1;
        }
        proof {
            assert(pending.take(pending.len() as int) =~= pending);
        }
        let r = Ok(executed);
        proof {
            assert(drained_to(
                handles,
                pending,
                old(self).history(),
                old(self).max_history(),
                self.handles(),
                self.history(),
                r,
                now,
                i as int,
            ));
        }
        r
    }

    fn find_signal(&self, signal_id: &str) -> (r: Option<usize>)
        ensures
            match r {
                Some(j) => is_first_with_id(self.pending(), signal_id@, j as int) && j
                    < self.pending_signals@.len() && first_with_id(self.pending(), signal_id@)
                    == Some(self.pending()[j as int]),
                None => first_with_id(self.pending(), signal_id@) is None,
            },
    {
        let mut j: usize = 0;
        while j < self.pending_signals.len()
            invariant
                j <= self.pending_signals@.len(),
                forall|k: int| 0 <= k < j ==> (#[trigger] self.pending()[k]).id != signal_id@,
            decreases self.pending_signals@.len() - j,
        {
            proof {
                assert(self.pending()[j as int] == self.pending_signals@[j as int]@);
            }
            if str_eq(self.pending_signals[j].id.as_str(), signal_id) {
                proof {
                    assert(is_first_with_id(self.pending(), signal_id@, j as int));
                    let c = choose|c: int| is_first_with_id(self.pending(), signal_id@, c);
                    if c < j {
                        assert(self.pending()[c].id != signal_id@);
                    } else if j < c {
                        assert(self.pending()[j as int].id != signal_id@);
                    }
                }
                return Some(j);
            }
            j += 1;
        }
        proof {
            assert forall|c: int| !is_first_with_id(self.pending(), signal_id@, c) by {
                if is_first_with_id(self.pending(), signal_id@, c) {
                    assert(self.pending()[c].id != signal_id@);
                }
            }
        }
        None
    }

    /// Executes one queued signal at the instant that the machine's clock
    /// gives: what [`StrategyEngine::execute_signal_at`] does for that
    /// instant, which is the time noted in the history.
    pub fn execute_signal(&mut self, signal_id: &str) -> (r: Result<()>)
        ensures
            final(self).same_setup(old(self)),
            same_registry(old(self).handles(), final(self).handles()),
            match (first_with_id(old(self).pending(), signal_id@), r) {
                (None, Ok(())) => false,
                (None, Err(e)) => e.is_invalid_input("Signal not found"@),
                (Some(s), Ok(())) => s.price is Some && final(self).pending() == without_id(
                    old(self).pending(),
                    signal_id@,
                ) && counted_all(old(self).handles(), final(self).handles(), seq![s])
                    && exists|now: Timestamp|
                    final(self).history() == #[trigger] recorded(
                        old(self).history(),
                        s,
                        now,
                        old(self).max_history(),
                    ),
                (Some(s), Err(e)) => if s.price is None {
                    e.is_invalid_input("Signal must have a price for limit order"@)
                } else {
                    e is Channel
                },
            },
            r is Err ==> final(self).pending() == old(self).pending() && final(self).history()
                == old(self).history() && final(self).handles() == old(self).handles(),
    {
        let now = crate::clock::now();
        let r = self.execute_signal_at(signal_id, now);
        proof {
            if r is Ok {
                let s = first_with_id(old(self).pending(), signal_id@)->0;
                assert(self.history() == recorded(old(self).history(), s, now, old(self).max_history()));
            }
        }
        r
    }

    /// Executes the first queued signal with the id `signal_id` at `now`,
    /// whatever its age and whatever its strategy lets be executed unasked:
    /// the signal is turned into a limit order, handed to the channel, noted
    /// in the history and counted, its strategy is told, and every queued
    /// signal of that id leaves the queue. An id that is not queued and a
    /// signal without a price are invalid inputs; an order that the channel
    /// does not take is a channel error. An error leaves queue and history
    /// as they are.
    pub fn execute_signal_at(&mut self, signal_id: &str, now: Timestamp) -> (r: Result<()>)
        ensures
            final(self).same_setup(old(self)),
            same_registry(old(self).handles(), final(self).handles()),
            match (first_with_id(old(self).pending(), signal_id@), r) {
                (None, Ok(())) => false,
                (None, Err(e)) => e.is_invalid_input("Signal not found"@),
                (Some(s), Ok(())) => s.price is Some && final(self).pending() == without_id(
                    old(self).pending(),
                    signal_id@,
                ) && final(self).history() == recorded(
                    old(self).history(),
                    s,
                    now,
                    old(self).max_history(),
                ) && counted_all(old(self).handles(), final(self).handles(), seq![s]),
                (Some(s), Err(e)) => if s.price is None {
                    e.is_invalid_input("Signal must have a price for limit order"@)
                } else {
                    e is Channel
                },
            },
            r is Err ==> final(self).pending() == old(self).pending() && final(self).history()
                == old(self).history() && final(self).handles() == old(self).handles(),
    {
        let n0 = self.strategies.len();
        let j = match self.find_signal(signal_id) {
            Some(j) => j,
            None => {
                return Err(Error::invalid_input("Signal not found"));
            },
        };
        let signal = self.pending_signals[j].clone();
        proof {
            assert(self.pending()[j as int] == self.pending_signals@[j as int]@);
        }
        let order = match signal_to_order(&signal) {
            Ok(o) => o,
            Err(e) => {
                return Err(e);
            },
        };
        match send_action(&self.action_tx, Action::PlaceOrder(order)) {
            Ok(()) => {},
            Err(msg) => {
                return Err(Error::channel(msg.as_str()));
            },
        }
        self.record_signal(&signal, now);
        let kept = Self::others(&self.pending_signals, signal_id);
        self.pending_signals = kept;
        self.note_execution(&signal);
        Ok(())
    }

    /// Tells every running strategy that the market data changed.
    pub fn on_market_update(&mut self, ctx: &StrategyContext)
        ensures
            final(self).same_setup(old(self)),
            final(self).pending() == old(self).pending(),
            final(self).history() == old(self).history(),
            same_registry(old(self).handles(), final(self).handles()),
            forall|k: int|
                0 <= k < old(self).handles().len() ==> if (#[trigger] old(self).handles()[k]).1.status
                    == StrategyStatus::Running {
                    told(old(self).handles()[k].1, final(self).handles()[k].1)
                } else {
                    final(self).handles()[k] == old(self).handles()[k]
                },
    {
        let n = self.strategies.len();
        let mut i: usize = 0;
        while i < n
            invariant
                i <= n == old(self).strategies@.len(),
                self.strategies@.len() == n,
                self.risk_guard == old(self).risk_guard,
                self.action_tx == old(self).action_tx,
                self.config == old(self).config,
                self.running == old(self).running,
                self.pending_signals == old(self).pending_signals,
                self.signal_history == old(self).signal_history,
                forall|k: int| 0 <= k < n ==> (#[trigger] self.strategies@[k]).0 == old(self).strategies@[k].0,
                forall|k: int|
                    0 <= k < i ==> if (#[trigger] old(self).strategies@[k]).1.status
                        == StrategyStatus::Running {
                        told(old(self).strategies@[k].1, self.strategies@[k].1)
                    } else {
                        self.strategies@[k] == old(self).strategies@[k]
                    },
                forall|k: int| i <= k < n ==> (#[trigger] self.strategies@[k]) == old(self).strategies@[k],
            decreases n - i,
        {
            if self.strategies.value_at(i).status == StrategyStatus::Running {
                let handle = self.strategies.value_at_mut(i);
                handle.strategy.on_market_update(ctx);
            }
            i += 1;
        }
    }

    /// Tells the strategy `strategy_name` that one of its orders was filled.
    /// An unknown name changes nothing.
    pub fn on_order_filled(
        &mut self,
        strategy_name: &str,
        order_id: &str,
        filled_price: Decimal,
        filled_size: Decimal,
    )
        ensures
            final(self).same_setup(old(self)),
            final(self).pending() == old(self).pending(),
            final(self).history() == old(self).history(),
            same_registry(old(self).handles(), final(self).handles()),
            forall|k: int|
                0 <= k < old(self).handles().len() ==> if (#[trigger] old(self).handles()[k]).0
                    == strategy_name@ {
                    told(old(self).handles()[k].1, final(self).handles()[k].1)
                } else {
                    final(self).handles()[k] == old(self).handles()[k]
                },
    {
        match self.strategies.position(strategy_name) {
            Some(i) => {
                let ghost before = self.strategies@;
                let m = self.strategies.len();
                let handle = self.strategies.value_at_mut(i);
                handle.strategy.on_order_filled(order_id, filled_price, filled_size);
                proof {
                    assert forall|k: int| 0 <= k < before.len() implies if (#[trigger] before[k]).0
                        == strategy_name@ {
                        told(before[k].1, self.strategies@[k].1)
                    } else {
                        self.strategies@[k] == before[k]
                    } by {
                        if k != i {
                            if k < i {
                                assert(before[k].0 != before[i as int].0);
                            } else {
                                assert(before[i as int].0 != before[k].0);
                            }
                        }
                    }
                }
            },
            None => {
                proof {
                    assert forall|k: int| 0 <= k < self.strategies@.len() implies (
                    #[trigger] self.strategies@[k]).0 != strategy_name@ by {
                        if self.strategies@[k].0 == strategy_name@ {
                            assert(has_key(self.strategies@, strategy_name@));
                        }
                    }
                }
            },
        }
    }

    fn record_signal(&mut self, signal: &Signal, now: Timestamp)
        ensures
            final(self).same_setup(old(self)),
            final(self).handles() == old(self).handles(),
            final(self).pending() == old(self).pending(),
            final(self).history() == recorded(
                old(self).history(),
                signal@,
                now,
                old(self).max_history(),
            ),
            final(self).max_history() == old(self).max_history(),
    {
        let ghost before = self.signal_history.deep_view();
        self.signal_history.push(
            SignalRecord { signal: signal.clone(), executed: true, executed_at: Some(now), result: None },
        );
        let ghost longer = self.signal_history.deep_view();
        proof {
            assert(longer =~= before.push(
                SignalRecordView {
                    signal: signal@,
                    executed: true,
                    executed_at: Some(now),
                    has_result: false,
                },
            ));
        }
        if self.signal_history.len() > self.config.max_signal_history {
            self.signal_history.remove(0);
            proof {
                assert(self.signal_history.deep_view() =~= longer.remove(0));
            }
        }
    }
}

} // verus!
