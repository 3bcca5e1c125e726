use std::cell::RefCell;
use std::rc::Rc;

use clobster::decimal::Decimal;
use clobster::error::Error;
use clobster::state::{Action, MarketStatus, OrderSide, OrderType};
use clobster::strategy::engine::{apply_risk_checks, due, record_evaluation, signal_to_order, tag_signals};
use clobster::strategy::{
    EngineConfig, MarketSnapshot, RiskConfig, RiskGuard, Signal, Strategy, StrategyConfig, StrategyContext,
    StrategyEngine, StrategyHandle, StrategyStatus,
};
use tokio::sync::mpsc::{unbounded_channel, UnboundedReceiver};

fn q(mantissa: i64, scale: u32) -> Decimal {
    Decimal::new(mantissa, scale)
}

/// What a scripted strategy was asked and told.
#[derive(Default)]
struct Log {
    evaluations: usize,
    seen: Vec<Vec<String>>,
    executed: Vec<(String, bool)>,
    updates: usize,
    fills: Vec<String>,
    shutdowns: usize,
}

/// A strategy that proposes the same signals at every evaluation.
struct Scripted {
    name: String,
    prices: Vec<Option<i64>>,
    accepts: bool,
    log: Rc<RefCell<Log>>,
}

impl Scripted {
    fn new(name: &str, prices: &[Option<i64>]) -> (Self, Rc<RefCell<Log>>) {
        let log = Rc::new(RefCell::new(Log::default()));
        (Scripted { name: name.to_string(), prices: prices.to_vec(), accepts: true, log: log.clone() }, log)
    }
}

impl Strategy for Scripted {
    fn name(&self) -> &str {
        &self.name
    }

    fn initialize(&mut self, _config: &StrategyConfig) -> Result<(), Error> {
        if self.accepts {
            Ok(())
        } else {
            Err(Error::invalid_input("no"))
        }
    }

    fn evaluate(&mut self, ctx: &StrategyContext) -> Vec<Signal> {
        let mut log = self.log.borrow_mut();
        log.evaluations += 1;
        log.seen.push(ctx.markets().iter().map(|m| m.condition_id.clone()).collect());
        self.prices
            .iter()
            .enumerate()
            .map(|(i, p)| {
                let s = Signal::new_at("m1", &format!("t{}", i), OrderSide::Buy, q(10, 0), ctx.timestamp);
                match p {
                    Some(p) => s.with_price(q(*p, 2)),
                    None => s,
                }
            })
            .collect()
    }

    fn on_signal_executed(&mut self, signal: &Signal, success: bool) {
        self.log.borrow_mut().executed.push((signal.id.clone(), success));
    }

    fn on_market_update(&mut self, _ctx: &StrategyContext) {
        self.log.borrow_mut().updates += 1;
    }

    fn on_order_filled(&mut self, order_id: &str, _filled_price: Decimal, _filled_size: Decimal) {
        self.log.borrow_mut().fills.push(order_id.to_string());
    }

    fn shutdown(&mut self) -> Result<(), Error> {
        self.log.borrow_mut().shutdowns += 1;
        Ok(())
    }
}

fn open_limits() -> RiskConfig {
    RiskConfig {
        enabled: true,
        max_position_size: None,
        min_position_size: None,
        max_total_exposure: None,
        max_positions: None,
        max_exposure_per_market: None,
        max_daily_volume: None,
        max_daily_trades: None,
        max_daily_loss: None,
        min_balance: None,
        loss_cooldown_secs: None,
        blacklisted_markets: vec![],
        whitelisted_markets: vec![],
    }
}

fn engine_with(max_signal_history: usize) -> (StrategyEngine, UnboundedReceiver<Action>) {
    let (tx, rx) = unbounded_channel();
    let config = EngineConfig { risk_config: open_limits(), max_strategy_errors: 5, max_signal_history, evaluation_interval_ms: 1000 };
    (StrategyEngine::new(tx, config), rx)
}

fn running(auto_execute: bool) -> StrategyConfig {
    StrategyConfig { enabled: true, auto_execute, ..StrategyConfig::default() }
}

fn context(now: i64, markets: &[&str]) -> StrategyContext {
    let mut ctx = StrategyContext::new_at(now);
    for id in markets {
        ctx.markets.insert(
            id.to_string(),
            MarketSnapshot {
                condition_id: id.to_string(),
                question: String::new(),
                status: MarketStatus::Active,
                token_ids: vec![],
                token_names: vec![],
                token_prices: vec![],
                volume_24h: q(0, 0),
                liquidity: q(0, 0),
                spread: None,
                end_date: None,
            },
        );
    }
    ctx
}

fn invalid_input(r: Result<(), Error>) -> String {
    match r {
        Err(Error::InvalidInput(m)) => m,
        other => panic!("not an invalid input: {:?}", other),
    }
}

fn handle<'a>(engine: &'a StrategyEngine, name: &str) -> &'a StrategyHandle {
    engine.strategies().get(name).unwrap()
}

#[test]
fn a_new_engine_is_stopped_and_empty() {
    let (engine, _rx) = engine_with(10);
    assert!(!engine.running());
    assert!(engine.strategies().is_empty());
    assert!(engine.pending_signals().is_empty());
    assert!(engine.signal_history().is_empty());
    let d = EngineConfig::default();
    assert_eq!((d.max_strategy_errors, d.max_signal_history, d.evaluation_interval_ms), (5, 1000, 1000));
    assert!(d.risk_config.enabled);
}

#[test]
fn registration() {
    let (mut engine, _rx) = engine_with(10);
    let (a, _) = Scripted::new("a", &[]);
    assert!(engine.register(a, running(true)).is_ok());
    let h = handle(&engine, "a");
    assert_eq!(h.status, StrategyStatus::Stopped);
    assert_eq!((h.last_evaluated, h.signals_generated, h.signals_executed, h.errors), (None, 0, 0, 0));
    assert!(h.config.enabled && h.config.auto_execute);

    let (again, _) = Scripted::new("a", &[]);
    assert_eq!(invalid_input(engine.register(again, running(false))), "Strategy 'a' already registered");
    assert_eq!(engine.strategies().len(), 1);
    assert!(handle(&engine, "a").config.auto_execute);

    let (mut refusing, _) = Scripted::new("b", &[]);
    refusing.accepts = false;
    assert_eq!(invalid_input(engine.register(refusing, running(true))), "no");
    assert!(engine.strategies().get("b").is_none());

    let (b, log) = Scripted::new("b", &[]);
    assert!(engine.register(b, running(true)).is_ok());
    assert_eq!(engine.strategies().len(), 2);
    assert_eq!(engine.strategies().key_at(1), "b");
    assert!(engine.unregister("b").is_ok());
    assert_eq!(log.borrow().shutdowns, 1);
    assert_eq!(engine.strategies().len(), 1);
    assert!(engine.unregister("b").is_ok());
    assert_eq!(engine.strategies().len(), 1);
}

#[test]
fn status_of_a_strategy() {
    let (mut engine, _rx) = engine_with(10);
    let (a, _) = Scripted::new("a", &[]);
    engine.register(a, running(true)).unwrap();
    assert!(engine.start_strategy("a").is_ok());
    assert_eq!(handle(&engine, "a").status, StrategyStatus::Running);
    assert!(engine.pause_strategy("a").is_ok());
    assert_eq!(handle(&engine, "a").status, StrategyStatus::Paused);
    assert!(engine.stop_strategy("a").is_ok());
    assert_eq!(handle(&engine, "a").status, StrategyStatus::Stopped);
    assert_eq!(invalid_input(engine.start_strategy("x")), "Strategy 'x' not found");
    assert_eq!(invalid_input(engine.stop_strategy("x")), "Strategy 'x' not found");
    assert_eq!(invalid_input(engine.pause_strategy("x")), "Strategy 'x' not found");
    assert_eq!(invalid_input(engine.update_config("x", running(true))), "Strategy 'x' not found");
    assert!(engine.update_config("a", running(false)).is_ok());
    assert!(!handle(&engine, "a").config.auto_execute);
    assert_eq!(handle(&engine, "a").status, StrategyStatus::Stopped);
    assert_eq!(StrategyStatus::Running.label(), "▶ Running");
    assert_eq!(StrategyStatus::Stopped.label(), "⏹ Stopped");
    assert_eq!(StrategyStatus::Paused.label(), "⏸ Paused");
    assert_eq!(StrategyStatus::Error.label(), "⚠ Error");
}

#[test]
fn a_stopped_engine_evaluates_nothing_and_changes_nothing() {
    let (mut engine, _rx) = engine_with(10);
    let (a, log) = Scripted::new("a", &[Some(50)]);
    engine.register(a, running(true)).unwrap();
    engine.start_strategy("a").unwrap();
    assert!(engine.evaluate_at(&context(1000, &["m1"]), 1000).is_empty());
    assert!(engine.evaluate(&context(1000, &["m1"])).is_empty());
    assert_eq!(log.borrow().evaluations, 0);
    assert!(engine.pending_signals().is_empty());
    let h = handle(&engine, "a");
    assert_eq!((h.last_evaluated, h.signals_generated, h.status), (None, 0, StrategyStatus::Running));
    // stopping again keeps what is queued
    engine.start();
    assert_eq!(engine.evaluate_at(&context(1000, &["m1"]), 1000).len(), 1);
    engine.stop();
    assert!(!engine.running());
    assert!(engine.evaluate_at(&context(9000, &["m1"]), 9000).is_empty());
    assert_eq!(engine.pending_signals().len(), 1);
    assert_eq!(log.borrow().evaluations, 1);
    assert_eq!(handle(&engine, "a").last_evaluated, Some(1000));
}

#[test]
fn a_running_engine_evaluates_the_strategies_that_are_due() {
    let (mut engine, _rx) = engine_with(10);
    let (a, log_a) = Scripted::new("a", &[Some(50), Some(150), None]);
    let (b, log_b) = Scripted::new("b", &[Some(40)]);
    let (c, log_c) = Scripted::new("c", &[Some(30)]);
    let (d, log_d) = Scripted::new("d", &[Some(20)]);
    engine.register(a, running(true)).unwrap();
    engine.register(b, running(true)).unwrap();
    engine.register(c, StrategyConfig { enabled: false, ..StrategyConfig::default() }).unwrap();
    engine.register(d, running(true)).unwrap();
    engine.start_strategy("a").unwrap();
    engine.start_strategy("c").unwrap();
    engine.start_strategy("d").unwrap();
    engine.pause_strategy("d").unwrap();
    engine.start();
    let signals = engine.evaluate_at(&context(2000, &["m1"]), 2000);
    // of a's three signals the one priced 1.50 is refused; b is stopped, c disabled, d paused
    assert_eq!(signals.len(), 2);
    assert_eq!(signals[0].strategy_name, "a");
    assert_eq!((signals[0].token_id.as_str(), signals[0].price), ("t0", Some(q(50, 2))));
    assert_eq!((signals[1].token_id.as_str(), signals[1].price), ("t2", None));
    assert_eq!(log_a.borrow().evaluations, 1);
    assert_eq!((log_b.borrow().evaluations, log_c.borrow().evaluations, log_d.borrow().evaluations), (0, 0, 0));
    let h = handle(&engine, "a");
    assert_eq!((h.last_evaluated, h.signals_generated, h.errors), (Some(2000), 3, 0));
    assert_eq!(handle(&engine, "b").last_evaluated, None);
    let pending = engine.pending_signals();
    assert_eq!(pending.len(), 2);
    assert_eq!((pending[0].id.as_str(), pending[1].id.as_str()), (signals[0].id.as_str(), signals[1].id.as_str()));
    // the next tick queues behind
    engine.start_strategy("b").unwrap();
    let more = engine.evaluate_at(&context(3000, &["m1"]), 3000);
    assert_eq!(more.iter().map(|s| s.strategy_name.as_str()).collect::<Vec<_>>(), vec!["a", "a", "b"]);
    assert_eq!(engine.pending_signals().len(), 5);
    assert_eq!(engine.pending_signals()[4].strategy_name, "b");
    assert_eq!(handle(&engine, "a").signals_generated, 6);
}

#[test]
fn a_strategy_waits_for_its_interval() {
    let (mut engine, _rx) = engine_with(10);
    let (a, log) = Scripted::new("a", &[]);
    engine.register(a, StrategyConfig { enabled: true, min_signal_interval_secs: 10, ..StrategyConfig::default() }).unwrap();
    engine.start_strategy("a").unwrap();
    engine.start();
    engine.evaluate_at(&context(0, &[]), 100_000);
    engine.evaluate_at(&context(0, &[]), 109_999);
    assert_eq!(log.borrow().evaluations, 1);
    assert_eq!(handle(&engine, "a").last_evaluated, Some(100_000));
    engine.evaluate_at(&context(0, &[]), 110_000);
    assert_eq!(log.borrow().evaluations, 2);
    // after a clock that went back no time has passed
    engine.evaluate_at(&context(0, &[]), 50_000);
    assert_eq!(log.borrow().evaluations, 2);
    assert_eq!(handle(&engine, "a").last_evaluated, Some(110_000));
    engine.evaluate_at(&context(0, &[]), 120_000);
    assert_eq!(log.borrow().evaluations, 3);
    let h = StrategyHandle::new(Box::new(Scripted::new("x", &[]).0), running(true));
    assert!(!due(&h, 0));
}

#[test]
fn a_strategy_is_shown_its_markets_only() {
    let (mut engine, _rx) = engine_with(10);
    let (a, log_a) = Scripted::new("a", &[]);
    let (b, log_b) = Scripted::new("b", &[]);
    let only = StrategyConfig { enabled: true, include_markets: vec!["m2".to_string(), "m3".to_string()], exclude_markets: vec!["m3".to_string()], ..StrategyConfig::default() };
    engine.register(a, only).unwrap();
    engine.register(b, running(true)).unwrap();
    engine.start_strategy("a").unwrap();
    engine.start_strategy("b").unwrap();
    engine.start();
    let ctx = context(0, &["m1", "m2", "m3"]);
    engine.evaluate_at(&ctx, 0);
    assert_eq!(log_a.borrow().seen, vec![vec!["m2".to_string()]]);
    assert_eq!(log_b.borrow().seen, vec![vec!["m1".to_string(), "m2".to_string(), "m3".to_string()]]);
    assert_eq!(ctx.markets.len(), 3);
}

#[test]
fn draining_executes_what_is_due_and_drops_the_rest() {
    let (mut engine, mut rx) = engine_with(10);
    let (auto, log_auto) = Scripted::new("auto", &[Some(50), Some(60)]);
    let (manual, log_manual) = Scripted::new("manual", &[Some(70)]);
    engine.register(auto, running(true)).unwrap();
    engine.register(manual, running(false)).unwrap();
    engine.start_strategy("auto").unwrap();
    engine.start_strategy("manual").unwrap();
    engine.start();
    // signals live 60 seconds: those of the first tick have expired at 70 s
    engine.evaluate_at(&context(0, &[]), 0);
    engine.evaluate_at(&context(20_000, &[]), 20_000);
    assert_eq!(engine.pending_signals().len(), 6);
    let ids = engine.execute_pending_at(70_000).unwrap();
    assert_eq!(ids, vec!["sig-20000-m1-t0-buy", "sig-20000-m1-t1-buy"]);
    assert!(engine.pending_signals().is_empty());
    let history = engine.signal_history();
    assert_eq!(history.len(), 2);
    assert_eq!(history[0].signal.id, "sig-20000-m1-t0-buy");
    assert_eq!((history[0].executed, history[0].executed_at), (true, Some(70_000)));
    assert!(history[0].result.is_none());
    assert_eq!(history[1].signal.strategy_name, "auto");
    assert_eq!(handle(&engine, "auto").signals_executed, 2);
    assert_eq!(handle(&engine, "manual").signals_executed, 0);
    assert_eq!(log_auto.borrow().executed, vec![("sig-20000-m1-t0-buy".to_string(), true), ("sig-20000-m1-t1-buy".to_string(), true)]);
    assert!(log_manual.borrow().executed.is_empty());
    for (token, price) in [("t0", 50), ("t1", 60)] {
        match rx.try_recv().unwrap() {
            Action::PlaceOrder(order) => {
                assert_eq!((order.market_id.as_str(), order.token_id.as_str()), ("m1", token));
                assert_eq!((order.side, order.order_type), (OrderSide::Buy, OrderType::Limit));
                assert_eq!((order.price, order.size), (Some(q(price, 2)), q(10, 0)));
            }
            other => panic!("not an order: {:?}", other),
        }
    }
    assert!(rx.try_recv().is_err());
    assert_eq!(engine.execute_pending_at(70_000).unwrap(), Vec::<String>::new());
}

#[test]
fn a_signal_expires_when_its_age_reaches_its_time_to_live() {
    let s = Signal::new_at("m", "t", OrderSide::Buy, q(1, 0), 10_000).with_ttl(5);
    assert!(!s.is_expired_at(10_000));
    assert!(!s.is_expired_at(14_999));
    assert!(s.is_expired_at(15_000));
    assert!(s.is_expired_at(99_000));
    assert!(!s.is_expired_at(0));
    assert!(Signal::new_at("m", "t", OrderSide::Buy, q(1, 0), 0).with_ttl(0).is_expired_at(0));
    assert!(!Signal::buy("m", "t", q(1, 0)).is_expired());
    assert_eq!(Signal::sell("m", "t", q(1, 0)).side, OrderSide::Sell);
}

#[test]
fn draining_ends_at_a_signal_without_a_price() {
    let (mut engine, mut rx) = engine_with(10);
    let (a, log) = Scripted::new("a", &[Some(50), None, Some(60)]);
    engine.register(a, running(true)).unwrap();
    engine.start_strategy("a").unwrap();
    engine.start();
    engine.evaluate_at(&context(0, &[]), 0);
    match engine.execute_pending_at(0) {
        Err(Error::InvalidInput(m)) => assert_eq!(m, "Signal must have a price for limit order"),
        other => panic!("{:?}", other),
    }
    assert!(engine.pending_signals().is_empty());
    assert_eq!(engine.signal_history().len(), 1);
    assert_eq!(log.borrow().executed.len(), 1);
    assert!(rx.try_recv().is_ok());
    assert!(rx.try_recv().is_err());
}

#[test]
fn draining_ends_where_the_channel_is_closed() {
    let (mut engine, rx) = engine_with(10);
    let (a, log) = Scripted::new("a", &[Some(50)]);
    engine.register(a, running(true)).unwrap();
    engine.start_strategy("a").unwrap();
    engine.start();
    engine.evaluate_at(&context(0, &[]), 0);
    drop(rx);
    let r = engine.execute_pending_at(0);
    assert!(matches!(r, Err(Error::Channel(_))));
    assert!(r.unwrap_err().is_recoverable());
    assert!(engine.signal_history().is_empty());
    assert!(log.borrow().executed.is_empty());
    assert_eq!(handle(&engine, "a").signals_executed, 0);
    engine.evaluate_at(&context(1, &[]), 1);
    assert!(matches!(engine.execute_signal_at("sig-1-m1-t0-buy", 1), Err(Error::Channel(_))));
    assert_eq!(engine.pending_signals().len(), 1);
}

#[test]
fn the_history_is_bounded() {
    let (mut engine, _rx) = engine_with(2);
    let (a, _) = Scripted::new("a", &[Some(10), Some(20), Some(30)]);
    engine.register(a, running(true)).unwrap();
    engine.start_strategy("a").unwrap();
    engine.start();
    engine.evaluate_at(&context(0, &[]), 0);
    assert_eq!(engine.execute_pending_at(0).unwrap().len(), 3);
    let history = engine.signal_history();
    assert_eq!(history.len(), 2);
    assert_eq!((history[0].signal.token_id.as_str(), history[1].signal.token_id.as_str()), ("t1", "t2"));
}

#[test]
fn one_signal_can_be_executed_by_hand() {
    let (mut engine, mut rx) = engine_with(10);
    let (a, log) = Scripted::new("a", &[Some(50), None]);
    engine.register(a, running(false)).unwrap();
    engine.start_strategy("a").unwrap();
    engine.start();
    engine.evaluate_at(&context(0, &[]), 0);
    assert_eq!(invalid_input(engine.execute_signal_at("nothing", 0)), "Signal not found");
    assert_eq!(invalid_input(engine.execute_signal_at("sig-0-m1-t1-buy", 0)), "Signal must have a price for limit order");
    assert_eq!(engine.pending_signals().len(), 2);
    // expired and not to be executed unasked: by hand it goes out all the same
    assert!(engine.execute_signal_at("sig-0-m1-t0-buy", 500_000).is_ok());
    assert_eq!(engine.pending_signals().len(), 1);
    assert_eq!(engine.pending_signals()[0].id, "sig-0-m1-t1-buy");
    assert_eq!(engine.signal_history().len(), 1);
    assert_eq!(engine.signal_history()[0].executed_at, Some(500_000));
    assert_eq!(handle(&engine, "a").signals_executed, 1);
    assert_eq!(log.borrow().executed, vec![("sig-0-m1-t0-buy".to_string(), true)]);
    assert!(matches!(rx.try_recv(), Ok(Action::PlaceOrder(_))));
    assert_eq!(invalid_input(engine.execute_signal("sig-0-m1-t0-buy")), "Signal not found");
    // the rest of the queue is dropped by the strategy's wish when drained
    assert!(engine.execute_pending_at(0).unwrap().is_empty());
    assert!(engine.pending_signals().is_empty());
    assert_eq!(engine.signal_history().len(), 1);
}

#[test]
fn signals_can_be_cleared() {
    let (mut engine, _rx) = engine_with(10);
    let (a, _) = Scripted::new("a", &[Some(50), Some(60), Some(70)]);
    engine.register(a, running(true)).unwrap();
    engine.start_strategy("a").unwrap();
    engine.start();
    engine.evaluate_at(&context(0, &[]), 0);
    engine.clear_signal("sig-0-m1-t1-buy");
    let left: Vec<&str> = engine.pending_signals().iter().map(|s| s.id.as_str()).collect();
    assert_eq!(left, vec!["sig-0-m1-t0-buy", "sig-0-m1-t2-buy"]);
    engine.clear_signal("unknown");
    assert_eq!(engine.pending_signals().len(), 2);
    engine.clear_all_signals();
    assert!(engine.pending_signals().is_empty());
    assert!(engine.execute_pending_signals().unwrap().is_empty());
    assert!(engine.signal_history().is_empty());
}

#[test]
fn strategies_hear_of_markets_and_fills() {
    let (mut engine, _rx) = engine_with(10);
    let (a, log_a) = Scripted::new("a", &[]);
    let (b, log_b) = Scripted::new("b", &[]);
    engine.register(a, running(true)).unwrap();
    engine.register(b, running(true)).unwrap();
    engine.start_strategy("b").unwrap();
    engine.on_market_update(&context(0, &[]));
    assert_eq!((log_a.borrow().updates, log_b.borrow().updates), (0, 1));
    engine.on_order_filled("a", "o1", q(5, 1), q(2, 0));
    engine.on_order_filled("z", "o2", q(5, 1), q(2, 0));
    assert_eq!(log_a.borrow().fills, vec!["o1"]);
    assert!(log_b.borrow().fills.is_empty());
    assert_eq!(handle(&engine, "a").signals_executed, 0);
}

/// A strategy that says nothing but its name.
struct Silent;

impl Strategy for Silent {
    fn name(&self) -> &str {
        "silent"
    }

    fn evaluate(&mut self, _ctx: &StrategyContext) -> Vec<Signal> {
        Vec::new()
    }
}

#[test]
fn what_a_strategy_does_unless_it_says_otherwise() {
    let mut s = Silent;
    let meta = s.metadata();
    assert_eq!((meta.name.as_str(), meta.description.as_str(), meta.version.as_str()), ("silent", "", "1.0.0"));
    assert!(meta.author.is_none() && meta.tags.is_empty());
    assert!(s.initialize(&running(true)).is_ok());
    assert!(s.validate().is_ok());
    assert!(s.shutdown().is_ok());
    assert!(s.parameters().is_empty());
    assert_eq!(
        invalid_input(s.set_parameter("x", clobster::strategy::ParameterValue::Integer(1))),
        "Parameter not found"
    );
    s.on_signal_executed(&Signal::new_at("m", "t", OrderSide::Buy, q(1, 0), 0), true);
    s.on_market_update(&context(0, &[]));
    s.on_order_filled("o", q(1, 0), q(1, 0));
    s.on_order_cancelled("o");
    let (mut engine, _rx) = engine_with(10);
    engine.register(Silent, running(true)).unwrap();
    engine.start_strategy("silent").unwrap();
    engine.start();
    assert!(engine.evaluate_at(&context(0, &["m1"]), 0).is_empty());
    assert_eq!(handle(&engine, "silent").last_evaluated, Some(0));
}

#[test]
fn a_handle_can_be_changed_in_place() {
    let (mut engine, _rx) = engine_with(10);
    let (a, log) = Scripted::new("a", &[Some(50)]);
    engine.register(a, running(true)).unwrap();
    assert!(engine.get_strategy_mut("b").is_none());
    let h = engine.get_strategy_mut("a").unwrap();
    h.status = StrategyStatus::Running;
    h.config.min_signal_interval_secs = 5;
    assert_eq!(handle(&engine, "a").status, StrategyStatus::Running);
    engine.start();
    assert_eq!(engine.evaluate_at(&context(0, &[]), 0).len(), 1);
    assert_eq!(engine.evaluate_at(&context(0, &[]), 4_000).len(), 0);
    assert_eq!(log.borrow().evaluations, 1);
}

#[test]
fn the_pieces_of_an_evaluation() {
    let mut signals = vec![
        Signal::new_at("m1", "t1", OrderSide::Buy, q(1, 0), 0).with_price(q(50, 2)).with_strategy("x"),
        Signal::new_at("m1", "t2", OrderSide::Sell, q(1, 0), 0).with_price(q(-1, 2)),
    ];
    tag_signals(&mut signals, "named");
    assert!(signals.iter().all(|s| s.strategy_name == "named"));
    assert_eq!((signals[0].token_id.as_str(), signals[1].price), ("t1", Some(q(-1, 2))));
    let approved = apply_risk_checks(&RiskGuard::new(open_limits()), &signals, &context(0, &[]));
    assert_eq!(approved.len(), 1);
    assert_eq!(approved[0].token_id, "t1");

    let order = signal_to_order(&signals[0]).unwrap();
    assert_eq!((order.side, order.price, order.size, order.order_type), (OrderSide::Buy, Some(q(50, 2)), q(1, 0), OrderType::Limit));
    assert!(matches!(signal_to_order(&Signal::new_at("m", "t", OrderSide::Buy, q(1, 0), 0)), Err(Error::InvalidInput(_))));

    let mut h = StrategyHandle::new(Box::new(Scripted::new("x", &[]).0), running(true));
    h.status = StrategyStatus::Running;
    assert!(due(&h, 0));
    record_evaluation(&mut h, None, 5, 2);
    assert_eq!((h.errors, h.status, h.last_evaluated), (1, StrategyStatus::Running, None));
    record_evaluation(&mut h, Some(3), 6, 2);
    assert_eq!((h.errors, h.signals_generated, h.last_evaluated), (0, 3, Some(6)));
    record_evaluation(&mut h, None, 7, 2);
    record_evaluation(&mut h, None, 8, 2);
    assert_eq!((h.errors, h.status), (2, StrategyStatus::Error));
    assert!(!due(&h, 100_000));
    h.signals_generated = usize::MAX;
    record_evaluation(&mut h, Some(1), 9, 2);
    assert_eq!(h.signals_generated, usize::MAX);
}

#[test]
fn the_description_of_a_strategy_known_by_name_only() {
    let meta = clobster::strategy::traits::StrategyMetadata::plain("grid");
    assert_eq!(meta.name, "grid");
    assert_eq!(meta.description, "");
    assert_eq!(meta.version, "1.0.0");
    assert!(meta.author.is_none());
    assert!(meta.tags.is_empty());
}
