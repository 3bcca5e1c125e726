use clobster::decimal::Decimal;
use clobster::error::Error;
use clobster::state::{MarketStatus, OrderSide};
use clobster::strategy::strategies::momentum::MomentumPosition;
use clobster::strategy::strategies::{MeanReversionStrategy, MomentumStrategy, SpreadStrategy};
use clobster::strategy::{
    FloatValue, MarketSnapshot, ParameterType, ParameterValue, PositionSnapshot, PricePoint, Signal,
    SignalStrength, SignalType, Strategy, StrategyConfig, StrategyContext,
};

fn n(mantissa: i64, scale: u32) -> Decimal {
    Decimal::new(mantissa, scale)
}

fn snapshot(id: &str, yes: Decimal) -> MarketSnapshot {
    MarketSnapshot {
        condition_id: id.to_string(),
        question: String::new(),
        status: MarketStatus::Active,
        token_ids: vec![format!("{}-yes", id), format!("{}-no", id)],
        token_names: vec!["Yes".to_string(), "No".to_string()],
        token_prices: vec![yes, Decimal::one().checked_sub(yes).unwrap()],
        volume_24h: n(1000, 0),
        liquidity: n(2000, 0),
        spread: None,
        end_date: None,
    }
}

fn tick(now: i64, markets: Vec<MarketSnapshot>, history: &[(&str, &[i64])]) -> StrategyContext {
    let mut ctx = StrategyContext::new_at(now);
    for m in markets {
        ctx.markets.insert(m.condition_id.clone(), m);
    }
    for (id, prices) in history {
        let points = prices.iter().map(|p| PricePoint { timestamp: 0, price: n(*p, 2), volume: None }).collect();
        ctx.price_history.insert(id.to_string(), points);
    }
    ctx
}

fn invalid(r: Result<(), Error>) -> String {
    match r {
        Err(Error::InvalidInput(m)) => m,
        other => panic!("not an invalid input: {:?}", other),
    }
}

#[test]
fn mean_reversion_enters_beyond_the_threshold() {
    let mut s = MeanReversionStrategy::new().with_ma_periods(2);
    let ctx = tick(5000, vec![snapshot("m1", n(40, 2))], &[("m1", &[50, 50])]);
    let signals = s.evaluate(&ctx);
    assert_eq!(signals.len(), 1);
    let e = &signals[0];
    assert_eq!(e.id, "sig-5000-m1-m1-yes-buy");
    assert_eq!(e.strategy_name, "mean_reversion");
    assert_eq!((e.market_id.as_str(), e.token_id.as_str()), ("m1", "m1-yes"));
    assert_eq!((e.side, e.signal_type, e.strength), (OrderSide::Buy, SignalType::Entry, SignalStrength::Medium));
    assert_eq!((e.price, e.size), (Some(n(40, 2)), n(10, 0)));
    assert_eq!((e.stop_loss, e.take_profit), (None, None));
    assert_eq!((e.ttl, e.created_at), (60, 5000));
    assert_eq!(e.reason, "Mean reversion entry: price 20.00% below MA");
    assert_eq!(e.metadata.indicators.get("ma_at_entry"), Some(&n(50, 2)));

    let above = s.evaluate(&tick(1, vec![snapshot("m1", n(80, 2))], &[("m1", &[50, 50])]));
    assert_eq!(above.len(), 1);
    assert_eq!((above[0].side, above[0].strength), (OrderSide::Sell, SignalStrength::Strong));
    assert_eq!(above[0].reason, "Mean reversion entry: price 60.00% above MA");
}

#[test]
fn mean_reversion_enters_nothing_within_the_threshold() {
    let mut s = MeanReversionStrategy::new().with_ma_periods(2);
    // exactly at the threshold: (0.45 - 0.50) / 0.50 = -0.10
    assert!(s.evaluate(&tick(0, vec![snapshot("m1", n(45, 2))], &[("m1", &[50, 50])])).is_empty());
    assert!(s.evaluate(&tick(0, vec![snapshot("m1", n(55, 2))], &[("m1", &[50, 50])])).is_empty());
    assert!(s.evaluate(&tick(0, vec![snapshot("m1", n(50, 2))], &[("m1", &[50, 50])])).is_empty());
    // just beyond it
    assert_eq!(s.evaluate(&tick(0, vec![snapshot("m1", n(449, 3))], &[("m1", &[50, 50])])).len(), 1);
}

#[test]
fn mean_reversion_skips_markets_it_cannot_judge() {
    let mut s = MeanReversionStrategy::new().with_ma_periods(2);
    let mut closed = snapshot("m1", n(40, 2));
    closed.status = MarketStatus::Closed;
    let mut thin = snapshot("m2", n(40, 2));
    thin.liquidity = n(999, 0);
    let mut unpriced = snapshot("m3", n(40, 2));
    unpriced.token_prices = vec![];
    let short = snapshot("m4", n(40, 2));
    let ctx = tick(
        0,
        vec![closed, thin, unpriced, short],
        &[("m1", &[50, 50]), ("m2", &[50, 50]), ("m3", &[50, 50]), ("m4", &[50])],
    );
    assert!(s.evaluate(&ctx).is_empty());
}

#[test]
fn mean_reversion_leaves_once_and_then_forgets_the_entry() {
    let mut s = MeanReversionStrategy::new().with_ma_periods(2);
    let entry = s.evaluate(&tick(0, vec![snapshot("m1", n(40, 2))], &[("m1", &[50, 50])])).remove(0);
    s.on_signal_executed(&entry, false);
    // nothing is tracked after a failed execution: the entry is proposed again
    assert_eq!(s.evaluate(&tick(1, vec![snapshot("m1", n(40, 2))], &[("m1", &[50, 50])]))[0].signal_type, SignalType::Entry);
    s.on_signal_executed(&entry, true);
    // tracked: no second entry, and no exit while the price is away from the average at entry
    assert!(s.evaluate(&tick(2, vec![snapshot("m1", n(40, 2))], &[("m1", &[50, 50])])).is_empty());
    // back within 2 percent of 0.50
    let back = tick(3, vec![snapshot("m1", n(495, 3))], &[("m1", &[50, 50])]);
    let exits = s.evaluate(&back);
    assert_eq!(exits.len(), 1);
    let x = &exits[0];
    assert_eq!((x.side, x.signal_type, x.strength), (OrderSide::Sell, SignalType::Exit, SignalStrength::Medium));
    assert_eq!((x.price, x.size), (Some(n(495, 3)), n(10, 0)));
    assert_eq!(x.reason, "Mean reversion exit: deviation -1.00% (threshold 2.00%)");
    assert!(x.metadata.indicators.is_empty());
    // the exit ended the tracking: the same tick again proposes nothing
    assert!(s.evaluate(&back).is_empty());
    // and hearing of the executed exit changes nothing more
    s.on_signal_executed(x, true);
    assert!(s.evaluate(&back).is_empty());
    assert_eq!(s.evaluate(&tick(4, vec![snapshot("m1", n(40, 2))], &[("m1", &[50, 50])]))[0].signal_type, SignalType::Entry);
}

#[test]
fn mean_reversion_leaves_a_sold_entry_by_buying() {
    let mut s = MeanReversionStrategy::new().with_ma_periods(2).with_exit_threshold(n(5, 2)).with_position_size(n(3, 0));
    let entry = s.evaluate(&tick(0, vec![snapshot("m1", n(60, 2))], &[("m1", &[50, 50])])).remove(0);
    assert_eq!((entry.side, entry.size), (OrderSide::Sell, n(3, 0)));
    s.on_signal_executed(&entry, true);
    let exits = s.evaluate(&tick(1, vec![snapshot("m1", n(52, 2))], &[("m1", &[50, 50])]));
    assert_eq!(exits.len(), 1);
    assert_eq!((exits[0].side, exits[0].signal_type), (OrderSide::Buy, SignalType::Exit));
    assert_eq!(exits[0].reason, "Mean reversion exit: deviation 4.00% (threshold 5.00%)");
}

#[test]
fn mean_reversion_tracks_the_price_where_no_average_is_noted() {
    let mut s = MeanReversionStrategy::new().with_ma_periods(2);
    let bare = Signal::new_at("m1", "m1-yes", OrderSide::Buy, n(1, 0), 0).with_price(n(40, 2));
    s.on_signal_executed(&bare, true);
    // the average at entry counts as 0.40: 0.404 is within 2 percent of it
    let exits = s.evaluate(&tick(1, vec![snapshot("m1", n(404, 3))], &[("m1", &[50, 50])]));
    assert_eq!(exits.len(), 1);
    assert_eq!(exits[0].signal_type, SignalType::Exit);
}

#[test]
fn mean_reversion_parameters() {
    let mut s = MeanReversionStrategy::new();
    assert_eq!(s.name(), "mean_reversion");
    let meta = s.metadata();
    assert_eq!((meta.name.as_str(), meta.version.as_str()), ("Mean Reversion", "1.0.0"));
    assert_eq!(meta.author.as_deref(), Some("Clobster"));
    assert_eq!(meta.tags, vec!["mean-reversion", "statistical"]);
    let p = s.parameters();
    assert_eq!(p.len(), 5);
    assert_eq!(p.get("ma_periods").unwrap().param_type, ParameterType::Integer);
    assert!(matches!(p.get("ma_periods").unwrap().default, ParameterValue::Integer(20)));
    assert!(matches!(p.get("ma_periods").unwrap().min, Some(ParameterValue::Integer(5))));
    assert!(matches!(p.get("ma_periods").unwrap().max, Some(ParameterValue::Integer(100))));
    assert_eq!(p.get("entry_threshold").unwrap().default.as_decimal(), Some(n(10, 2)));
    assert_eq!(p.get("exit_threshold").unwrap().min.as_ref().unwrap().as_decimal(), Some(n(5, 3)));
    assert_eq!(p.get("position_size").unwrap().param_type, ParameterType::Decimal);
    assert_eq!(p.get("min_liquidity").unwrap().max.as_ref().unwrap().as_decimal(), Some(n(1000000, 0)));
    assert_eq!(p.get("min_liquidity").unwrap().description, "Minimum market liquidity required for trading");
    assert!(p.get("nothing").is_none());

    assert!(s.set_parameter("ma_periods", ParameterValue::Integer(2)).is_ok());
    assert!(s.set_parameter("entry_threshold", ParameterValue::Decimal(n(30, 2))).is_ok());
    assert!(s.set_parameter("min_liquidity", ParameterValue::Integer(0)).is_ok());
    assert_eq!(invalid(s.set_parameter("ma_periods", ParameterValue::Boolean(true))), "Expected integer");
    assert_eq!(invalid(s.set_parameter("ma_periods", ParameterValue::Integer(-1))), "Expected integer");
    assert_eq!(invalid(s.set_parameter("exit_threshold", ParameterValue::String("x".to_string()))), "Expected decimal");
    assert_eq!(
        invalid(s.set_parameter("position_size", ParameterValue::Float(FloatValue { truncated: 0, decimal: None }))),
        "Expected decimal"
    );
    assert_eq!(invalid(s.set_parameter("what", ParameterValue::Integer(1))), "Unknown parameter");
    // 0.40 against an average of 0.50 is 20 percent away: not beyond the new threshold of 30
    assert!(s.evaluate(&tick(0, vec![snapshot("m1", n(40, 2))], &[("m1", &[50, 50])])).is_empty());
    assert_eq!(s.evaluate(&tick(0, vec![snapshot("m1", n(30, 2))], &[("m1", &[50, 50])])).len(), 1);
}

#[test]
fn strategies_take_their_parameters_from_the_configuration() {
    let mut config = StrategyConfig::default();
    config.parameters.insert("ma_periods".to_string(), ParameterValue::Integer(5));
    config.parameters.insert("entry_threshold".to_string(), ParameterValue::Decimal(n(25, 2)));
    config.parameters.insert("unheard_of".to_string(), ParameterValue::Boolean(true));
    let mut s = MeanReversionStrategy::new();
    assert!(s.initialize(&config).is_ok());
    let ctx = tick(0, vec![snapshot("m1", n(40, 2))], &[("m1", &[50, 50, 50, 50, 50])]);
    assert!(s.evaluate(&ctx).is_empty());
    assert_eq!(s.evaluate(&tick(0, vec![snapshot("m1", n(30, 2))], &[("m1", &[50, 50, 50, 50, 50])])).len(), 1);

    let expected = "Parameter of the wrong type or out of range";
    let mut bad = StrategyConfig::default();
    bad.parameters.insert("ma_periods".to_string(), ParameterValue::Integer(4));
    assert_eq!(invalid(MeanReversionStrategy::new().initialize(&bad)), expected);
    let mut bad = StrategyConfig::default();
    bad.parameters.insert("ma_periods".to_string(), ParameterValue::Decimal(n(20, 0)));
    assert_eq!(invalid(MeanReversionStrategy::new().initialize(&bad)), expected);
    let mut bad = StrategyConfig::default();
    bad.parameters.insert("exit_threshold".to_string(), ParameterValue::Decimal(n(11, 2)));
    assert_eq!(invalid(MeanReversionStrategy::new().initialize(&bad)), expected);
    let mut bad = StrategyConfig::default();
    bad.parameters.insert("stop_loss_pct".to_string(), ParameterValue::String("ten".to_string()));
    assert_eq!(invalid(MomentumStrategy::new().initialize(&bad)), expected);
    let mut bad = StrategyConfig::default();
    bad.parameters.insert("short_ema_periods".to_string(), ParameterValue::Integer(51));
    assert_eq!(invalid(MomentumStrategy::new().initialize(&bad)), expected);
    let mut bad = StrategyConfig::default();
    bad.parameters.insert("order_size".to_string(), ParameterValue::Integer(101));
    assert_eq!(invalid(SpreadStrategy::new().initialize(&bad)), expected);
    assert!(MomentumStrategy::new().initialize(&StrategyConfig::default()).is_ok());
    assert!(SpreadStrategy::new().initialize(&config).is_ok());
}

fn trend() -> MomentumStrategy {
    MomentumStrategy::new().with_short_ema(2).with_long_ema(3).with_momentum_threshold(n(2, 2))
}

#[test]
fn momentum_buys_a_rising_market() {
    let mut s = trend();
    // long average 0.50, short average about 0.55: momentum about 0.10
    let ctx = tick(9, vec![snapshot("m1", n(60, 2))], &[("m1", &[40, 50, 60])]);
    let signals = s.evaluate(&ctx);
    assert_eq!(signals.len(), 1);
    let e = &signals[0];
    assert_eq!(e.strategy_name, "momentum");
    assert_eq!((e.side, e.signal_type, e.strength), (OrderSide::Buy, SignalType::Entry, SignalStrength::Strong));
    assert_eq!((e.price, e.size), (Some(n(60, 2)), n(10, 0)));
    assert_eq!(e.stop_loss, Some(n(54, 2)));
    assert_eq!(e.take_profit, Some(n(72, 2)));
    assert_eq!(e.reason, "Bullish momentum: 10.00% (threshold: 2.00%)");
    assert_eq!(e.id, "sig-9-m1-m1-yes-buy");

    let mild = MomentumStrategy::new().with_short_ema(2).with_long_ema(3).with_momentum_threshold(n(8, 2)).evaluate(&ctx);
    assert_eq!(mild[0].strength, SignalStrength::Medium);
    let none = MomentumStrategy::new().with_short_ema(2).with_long_ema(3).with_momentum_threshold(n(20, 2)).evaluate(&ctx);
    assert!(none.is_empty());
}

#[test]
fn momentum_sells_a_falling_market_only_where_a_position_is_held() {
    let mut s = trend();
    let mut ctx = tick(0, vec![snapshot("m1", n(40, 2))], &[("m1", &[60, 50, 40])]);
    assert!(s.evaluate(&ctx).is_empty());
    ctx.positions.insert(
        "m1-yes".to_string(),
        PositionSnapshot {
            market_id: "m1".to_string(),
            token_id: "m1-yes".to_string(),
            size: n(1, 0),
            avg_price: n(5, 1),
            current_price: n(4, 1),
            current_value: n(4, 1),
            unrealized_pnl: n(-1, 1),
            pnl_percent: n(-20, 0),
        },
    );
    let signals = s.evaluate(&ctx);
    assert_eq!(signals.len(), 1);
    assert_eq!((signals[0].side, signals[0].signal_type, signals[0].strength), (OrderSide::Sell, SignalType::Exit, SignalStrength::Strong));
    assert_eq!(signals[0].reason, "Bearish momentum: -10.00%");
    assert_eq!((signals[0].stop_loss, signals[0].take_profit), (None, None));
}

#[test]
fn momentum_leaves_at_the_stop_or_the_target_before_anything_else() {
    let mut s = trend();
    let rising: &[(&str, &[i64])] = &[("m1", &[40, 50, 60])];
    let entry = s.evaluate(&tick(0, vec![snapshot("m1", n(60, 2))], rising)).remove(0);
    s.on_signal_executed(&entry, true);
    // tracked, between stop 0.54 and target 0.72: nothing, although the momentum is there
    assert!(s.evaluate(&tick(1, vec![snapshot("m1", n(60, 2))], rising)).is_empty());
    assert!(s.evaluate(&tick(1, vec![snapshot("m1", n(541, 3))], rising)).is_empty());
    assert!(s.evaluate(&tick(1, vec![snapshot("m1", n(719, 3))], rising)).is_empty());
    let stop = s.evaluate(&tick(2, vec![snapshot("m1", n(54, 2))], rising));
    assert_eq!(stop.len(), 1);
    assert_eq!((stop[0].side, stop[0].signal_type, stop[0].strength), (OrderSide::Sell, SignalType::StopLoss, SignalStrength::VeryStrong));
    assert_eq!(stop[0].reason, "Stop loss triggered at 0.5400 (entry: 0.6000)");
    assert_eq!(stop[0].price, Some(n(54, 2)));
    let target = s.evaluate(&tick(3, vec![snapshot("m1", n(72, 2))], rising));
    assert_eq!(target.len(), 1);
    assert_eq!((target[0].side, target[0].signal_type, target[0].strength), (OrderSide::Sell, SignalType::TakeProfit, SignalStrength::Strong));
    assert_eq!(target[0].reason, "Take profit triggered at 0.7200 (entry: 0.6000)");
    // evaluating does not end the tracking; the executed exit does
    assert_eq!(s.evaluate(&tick(4, vec![snapshot("m1", n(30, 2))], rising))[0].signal_type, SignalType::StopLoss);
    s.on_signal_executed(&stop[0], true);
    assert_eq!(s.evaluate(&tick(5, vec![snapshot("m1", n(60, 2))], rising))[0].signal_type, SignalType::Entry);
}

#[test]
fn momentum_stop_and_target_of_either_side() {
    let bought = MomentumPosition { entry_price: n(50, 2), side: OrderSide::Buy, stop_loss: n(45, 2), take_profit: n(60, 2) };
    let check = |p: &MomentumPosition, price: i64| MomentumStrategy::check_stop_loss_take_profit(p, n(price, 2));
    assert_eq!(check(&bought, 45), Some(SignalType::StopLoss));
    assert_eq!(check(&bought, 10), Some(SignalType::StopLoss));
    assert_eq!(check(&bought, 46), None);
    assert_eq!(check(&bought, 59), None);
    assert_eq!(check(&bought, 60), Some(SignalType::TakeProfit));
    assert_eq!(check(&bought, 99), Some(SignalType::TakeProfit));
    let sold = MomentumPosition { entry_price: n(50, 2), side: OrderSide::Sell, stop_loss: n(55, 2), take_profit: n(40, 2) };
    assert_eq!(check(&sold, 55), Some(SignalType::StopLoss));
    assert_eq!(check(&sold, 54), None);
    assert_eq!(check(&sold, 40), Some(SignalType::TakeProfit));
    // a sold entry is tracked with the stop above and the target below
    let mut s = trend().with_stop_loss(n(10, 2)).with_take_profit(n(20, 2));
    let short = Signal::new_at("m1", "m1-yes", OrderSide::Sell, n(1, 0), 0).with_price(n(50, 2));
    s.on_signal_executed(&short, true);
    let exits = s.evaluate(&tick(1, vec![snapshot("m1", n(55, 2))], &[]));
    assert_eq!((exits[0].side, exits[0].signal_type), (OrderSide::Buy, SignalType::StopLoss));
    let exits = s.evaluate(&tick(1, vec![snapshot("m1", n(40, 2))], &[]));
    assert_eq!((exits[0].side, exits[0].signal_type), (OrderSide::Buy, SignalType::TakeProfit));
}

#[test]
fn momentum_parameters() {
    let mut s = MomentumStrategy::new();
    assert_eq!(s.name(), "momentum");
    assert_eq!(s.metadata().tags, vec!["momentum", "trend-following"]);
    let p = s.parameters();
    assert_eq!(p.len(), 7);
    assert!(matches!(p.get("short_ema_periods").unwrap().default, ParameterValue::Integer(9)));
    assert!(matches!(p.get("long_ema_periods").unwrap().max, Some(ParameterValue::Integer(100))));
    assert_eq!(p.get("take_profit_pct").unwrap().max.as_ref().unwrap().as_decimal(), Some(n(1, 0)));
    assert_eq!(p.get("take_profit_pct").unwrap().max.as_ref().unwrap().as_i64(), Some(1));
    assert_eq!(p.get("min_volume").unwrap().default.as_decimal(), Some(n(500, 0)));
    assert!(s.set_parameter("long_ema_periods", ParameterValue::Float(FloatValue { truncated: 30, decimal: Some(n(305, 1)) })).is_ok());
    assert!(s.set_parameter("min_volume", ParameterValue::Integer(5000)).is_ok());
    assert_eq!(invalid(s.set_parameter("short_ema_periods", ParameterValue::Decimal(n(3, 0)))), "Expected integer");
    assert_eq!(invalid(s.set_parameter("take_profit_pct", ParameterValue::Boolean(false))), "Expected decimal");
    assert_eq!(invalid(s.set_parameter("ma_periods", ParameterValue::Integer(3))), "Unknown parameter");
    // the volume of 1000 is below the new minimum
    assert!(trend().evaluate(&tick(0, vec![snapshot("m1", n(60, 2))], &[("m1", &[40, 50, 60])])).len() == 1);
    let mut picky = trend();
    picky.set_parameter("min_volume", ParameterValue::Integer(5000)).unwrap();
    assert!(picky.evaluate(&tick(0, vec![snapshot("m1", n(60, 2))], &[("m1", &[40, 50, 60])])).is_empty());
}

#[test]
fn spread_quotes_both_sides() {
    let mut s = SpreadStrategy::new();
    let ctx = tick(7, vec![snapshot("m1", n(50, 2)), snapshot("m2", n(30, 2))], &[]);
    let q = s.evaluate(&ctx);
    assert_eq!(q.len(), 4);
    assert_eq!((q[0].side, q[0].price, q[0].size), (OrderSide::Buy, Some(n(49, 2)), n(5, 0)));
    assert_eq!((q[1].side, q[1].price, q[1].size), (OrderSide::Sell, Some(n(51, 2)), n(5, 0)));
    assert_eq!((q[2].market_id.as_str(), q[2].price), ("m2", Some(n(29, 2))));
    assert_eq!((q[3].market_id.as_str(), q[3].price), ("m2", Some(n(31, 2))));
    for s in &q {
        assert_eq!((s.signal_type, s.strength, s.ttl), (SignalType::Entry, SignalStrength::Weak, 300));
        assert_eq!(s.strategy_name, "spread");
        assert_eq!(s.created_at, 7);
    }
    assert_eq!(q[0].reason, "Spread bid: 0.4900 (mid: 0.5000, spread: 2.00%)");
    assert_eq!(q[1].reason, "Spread ask: 0.5100 (mid: 0.5000, spread: 2.00%)");
    // 0.02 + |0.30 - 0.50| * 0.1 = 0.04
    assert_eq!(q[3].reason, "Spread ask: 0.3100 (mid: 0.3000, spread: 4.00%)");
    assert_eq!(q[0].id, "sig-7-m1-m1-yes-buy");
    assert_eq!(q[1].id, "sig-7-m1-m1-yes-sell");
}

#[test]
fn spread_skips_markets_it_should_not_quote() {
    let mut s = SpreadStrategy::new();
    let mut tight = snapshot("m1", n(50, 2));
    tight.spread = Some(n(1, 2));
    let mut thin = snapshot("m2", n(50, 2));
    thin.liquidity = n(10, 0);
    let mut paused = snapshot("m3", n(50, 2));
    paused.status = MarketStatus::Paused;
    let low = snapshot("m4", n(1, 2));
    let high = snapshot("m5", n(99, 2));
    let mut unpriced = snapshot("m6", n(50, 2));
    unpriced.token_prices = vec![];
    assert!(s.evaluate(&tick(0, vec![tight, thin, paused, low, high, unpriced], &[])).is_empty());
    let mut wide = snapshot("m7", n(50, 2));
    wide.spread = Some(n(2, 2));
    assert_eq!(s.evaluate(&tick(0, vec![wide], &[])).len(), 2);
    // a size below 0.1 is not worth a quote; 0.1 is
    let mut small = SpreadStrategy::new().with_order_size(n(9, 2));
    assert!(small.evaluate(&tick(0, vec![snapshot("m1", n(50, 2))], &[])).is_empty());
    let mut least = SpreadStrategy::new().with_order_size(n(1, 1));
    assert_eq!(least.evaluate(&tick(0, vec![snapshot("m1", n(50, 2))], &[])).len(), 2);
    let mut far = SpreadStrategy::new().with_min_spread(n(3, 2)).with_bid_offset(n(5, 2)).with_ask_offset(n(10, 2));
    let q = far.evaluate(&tick(0, vec![snapshot("m1", n(50, 2)), snapshot("m2", n(30, 2))], &[]));
    assert_eq!(q.len(), 2);
    assert_eq!((q[0].price, q[1].price), (Some(n(25, 2)), Some(n(40, 2))));
}

#[test]
fn spread_quotes_less_where_inventory_has_built_up() {
    let mut s = SpreadStrategy::new();
    let ctx = tick(0, vec![snapshot("m1", n(50, 2))], &[]);
    let bid = s.evaluate(&ctx).remove(0);
    s.on_signal_executed(&bid, false);
    assert_eq!(s.evaluate(&ctx)[0].size, n(5, 0));
    s.on_signal_executed(&bid, true);
    // inventory 5 of 50: the bid is cut by a tenth
    let q = s.evaluate(&ctx);
    assert_eq!((q[0].side, q[0].size), (OrderSide::Buy, n(45, 1)));
    assert_eq!((q[1].side, q[1].size), (OrderSide::Sell, n(5, 0)));
    // sell 15: inventory -10, the ask is cut by a fifth
    let ask = Signal::new_at("m1", "m1-yes", OrderSide::Sell, n(15, 0), 0);
    s.on_signal_executed(&ask, true);
    let q = s.evaluate(&ctx);
    assert_eq!((q[0].size, q[1].size), (n(5, 0), n(4, 0)));
    assert_eq!(s.adjust_size_for_inventory(n(10, 0), n(45, 0), OrderSide::Buy), Some(n(2, 0)));
    assert_eq!(s.adjust_size_for_inventory(n(10, 0), n(45, 0), OrderSide::Sell), Some(n(10, 0)));
    assert_eq!(s.adjust_size_for_inventory(n(10, 0), n(-30, 0), OrderSide::Sell), Some(n(4, 0)));
    // buy 60: inventory 50, the limit
    s.on_signal_executed(&Signal::new_at("m1", "m1-yes", OrderSide::Buy, n(60, 0), 0), true);
    assert!(s.evaluate(&ctx).is_empty());
    // a fill changes nothing
    s.on_order_filled("o", n(5, 1), n(100, 0));
    assert!(s.evaluate(&ctx).is_empty());
    // other markets have their own inventory
    assert_eq!(s.evaluate(&tick(0, vec![snapshot("m2", n(50, 2))], &[])).len(), 2);
}

#[test]
fn spread_parameters() {
    let mut s = SpreadStrategy::new();
    assert_eq!(s.name(), "spread");
    assert_eq!(s.metadata().tags, vec!["market-making", "spread", "liquidity"]);
    assert_eq!(s.metadata().name, "Spread/Market Making");
    let p = s.parameters();
    assert_eq!(p.len(), 5);
    assert_eq!(p.get("order_size").unwrap().default.as_decimal(), Some(n(5, 0)));
    assert_eq!(p.get("order_size").unwrap().default.as_i64(), Some(5));
    assert_eq!(p.get("max_inventory_imbalance").unwrap().max.as_ref().unwrap().as_decimal(), Some(n(500, 0)));
    assert_eq!(p.get("bid_offset").unwrap().param_type, ParameterType::Float);
    assert!(s.set_parameter("max_inventory_imbalance", ParameterValue::Integer(0)).is_ok());
    assert_eq!(s.adjust_size_for_inventory(n(10, 0), n(45, 0), OrderSide::Buy), Some(n(10, 0)));
    assert_eq!(invalid(s.set_parameter("order_size", ParameterValue::Boolean(true))), "Expected decimal");
    assert_eq!(invalid(s.set_parameter("min_liquidity", ParameterValue::Integer(1))), "Unknown parameter");
    assert_eq!(invalid(s.set_parameter("nothing", ParameterValue::Boolean(true))), "Unknown parameter");
    // an inventory limit of zero: zero inventory has reached it
    assert!(s.evaluate(&tick(0, vec![snapshot("m1", n(50, 2))], &[])).is_empty());
}

#[test]
fn parameter_values_convert() {
    assert_eq!(ParameterValue::Integer(7).as_i64(), Some(7));
    assert_eq!(ParameterValue::Integer(7).as_decimal(), Some(n(7, 0)));
    assert_eq!(ParameterValue::Decimal(n(75, 1)).as_decimal(), Some(n(75, 1)));
    assert_eq!(ParameterValue::Decimal(n(75, 1)).as_i64(), None);
    let f = ParameterValue::Float(FloatValue { truncated: 7, decimal: Some(n(75, 1)) });
    assert_eq!((f.as_i64(), f.as_decimal()), (Some(7), Some(n(75, 1))));
    assert_eq!(ParameterValue::Boolean(true).as_bool(), Some(true));
    assert_eq!(ParameterValue::Integer(1).as_bool(), None);
    assert_eq!(ParameterValue::String("a".to_string()).as_str(), Some("a"));
    assert_eq!(ParameterValue::Boolean(true).as_str(), None);
    assert_eq!(ParameterValue::String("a".to_string()).as_decimal(), None);
    assert!(matches!(ParameterValue::String("a".to_string()).clone(), ParameterValue::String(s) if s == "a"));
}

#[test]
fn momentum_writes_a_price_too_wide_for_four_places_as_it_is() {
    let mut s = trend();
    let rising: &[(&str, &[i64])] = &[("m1", &[40, 50, 60])];
    let entry = s.evaluate(&tick(0, vec![snapshot("m1", n(60, 2))], rising)).remove(0);
    s.on_signal_executed(&entry, true);
    let wide = Decimal::try_from_i128_with_scale(10_000_000_000_000_000_000_000_000_000, 0).unwrap();
    let target = s.evaluate(&tick(3, vec![snapshot("m1", wide)], rising));
    assert_eq!(target.len(), 1);
    assert_eq!(target[0].signal_type, SignalType::TakeProfit);
    assert_eq!(
        target[0].reason,
        "Take profit triggered at 10000000000000000000000000000 (entry: 0.6000)"
    );
}
