use clobster::collections::TextMap;
use clobster::decimal::Decimal;
use clobster::state::{Market, MarketStatus, Order, OrderSide, OrderStatus, OrderType, Outcome, Position};
use clobster::strategy::context::{ema, price_change, sma};
use clobster::strategy::{MarketSnapshot, OrderSnapshot, PositionSnapshot, PricePoint, StrategyContext};

fn num(mantissa: i64, scale: u32) -> Decimal {
    Decimal::new(mantissa, scale)
}

fn history_of(prices: &[i64]) -> Vec<PricePoint> {
    prices
        .iter()
        .enumerate()
        .map(|(i, p)| PricePoint { timestamp: i as i64 * 1000, price: num(*p, 2), volume: None })
        .collect()
}

fn outcome_of(token: &str, name: &str, bid: i64, ask: i64) -> Outcome {
    Outcome {
        token_id: token.to_string(),
        name: name.to_string(),
        bid: num(bid, 2),
        ask: num(ask, 2),
        last_price: num(bid, 2),
        volume_24h: num(0, 0),
        price_change_24h: num(0, 0),
    }
}

fn market_of(id: &str, status: MarketStatus) -> Market {
    Market {
        id: id.to_string(),
        question: format!("Will {} happen?", id),
        description: String::new(),
        status,
        end_date: Some(99),
        tags: vec![],
        outcomes: vec![outcome_of("yes", "Yes", 40, 44), outcome_of("no", "No", 56, 60)],
        volume: num(700, 0),
        liquidity: num(2000, 0),
        image_url: None,
        created_at: 1,
        updated_at: 2,
    }
}

fn position_of(market: &str, token: &str, size: i64, value: i64) -> Position {
    Position {
        market_id: market.to_string(),
        market_question: String::new(),
        token_id: token.to_string(),
        outcome_name: "Yes".to_string(),
        size: num(size, 0),
        avg_price: num(50, 2),
        current_price: num(55, 2),
        unrealized_pnl: num(1, 0),
        unrealized_pnl_percent: num(10, 0),
        realized_pnl: num(0, 0),
        cost_basis: num(5, 0),
        market_value: num(value, 0),
    }
}

fn order_of(id: &str, market: &str, status: OrderStatus) -> Order {
    Order {
        id: id.to_string(),
        market_id: market.to_string(),
        market_question: String::new(),
        token_id: "yes".to_string(),
        outcome_name: "Yes".to_string(),
        side: OrderSide::Buy,
        order_type: OrderType::Limit,
        price: num(50, 2),
        original_size: num(10, 0),
        remaining_size: num(6, 0),
        filled_size: num(4, 0),
        status,
        created_at: 3,
        updated_at: 4,
        expires_at: None,
    }
}

#[test]
fn sma_is_the_mean_of_the_latest_points() {
    let h = history_of(&[50, 52, 54, 56]);
    assert_eq!(sma(&h, 2), Some(num(55, 2)));
    assert_eq!(sma(&h, 4), Some(num(53, 2)));
    assert_eq!(sma(&h, 5), None);
    assert_eq!(sma(&h, 0), None);
    assert_eq!(sma(&Vec::new(), 1), None);
}

#[test]
fn ema_is_seeded_with_the_mean_of_the_first_points() {
    // seed (0.40 + 0.50 + 0.60) / 3 = 0.50, factor 2 / 4 = 0.5
    // 0.70: (0.70 - 0.50) * 0.5 + 0.50 = 0.60; 0.50: (0.50 - 0.60) * 0.5 + 0.60 = 0.55
    let h = history_of(&[40, 50, 60, 70, 50]);
    assert_eq!(ema(&h, 3), Some(num(55, 2)));
    // the mean of the latest three points would be 0.60
    assert_eq!(sma(&h, 3), Some(num(60, 2)));
    assert_eq!(ema(&history_of(&[40, 50, 60]), 3), Some(num(50, 2)));
    // a different tail, the same seed
    assert_eq!(ema(&history_of(&[40, 50, 60, 50]), 3), Some(num(50, 2)));
}

#[test]
fn ema_needs_as_many_points_as_periods() {
    let h = history_of(&[40, 50]);
    assert_eq!(ema(&h, 3), None);
    assert_eq!(ema(&h, 0), None);
    assert_eq!(ema(&h, usize::MAX), None);
    assert_eq!(ema(&h, 2), Some(num(45, 2)));
}

#[test]
fn price_change_is_relative_to_the_point_periods_back() {
    let h = history_of(&[40, 50, 60]);
    assert_eq!(price_change(&h, 2), Some(num(5, 1)));
    assert_eq!(price_change(&h, 1), Some(num(2, 1)));
    assert_eq!(price_change(&h, 0), Some(num(0, 0)));
    assert_eq!(price_change(&h, 3), None);
    assert_eq!(price_change(&history_of(&[0, 50]), 1), None);
}

#[test]
fn context_from_state() {
    let markets = vec![market_of("m1", MarketStatus::Active), market_of("m2", MarketStatus::Closed)];
    let positions = vec![position_of("m1", "yes", 10, 6), position_of("m2", "no", 0, 4)];
    let orders = vec![order_of("o1", "m1", OrderStatus::Open), order_of("o2", "m2", OrderStatus::Filled)];
    let ctx = StrategyContext::from_state_at(&markets, &positions, &orders, num(100, 0), 77).unwrap();
    assert_eq!(ctx.timestamp, 77);
    assert_eq!(ctx.available_balance, num(100, 0));
    assert_eq!(ctx.total_value, num(110, 0));
    assert_eq!(ctx.markets().len(), 2);
    assert_eq!(ctx.active_markets().len(), 1);
    assert_eq!(ctx.active_markets()[0].condition_id, "m1");
    let m1 = ctx.get_market("m1").unwrap();
    assert_eq!(m1.token_ids, vec!["yes", "no"]);
    assert_eq!(m1.token_names, vec!["Yes", "No"]);
    assert_eq!(m1.token_prices, vec![num(42, 2), num(58, 2)]);
    assert_eq!(m1.yes_price(), Some(num(42, 2)));
    assert_eq!(m1.no_price(), Some(num(58, 2)));
    assert_eq!(m1.implied_probability(), Some(num(42, 2)));
    assert_eq!(m1.volume_24h, num(700, 0));
    assert_eq!(m1.liquidity, num(2000, 0));
    assert_eq!(m1.spread, None);
    assert_eq!(m1.end_date, Some(99));
    assert!(m1.is_tradeable());
    assert!(!ctx.get_market("m2").unwrap().is_tradeable());
    assert!(ctx.get_market("m3").is_none());
    assert_eq!(ctx.latest_price("m1", 1), Some(num(58, 2)));
    assert_eq!(ctx.latest_price("m1", 2), None);
    assert_eq!(ctx.latest_price("m9", 0), None);
    assert_eq!(ctx.positions().len(), 2);
    assert_eq!(ctx.get_position("yes").unwrap().current_value, num(6, 0));
    assert!(ctx.get_position("maybe").is_none());
    assert!(ctx.get_position("yes").unwrap().is_profitable());
    assert!(ctx.has_position_in_market("m1"));
    assert!(!ctx.has_position_in_market("m2"));
    assert!(!ctx.has_position_in_market("m3"));
    assert_eq!(ctx.total_exposure(), Some(num(10, 0)));
    assert_eq!(ctx.exposure_in_market("m2"), Some(num(4, 0)));
    assert_eq!(ctx.open_orders().len(), 1);
    assert_eq!(ctx.open_orders()[0].order_id, "o1");
    assert_eq!(ctx.orders_for_market("m2").len(), 1);
    assert_eq!(ctx.orders_for_market("m2")[0].fill_percent(), Some(num(40, 0)));
    assert!(!ctx.orders_for_market("m2")[0].is_open());
    assert!(ctx.get_price_history("m1").is_none());
    assert_eq!(ctx.sma("m1", 1), None);
}

#[test]
fn a_later_entry_of_the_same_id_replaces_an_earlier_one() {
    let mut second = market_of("m1", MarketStatus::Paused);
    second.volume = num(9, 0);
    let markets = vec![market_of("m1", MarketStatus::Active), second];
    let positions = vec![position_of("m1", "yes", 10, 6), position_of("m1", "yes", 20, 8)];
    let ctx = StrategyContext::from_state_at(&markets, &positions, &[], num(1, 0), 0).unwrap();
    assert_eq!(ctx.markets.len(), 1);
    assert_eq!(ctx.get_market("m1").unwrap().status, MarketStatus::Paused);
    assert_eq!(ctx.get_market("m1").unwrap().volume_24h, num(9, 0));
    assert_eq!(ctx.positions.len(), 1);
    assert_eq!(ctx.get_position("yes").unwrap().size, num(20, 0));
    // every position counts towards the value, replaced or not
    assert_eq!(ctx.total_value, num(15, 0));
}

#[test]
fn a_value_out_of_range_makes_no_context() {
    let huge = Decimal::try_from_i128_with_scale(79_228_162_514_264_337_593_543_950_335, 0).unwrap();
    let mut p = position_of("m1", "yes", 1, 1);
    p.market_value = huge;
    assert!(StrategyContext::from_state_at(&[], &[p], &[], num(1, 0), 0).is_none());
    let mut m = market_of("m1", MarketStatus::Active);
    m.outcomes[0].bid = huge;
    m.outcomes[0].ask = huge;
    assert!(StrategyContext::from_state_at(&[m], &[], &[], num(1, 0), 0).is_none());
}

#[test]
fn a_strategy_is_shown_the_markets_its_lists_let_through() {
    let markets = vec![
        market_of("m1", MarketStatus::Active),
        market_of("m2", MarketStatus::Active),
        market_of("m3", MarketStatus::Active),
    ];
    let mut ctx = StrategyContext::from_state_at(&markets, &[position_of("m1", "yes", 1, 1)], &[], num(5, 0), 9).unwrap();
    ctx.price_history.insert("m1".to_string(), history_of(&[40, 50]));
    let names = |c: &StrategyContext| c.markets().iter().map(|m| m.condition_id.clone()).collect::<Vec<_>>();
    let all = ctx.filtered(&vec![], &vec![]);
    assert_eq!(names(&all), vec!["m1", "m2", "m3"]);
    let only = ctx.filtered(&vec!["m3".to_string(), "m1".to_string()], &vec![]);
    assert_eq!(names(&only), vec!["m1", "m3"]);
    let except = ctx.filtered(&vec![], &vec!["m2".to_string()]);
    assert_eq!(names(&except), vec!["m1", "m3"]);
    let both = ctx.filtered(&vec!["m1".to_string(), "m2".to_string()], &vec!["m1".to_string()]);
    assert_eq!(names(&both), vec!["m2"]);
    assert_eq!(both.timestamp, 9);
    assert_eq!(both.available_balance, num(5, 0));
    assert_eq!(both.total_value, ctx.total_value);
    assert_eq!(both.positions.len(), 1);
    assert_eq!(both.sma("m1", 2), Some(num(45, 2)));
    // the context itself is as it was
    assert_eq!(names(&ctx), vec!["m1", "m2", "m3"]);
}

#[test]
fn indicators_by_market() {
    let mut ctx = StrategyContext::new_at(0);
    ctx.price_history.insert("m".to_string(), history_of(&[40, 50, 60, 70, 50]));
    assert_eq!(ctx.sma("m", 2), Some(num(60, 2)));
    assert_eq!(ctx.ema("m", 3), Some(num(55, 2)));
    assert_eq!(ctx.price_change("m", 4), Some(num(25, 2)));
    assert_eq!(ctx.sma("x", 2), None);
    assert_eq!(ctx.ema("x", 2), None);
    assert_eq!(ctx.price_change("x", 1), None);
    assert_eq!(ctx.get_price_history("m").unwrap().len(), 5);
}

#[test]
fn snapshots_copy_what_they_are_made_from() {
    let p = PositionSnapshot::from_position(&position_of("m1", "yes", 3, 7));
    assert_eq!((p.market_id.as_str(), p.token_id.as_str()), ("m1", "yes"));
    assert_eq!((p.size, p.avg_price, p.current_price), (num(3, 0), num(50, 2), num(55, 2)));
    assert_eq!((p.current_value, p.unrealized_pnl, p.pnl_percent), (num(7, 0), num(1, 0), num(10, 0)));
    let o = OrderSnapshot::from_order(&order_of("o1", "m1", OrderStatus::PartiallyFilled));
    assert_eq!((o.order_id.as_str(), o.market_id.as_str(), o.token_id.as_str()), ("o1", "m1", "yes"));
    assert_eq!((o.original_size, o.remaining_size, o.filled_size), (num(10, 0), num(6, 0), num(4, 0)));
    assert_eq!((o.status, o.side, o.created_at), (OrderStatus::PartiallyFilled, OrderSide::Buy, 3));
    assert!(o.is_open());
    let m = MarketSnapshot::from_market(&market_of("m1", MarketStatus::Active)).unwrap();
    assert_eq!(m.question, "Will m1 happen?");
    assert_eq!(m.first_token(), "yes");
    let c = m.clone();
    assert_eq!((c.condition_id, c.token_prices), (m.condition_id, m.token_prices));
    let empty: TextMap<MarketSnapshot> = TextMap::new();
    assert!(empty.is_empty());
}
