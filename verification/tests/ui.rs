use clobster::decimal::Decimal;
use clobster::state::{
    Market, MarketStatus, Order, OrderBookDepth, OrderSide, OrderStatus, OrderType, Outcome, PortfolioState,
    Position, PriceLevel, Screen,
};
use clobster::text::clip;
use clobster::ui::orderbook::{bar_height, bar_label, compact_row, depth_rows};
use clobster::ui::tables::{cents, markets_title, orders_title, positions_title, tabs};
use clobster::ui::{BookStats, MarketRow, OrderRow, PositionRow, Tendency};

fn w(mantissa: i64, scale: u32) -> Decimal {
    Decimal::new(mantissa, scale)
}

fn quoted(token: &str, bid: i64, ask: i64) -> Outcome {
    Outcome {
        token_id: token.to_string(),
        name: token.to_string(),
        bid: w(bid, 2),
        ask: w(ask, 2),
        last_price: w(bid, 2),
        volume_24h: w(0, 0),
        price_change_24h: w(0, 0),
    }
}

fn book_with(bids: &[(i64, i64)], asks: &[(i64, i64)]) -> OrderBookDepth {
    let mut book = OrderBookDepth::new_at("m", "t", 0);
    book.bids = bids.iter().map(|(p, s)| PriceLevel::new(w(*p, 2), w(*s, 0))).collect();
    book.asks = asks.iter().map(|(p, s)| PriceLevel::new(w(*p, 2), w(*s, 0))).collect();
    book
}

#[test]
fn prices_in_cents() {
    assert_eq!(cents(w(52, 2)).as_deref(), Some("52.00¢"));
    assert_eq!(cents(w(5, 3)).as_deref(), Some("0.50¢"));
    assert_eq!(cents(w(-1, 0)).as_deref(), Some("-100.00¢"));
    let huge = Decimal::try_from_i128_with_scale(79_228_162_514_264_337_593_543_950_335, 0).unwrap();
    assert_eq!(cents(huge), None);
    assert_eq!(bar_label(w(52, 2)), "52¢");
    assert_eq!(bar_label(huge), "-");
}

#[test]
fn a_row_of_the_markets() {
    let market = Market {
        id: "m1".to_string(),
        question: "Will the very long question that goes on and on be clipped at fifty bytes?".to_string(),
        description: String::new(),
        status: MarketStatus::Paused,
        end_date: None,
        tags: vec![],
        outcomes: vec![quoted("yes", 40, 44), quoted("no", 56, 60), quoted("maybe", 1, 2)],
        volume: w(123456, 2),
        liquidity: w(0, 0),
        image_url: None,
        created_at: 0,
        updated_at: 0,
    };
    let row = MarketRow::of(&market);
    assert_eq!(row.question, "Will the very long question that goes on and on...");
    assert_eq!(row.question.len(), 50);
    assert_eq!(row.status, MarketStatus::Paused);
    assert_eq!((row.yes_price.as_str(), row.no_price.as_str()), ("42.00¢", "58.00¢"));
    assert_eq!(row.volume, "$1234");
    let bare = MarketRow::of(&Market { question: "Short".to_string(), outcomes: vec![quoted("yes", 40, 44)], ..market });
    assert_eq!((bare.question.as_str(), bare.yes_price.as_str(), bare.no_price.as_str()), ("Short", "42.00¢", ""));
    assert_eq!(markets_title(3), " Markets (3) ");
}

#[test]
fn a_row_of_the_orders() {
    let order = Order {
        id: "o".to_string(),
        market_id: "m".to_string(),
        market_question: "A question of more than thirty bytes".to_string(),
        token_id: "t".to_string(),
        outcome_name: "Yes".to_string(),
        side: OrderSide::Sell,
        order_type: OrderType::Limit,
        price: w(455, 3),
        original_size: w(8, 0),
        remaining_size: w(5, 0),
        filled_size: w(3, 0),
        status: OrderStatus::PartiallyFilled,
        created_at: 0,
        updated_at: 0,
        expires_at: None,
    };
    let row = OrderRow::of(&order);
    assert_eq!(row.market, "A question of more than thi...");
    assert_eq!((row.side, row.status), (OrderSide::Sell, OrderStatus::PartiallyFilled));
    assert_eq!((row.price.as_str(), row.size.as_str(), row.filled.as_str()), ("45.50¢", "8.00", "37.5%"));
    let empty = OrderRow::of(&Order { original_size: w(0, 0), market_question: String::new(), ..order });
    assert_eq!((empty.market.as_str(), empty.size.as_str(), empty.filled.as_str()), ("", "0.00", "0.0%"));
    assert_eq!(orders_title(2), " Orders (2 open) ");
}

#[test]
fn a_row_of_the_positions() {
    let position = Position {
        market_id: "m".to_string(),
        market_question: "Q".to_string(),
        token_id: "t".to_string(),
        outcome_name: "Yes".to_string(),
        size: w(10, 0),
        avg_price: w(40, 2),
        current_price: w(55, 2),
        unrealized_pnl: w(15, 1),
        unrealized_pnl_percent: w(375, 1),
        realized_pnl: w(0, 0),
        cost_basis: w(4, 0),
        market_value: w(55, 1),
    };
    let row = PositionRow::of(&position);
    assert_eq!((row.market.as_str(), row.outcome.as_str(), row.size.as_str()), ("Q", "Yes", "10.00"));
    assert_eq!((row.avg_price.as_str(), row.current_price.as_str()), ("40.00¢", "55.00¢"));
    assert_eq!((row.pnl.as_str(), row.pnl_percent.as_str(), row.gaining), ("+$1.50", "+37.5%", true));
    let even = PositionRow::of(&Position { unrealized_pnl: w(0, 0), unrealized_pnl_percent: w(0, 0), ..position.clone() });
    assert_eq!((even.pnl.as_str(), even.pnl_percent.as_str(), even.gaining), ("+$0.00", "+0.0%", true));
    let losing = PositionRow::of(&Position { unrealized_pnl: w(-25, 1), unrealized_pnl_percent: w(-625, 1), ..position.clone() });
    assert_eq!((losing.pnl.as_str(), losing.pnl_percent.as_str(), losing.gaining), ("$-2.50", "-62.5%", false));
    let portfolio = PortfolioState {
        positions: vec![position.clone(), position],
        total_value: w(1105, 1),
        total_unrealized_pnl: w(-3, 0),
        ..PortfolioState::default()
    };
    assert_eq!(positions_title(&portfolio), " Positions (2) | Value: $110.50 | P&L: $-3.00 ");
}

#[test]
fn the_tabs() {
    let t = tabs(Screen::Positions);
    assert_eq!(t.iter().map(|t| (t.key, t.name, t.selected)).collect::<Vec<_>>(), vec![
        ("1", "Markets", false),
        ("2", "Orders", false),
        ("3", "Positions", true),
        ("4", "Settings", false),
    ]);
    assert_eq!(t[3].screen, Screen::Settings);
    assert!(tabs(Screen::OrderBook).iter().all(|t| !t.selected));
}

#[test]
fn the_figures_of_a_book() {
    let book = book_with(&[(50, 100), (49, 200), (48, 150)], &[(52, 80), (53, 120), (54, 100)]);
    let stats = BookStats::of(&book, 10);
    assert_eq!((stats.best_bid.as_str(), stats.best_ask.as_str(), stats.mid.as_str()), ("50.00¢", "52.00¢", "51.00¢"));
    assert_eq!((stats.spread.as_str(), stats.spread_percent.as_str()), ("2.00¢", "3.92%"));
    assert_eq!((stats.imbalance.as_str(), stats.tendency), ("+20.0% BUY", Tendency::Buy));
    assert_eq!((stats.bid_depth, stats.ask_depth), (3, 3));
    assert_eq!(BookStats::spread_line(&book), "50.00¢ / 52.00¢ (3.9%)");
    // over the first level only there is more on offer than bid
    let first = BookStats::of(&book_with(&[(50, 60)], &[(52, 100)]), 1);
    assert_eq!((first.imbalance.as_str(), first.tendency), ("-25.0% SELL", Tendency::Sell));
    let level = BookStats::of(&book_with(&[(50, 10)], &[(52, 10)]), 1);
    assert_eq!((level.imbalance.as_str(), level.tendency), ("0% NEUTRAL", Tendency::Neutral));
    let empty = BookStats::of(&book_with(&[], &[]), 10);
    assert_eq!((empty.best_bid.as_str(), empty.best_ask.as_str(), empty.mid.as_str()), ("-", "-", "-"));
    assert_eq!((empty.spread.as_str(), empty.spread_percent.as_str()), ("-", "-"));
    assert_eq!((empty.imbalance.as_str(), empty.tendency), ("-", Tendency::Unknown));
    assert_eq!(BookStats::spread_line(&book_with(&[], &[(52, 1)])), "- / 52.00¢ (-)");
}

#[test]
fn the_levels_of_a_ladder() {
    let book = book_with(&[(50, 100), (49, 200), (48, 100)], &[]);
    let rows = depth_rows(&book.bids, 2).unwrap();
    assert_eq!(rows.len(), 2);
    assert_eq!((rows[0].price.as_str(), rows[0].size.as_str(), rows[0].total.as_str()), ("50.00¢", "100.00", "100.00"));
    assert_eq!((rows[1].price.as_str(), rows[1].size.as_str(), rows[1].total.as_str()), ("49.00¢", "200.00", "300.00"));
    assert_eq!(rows[1].fill, Some(w(1, 0)));
    let third = rows[0].fill.unwrap();
    assert!(third.is_gt(w(333, 3)) && third.is_lt(w(334, 3)));
    let all = depth_rows(&book.bids, 10).unwrap();
    assert_eq!(all.len(), 3);
    assert_eq!(all[1].fill, Some(w(75, 2)));
    assert!(depth_rows(&book.asks, 10).unwrap().is_empty());
    let none = depth_rows(&book_with(&[(50, 0)], &[]).bids, 1).unwrap();
    assert_eq!((none[0].total.as_str(), none[0].fill), ("0.00", None));
    let huge = Decimal::try_from_i128_with_scale(79_228_162_514_264_337_593_543_950_335, 0).unwrap();
    assert!(depth_rows(&vec![PriceLevel::new(w(1, 0), huge), PriceLevel::new(w(1, 0), huge)], 2).is_none());
    let (price, size) = compact_row(&book.bids[1]);
    assert_eq!((price.as_str(), size.as_str()), ("49.00¢", "200.0"));
    // 0.25 * 100 is written 25.00, which is no whole number
    assert_eq!(bar_height(w(100, 0), w(400, 0)), 0);
    assert_eq!(bar_height(w(400, 0), w(400, 0)), 100);
    assert_eq!(bar_height(w(800, 0), w(400, 0)), 200);
    assert_eq!(bar_height(w(1, 0), w(0, 0)), 0);
    assert_eq!(BookStats::spread_percent_text(&book, 1), "-");
}

#[test]
fn texts_are_clipped_between_characters() {
    assert_eq!(clip("short", 10), "short");
    assert_eq!(clip("a longer text", 10), "a longe...");
    // the seventh byte is in the middle of é: the cut moves back
    assert_eq!(clip("abcdefé and more", 10), "abcdef...");
    assert_eq!(clip("abcdeéf and more", 10), "abcdeé...");
    assert_eq!(clip("abcd", 2), "...");
    assert_eq!(clip("é", 1), "...");
    assert_eq!(clip("", 0), "");
}
