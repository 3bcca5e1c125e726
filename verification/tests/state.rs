use clobster::api::{ApiClientBuilder, DataConverter};
use clobster::config::{ApiConfig, Config, KeyBindings, ThemeConfig, UiConfig};
use clobster::decimal::Decimal;
use clobster::error::Error;
use clobster::events::{EventConfig, EventHandler, InputEvent, Key, Modifiers, MouseKind};
use clobster::state::{
    Action, AppMode, AppState, Balance, InputMode, Market, MarketState, MarketStatus, Notification,
    NotificationLevel, Order, OrderSide, OrderState, OrderStatus, OrderType, Outcome, PortfolioState,
    Position, Screen, Store,
};
use clobster::text::truncate_string;
use tokio::sync::mpsc::unbounded_channel;

fn v(mantissa: i64, scale: u32) -> Decimal {
    Decimal::new(mantissa, scale)
}

fn a_market(id: &str, question: &str, status: MarketStatus, tags: &[&str]) -> Market {
    Market {
        id: id.to_string(),
        question: question.to_string(),
        description: format!("About {}", id),
        status,
        end_date: None,
        tags: tags.iter().map(|t| t.to_string()).collect(),
        outcomes: vec![Outcome {
            token_id: "yes".to_string(),
            name: "Yes".to_string(),
            bid: v(40, 2),
            ask: v(44, 2),
            last_price: v(41, 2),
            volume_24h: v(0, 0),
            price_change_24h: v(0, 0),
        }],
        volume: v(0, 0),
        liquidity: v(0, 0),
        image_url: None,
        created_at: 0,
        updated_at: 0,
    }
}

fn an_order(id: &str, status: OrderStatus) -> Order {
    Order {
        id: id.to_string(),
        market_id: "m1".to_string(),
        market_question: String::new(),
        token_id: "yes".to_string(),
        outcome_name: "Yes".to_string(),
        side: OrderSide::Sell,
        order_type: OrderType::Market,
        price: v(50, 2),
        original_size: v(8, 0),
        remaining_size: v(6, 0),
        filled_size: v(2, 0),
        status,
        created_at: 0,
        updated_at: 0,
        expires_at: None,
    }
}

fn a_position(token: &str, size: i64, avg: i64, current: i64) -> Position {
    Position {
        market_id: "m1".to_string(),
        market_question: String::new(),
        token_id: token.to_string(),
        outcome_name: "Yes".to_string(),
        size: v(size, 0),
        avg_price: v(avg, 2),
        current_price: v(current, 2),
        unrealized_pnl: v(0, 0),
        unrealized_pnl_percent: v(7, 0),
        realized_pnl: v(1, 0),
        cost_basis: v(0, 0),
        market_value: v(0, 0),
    }
}

fn a_store() -> Store {
    let (tx, _rx) = unbounded_channel();
    Store::new(tx)
}

fn plain(key: Key) -> InputEvent {
    InputEvent::new(key, Modifiers::default())
}

#[test]
fn outcome_and_market_quotes() {
    let m = a_market("m1", "Q", MarketStatus::Active, &[]);
    assert_eq!(m.best_bid(0), Some(v(40, 2)));
    assert_eq!(m.best_ask(0), Some(v(44, 2)));
    assert_eq!(m.mid_price(0), Some(v(42, 2)));
    assert_eq!(m.spread(0), Some(v(4, 2)));
    assert_eq!((m.best_bid(1), m.best_ask(1), m.mid_price(1), m.spread(1)), (None, None, None, None));
    assert!(m.is_tradeable());
    assert!(!a_market("m1", "Q", MarketStatus::Resolved, &[]).is_tradeable());
    let o = &m.outcomes[0];
    assert_eq!(o.mid_price(), Some(v(42, 2)));
    assert_eq!(o.spread(), Some(v(4, 2)));
    let pct = o.spread_percent().unwrap();
    assert!(pct.is_gt(v(952, 2)) && pct.is_lt(v(953, 2)));
    let mut flat = o.clone();
    flat.bid = v(0, 0);
    flat.ask = v(0, 0);
    assert_eq!(flat.spread_percent(), Some(v(0, 0)));
    assert_eq!(MarketStatus::default(), MarketStatus::Active);
    assert_eq!((MarketStatus::Closed.label(), MarketStatus::Paused.label()), ("Closed", "Paused"));
    assert_eq!((MarketStatus::Active.label(), MarketStatus::Resolved.label()), ("Active", "Resolved"));
}

#[test]
fn orders_and_their_status() {
    let o = an_order("o1", OrderStatus::PartiallyFilled);
    assert_eq!(o.fill_percent(), Some(v(25, 0)));
    assert_eq!(o.total_value(), Some(v(4, 0)));
    assert_eq!(o.filled_value(), Some(v(1, 0)));
    assert!(o.is_active() && o.can_cancel() && !o.is_complete());
    let mut none = an_order("o2", OrderStatus::Pending);
    none.original_size = v(0, 0);
    assert_eq!(none.fill_percent(), Some(v(0, 0)));
    assert!(!none.is_active() && !none.is_complete());
    for s in [OrderStatus::Filled, OrderStatus::Cancelled, OrderStatus::Expired, OrderStatus::Failed] {
        assert!(s.is_complete() && !s.is_active());
    }
    assert!(OrderStatus::Open.is_active());
    assert_eq!(OrderStatus::default(), OrderStatus::Pending);
    assert_eq!(OrderStatus::PartiallyFilled.label(), "Partial");
    assert_eq!(OrderStatus::Cancelled.label(), "Cancelled");
    assert_eq!(OrderSide::Buy.opposite(), OrderSide::Sell);
    assert_eq!(OrderSide::Sell.opposite(), OrderSide::Buy);

    let state = OrderState {
        orders: vec![
            an_order("a", OrderStatus::Open),
            an_order("b", OrderStatus::Filled),
            an_order("c", OrderStatus::PartiallyFilled),
            an_order("d", OrderStatus::Cancelled),
        ],
        selected_index: Some(2),
        status_filter: None,
        ..OrderState::default()
    };
    let ids = |list: Vec<&Order>| list.iter().map(|o| o.id.clone()).collect::<Vec<_>>();
    assert_eq!(state.selected_order().unwrap().id, "c");
    assert_eq!(ids(state.open_orders()), vec!["a", "c"]);
    assert_eq!(ids(state.filled_orders()), vec!["b"]);
    assert_eq!(ids(state.order_history()), vec!["b", "d"]);
    assert_eq!(ids(state.filtered_orders()), vec!["a", "b", "c", "d"]);
    assert_eq!(state.open_count(), 2);
    let filtered = OrderState { status_filter: Some(OrderStatus::Cancelled), selected_index: Some(9), ..state };
    assert_eq!(ids(filtered.filtered_orders()), vec!["d"]);
    assert!(filtered.selected_order().is_none());
}

#[test]
fn positions_and_portfolio() {
    let mut p = a_position("t1", 10, 40, 50);
    assert!(p.calculate_pnl());
    assert_eq!((p.market_value, p.cost_basis, p.unrealized_pnl), (v(5, 0), v(4, 0), v(1, 0)));
    assert_eq!(p.unrealized_pnl_percent, v(25, 0));
    assert!(p.is_profitable());
    let mut free = a_position("t2", 10, 0, 50);
    assert!(free.calculate_pnl());
    assert_eq!((free.cost_basis, free.unrealized_pnl, free.unrealized_pnl_percent), (v(0, 0), v(5, 0), v(7, 0)));
    let mut losing = a_position("t3", 10, 50, 40);
    assert!(losing.calculate_pnl());
    assert_eq!((losing.unrealized_pnl, losing.unrealized_pnl_percent), (v(-1, 0), v(-20, 0)));
    assert!(!losing.is_profitable());
    let mut huge = a_position("t4", 1, 50, 40);
    huge.size = Decimal::try_from_i128_with_scale(79_228_162_514_264_337_593_543_950_335, 0).unwrap();
    huge.current_price = v(2, 0);
    assert!(!huge.calculate_pnl());
    assert_eq!((huge.market_value, huge.unrealized_pnl_percent), (v(0, 0), v(7, 0)));

    let usdc = Balance::new("USDC", v(100, 0), v(70, 0)).unwrap();
    assert_eq!((usdc.asset.as_str(), usdc.total, usdc.available, usdc.locked), ("USDC", v(100, 0), v(70, 0), v(30, 0)));
    let other = Balance::new("ETH", v(3, 0), v(3, 0)).unwrap();
    let mut portfolio = PortfolioState { balances: vec![other, usdc], positions: vec![p, losing], selected_position: Some(1), ..PortfolioState::default() };
    assert_eq!(portfolio.available_usdc(), v(70, 0));
    assert_eq!(PortfolioState::default().available_usdc(), v(0, 0));
    assert_eq!(portfolio.selected_position().unwrap().token_id, "t3");
    assert!(portfolio.calculate_totals());
    assert_eq!(portfolio.total_unrealized_pnl, v(0, 0));
    assert_eq!(portfolio.total_realized_pnl, v(2, 0));
    // 5 + 4 of positions, 3 + 100 of balances
    assert_eq!(portfolio.total_value, v(112, 0));
    assert_eq!(portfolio.profitable_positions().iter().map(|p| p.token_id.as_str()).collect::<Vec<_>>(), vec!["t1"]);
    assert_eq!(portfolio.losing_positions().iter().map(|p| p.token_id.as_str()).collect::<Vec<_>>(), vec!["t3"]);
    portfolio.positions.push(huge.clone());
    portfolio.positions.push(huge);
    portfolio.positions[2].market_value = portfolio.positions[2].size;
    portfolio.positions[3].market_value = portfolio.positions[3].size;
    assert!(!portfolio.calculate_totals());
    assert_eq!(portfolio.total_value, v(112, 0));
}

#[test]
fn markets_are_filtered_by_status_and_search() {
    let state = MarketState {
        markets: vec![
            a_market("m1", "Will it RAIN tomorrow?", MarketStatus::Active, &["weather"]),
            a_market("m2", "Who wins the cup?", MarketStatus::Closed, &["Sports", "Rainbow"]),
            a_market("m3", "Will rates rise?", MarketStatus::Active, &["economy"]),
        ],
        ..MarketState::default()
    };
    let ids = |s: &MarketState| s.filtered_markets().iter().map(|m| m.id.clone()).collect::<Vec<_>>();
    assert_eq!(ids(&state), vec!["m1", "m2", "m3"]);
    let rain = MarketState { search_query: Some("Rain".to_string()), ..state };
    assert_eq!(ids(&rain), vec!["m1", "m2"]);
    assert_eq!(rain.filtered_count(), 2);
    let active_rain = MarketState { status_filter: Some(MarketStatus::Active), selected_index: Some(0), ..rain };
    assert_eq!(ids(&active_rain), vec!["m1"]);
    assert_eq!(active_rain.selected_market().unwrap().id, "m1");
    let about = MarketState { search_query: Some("about M3".to_string()), status_filter: None, selected_index: Some(1), ..active_rain };
    assert_eq!(ids(&about), vec!["m3"]);
    assert!(about.selected_market().is_none());
    let nothing = MarketState { search_query: Some("zzz".to_string()), selected_index: None, ..about };
    assert!(ids(&nothing).is_empty());
    assert!(nothing.selected_market().is_none());
}

#[test]
fn the_line_being_typed() {
    let mut app = AppState::new();
    assert!(!app.is_editing());
    app.input_mode = InputMode::Search;
    assert!(app.is_editing());
    app.input_mode = InputMode::Insert;
    assert!(app.is_editing());
    app.input_mode = InputMode::Command;
    assert!(app.is_editing());
    app.push_char('a');
    app.push_char('c');
    app.cursor_left();
    app.push_char('b');
    assert_eq!((app.input_buffer.as_str(), app.cursor_position), ("abc", 2));
    app.cursor_right();
    app.cursor_right();
    assert_eq!(app.cursor_position, 3);
    app.pop_char();
    assert_eq!((app.input_buffer.as_str(), app.cursor_position), ("ab", 2));
    app.cursor_left();
    app.cursor_left();
    app.cursor_left();
    app.pop_char();
    assert_eq!((app.input_buffer.as_str(), app.cursor_position), ("ab", 0));
    app.clear_input();
    assert_eq!((app.input_buffer.as_str(), app.cursor_position), ("", 0));
    assert_eq!((app.current_view, app.mode), (Screen::Markets, AppMode::Browse));
    assert_eq!((Screen::default(), InputMode::default(), AppMode::default()), (Screen::Markets, InputMode::Normal, AppMode::Browse));
}

#[test]
fn notifications() {
    let n = Notification::info("a");
    assert_eq!((n.message.as_str(), n.level, n.duration_secs), ("a", NotificationLevel::Info, 3));
    let n = Notification::success("b");
    assert_eq!((n.message.as_str(), n.level, n.duration_secs), ("b", NotificationLevel::Success, 3));
    let n = Notification::warning("c");
    assert_eq!((n.message.as_str(), n.level, n.duration_secs), ("c", NotificationLevel::Warning, 5));
    let n = Notification::error("d");
    assert_eq!((n.message.as_str(), n.level, n.duration_secs), ("d", NotificationLevel::Error, 10));
}

#[test]
fn the_store_applies_actions() {
    let mut store = a_store();
    store.reduce_at(Action::LoadMarkets, 1);
    assert!(store.markets.loading);
    store.reduce_at(
        Action::MarketsLoaded(vec![
            a_market("m1", "one", MarketStatus::Active, &[]),
            a_market("m2", "two", MarketStatus::Closed, &[]),
            a_market("m3", "three", MarketStatus::Active, &[]),
        ]),
        5,
    );
    assert_eq!((store.markets.markets.len(), store.markets.loading, store.markets.last_updated), (3, false, Some(5)));
    store.reduce_at(Action::SelectMarket(2), 6);
    assert_eq!(store.markets.selected_index, Some(2));
    store.reduce_at(Action::SelectMarket(3), 6);
    assert_eq!(store.markets.selected_index, Some(2));
    store.reduce_at(Action::FilterMarkets(MarketStatus::Active), 6);
    store.reduce_at(Action::SearchMarkets("THREE".to_string()), 6);
    assert_eq!(store.markets.filtered_count(), 1);
    store.reduce_at(Action::GoToBottom, 6);
    assert_eq!(store.markets.selected_index, Some(0));
    store.reduce_at(Action::ClearMarketFilter, 6);
    assert_eq!((store.markets.search_query.clone(), store.markets.status_filter), (None, None));
    store.reduce_at(Action::GoToBottom, 6);
    assert_eq!(store.markets.selected_index, Some(2));
    store.reduce_at(Action::ScrollUp, 6);
    assert_eq!(store.markets.selected_index, Some(1));
    store.reduce_at(Action::PageUp, 6);
    assert_eq!(store.markets.selected_index, Some(0));
    store.reduce_at(Action::PageDown, 6);
    assert_eq!(store.markets.selected_index, Some(2));
    store.reduce_at(Action::GoToTop, 6);
    store.reduce_at(Action::ScrollDown, 6);
    assert_eq!(store.markets.selected_index, Some(1));

    store.reduce_at(Action::SetView(Screen::Orders), 7);
    store.reduce_at(Action::ScrollDown, 7);
    assert_eq!((store.orders.selected_index, store.markets.selected_index), (Some(0), Some(1)));
    store.reduce_at(Action::LoadOrders, 7);
    assert!(store.orders.loading);
    store.reduce_at(Action::OrdersLoaded(vec![an_order("a", OrderStatus::Open), an_order("b", OrderStatus::Open)]), 8);
    assert_eq!((store.orders.orders.len(), store.orders.loading, store.orders.last_updated), (2, false, Some(8)));
    store.reduce_at(Action::CancelOrder("a".to_string()), 9);
    assert!(store.orders.loading);
    store.reduce_at(Action::OrderCancelled("a".to_string()), 9);
    assert_eq!(store.orders.orders.iter().map(|o| o.id.as_str()).collect::<Vec<_>>(), vec!["b"]);
    assert!(!store.orders.loading);
    store.reduce_at(Action::OrderPlaced(an_order("c", OrderStatus::Pending)), 9);
    assert_eq!(store.orders.orders.iter().map(|o| o.id.as_str()).collect::<Vec<_>>(), vec!["b", "c"]);
    store.reduce_at(Action::SelectOrder(1), 9);
    assert_eq!(store.orders.selected_index, Some(1));
    store.reduce_at(Action::SelectOrder(2), 9);
    assert_eq!(store.orders.selected_index, Some(1));
    store.reduce_at(Action::ScrollDown, 9);
    assert_eq!(store.orders.selected_index, Some(1));
    store.reduce_at(Action::GoToTop, 9);
    assert_eq!(store.orders.selected_index, Some(0));

    store.reduce_at(Action::SetView(Screen::Positions), 10);
    store.reduce_at(Action::LoadPositions, 10);
    assert!(store.portfolio.loading);
    store.reduce_at(Action::PositionsLoaded(vec![a_position("t1", 1, 1, 1), a_position("t2", 1, 1, 1)]), 10);
    assert_eq!((store.portfolio.positions.len(), store.portfolio.loading), (2, false));
    store.reduce_at(Action::PageDown, 10);
    assert_eq!(store.portfolio.selected_position, Some(1));
    store.reduce_at(Action::LoadPortfolio, 10);
    store.reduce_at(Action::PortfolioLoaded(PortfolioState { total_value: v(9, 0), loading: true, ..PortfolioState::default() }), 10);
    assert_eq!((store.portfolio.total_value, store.portfolio.loading, store.portfolio.positions.len()), (v(9, 0), false, 0));
    store.reduce_at(Action::ScrollDown, 10);
    assert_eq!(store.portfolio.selected_position, Some(0));

    store.reduce_at(Action::SetView(Screen::Settings), 11);
    store.reduce_at(Action::GoToBottom, 11);
    assert_eq!((store.markets.selected_index, store.orders.selected_index), (Some(1), Some(0)));
    store.reduce_at(Action::SetInputMode(InputMode::Command), 11);
    store.reduce_at(Action::SetAppMode(AppMode::Trade), 11);
    assert_eq!((store.app.current_view, store.app.input_mode, store.app.mode), (Screen::Settings, InputMode::Command, AppMode::Trade));
    store.reduce_at(Action::ToggleHelp, 11);
    assert!(store.app.show_help);
    store.reduce_at(Action::ToggleHelp, 11);
    assert!(!store.app.show_help);
    store.reduce_at(Action::ShowNotification(Notification::info("hi")), 11);
    assert_eq!(store.app.notification.as_ref().unwrap().message, "hi");
    store.reduce_at(Action::DismissNotification, 11);
    assert!(store.app.notification.is_none());
    for a in [Action::RefreshAll, Action::RefreshMarkets, Action::RefreshOrders, Action::RefreshPortfolio] {
        store.app.loading = false;
        store.reduce_at(a, 11);
        assert!(store.app.loading);
    }
    store.reduce_at(Action::SetError("bad".to_string()), 11);
    assert_eq!((store.app.error.as_deref(), store.app.loading), (Some("bad"), false));
    store.reduce_at(Action::ClearError, 11);
    assert!(store.app.error.is_none());
    store.reduce_at(Action::SetConnected(true), 11);
    store.reduce_at(Action::SetLoading(true), 11);
    assert!(store.app.connected && store.app.loading);
    store.reduce(Action::Quit);
    assert!(store.app.should_quit);
    store.reduce(Action::MarketsLoaded(vec![]));
    assert!(store.markets.last_updated.is_some());
}

#[test]
fn the_store_hands_actions_on() {
    let (tx, mut rx) = unbounded_channel();
    let store = Store::new(tx);
    assert!(store.dispatch(Action::Quit).is_ok());
    assert!(matches!(rx.try_recv(), Ok(Action::Quit)));
    drop(rx);
    assert!(matches!(store.dispatch(Action::Quit), Err(Error::Channel(_))));
}

#[test]
fn keys_match_their_bindings() {
    let ctrl = Modifiers { ctrl: true, alt: false, shift: false };
    let all = Modifiers { ctrl: true, alt: true, shift: true };
    assert!(plain(Key::Char('q')).matches("q"));
    assert!(plain(Key::Char('Q')).matches("q"));
    assert!(!plain(Key::Char('q')).matches("Ctrl+q"));
    assert!(InputEvent::new(Key::Char('q'), ctrl).matches("Ctrl+q"));
    assert!(InputEvent::new(Key::Char('q'), ctrl).matches("CTRL+Q"));
    assert!(!InputEvent::new(Key::Char('q'), ctrl).matches("q"));
    assert!(InputEvent::new(Key::Enter, all).matches("shift+Alt+ctrl+Enter"));
    assert!(!InputEvent::new(Key::Enter, all).matches("Alt+ctrl+Enter"));
    for (key, names) in [
        (Key::Enter, vec!["Enter", "enter"]),
        (Key::Escape, vec!["Esc", "ESCAPE"]),
        (Key::Backspace, vec!["Backspace"]),
        (Key::Delete, vec!["Delete", "del"]),
        (Key::Tab, vec!["Tab"]),
        (Key::Up, vec!["Up"]),
        (Key::Down, vec!["down"]),
        (Key::Left, vec!["Left"]),
        (Key::Right, vec!["Right"]),
        (Key::Home, vec!["Home"]),
        (Key::End, vec!["End"]),
        (Key::PageUp, vec!["PageUp"]),
        (Key::PageDown, vec!["pagedown"]),
        (Key::F(5), vec!["F5", "f5"]),
        (Key::F(12), vec!["F12"]),
        (Key::Char('?'), vec!["?"]),
        (Key::Char('/'), vec!["/"]),
        (Key::Char('1'), vec!["1"]),
    ] {
        for name in names {
            assert!(plain(key).matches(name), "{:?} {}", key, name);
        }
    }
    assert!(!plain(Key::BackTab).matches("Tab"));
    assert!(!plain(Key::Enter).matches("Esc"));
    assert!(!plain(Key::F(5)).matches("F6"));
    assert!(!plain(Key::F(1)).matches("F123"));
    assert!(!plain(Key::Char('f')).matches("f"));
    assert!(!plain(Key::Char('x')).matches("xy"));
    assert!(!plain(Key::Char('x')).matches(""));
    assert!(!plain(Key::Char('é')).matches("é"));
    // the last piece that is no modifier is the key
    assert!(plain(Key::Char('b')).matches("a+b"));
    assert!(!plain(Key::Char('+')).matches("+"));
    let e = InputEvent::new(Key::Char('x'), Modifiers { ctrl: false, alt: true, shift: true });
    assert!(e.is_char() && !e.ctrl() && e.alt() && e.shift());
    assert_eq!(e.char(), Some('x'));
    assert_eq!((plain(Key::Up).char(), plain(Key::Up).is_char()), (None, false));
    assert!(Key::F(3).is_named("f3") && !Key::F(3).is_named("F3"));
}

#[test]
fn keys_become_actions() {
    let (tx, _rx) = unbounded_channel();
    let mut handler = EventHandler::new(tx);
    assert!(handler.handle_key(plain(Key::Char('q')), true).is_none());
    let mut store = a_store();
    handler.update_store_snapshot(&store);
    assert!(handler.handle_key(plain(Key::Char('q')), false).is_none());
    assert!(matches!(handler.handle_key(plain(Key::Char('q')), true), Some(Action::Quit)));
    assert!(matches!(handler.handle_key(plain(Key::Char('?')), true), Some(Action::ToggleHelp)));
    assert!(matches!(handler.handle_key(plain(Key::Char('r')), true), Some(Action::RefreshAll)));
    assert!(matches!(handler.handle_key(plain(Key::Char('1')), true), Some(Action::SetView(Screen::Markets))));
    assert!(matches!(handler.handle_key(plain(Key::Char('2')), true), Some(Action::SetView(Screen::OrderBook))));
    assert!(matches!(handler.handle_key(plain(Key::Char('3')), true), Some(Action::SetView(Screen::Orders))));
    assert!(matches!(handler.handle_key(plain(Key::Char('4')), true), Some(Action::SetView(Screen::Positions))));
    assert!(matches!(handler.handle_key(plain(Key::Char('5')), true), Some(Action::SetView(Screen::Portfolio))));
    assert!(matches!(handler.handle_key(plain(Key::Char('k')), true), Some(Action::ScrollUp)));
    assert!(matches!(handler.handle_key(plain(Key::Up), true), Some(Action::ScrollUp)));
    assert!(matches!(handler.handle_key(plain(Key::Char('j')), true), Some(Action::ScrollDown)));
    assert!(matches!(handler.handle_key(InputEvent::new(Key::Down, Modifiers { ctrl: true, alt: false, shift: false }), true), Some(Action::ScrollDown)));
    assert!(matches!(handler.handle_key(plain(Key::PageUp), true), Some(Action::PageUp)));
    assert!(matches!(handler.handle_key(plain(Key::PageDown), true), Some(Action::PageDown)));
    assert!(matches!(handler.handle_key(plain(Key::Home), true), Some(Action::GoToTop)));
    assert!(matches!(handler.handle_key(plain(Key::End), true), Some(Action::GoToBottom)));
    assert!(matches!(handler.handle_key(plain(Key::Char('/')), true), Some(Action::SetInputMode(InputMode::Search))));
    // the markets view
    assert!(matches!(handler.handle_key(plain(Key::Enter), true), Some(Action::SetView(Screen::MarketDetail))));
    assert!(matches!(handler.handle_key(plain(Key::Char('p')), true), Some(Action::SetView(Screen::OrderEntry))));
    assert!(matches!(handler.handle_key(plain(Key::Char('b')), true), Some(Action::SetView(Screen::OrderBook))));
    assert!(handler.handle_key(plain(Key::Char('x')), true).is_none());
    // the order book view
    store.app.current_view = Screen::OrderBook;
    handler.update_store_snapshot(&store);
    assert!(matches!(handler.handle_key(plain(Key::Escape), true), Some(Action::SetView(Screen::Markets))));
    assert!(matches!(handler.handle_key(plain(Key::Backspace), true), Some(Action::SetView(Screen::Markets))));
    assert!(handler.handle_key(plain(Key::Enter), true).is_none());
    // the orders view
    store.app.current_view = Screen::Orders;
    store.orders.orders = vec![an_order("a", OrderStatus::Filled), an_order("b", OrderStatus::Open)];
    handler.update_store_snapshot(&store);
    assert!(handler.handle_key(plain(Key::Char('x')), true).is_none());
    store.orders.selected_index = Some(0);
    handler.update_store_snapshot(&store);
    assert!(handler.handle_key(plain(Key::Char('x')), true).is_none());
    store.orders.selected_index = Some(1);
    handler.update_store_snapshot(&store);
    assert!(matches!(handler.handle_key(plain(Key::Char('x')), true), Some(Action::CancelOrder(id)) if id == "b"));
    // the positions view
    store.app.current_view = Screen::Portfolio;
    handler.update_store_snapshot(&store);
    assert!(matches!(handler.handle_key(plain(Key::Enter), true), Some(Action::SetView(Screen::MarketDetail))));
    assert!(handler.handle_key(plain(Key::Char('p')), true).is_none());
    store.app.current_view = Screen::Settings;
    handler.update_store_snapshot(&store);
    assert!(handler.handle_key(plain(Key::Enter), true).is_none());
    // while a line is typed
    for mode in [InputMode::Insert, InputMode::Command, InputMode::Search] {
        store.app.input_mode = mode;
        handler.update_store_snapshot(&store);
        assert!(matches!(handler.handle_key(plain(Key::Escape), true), Some(Action::SetInputMode(InputMode::Normal))));
        assert!(matches!(handler.handle_key(plain(Key::Enter), true), Some(Action::SetInputMode(InputMode::Normal))));
        assert!(handler.handle_key(plain(Key::Char('q')), true).is_none());
    }
    assert!(matches!(handler.handle_mouse(MouseKind::ScrollUp), Some(Action::ScrollUp)));
    assert!(matches!(handler.handle_mouse(MouseKind::ScrollDown), Some(Action::ScrollDown)));
    assert!(handler.handle_mouse(MouseKind::Other).is_none());
}

#[test]
fn settings_and_their_defaults() {
    let c = Config::default();
    assert_eq!(c.api.base_url, "https://clob.polymarket.com");
    assert_eq!(c.api.ws_url, "wss://ws-subscriptions-clob.polymarket.com/ws");
    assert_eq!((c.api.timeout_secs, c.api.max_retries, c.api.rate_limit), (30, 3, 10));
    assert!(c.api.credentials_path.is_none());
    let ui = UiConfig::default();
    assert_eq!((ui.tick_rate_ms, ui.markets_per_page, ui.orders_per_page, ui.auto_refresh_secs), (250, 20, 15, 30));
    assert!(ui.mouse_support && ui.unicode_symbols && ui.show_status_bar && ui.show_help_bar);
    let k = KeyBindings::default();
    assert_eq!((k.quit.as_str(), k.help.as_str(), k.up.as_str(), k.down.as_str()), ("q", "?", "k", "j"));
    assert_eq!((k.left.as_str(), k.right.as_str(), k.select.as_str(), k.back.as_str()), ("h", "l", "Enter", "Esc"));
    assert_eq!((k.refresh.as_str(), k.markets.as_str(), k.orderbook.as_str(), k.orders.as_str()), ("r", "1", "2", "3"));
    assert_eq!((k.positions.as_str(), k.portfolio.as_str(), k.search.as_str()), ("4", "5", "/"));
    assert_eq!((k.place_order.as_str(), k.cancel_order.as_str()), ("p", "x"));
    let t = ThemeConfig::default();
    assert_eq!((t.primary.as_str(), t.secondary.as_str(), t.accent.as_str()), ("#5c6bc0", "#7986cb", "#ff7043"));
    assert_eq!((t.success.as_str(), t.warning.as_str(), t.error.as_str()), ("#66bb6a", "#ffa726", "#ef5350"));
    assert_eq!((t.background.as_str(), t.foreground.as_str()), ("#1e1e2e", "#cdd6f4"));
    assert_eq!((t.border.as_str(), t.selection.as_str()), ("#45475a", "#585b70"));
    let e = EventConfig::default();
    assert_eq!((e.tick_rate_ms, e.mouse_capture, e.paste_capture), (250, true, true));
    let e = e.with_tick_rate_ms(100).with_mouse_capture(false);
    assert_eq!((e.tick_rate_ms, e.mouse_capture, e.paste_capture), (100, false, true));
    let (config, key) = ApiClientBuilder::new().into_parts();
    assert_eq!((config.timeout_secs, key), (30, None));
    let custom = ApiConfig { timeout_secs: 5, ..ApiConfig::default() };
    let (config, key) = ApiClientBuilder::new().private_key("secret").config(custom).into_parts();
    assert_eq!((config.timeout_secs, key.as_deref()), (5, Some("secret")));
}

#[test]
fn the_exchange_s_words() {
    assert_eq!(DataConverter::convert_market_status(true, true), MarketStatus::Closed);
    assert_eq!(DataConverter::convert_market_status(false, true), MarketStatus::Closed);
    assert_eq!(DataConverter::convert_market_status(true, false), MarketStatus::Active);
    assert_eq!(DataConverter::convert_market_status(false, false), MarketStatus::Paused);
    for (word, status) in [
        ("LIVE", OrderStatus::Open),
        ("open", OrderStatus::Open),
        ("Matched", OrderStatus::Filled),
        ("FILLED", OrderStatus::Filled),
        ("cancelled", OrderStatus::Cancelled),
        ("CANCELED", OrderStatus::Cancelled),
        ("expired", OrderStatus::Expired),
        ("", OrderStatus::Pending),
        ("unheard", OrderStatus::Pending),
    ] {
        assert_eq!(DataConverter::convert_order_status(word), status, "{}", word);
    }
    assert_eq!(DataConverter::status_of_upper("live"), OrderStatus::Pending);
}

#[test]
fn long_texts_are_cut() {
    assert_eq!(truncate_string("short", 10), "short");
    assert_eq!(truncate_string("exactly10!", 10), "exactly10!");
    assert_eq!(truncate_string("a longer text", 10), "a longe...");
    assert_eq!(truncate_string("abcd", 3), "...");
    assert_eq!(truncate_string("", 0), "");
}

#[test]
fn errors() {
    assert!(matches!(Error::terminal("t"), Error::Terminal(m) if m == "t"));
    assert!(matches!(Error::config("c"), Error::Config(m) if m == "c"));
    assert!(matches!(Error::channel("c"), Error::Channel(m) if m == "c"));
    assert!(matches!(Error::auth("a"), Error::Auth(m) if m == "a"));
    assert!(matches!(Error::wallet("w"), Error::Wallet(m) if m == "w"));
    assert!(matches!(Error::invalid_input("i"), Error::InvalidInput(m) if m == "i"));
    assert!(matches!(Error::network("n"), Error::Network(m) if m == "n"));
    assert!(matches!(Error::application("a"), Error::Application(m) if m == "a"));
    assert!(Error::network("n").is_recoverable());
    assert!(Error::RateLimited(3).is_recoverable());
    assert!(Error::channel("c").is_recoverable());
    assert!(!Error::invalid_input("i").is_recoverable());
    assert!(!Error::Io("x".to_string()).is_recoverable());
    assert!(!Error::Api("x".to_string()).is_recoverable());
}

#[test]
fn what_a_hand_over_to_the_channel_comes_to() {
    assert!(clobster::channel::delivery(Ok(())).is_ok());
    match clobster::channel::delivery(Err("channel closed".to_string())) {
        Err(Error::Channel(words)) => assert_eq!(words, "channel closed"),
        other => panic!("{:?}", other),
    }
}
