//! The data the application works on: markets, orders, positions and order
//! books, and what is asked of the exchange.

pub mod app_state;
pub mod market_state;
pub mod order_state;
pub mod orderbook_state;
pub mod portfolio_state;

pub use app_state::{AppMode, AppState, InputMode, Screen};
pub use market_state::{Market, MarketState, MarketStatus, Outcome};
pub use order_state::{Order, OrderState, OrderStatus};
pub use orderbook_state::{OrderBookDepth, OrderBookState, OrderBookStats, PriceLevel};
pub use portfolio_state::{Balance, PortfolioState, Position};

use vstd::prelude::*;
use crate::channel::{delivery, send_action, ActionSender};
use crate::clock::Timestamp;
use crate::decimal::Decimal;
use crate::error::{Error, Result};
use crate::text::str_eq;

verus! {

/// The side of an order.
#[derive(Debug, Clone, Copy, PartialEq, Eq, Structural)]
pub enum OrderSide {
    Buy,
    Sell,
}

impl OrderSide {
    /// The other side.
    pub open spec fn spec_opposite(&self) -> OrderSide {
        match *self {
            OrderSide::Buy => OrderSide::Sell,
            OrderSide::Sell => OrderSide::Buy,
        }
    }

    /// The other side.
    #[verifier::when_used_as_spec(spec_opposite)]
    pub fn opposite(&self) -> (r: OrderSide)
        ensures
            r == self.spec_opposite(),
    {
        match self {
            OrderSide::Buy => OrderSide::Sell,
            OrderSide::Sell => OrderSide::Buy,
        }
    }
}

/// How an order is to be executed.
#[derive(Debug, Clone, Copy, PartialEq, Eq, Structural)]
pub enum OrderType {
    Limit,
    Market,
}

/// A request to place an order.
#[derive(Debug, Clone)]
pub struct OrderRequest {
    pub market_id: String,
    pub token_id: String,
    pub side: OrderSide,
    /// The limit price; `None` for a market order.
    pub price: Option<Decimal>,
    pub size: Decimal,
    pub order_type: OrderType,
}

/// How grave a notification is.
#[derive(Debug, Clone, Copy, PartialEq, Eq, Structural)]
pub enum NotificationLevel {
    Info,
    Success,
    Warning,
    Error,
}

/// A message shown to the user for some seconds.
#[derive(Debug, Clone)]
pub struct Notification {
    pub message: String,
    pub level: NotificationLevel,
    pub duration_secs: u64,
}

impl Notification {
    /// A piece of information, shown for 3 seconds.
    pub fn info(message: &str) -> (r: Self)
        ensures
            r.message@ == message@,
            r.level == NotificationLevel::Info,
            r.duration_secs == 3,
    {
        Notification { message: message.to_owned(), level: NotificationLevel::Info, duration_secs: 3 }
    }

    /// A success, shown for 3 seconds.
    pub fn success(message: &str) -> (r: Self)
        ensures
            r.message@ == message@,
            r.level == NotificationLevel::Success,
            r.duration_secs == 3,
    {
        Notification {
            message: message.to_owned(),
            level: NotificationLevel::Success,
            duration_secs: 3,
        }
    }

    /// A warning, shown for 5 seconds.
    pub fn warning(message: &str) -> (r: Self)
        ensures
            r.message@ == message@,
            r.level == NotificationLevel::Warning,
            r.duration_secs == 5,
    {
        Notification {
            message: message.to_owned(),
            level: NotificationLevel::Warning,
            duration_secs: 5,
        }
    }

    /// An error, shown for 10 seconds.
    pub fn error(message: &str) -> (r: Self)
        ensures
            r.message@ == message@,
            r.level == NotificationLevel::Error,
            r.duration_secs == 10,
    {
        Notification {
            message: message.to_owned(),
            level: NotificationLevel::Error,
            duration_secs: 10,
        }
    }
}

/// What can be asked of the store, and what the outside reports to it.
#[derive(Debug, Clone)]
pub enum Action {
    SetView(Screen),
    SetInputMode(InputMode),
    SetAppMode(AppMode),
    LoadMarkets,
    MarketsLoaded(Vec<Market>),
    SelectMarket(usize),
    SearchMarkets(String),
    FilterMarkets(MarketStatus),
    ClearMarketFilter,
    LoadOrders,
    OrdersLoaded(Vec<Order>),
    SelectOrder(usize),
    PlaceOrder(OrderRequest),
    CancelOrder(String),
    OrderPlaced(Order),
    OrderCancelled(String),
    LoadPortfolio,
    PortfolioLoaded(PortfolioState),
    LoadPositions,
    PositionsLoaded(Vec<Position>),
    ScrollUp,
    ScrollDown,
    PageUp,
    PageDown,
    GoToTop,
    GoToBottom,
    ToggleHelp,
    ShowNotification(Notification),
    DismissNotification,
    RefreshAll,
    RefreshMarkets,
    RefreshOrders,
    RefreshPortfolio,
    SetError(String),
    ClearError,
    SetConnected(bool),
    SetLoading(bool),
    Quit,
}

impl Action {
    /// Whether the action changes the application's own state.
    pub open spec fn spec_is_about_app(&self) -> bool {
        match *self {
            Action::SetView(_) | Action::SetInputMode(_) | Action::SetAppMode(_) => true,
            Action::ToggleHelp | Action::ShowNotification(_) | Action::DismissNotification => true,
            Action::RefreshAll | Action::RefreshMarkets | Action::RefreshOrders => true,
            Action::RefreshPortfolio | Action::SetError(_) | Action::ClearError => true,
            Action::SetConnected(_) | Action::SetLoading(_) | Action::Quit => true,
            _ => false,
        }
    }

    /// Whether the action changes the application's own state.
    #[verifier::when_used_as_spec(spec_is_about_app)]
    pub fn is_about_app(&self) -> (r: bool)
        ensures
            r == self.spec_is_about_app(),
    {
        match self {
            Action::SetView(_) | Action::SetInputMode(_) | Action::SetAppMode(_) => true,
            Action::ToggleHelp | Action::ShowNotification(_) | Action::DismissNotification => true,
            Action::RefreshAll | Action::RefreshMarkets | Action::RefreshOrders => true,
            Action::RefreshPortfolio | Action::SetError(_) | Action::ClearError => true,
            Action::SetConnected(_) | Action::SetLoading(_) | Action::Quit => true,
            _ => false,
        }
    }

    /// Whether the action loads, selects or filters markets.
    pub open spec fn spec_is_about_markets(&self) -> bool {
        match *self {
            Action::LoadMarkets | Action::MarketsLoaded(_) | Action::SelectMarket(_) => true,
            Action::SearchMarkets(_) | Action::FilterMarkets(_) | Action::ClearMarketFilter => true,
            _ => false,
        }
    }

    /// Whether the action loads, selects or filters markets.
    #[verifier::when_used_as_spec(spec_is_about_markets)]
    pub fn is_about_markets(&self) -> (r: bool)
        ensures
            r == self.spec_is_about_markets(),
    {
        match self {
            Action::LoadMarkets | Action::MarketsLoaded(_) | Action::SelectMarket(_) => true,
            Action::SearchMarkets(_) | Action::FilterMarkets(_) | Action::ClearMarketFilter => true,
            _ => false,
        }
    }

    /// Whether the action loads, selects, places or cancels orders.
    pub open spec fn spec_is_about_orders(&self) -> bool {
        match *self {
            Action::LoadOrders | Action::OrdersLoaded(_) | Action::SelectOrder(_) => true,
            Action::PlaceOrder(_) | Action::CancelOrder(_) => true,
            Action::OrderPlaced(_) | Action::OrderCancelled(_) => true,
            _ => false,
        }
    }

    /// Whether the action loads, selects, places or cancels orders.
    #[verifier::when_used_as_spec(spec_is_about_orders)]
    pub fn is_about_orders(&self) -> (r: bool)
        ensures
            r == self.spec_is_about_orders(),
    {
        match self {
            Action::LoadOrders | Action::OrdersLoaded(_) | Action::SelectOrder(_) => true,
            Action::PlaceOrder(_) | Action::CancelOrder(_) => true,
            Action::OrderPlaced(_) | Action::OrderCancelled(_) => true,
            _ => false,
        }
    }

    /// Whether the action loads the portfolio or its positions.
    pub open spec fn spec_is_about_portfolio(&self) -> bool {
        match *self {
            Action::LoadPortfolio | Action::PortfolioLoaded(_) => true,
            Action::LoadPositions | Action::PositionsLoaded(_) => true,
            _ => false,
        }
    }

    /// Whether the action loads the portfolio or its positions.
    #[verifier::when_used_as_spec(spec_is_about_portfolio)]
    pub fn is_about_portfolio(&self) -> (r: bool)
        ensures
            r == self.spec_is_about_portfolio(),
    {
        match self {
            Action::LoadPortfolio | Action::PortfolioLoaded(_) => true,
            Action::LoadPositions | Action::PositionsLoaded(_) => true,
            _ => false,
        }
    }
}

/// The place that a move by `delta` from `current` leads to in a list of
/// `len` entries: never before the first entry, never behind the last. No
/// selection counts as the first entry.
pub open spec fn scrolled(current: Option<usize>, delta: int, len: nat) -> usize {
    let from = match current {
        Some(c) => c as int,
        None => 0,
    };
    let to = if from + delta < 0 {
        0
    } else {
        from + delta
    };
    let last = if len == 0 {
        0
    } else {
        len - 1
    };
    if to < last {
        to as usize
    } else {
        last as usize
    }
}

/// How far an action moves the selection: one entry for a scroll, ten for a
/// page, nothing for any other action.
pub open spec fn scroll_delta(action: Action) -> int {
    match action {
        Action::ScrollUp => -1,
        Action::ScrollDown => 1,
        Action::PageUp => -10,
        Action::PageDown => 10,
        _ => 0,
    }
}

/// The selection in a list of `len` entries after an action that moves it.
pub open spec fn selection_after(current: Option<usize>, action: Action, len: nat) -> Option<usize> {
    match action {
        Action::ScrollUp | Action::ScrollDown | Action::PageUp | Action::PageDown => Some(
            scrolled(current, scroll_delta(action), len),
        ),
        Action::GoToTop => Some(0usize),
        Action::GoToBottom => Some(
            (if len == 0 {
                0
            } else {
                len - 1
            }) as usize,
        ),
        _ => current,
    }
}

/// The application's own state after an action.
pub open spec fn app_after(app: AppState, action: Action) -> AppState {
    match action {
        Action::SetView(view) => AppState { current_view: view, ..app },
        Action::SetInputMode(mode) => AppState { input_mode: mode, ..app },
        Action::SetAppMode(mode) => AppState { mode, ..app },
        Action::ToggleHelp => AppState { show_help: !app.show_help, ..app },
        Action::ShowNotification(n) => AppState { notification: Some(n), ..app },
        Action::DismissNotification => AppState { notification: None, ..app },
        Action::RefreshAll | Action::RefreshMarkets => AppState { loading: true, ..app },
        Action::RefreshOrders | Action::RefreshPortfolio => AppState { loading: true, ..app },
        Action::SetError(e) => AppState { error: Some(e), loading: false, ..app },
        Action::ClearError => AppState { error: None, ..app },
        Action::SetConnected(c) => AppState { connected: c, ..app },
        Action::SetLoading(l) => AppState { loading: l, ..app },
        Action::Quit => AppState { should_quit: true, ..app },
        _ => app,
    }
}

/// The markets after an action, in the view `view`, at `now`.
pub open spec fn markets_after(markets: MarketState, action: Action, view: Screen, now: Timestamp) -> MarketState {
    match action {
        Action::LoadMarkets => MarketState { loading: true, ..markets },
        Action::MarketsLoaded(loaded) => MarketState {
            markets: loaded,
            loading: false,
            last_updated: Some(now),
            ..markets
        },
        Action::SelectMarket(i) => if i < markets.markets@.len() {
            MarketState { selected_index: Some(i), ..markets }
        } else {
            markets
        },
        Action::SearchMarkets(query) => MarketState { search_query: Some(query), ..markets },
        Action::FilterMarkets(status) => MarketState { status_filter: Some(status), ..markets },
        Action::ClearMarketFilter => MarketState {
            search_query: None,
            status_filter: None,
            ..markets
        },
        _ => if view == Screen::Markets {
            MarketState {
                selected_index: selection_after(
                    markets.selected_index,
                    action,
                    markets.shown().len(),
                ),
                ..markets
            }
        } else {
            markets
        },
    }
}

/// The portfolio after an action, in the view `view`.
pub open spec fn portfolio_after(portfolio: PortfolioState, action: Action, view: Screen) -> PortfolioState {
    match action {
        Action::LoadPortfolio | Action::LoadPositions => PortfolioState { loading: true, ..portfolio },
        Action::PortfolioLoaded(loaded) => PortfolioState { loading: false, ..loaded },
        Action::PositionsLoaded(positions) => PortfolioState {
            positions,
            loading: false,
            ..portfolio
        },
        _ => if view == Screen::Positions {
            PortfolioState {
                selected_position: selection_after(
                    portfolio.selected_position,
                    action,
                    portfolio.positions@.len(),
                ),
                ..portfolio
            }
        } else {
            portfolio
        },
    }
}

/// The orders other than the one with the id `id`, in order.
pub open spec fn orders_but(orders: Seq<Order>, id: Seq<char>) -> Seq<Order> {
    orders.filter(|o: Order| o.id@ != id)
}

/// The list of orders after an action.
pub open spec fn order_list_after(orders: Seq<Order>, action: Action) -> Seq<Order> {
    match action {
        Action::OrdersLoaded(loaded) => loaded@,
        Action::OrderPlaced(order) => orders.push(order),
        Action::OrderCancelled(id) => orders_but(orders, id@),
        _ => orders,
    }
}

/// Whether `after` is what an action makes of the orders `before`, in the
/// view `view`, at `now`.
pub open spec fn orders_follow(
    before: OrderState,
    after: OrderState,
    action: Action,
    view: Screen,
    now: Timestamp,
) -> bool {
    &&& after.orders@ == order_list_after(before.orders@, action)
    &&& after.status_filter == before.status_filter
    &&& after.scroll_offset == before.scroll_offset
    &&& after.loading == match action {
        Action::LoadOrders | Action::PlaceOrder(_) | Action::CancelOrder(_) => true,
        Action::OrdersLoaded(_) | Action::OrderPlaced(_) | Action::OrderCancelled(_) => false,
        _ => before.loading,
    }
    &&& after.last_updated == match action {
        Action::OrdersLoaded(_) => Some(now),
        _ => before.last_updated,
    }
    &&& after.selected_index == match action {
        Action::SelectOrder(i) => if i < before.orders@.len() {
            Some(i)
        } else {
            before.selected_index
        },
        _ => if view == Screen::Orders {
            selection_after(before.selected_index, action, before.orders@.len())
        } else {
            before.selected_index
        },
    }
}

fn scroll_to(current: Option<usize>, delta: i32, len: usize) -> (r: usize)
    ensures
        r == scrolled(current, delta as int, len as nat),
{
    let from: i128 = match current {
        Some(c) => c as i128,
        None => 0,
    };
    let moved: i128 = from + delta as i128;
    let to: i128 = if moved < 0 {
        0
    } else {
        moved
    };
    let last: usize = if len == 0 {
        0
    } else {
        len - 1
    };
    if to < last as i128 {
        to as usize
    } else {
        last
    }
}

fn remove_order(orders: &mut Vec<Order>, id: &str)
    ensures
        final(orders)@ == orders_but(old(orders)@, id@),
{
    let ghost all = orders@;
    let ghost pred = |o: Order| o.id@ != id@;
    let ghost mut pos: int = 0;
    let mut i: usize = 0;
    proof {
        assert(all.take(0) =~= Seq::<Order>::empty());
        assert(orders@ =~= all.take(0).filter(pred) + all.skip(0));
    }
    while i < orders.len()
        invariant
            0 <= pos <= all.len(),
            pred == (|o: Order| o.id@ != id@),
            i == all.take(pos).filter(pred).len(),
            orders@ == all.take(pos).filter(pred) + all.skip(pos),
        decreases orders@.len() - i,
    {
        let ghost cur = orders@;
        proof {
            assert(cur.len() == i + all.len() - pos);
            assert(cur[i as int] == all.skip(pos)[0]);
            assert(all.take(pos + 1).drop_last() =~= all.take(pos));
            assert(all.take(pos + 1).last() == all[pos]);
            reveal(Seq::filter);
        }
        if str_eq(orders[i].id.as_str(), id) {
            orders.remove(i);
            proof {
                assert(orders@ =~= all.take(pos + 1).filter(pred) + all.skip(pos + 1));
            }
        } else {
            proof {
                assert(cur =~= all.take(pos + 1).filter(pred) + all.skip(pos + 1));
            }
            i += 1;
        }
        proof {
            pos = pos + 1;
        }
    }
    proof {
        assert(orders@.len() == i + all.len() - pos);
        assert(all.take(pos) =~= all);
        assert(orders@ =~= all.filter(pred));
    }
}

/// The state of the whole application, and the channel on which actions are
/// handed on.
pub struct Store {
    pub app: AppState,
    pub markets: MarketState,
    pub orders: OrderState,
    pub portfolio: PortfolioState,
    /// The channel on which actions are handed on.
    pub action_tx: ActionSender,
}

impl Store {
    /// A store in its first state.
    pub fn new(action_tx: ActionSender) -> (r: Self)
        ensures
            r.action_tx == action_tx,
            r.app.current_view == Screen::Markets,
            r.app.input_mode == InputMode::Normal,
            r.app.mode == AppMode::Browse,
            r.app.input_buffer@.len() == 0,
            r.markets.markets@.len() == 0,
            r.orders.orders@.len() == 0,
            r.portfolio.positions@.len() == 0,
            r.portfolio.balances@.len() == 0,
    {
        Store {
            app: AppState::new(),
            markets: MarketState::default(),
            orders: OrderState::default(),
            portfolio: PortfolioState::default(),
            action_tx,
        }
    }

    /// Hands `action` to the channel. Where the channel does not take it,
    /// that is a channel error: see [`delivery`]. Whether it takes it is for
    /// the receiving side to decide.
    pub fn dispatch(&self, action: Action) -> (r: Result<()>)
        ensures
            r matches Err(e) ==> e is Channel,
    {
        delivery(send_action(&self.action_tx, action))
    }

    /// Applies `action` at the instant that the machine's clock gives:
    /// what [`Store::reduce_at`] does for that instant.
    pub fn reduce(&mut self, action: Action)
        ensures
            final(self).action_tx == old(self).action_tx,
            final(self).app == app_after(old(self).app, action),
            final(self).portfolio == portfolio_after(
                old(self).portfolio,
                action,
                old(self).app.current_view,
            ),
            exists|now: Timestamp|
                final(self).markets == #[trigger] markets_after(
                    old(self).markets,
                    action,
                    old(self).app.current_view,
                    now,
                ) && orders_follow(
                    old(self).orders,
                    final(self).orders,
                    action,
                    old(self).app.current_view,
                    now,
                ),
    {
        let now = crate::clock::now();
        self.reduce_at(action, now);
        proof {
            assert(self.markets == markets_after(
                old(self).markets,
                action,
                old(self).app.current_view,
                now,
            ));
        }
    }

    /// Applies `action` at `now`: the one place where the state changes.
    pub fn reduce_at(&mut self, action: Action, now: Timestamp)
        ensures
            final(self).action_tx == old(self).action_tx,
            final(self).app == app_after(old(self).app, action),
            final(self).markets == markets_after(
                old(self).markets,
                action,
                old(self).app.current_view,
                now,
            ),
            orders_follow(old(self).orders, final(self).orders, action, old(self).app.current_view, now),
            final(self).portfolio == portfolio_after(
                old(self).portfolio,
                action,
                old(self).app.current_view,
            ),
    {
        if action.is_about_app() {
            self.reduce_app(action, now);
        } else if action.is_about_markets() {
            self.reduce_markets(action, now);
        } else if action.is_about_orders() {
            self.reduce_orders(action, now);
        } else if action.is_about_portfolio() {
            self.reduce_portfolio(action, now);
        } else {
            self.reduce_selection(action, now);
        }
    }

    fn reduce_app(&mut self, action: Action, now: Timestamp)
        requires
            action.is_about_app(),
        ensures
            final(self).action_tx == old(self).action_tx,
            final(self).app == app_after(old(self).app, action),
            final(self).markets == markets_after(
                old(self).markets,
                action,
                old(self).app.current_view,
                now,
            ),
            orders_follow(old(self).orders, final(self).orders, action, old(self).app.current_view, now),
            final(self).portfolio == portfolio_after(
                old(self).portfolio,
                action,
                old(self).app.current_view,
            ),
    {
        match action {
            Action::SetView(view) => {
                self.app.current_view = view;
            },
            Action::SetInputMode(mode) => {
                self.app.input_mode = mode;
            },
            Action::SetAppMode(mode) => {
                self.app.mode = mode;
            },
            Action::ToggleHelp => {
                self.app.show_help = !self.app.show_help;
            },
            Action::ShowNotification(notification) => {
                self.app.notification = Some(notification);
            },
            Action::DismissNotification => {
                self.app.notification = None;
            },
            Action::RefreshAll | Action::RefreshMarkets => {
                self.app.loading = true;
            },
            Action::RefreshOrders | Action::RefreshPortfolio => {
                self.app.loading = true;
            },
            Action::SetError(error) => {
                self.app.error = Some(error);
                self.app.loading = false;
            },
            Action::ClearError => {
                self.app.error = None;
            },
            Action::SetConnected(connected) => {
                self.app.connected = connected;
            },
            Action::SetLoading(loading) => {
                self.app.loading = loading;
            },
            Action::Quit => {
                self.app.should_quit = true;
            },
            _ => {},
        }
    }

    fn reduce_markets(&mut self, action: Action, now: Timestamp)
        requires
            action.is_about_markets(),
        ensures
            final(self).action_tx == old(self).action_tx,
            final(self).app == app_after(old(self).app, action),
            final(self).markets == markets_after(
                old(self).markets,
                action,
                old(self).app.current_view,
                now,
            ),
            orders_follow(old(self).orders, final(self).orders, action, old(self).app.current_view, now),
            final(self).portfolio == portfolio_after(
                old(self).portfolio,
                action,
                old(self).app.current_view,
            ),
    {
        match action {
            Action::LoadMarkets => {
                self.markets.loading = true;
            },
            Action::MarketsLoaded(markets) => {
                self.markets.markets = markets;
                self.markets.loading = false;
                self.markets.last_updated = Some(now);
            },
            Action::SelectMarket(index) => {
                if index < self.markets.markets.len() {
                    self.markets.selected_index = Some(index);
                }
            },
            Action::SearchMarkets(query) => {
                self.markets.search_query = Some(query);
            },
            Action::FilterMarkets(status) => {
                self.markets.status_filter = Some(status);
            },
            Action::ClearMarketFilter => {
                self.markets.search_query = None;
                self.markets.status_filter = None;
            },
            _ => {},
        }
    }

    fn reduce_orders(&mut self, action: Action, now: Timestamp)
        requires
            action.is_about_orders(),
        ensures
            final(self).action_tx == old(self).action_tx,
            final(self).app == app_after(old(self).app, action),
            final(self).markets == markets_after(
                old(self).markets,
                action,
                old(self).app.current_view,
                now,
            ),
            orders_follow(old(self).orders, final(self).orders, action, old(self).app.current_view, now),
            final(self).portfolio == portfolio_after(
                old(self).portfolio,
                action,
                old(self).app.current_view,
            ),
    {
        match action {
            Action::LoadOrders => {
                self.orders.loading = true;
            },
            Action::OrdersLoaded(orders) => {
                self.orders.orders = orders;
                self.orders.loading = false;
                self.orders.last_updated = Some(now);
            },
            Action::SelectOrder(index) => {
                if index < self.orders.orders.len() {
                    self.orders.selected_index = Some(index);
                }
            },
            Action::PlaceOrder(_) => {
                self.orders.loading = true;
            },
            Action::CancelOrder(_) => {
                self.orders.loading = true;
            },
            Action::OrderPlaced(order) => {
                self.orders.orders.push(order);
                self.orders.loading = false;
            },
            Action::OrderCancelled(id) => {
                remove_order(&mut self.orders.orders, id.as_str());
                self.orders.loading = false;
            },
            _ => {},
        }
    }

    fn reduce_portfolio(&mut self, action: Action, now: Timestamp)
        requires
            action.is_about_portfolio(),
        ensures
            final(self).action_tx == old(self).action_tx,
            final(self).app == app_after(old(self).app, action),
            final(self).markets == markets_after(
                old(self).markets,
                action,
                old(self).app.current_view,
                now,
            ),
            orders_follow(old(self).orders, final(self).orders, action, old(self).app.current_view, now),
            final(self).portfolio == portfolio_after(
                old(self).portfolio,
                action,
                old(self).app.current_view,
            ),
    {
        match action {
            Action::LoadPortfolio => {
                self.portfolio.loading = true;
            },
            Action::PortfolioLoaded(portfolio) => {
                self.portfolio = portfolio;
                self.portfolio.loading = false;
            },
            Action::LoadPositions => {
                self.portfolio.loading = true;
            },
            Action::PositionsLoaded(positions) => {
                self.portfolio.positions = positions;
                self.portfolio.loading = false;
            },
            _ => {},
        }
    }

    fn reduce_selection(&mut self, action: Action, now: Timestamp)
        requires
            !action.is_about_app(),
            !action.is_about_markets(),
            !action.is_about_orders(),
            !action.is_about_portfolio(),
        ensures
            final(self).action_tx == old(self).action_tx,
            final(self).app == app_after(old(self).app, action),
            final(self).markets == markets_after(
                old(self).markets,
                action,
                old(self).app.current_view,
                now,
            ),
            orders_follow(old(self).orders, final(self).orders, action, old(self).app.current_view, now),
            final(self).portfolio == portfolio_after(
                old(self).portfolio,
                action,
                old(self).app.current_view,
            ),
    {
        match action {
            Action::ScrollUp => {
                self.scroll(-1);
            },
            Action::ScrollDown => {
                self.scroll(1);
            },
            Action::PageUp => {
                self.scroll(-10);
            },
            Action::PageDown => {
                self.scroll(10);
            },
            Action::GoToTop => {
                self.go_to_top();
            },
            Action::GoToBottom => {
                self.go_to_bottom();
            },
            _ => {},
        }
    }

    /// The store with the given selections and otherwise as it is.
    pub open spec fn selecting(
        &self,
        other: &Store,
        market: Option<usize>,
        order: Option<usize>,
        position: Option<usize>,
    ) -> bool {
        &&& other.action_tx == self.action_tx
        &&& other.app == self.app
        &&& other.markets == (MarketState { selected_index: market, ..self.markets })
        &&& other.orders == (OrderState { selected_index: order, ..self.orders })
        &&& other.portfolio == (PortfolioState { selected_position: position, ..self.portfolio })
    }

    fn scroll(&mut self, delta: i32)
        ensures
            old(self).selecting(
                final(self),
                if old(self).app.current_view == Screen::Markets {
                    Some(
                        scrolled(
                            old(self).markets.selected_index,
                            delta as int,
                            old(self).markets.shown().len(),
                        ),
                    )
                } else {
                    old(self).markets.selected_index
                },
                if old(self).app.current_view == Screen::Orders {
                    Some(
                        scrolled(
                            old(self).orders.selected_index,
                            delta as int,
                            old(self).orders.orders@.len(),
                        ),
                    )
                } else {
                    old(self).orders.selected_index
                },
                if old(self).app.current_view == Screen::Positions {
                    Some(
                        scrolled(
                            old(self).portfolio.selected_position,
                            delta as int,
                            old(self).portfolio.positions@.len(),
                        ),
                    )
                } else {
                    old(self).portfolio.selected_position
                },
            ),
    {
        match self.app.current_view {
            Screen::Markets => {
                let len = self.markets.filtered_count();
                self.markets.selected_index = Some(scroll_to(self.markets.selected_index, delta, len));
            },
            Screen::Orders => {
                let len = self.orders.orders.len();
                self.orders.selected_index = Some(scroll_to(self.orders.selected_index, delta, len));
            },
            Screen::Positions => {
                let len = self.portfolio.positions.len();
                self.portfolio.selected_position = Some(
                    scroll_to(self.portfolio.selected_position, delta, len),
                );
            },
            _ => {},
        }
    }

    fn go_to_top(&mut self)
        ensures
            old(self).selecting(
                final(self),
                if old(self).app.current_view == Screen::Markets {
                    Some(0usize)
                } else {
                    old(self).markets.selected_index
                },
                if old(self).app.current_view == Screen::Orders {
                    Some(0usize)
                } else {
                    old(self).orders.selected_index
                },
                if old(self).app.current_view == Screen::Positions {
                    Some(0usize)
                } else {
                    old(self).portfolio.selected_position
                },
            ),
    {
        match self.app.current_view {
            Screen::Markets => {
                self.markets.selected_index = Some(0);
            },
            Screen::Orders => {
                self.orders.selected_index = Some(0);
            },
            Screen::Positions => {
                self.portfolio.selected_position = Some(0);
            },
            _ => {},
        }
    }

    fn go_to_bottom(&mut self)
        ensures
            old(self).selecting(
                final(self),
                if old(self).app.current_view == Screen::Markets {
                    selection_after(None, Action::GoToBottom, old(self).markets.shown().len())
                } else {
                    old(self).markets.selected_index
                },
                if old(self).app.current_view == Screen::Orders {
                    selection_after(None, Action::GoToBottom, old(self).orders.orders@.len())
                } else {
                    old(self).orders.selected_index
                },
                if old(self).app.current_view == Screen::Positions {
                    selection_after(None, Action::GoToBottom, old(self).portfolio.positions@.len())
                } else {
                    old(self).portfolio.selected_position
                },
            ),
    {
        match self.app.current_view {
            Screen::Markets => {
                let len = self.markets.filtered_count();
                self.markets.selected_index = Some(if len == 0 { 0 } else { len - 1 });
            },
            Screen::Orders => {
                let len = self.orders.orders.len();
                self.orders.selected_index = Some(if len == 0 { 0 } else { len - 1 });
            },
            Screen::Positions => {
                let len = self.portfolio.positions.len();
                self.portfolio.selected_position = Some(if len == 0 { 0 } else { len - 1 });
            },
            _ => {},
        }
    }
}

} // verus!
