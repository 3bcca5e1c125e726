//! From keys to actions.

use vstd::prelude::*;
use crate::channel::ActionSender;
use crate::config::KeyBindings;
use crate::events::input::{InputEvent, Key, binding_matches};
use crate::state::{Action, InputMode, Screen, Store};

verus! {

/// What the handler needs to know of the store.
#[derive(Debug, Clone)]
pub struct StoreSnapshot {
    pub input_mode: InputMode,
    pub current_view: Screen,
    pub selected_order_id: Option<String>,
    pub selected_order_can_cancel: bool,
}

/// What the mouse did.
#[derive(Debug, Clone, Copy, PartialEq, Eq, Structural)]
pub enum MouseKind {
    ScrollUp,
    ScrollDown,
    Other,
}

/// Turns keys into actions, by the key bindings and the state of the store.
pub struct EventHandler {
    /// The channel of actions.
    pub action_tx: ActionSender,
    pub keybindings: KeyBindings,
    /// The store as it was last shown to the handler.
    pub store_snapshot: Option<StoreSnapshot>,
}

/// The action of a key in the markets view.
pub open spec fn markets_view_action(bindings: KeyBindings, input: InputEvent) -> Option<Action> {
    if binding_matches(input, bindings.select@) {
        Some(Action::SetView(Screen::MarketDetail))
    } else if binding_matches(input, bindings.place_order@) {
        Some(Action::SetView(Screen::OrderEntry))
    } else if input.key == Key::Char('b') {
        Some(Action::SetView(Screen::OrderBook))
    } else {
        None
    }
}

/// The action of a key in the order book view: back to the markets.
pub open spec fn orderbook_view_action(input: InputEvent) -> Option<Action> {
    if input.key == Key::Backspace || input.key == Key::Escape {
        Some(Action::SetView(Screen::Markets))
    } else {
        None
    }
}

/// The action of a key in the orders view: the selected order is cancelled
/// where it can be.
pub open spec fn orders_view_action(
    bindings: KeyBindings,
    input: InputEvent,
    snapshot: StoreSnapshot,
) -> Option<Action> {
    if binding_matches(input, bindings.cancel_order@) && snapshot.selected_order_can_cancel {
        match snapshot.selected_order_id {
            Some(id) => Some(Action::CancelOrder(id)),
            None => None,
        }
    } else {
        None
    }
}

/// The action of a key in the positions view.
pub open spec fn positions_view_action(bindings: KeyBindings, input: InputEvent) -> Option<Action> {
    if binding_matches(input, bindings.select@) {
        Some(Action::SetView(Screen::MarketDetail))
    } else {
        None
    }
}

/// The action of a key that is the same in every view, if there is one.
pub open spec fn global_action(bindings: KeyBindings, input: InputEvent) -> Option<Action> {
    if binding_matches(input, bindings.quit@) {
        Some(Action::Quit)
    } else if binding_matches(input, bindings.help@) {
        Some(Action::ToggleHelp)
    } else if binding_matches(input, bindings.refresh@) {
        Some(Action::RefreshAll)
    } else if binding_matches(input, bindings.markets@) {
        Some(Action::SetView(Screen::Markets))
    } else if binding_matches(input, bindings.orderbook@) {
        Some(Action::SetView(Screen::OrderBook))
    } else if binding_matches(input, bindings.orders@) {
        Some(Action::SetView(Screen::Orders))
    } else if binding_matches(input, bindings.positions@) {
        Some(Action::SetView(Screen::Positions))
    } else if binding_matches(input, bindings.portfolio@) {
        Some(Action::SetView(Screen::Portfolio))
    } else if binding_matches(input, bindings.up@) || input.key == Key::Up {
        Some(Action::ScrollUp)
    } else if binding_matches(input, bindings.down@) || input.key == Key::Down {
        Some(Action::ScrollDown)
    } else if input.key == Key::PageUp {
        Some(Action::PageUp)
    } else if input.key == Key::PageDown {
        Some(Action::PageDown)
    } else if input.key == Key::Home {
        Some(Action::GoToTop)
    } else if input.key == Key::End {
        Some(Action::GoToBottom)
    } else if binding_matches(input, bindings.search@) {
        Some(Action::SetInputMode(InputMode::Search))
    } else {
        None
    }
}

/// The action of a key in normal mode: the action that is the same in
/// every view where there is one, else the action of the view.
pub open spec fn normal_action(
    bindings: KeyBindings,
    input: InputEvent,
    snapshot: StoreSnapshot,
) -> Option<Action> {
    if global_action(bindings, input) is Some {
        global_action(bindings, input)
    } else {
        match snapshot.current_view {
            Screen::Markets | Screen::MarketDetail => markets_view_action(bindings, input),
            Screen::OrderBook => orderbook_view_action(input),
            Screen::Orders | Screen::OrderEntry => orders_view_action(bindings, input, snapshot),
            Screen::Positions | Screen::Portfolio => positions_view_action(bindings, input),
            Screen::Settings => None,
        }
    }
}

/// The action of a key while a line is typed: escape and enter lead back to
/// normal mode.
pub open spec fn editing_action(input: InputEvent) -> Option<Action> {
    if input.key == Key::Escape || input.key == Key::Enter {
        Some(Action::SetInputMode(InputMode::Normal))
    } else {
        None
    }
}

/// The action of a key: none for a key that is not pressed or while the
/// store is not known.
pub open spec fn key_action(
    bindings: KeyBindings,
    snapshot: Option<StoreSnapshot>,
    input: InputEvent,
    pressed: bool,
) -> Option<Action> {
    if !pressed {
        None
    } else {
        match snapshot {
            Some(s) => if s.input_mode == InputMode::Normal {
                normal_action(bindings, input, s)
            } else {
                editing_action(input)
            },
            None => None,
        }
    }
}

impl EventHandler {
    /// A handler with the default key bindings that does not know the store
    /// yet.
    pub fn new(action_tx: ActionSender) -> (r: Self)
        ensures
            r.action_tx == action_tx,
            r.store_snapshot is None,
            r.keybindings.is_default(),
    {
        EventHandler { action_tx, keybindings: KeyBindings::default(), store_snapshot: None }
    }

    /// Shows the store to the handler.
    pub fn update_store_snapshot(&mut self, store: &Store)
        ensures
            final(self).action_tx == old(self).action_tx,
            final(self).keybindings == old(self).keybindings,
            final(self).store_snapshot matches Some(s) && s.input_mode == store.app.input_mode
                && s.current_view == store.app.current_view && match store.orders.selected_index {
                Some(i) => if i < store.orders.orders@.len() {
                    s.selected_order_id == Some(store.orders.orders@[i as int].id)
                        && s.selected_order_can_cancel
                        == store.orders.orders@[i as int].status.is_active()
                } else {
                    s.selected_order_id is None && !s.selected_order_can_cancel
                },
                None => s.selected_order_id is None && !s.selected_order_can_cancel,
            },
    {
        let selected = store.orders.selected_order();
        let (id, can_cancel) = match selected {
            Some(o) => (Some(o.id.clone()), o.can_cancel()),
            None => (None, false),
        };
        self.store_snapshot = Some(
            StoreSnapshot {
                input_mode: store.app.input_mode,
                current_view: store.app.current_view,
                selected_order_id: id,
                selected_order_can_cancel: can_cancel,
            },
        );
    }

    /// The action of a key, if it has one.
    pub fn handle_key(&self, input: InputEvent, pressed: bool) -> (r: Option<Action>)
        ensures
            r == key_action(self.keybindings, self.store_snapshot, input, pressed),
    {
        if !pressed {
            return None;
        }
        match &self.store_snapshot {
            Some(snapshot) => match snapshot.input_mode {
                InputMode::Normal => self.handle_normal_mode(input, snapshot),
                InputMode::Insert => Self::handle_insert_mode(input),
                InputMode::Command => Self::handle_command_mode(input),
                InputMode::Search => Self::handle_search_mode(input),
            },
            None => None,
        }
    }

    /// The action of the mouse: scrolling scrolls.
    pub fn handle_mouse(&self, kind: MouseKind) -> (r: Option<Action>)
        ensures
            r == match kind {
                MouseKind::ScrollUp => Some(Action::ScrollUp),
                MouseKind::ScrollDown => Some(Action::ScrollDown),
                MouseKind::Other => None,
            },
    {
        match kind {
            MouseKind::ScrollUp => Some(Action::ScrollUp),
            MouseKind::ScrollDown => Some(Action::ScrollDown),
            MouseKind::Other => None,
        }
    }

    fn handle_global(&self, input: InputEvent) -> (r: Option<Action>)
        ensures
            r == global_action(self.keybindings, input),
    {
        if input.matches(self.keybindings.quit.as_str()) {
            return Some(Action::Quit);
        }
        if input.matches(self.keybindings.help.as_str()) {
            return Some(Action::ToggleHelp);
        }
        if input.matches(self.keybindings.refresh.as_str()) {
            return Some(Action::RefreshAll);
        }
        if input.matches(self.keybindings.markets.as_str()) {
            return Some(Action::SetView(Screen::Markets));
        }
        if input.matches(self.keybindings.orderbook.as_str()) {
            return Some(Action::SetView(Screen::OrderBook));
        }
        if input.matches(self.keybindings.orders.as_str()) {
            return Some(Action::SetView(Screen::Orders));
        }
        if input.matches(self.keybindings.positions.as_str()) {
            return Some(Action::SetView(Screen::Positions));
        }
        if input.matches(self.keybindings.portfolio.as_str()) {
            return Some(Action::SetView(Screen::Portfolio));
        }
        if input.matches(self.keybindings.up.as_str()) || input.key == Key::Up {
            return Some(Action::ScrollUp);
        }
        if input.matches(self.keybindings.down.as_str()) || input.key == Key::Down {
            return Some(Action::ScrollDown);
        }
        if input.key == Key::PageUp {
            return Some(Action::PageUp);
        }
        if input.key == Key::PageDown {
            return Some(Action::PageDown);
        }
        if input.key == Key::Home {
            return Some(Action::GoToTop);
        }
        if input.key == Key::End {
            return Some(Action::GoToBottom);
        }
        if input.matches(self.keybindings.search.as_str()) {
            return Some(Action::SetInputMode(InputMode::Search));
        }
        None
    }

    fn handle_normal_mode(&self, input: InputEvent, snapshot: &StoreSnapshot) -> (r: Option<Action>)
        ensures
            r == normal_action(self.keybindings, input, *snapshot),
    {
        if let Some(action) = self.handle_global(input) {
            return Some(action);
        }
        match snapshot.current_view {
            Screen::Markets | Screen::MarketDetail => self.handle_markets_view(input),
            Screen::OrderBook => Self::handle_orderbook_view(input),
            Screen::Orders | Screen::OrderEntry => self.handle_orders_view(input, snapshot),
            Screen::Positions | Screen::Portfolio => self.handle_positions_view(input),
            Screen::Settings => None,
        }
    }

    fn handle_markets_view(&self, input: InputEvent) -> (r: Option<Action>)
        ensures
            r == markets_view_action(self.keybindings, input),
    {
        if input.matches(self.keybindings.select.as_str()) {
            return Some(Action::SetView(Screen::MarketDetail));
        }
        if input.matches(self.keybindings.place_order.as_str()) {
            return Some(Action::SetView(Screen::OrderEntry));
        }
        if input.key == Key::Char('b') {
            return Some(Action::SetView(Screen::OrderBook));
        }
        None
    }

    fn handle_orderbook_view(input: InputEvent) -> (r: Option<Action>)
        ensures
            r == orderbook_view_action(input),
    {
        match input.key {
            Key::Backspace | Key::Escape => Some(Action::SetView(Screen::Markets)),
            _ => None,
        }
    }

    fn handle_orders_view(&self, input: InputEvent, snapshot: &StoreSnapshot) -> (r: Option<Action>)
        ensures
            r == orders_view_action(self.keybindings, input, *snapshot),
    {
        if input.matches(self.keybindings.cancel_order.as_str()) && snapshot.selected_order_can_cancel {
            if let Some(order_id) = &snapshot.selected_order_id {
                return Some(Action::CancelOrder(order_id.clone()));
            }
        }
        None
    }

    fn handle_positions_view(&self, input: InputEvent) -> (r: Option<Action>)
        ensures
            r == positions_view_action(self.keybindings, input),
    {
        if input.matches(self.keybindings.select.as_str()) {
            return Some(Action::SetView(Screen::MarketDetail));
        }
        None
    }

    fn handle_insert_mode(input: InputEvent) -> (r: Option<Action>)
        ensures
            r == editing_action(input),
    {
        match input.key {
            Key::Escape => Some(Action::SetInputMode(InputMode::Normal)),
            Key::Enter => Some(Action::SetInputMode(InputMode::Normal)),
            _ => None,
        }
    }

    fn handle_command_mode(input: InputEvent) -> (r: Option<Action>)
        ensures
            r == editing_action(input),
    {
        match input.key {
            Key::Escape => Some(Action::SetInputMode(InputMode::Normal)),
            Key::Enter => Some(Action::SetInputMode(InputMode::Normal)),
            _ => None,
        }
    }

    fn handle_search_mode(input: InputEvent) -> (r: Option<Action>)
        ensures
            r == editing_action(input),
    {
        match input.key {
            Key::Escape => Some(Action::SetInputMode(InputMode::Normal)),
            Key::Enter => Some(Action::SetInputMode(InputMode::Normal)),
            _ => None,
        }
    }
}

} // verus!
