//! The settings and their defaults.

use vstd::prelude::*;

verus! {

/// How the exchange is reached.
#[derive(Debug, Clone)]
pub struct ApiConfig {
    pub base_url: String,
    pub ws_url: String,
    pub timeout_secs: u64,
    pub max_retries: u32,
    /// Requests per second.
    pub rate_limit: u32,
    /// Where the credentials are kept.
    pub credentials_path: Option<String>,
}

impl ApiConfig {
    /// Whether these are the settings that come without a file.
    pub open spec fn is_default(&self) -> bool {
        &&& self.base_url@ == "https://clob.polymarket.com"@
        &&& self.ws_url@ == "wss://ws-subscriptions-clob.polymarket.com/ws"@
        &&& self.timeout_secs == 30
        &&& self.max_retries == 3
        &&& self.rate_limit == 10
        &&& self.credentials_path is None
    }
}

impl Default for ApiConfig {
    fn default() -> (r: Self)
        ensures
            r.is_default(),
    {
        ApiConfig {
            base_url: "https://clob.polymarket.com".to_owned(),
            ws_url: "wss://ws-subscriptions-clob.polymarket.com/ws".to_owned(),
            timeout_secs: 30,
            max_retries: 3,
            rate_limit: 10,
            credentials_path: None,
        }
    }
}

/// How the interface behaves.
#[derive(Debug, Clone)]
pub struct UiConfig {
    pub tick_rate_ms: u64,
    pub mouse_support: bool,
    pub unicode_symbols: bool,
    pub markets_per_page: usize,
    pub orders_per_page: usize,
    pub show_status_bar: bool,
    pub show_help_bar: bool,
    /// Seconds between refreshes; zero for none.
    pub auto_refresh_secs: u64,
}

impl UiConfig {
    /// Whether these are the settings that come without a file.
    pub open spec fn is_default(&self) -> bool {
        &&& self.tick_rate_ms == 250
        &&& self.mouse_support
        &&& self.unicode_symbols
        &&& self.markets_per_page == 20
        &&& self.orders_per_page == 15
        &&& self.show_status_bar
        &&& self.show_help_bar
        &&& self.auto_refresh_secs == 30
    }
}

impl Default for UiConfig {
    fn default() -> (r: Self)
        ensures
            r.is_default(),
    {
        UiConfig {
            tick_rate_ms: 250,
            mouse_support: true,
            unicode_symbols: true,
            markets_per_page: 20,
            orders_per_page: 15,
            show_status_bar: true,
            show_help_bar: true,
            auto_refresh_secs: 30,
        }
    }
}

/// The key for each command.
#[derive(Debug, Clone)]
pub struct KeyBindings {
    pub quit: String,
    pub help: String,
    pub up: String,
    pub down: String,
    pub left: String,
    pub right: String,
    pub select: String,
    pub back: String,
    pub refresh: String,
    pub markets: String,
    pub orderbook: String,
    pub orders: String,
    pub positions: String,
    pub portfolio: String,
    pub search: String,
    pub place_order: String,
    pub cancel_order: String,
}

impl KeyBindings {
    /// Whether these are the settings that come without a file.
    pub open spec fn is_default(&self) -> bool {
        &&& self.quit@ == "q"@
        &&& self.help@ == "?"@
        &&& self.up@ == "k"@
        &&& self.down@ == "j"@
        &&& self.left@ == "h"@
        &&& self.right@ == "l"@
        &&& self.select@ == "Enter"@
        &&& self.back@ == "Esc"@
        &&& self.refresh@ == "r"@
        &&& self.markets@ == "1"@
        &&& self.orderbook@ == "2"@
        &&& self.orders@ == "3"@
        &&& self.positions@ == "4"@
        &&& self.portfolio@ == "5"@
        &&& self.search@ == "/"@
        &&& self.place_order@ == "p"@
        &&& self.cancel_order@ == "x"@
    }
}

impl Default for KeyBindings {
    fn default() -> (r: Self)
        ensures
            r.is_default(),
    {
        KeyBindings {
            quit: "q".to_owned(),
            help: "?".to_owned(),
            up: "k".to_owned(),
            down: "j".to_owned(),
            left: "h".to_owned(),
            right: "l".to_owned(),
            select: "Enter".to_owned(),
            back: "Esc".to_owned(),
            refresh: "r".to_owned(),
            markets: "1".to_owned(),
            orderbook: "2".to_owned(),
            orders: "3".to_owned(),
            positions: "4".to_owned(),
            portfolio: "5".to_owned(),
            search: "/".to_owned(),
            place_order: "p".to_owned(),
            cancel_order: "x".to_owned(),
        }
    }
}

/// The colours, as hex codes.
#[derive(Debug, Clone)]
pub struct ThemeConfig {
    pub primary: String,
    pub secondary: String,
    pub accent: String,
    pub success: String,
    pub warning: String,
    pub error: String,
    pub background: String,
    pub foreground: String,
    pub border: String,
    pub selection: String,
}

impl ThemeConfig {
    /// Whether these are the settings that come without a file.
    pub open spec fn is_default(&self) -> bool {
        &&& self.primary@ == "#5c6bc0"@
        &&& self.secondary@ == "#7986cb"@
        &&& self.accent@ == "#ff7043"@
        &&& self.success@ == "#66bb6a"@
        &&& self.warning@ == "#ffa726"@
        &&& self.error@ == "#ef5350"@
        &&& self.background@ == "#1e1e2e"@
        &&& self.foreground@ == "#cdd6f4"@
        &&& self.border@ == "#45475a"@
        &&& self.selection@ == "#585b70"@
    }
}

impl Default for ThemeConfig {
    fn default() -> (r: Self)
        ensures
            r.is_default(),
    {
        ThemeConfig {
            primary: "#5c6bc0".to_owned(),
            secondary: "#7986cb".to_owned(),
            accent: "#ff7043".to_owned(),
            success: "#66bb6a".to_owned(),
            warning: "#ffa726".to_owned(),
            error: "#ef5350".to_owned(),
            background: "#1e1e2e".to_owned(),
            foreground: "#cdd6f4".to_owned(),
            border: "#45475a".to_owned(),
            selection: "#585b70".to_owned(),
        }
    }
}

/// All settings.
#[derive(Debug, Clone)]
pub struct Config {
    pub api: ApiConfig,
    pub ui: UiConfig,
    pub keybindings: KeyBindings,
    pub theme: ThemeConfig,
}

impl Config {
    /// Whether these are the settings that come without a file.
    pub open spec fn is_default(&self) -> bool {
        &&& self.api.is_default()
        &&& self.ui.is_default()
        &&& self.keybindings.is_default()
        &&& self.theme.is_default()
    }
}

impl Default for Config {
    fn default() -> (r: Self)
        ensures
            r.is_default(),
    {
        Config {
            api: ApiConfig::default(),
            ui: UiConfig::default(),
            keybindings: KeyBindings::default(),
            theme: ThemeConfig::default(),
        }
    }
}

} // verus!
