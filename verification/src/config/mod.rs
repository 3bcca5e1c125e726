//! The configuration of the application.

pub mod settings;

pub use settings::{ApiConfig, Config, KeyBindings, ThemeConfig, UiConfig};
