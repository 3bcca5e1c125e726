//! What stands between the application and the exchange's client.

pub mod client;
pub mod converter;

pub use client::ApiClientBuilder;
pub use converter::DataConverter;
