//! How a client of the exchange is put together.

use vstd::prelude::*;
use crate::config::ApiConfig;

verus! {

/// Collects what a client of the exchange is built from.
#[derive(Debug)]
pub struct ApiClientBuilder {
    config: ApiConfig,
    private_key: Option<String>,
}

impl ApiClientBuilder {
    /// The configuration collected so far.
    pub closed spec fn settings(&self) -> ApiConfig {
        self.config
    }

    /// The private key collected so far.
    pub closed spec fn key(&self) -> Option<String> {
        self.private_key
    }

    /// A builder with the default configuration and no key.
    pub fn new() -> (r: Self)
        ensures
            r.key() is None,
            r.settings().is_default(),
    {
        ApiClientBuilder { config: ApiConfig::default(), private_key: None }
    }

    /// The builder with `config` in the place of its configuration.
    pub fn config(self, config: ApiConfig) -> (r: Self)
        ensures
            r.settings() == config,
            r.key() == self.key(),
    {
        let mut b = self;
        b.config = config;
        b
    }

    /// The builder with `key` as the private key.
    pub fn private_key(self, key: &str) -> (r: Self)
        ensures
            r.settings() == self.settings(),
            r.key() matches Some(k) && k@ == key@,
    {
        let mut b = self;
        b.private_key = Some(key.to_owned());
        b
    }

    /// What was collected: the configuration and the key.
    pub fn into_parts(self) -> (r: (ApiConfig, Option<String>))
        ensures
            r.0 == self.settings(),
            r.1 == self.key(),
    {
        (self.config, self.private_key)
    }
}

impl Default for ApiClientBuilder {
    fn default() -> (r: Self)
        ensures
            r.key() is None,
            r.settings().is_default(),
    {
        Self::new()
    }
}

} // verus!
