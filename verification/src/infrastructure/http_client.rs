//! The settings of the HTTP client.

use crate::application::config::HttpClientConfig;
use std::time::Duration;
use vstd::prelude::*;

verus! {

/// Holds the settings from which the HTTP client of a run is built.
pub struct HttpClientBuilder {
    cfg: HttpClientConfig,
}

impl HttpClientBuilder {
    /// The settings that the builder holds.
    pub closed spec fn config(&self) -> HttpClientConfig {
        self.cfg
    }

    /// Creates a builder with the settings `cfg`.
    pub fn new(cfg: HttpClientConfig) -> (builder: Self)
        ensures
            builder.config() == cfg,
    {
        Self { cfg }
    }

    /// How often a request that failed for a passing reason is tried again.
    pub fn max_retries(&self) -> (retries: u32)
        ensures
            retries == self.config().max_retries,
    {
        self.cfg.max_retries
    }

    /// How long a single request may take.
    pub fn timeout(&self) -> (timeout: Duration)
        ensures
            timeout == self.config().timeout,
    {
        self.cfg.timeout
    }
}

} // verus!
