//! What a run is configured with.

pub mod config;
