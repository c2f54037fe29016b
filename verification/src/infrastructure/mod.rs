//! What the HTTP client of a run is built from.

pub mod http_client;
pub mod middleware;

pub use http_client::HttpClientBuilder;
