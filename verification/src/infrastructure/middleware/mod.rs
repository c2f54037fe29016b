//! What is noted of each request.

pub mod logging_middleware;

pub use logging_middleware::LoggingMiddleware;
