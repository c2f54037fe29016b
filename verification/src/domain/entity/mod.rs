//! The values that the statistics service reports.

pub mod waka_time_metrics_entity;

pub use waka_time_metrics_entity::{Data, Language, Metrics};
