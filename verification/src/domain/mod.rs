//! The report: the statistics it is made from and the rules of its layout.

pub mod calendar;
pub mod content_manager;
pub mod entity;
pub mod progress_bar;

pub use content_manager::ContentManager;
