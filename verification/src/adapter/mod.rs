//! The two ends of a run: where the statistics come from and where the
//! report goes.

pub mod address;
pub mod git_adapter;
pub mod wakatime_adapter;

pub use git_adapter::GitAdapter;
pub use wakatime_adapter::WakaTimeAdapter;
