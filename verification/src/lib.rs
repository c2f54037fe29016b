//! Renders coding-activity statistics as a text report and prepares its
//! publication into a delimited region of a file in a Git repository.
//!
//! The crate holds the rules of the job: how the configuration is resolved,
//! how a report is laid out, where it goes inside the target file, which
//! request fetches the statistics, and in which order the publishing steps
//! follow one another. Every function carries a contract that is proved from
//! its body; the few calls into other crates stand behind small items whose
//! contracts are stated, not proved.

pub mod adapter;
pub mod application;
pub mod domain;
pub mod error;
pub mod infrastructure;
pub mod text;
