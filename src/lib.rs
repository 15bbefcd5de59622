//! Decides whether a hosted source repository is still actively maintained.
//!
//! The library holds the logic: reading pagination relation headers into
//! collection counts, scoring liveness from normalized signals, and diffing a
//! stored report against the current one field by field.

pub mod text;
pub mod time;
pub mod types;
pub mod pagination;
pub mod output;
pub mod config;
pub mod scoring;
pub mod history;
