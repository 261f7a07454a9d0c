//! A library for scheduling version-control commits with randomized
//! timestamps drawn from a configured daily time-of-day window.
//!
//! The core guarantee: a generated commit timestamp is never at or before
//! the timestamp of the most recent existing commit, while its time-of-day
//! component always falls inside the configured window.

pub mod generator;
pub mod time;
pub mod window;

pub use generator::generate;
pub use generator::plan_commit_time;
pub use time::LocalStamp;
pub use time::TimeOfDay;
pub use window::ConfigError;
pub use window::TimeWindow;
