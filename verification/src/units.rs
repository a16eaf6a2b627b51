//! Points in time and spans of time, both counted in whole microseconds.
pub mod duration;
pub mod order;
pub mod timestamp;

pub use duration::Duration;
pub use timestamp::Timestamp;
