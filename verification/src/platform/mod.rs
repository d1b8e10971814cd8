//! What a platform without a clock of its own has of time.

pub mod time;

pub use time::{to_local, Instant};
