//! A minimal elapsed-time measurement library.
//!
//! A [`Timer`] records one start instant and elapsed-time samples ("laps")
//! measured from that start; [`duration_to_human_string`] renders a span of
//! time compactly in the coarsest unit from nanoseconds up to minutes.

pub mod human;
pub mod time;
pub mod timer;

pub use human::duration_to_human_string;
pub use time::Duration;
pub use time::Instant;
pub use timer::Timer;
pub use timer::TimerError;
