//! A high-resolution time source: nanoseconds and milliseconds elapsed since
//! a fixed reference instant, and an overflow-safe scaling helper for
//! converting tick counts between units.
pub mod clock;
pub mod scale;

pub use clock::{duration_since_epoch, precise_time_ms, precise_time_ns, Elapsed, MAX_MILLIS};
pub use scale::mul_div;
