//! Print-style performance probes: attach a timer to a stretch of code, mark
//! checkpoints while it runs, and close it, writing human-readable elapsed
//! times to the diagnostic stream.
//!
//! The timer offers two ways to measure: `split` always reports the time
//! since the timer started, while `lap` reports the time since the previous
//! lap (or since the start for the first one). `end` reports the total time
//! together with the origin tag given at construction and consumes the timer,
//! so nothing can be measured after it has been closed.

pub mod digits;
pub mod elapsed;
pub mod laws;
pub mod lines;
pub mod timer;

pub use crate::elapsed::Elapsed;
pub use crate::timer::Perf;
