//! Wall-clock instrumentation for asynchronous computations.
//!
//! The core is a timed-future model: a two-state timer that is set on the
//! first resumption attempt of a wrapped computation and never touched again,
//! and a resumption step that passes the inner computation's outcome through
//! unchanged while measuring the elapsed wall-clock time in nanoseconds.
//! On top of it sit the two instrumentation entry points: an unconditional
//! one that reports the elapsed time to a debug-level log sink on completion,
//! and a build-configuration-gated one that is a plain pass-through when the
//! debug flag is off.

pub mod entry;
pub mod message;
pub mod timed;

pub use timed::InstrumentFuture;
pub use timed::InstrumentFutureResult;
pub use timed::PollOutcome;
pub use timed::PollStep;
pub use timed::TimerState;
