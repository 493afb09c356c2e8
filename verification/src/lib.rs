//! A verified core for a stream adapter that bounds the total lifetime of a
//! lazy, cooperatively polled sequence by a wall-clock deadline.
//!
//! The adapter's decisions — when to start the timer, how a timer firing and
//! the inner stream's progress race within one poll, and when the stream
//! becomes terminal — are modelled and proved here as a state machine over
//! plain values. The asynchronous plumbing (pinning, wakers, the actual timer)
//! lives outside the verified core and merely reports what it observed.

pub mod laws;
pub mod machine;
pub mod span;

pub use machine::PollDirective;
pub use machine::PollObservation;
pub use machine::PollOutcome;
pub use machine::StreamTimeoutError;
pub use machine::TimeoutState;
pub use span::TimeSpan;
