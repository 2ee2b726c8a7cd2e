//! A retry decision engine for a single resilient HTTP GET.
//!
//! The crate decides; it performs no I/O. A caller makes each GET and each
//! pause itself and reports back what happened: the engine classifies the
//! reply, counts the attempts, consults an exponential backoff schedule that
//! is bounded by an elapsed-time budget, and says what to do next.

pub mod engine;
pub mod error;
pub mod fetcher;
pub mod schedule;
pub mod status;
pub mod text;

pub use engine::{Phase, RetryEngine, Step};
pub use error::MyError;
pub use fetcher::{Cause, FetchOutcome, Reply};
