//! Retrying a fallible operation with exponential backoff.
//!
//! The library holds the decisions of a retry loop: how long to wait before
//! each retry, and when to stop. The caller performs the attempts and the
//! waits, and hands each outcome to a [`Retrier`], which says what to do next.
pub mod backoff;
pub mod laws;
pub mod retrier;

pub use backoff::{backoff_delay_secs, MAX_DELAY_SECS};
pub use retrier::{Retrier, Step};
