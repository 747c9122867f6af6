//! Worker-side policy for processing jobs.

pub mod retry;

pub use retry::{RetryConfig, RetryPolicy};
