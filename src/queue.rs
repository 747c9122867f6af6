//! The job model shared by every queue backend, and the backends' verified parts.

pub mod inmemory_queue;
pub mod keyed;
pub mod redis_dedupe;
pub mod stream;
pub mod types;
pub mod upstash_queue;

use vstd::prelude::*;
use crate::clock::Timestamp;
pub use types::{JobMetadata, JobPayload, JobType};

verus! {

/// Lifecycle states of a job.
#[derive(Debug, Clone, Copy, PartialEq, Eq, Structural)]
pub enum JobStatus {
    /// Waiting to be processed
    Queued,
    /// Claimed by a worker
    Processing,
    /// Completed
    Succeeded,
    /// Failed during processing
    Failed,
    /// Moved to the dead-letter queue
    DLQ,
}

/// A job handed to a consumer: the payload, the number of deliveries so far and
/// when the current consumer claimed it.
#[derive(Debug)]
pub struct QueuedJob {
    pub job_id: String,
    pub payload: JobPayload,
    pub attempts: u32,
    pub claimed_at: Timestamp,
}

impl Clone for QueuedJob {
    fn clone(&self) -> (r: Self)
        ensures
            r == *self,
    {
        QueuedJob {
            job_id: self.job_id.clone(),
            payload: self.payload.clone(),
            attempts: self.attempts,
            claimed_at: self.claimed_at,
        }
    }
}

} // verus!
