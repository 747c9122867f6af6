//! Job payloads, their metadata and job kinds.

use vstd::prelude::*;
use crate::clock::Timestamp;

verus! {

/// The data of one job, as submitted by a producer. `job_id` is unique per payload.
#[derive(Debug)]
pub struct JobPayload {
    /// Unique identifier of the job
    pub job_id: String,
    /// The user asking for the reading
    pub user_id: uuid::Uuid,
    /// The question to answer
    pub question: String,
    /// Number of cards to draw (3 or 5)
    pub card_count: u32,
    /// Version of the payload schema
    pub schema_version: String,
    /// Version of the prompt set
    pub prompt_version: String,
    /// Optional key for suppressing duplicate submissions
    pub dedupe_key: Option<String>,
    /// Optional trace identifier
    pub trace_id: Option<String>,
    /// When the job was created
    pub created_at: Timestamp,
    /// Free-form metadata
    pub metadata: serde_json::Value,
}

pub(crate) fn clone_opt_string(s: &Option<String>) -> (r: Option<String>)
    ensures
        r == *s,
{
    match s {
        Some(v) => Some(v.clone()),
        None => None,
    }
}

impl Clone for JobPayload {
    fn clone(&self) -> (r: Self)
        ensures
            r == *self,
    {
        JobPayload {
            job_id: self.job_id.clone(),
            user_id: self.user_id,
            question: self.question.clone(),
            card_count: self.card_count,
            schema_version: self.schema_version.clone(),
            prompt_version: self.prompt_version.clone(),
            dedupe_key: clone_opt_string(&self.dedupe_key),
            trace_id: clone_opt_string(&self.trace_id),
            created_at: self.created_at,
            metadata: self.metadata.clone(),
        }
    }
}

/// Context of a job, usually carried in the payload's metadata.
#[derive(Debug, Clone)]
pub struct JobMetadata {
    /// Locale or language code, such as "th"
    pub locale: String,
    /// Where the request came from, such as "mobile" or "web"
    pub source: String,
}

/// Kinds of jobs.
#[derive(Debug, Clone, Copy, PartialEq, Eq, Structural)]
pub enum JobType {
    TarotReading,
    Notification,
    Maintenance,
}

} // verus!
