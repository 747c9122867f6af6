use chrono::Utc;
use mimivibe_backend::clock::Timestamp;
use mimivibe_backend::queue::types::JobPayload;
use mimivibe_backend::queue::{JobStatus, QueuedJob};
use uuid::Uuid;

fn now() -> Timestamp {
    let t = Utc::now();
    Timestamp { unix_seconds: t.timestamp(), subsec_nanos: t.timestamp_subsec_nanos() }
}

#[test]
fn test_job_payload_required_fields() {
    let user_id = Uuid::new_v4();
    let payload = JobPayload {
        job_id: "required-test".to_string(),
        user_id,
        question: "Test question?".to_string(),
        card_count: 3,
        schema_version: "1".to_string(),
        prompt_version: "v2025-11-20-a".to_string(),
        dedupe_key: None,
        trace_id: None,
        created_at: now(),
        metadata: serde_json::Value::Object(serde_json::Map::new()),
    };

    assert!(!payload.job_id.is_empty());
    assert!(!payload.question.is_empty());
    assert!(payload.card_count == 3 || payload.card_count == 5);
    assert_eq!(payload.schema_version, "1");
    assert_eq!(payload.user_id, user_id);
}

#[test]
fn test_queued_job_structure() {
    let payload = JobPayload {
        job_id: "queued-test".to_string(),
        user_id: Uuid::new_v4(),
        question: "Queued job test".to_string(),
        card_count: 5,
        schema_version: "1".to_string(),
        prompt_version: "v2025-11-20-a".to_string(),
        dedupe_key: None,
        trace_id: None,
        created_at: now(),
        metadata: serde_json::Value::Object(serde_json::Map::new()),
    };

    let queued_job = QueuedJob {
        job_id: "queued-job-1".to_string(),
        payload,
        attempts: 1,
        claimed_at: now(),
    };

    assert_eq!(queued_job.job_id, "queued-job-1");
    assert_eq!(queued_job.attempts, 1);
    assert_eq!(queued_job.payload.job_id, "queued-test");
}

#[test]
fn job_clone_keeps_every_field() {
    let mut meta = serde_json::Map::new();
    meta.insert("locale".to_string(), serde_json::Value::String("th".to_string()));
    let payload = JobPayload {
        job_id: "c-1".to_string(),
        user_id: Uuid::new_v4(),
        question: "q".to_string(),
        card_count: 5,
        schema_version: "1".to_string(),
        prompt_version: "p".to_string(),
        dedupe_key: Some("d".to_string()),
        trace_id: Some("t".to_string()),
        created_at: now(),
        metadata: serde_json::Value::Object(meta),
    };
    let job = QueuedJob { job_id: "c-1".to_string(), payload, attempts: 4, claimed_at: now() };
    let copy = job.clone();
    assert_eq!(copy.job_id, job.job_id);
    assert_eq!(copy.attempts, 4);
    assert_eq!(copy.claimed_at, job.claimed_at);
    assert_eq!(copy.payload.user_id, job.payload.user_id);
    assert_eq!(copy.payload.dedupe_key, Some("d".to_string()));
    assert_eq!(copy.payload.trace_id, Some("t".to_string()));
    assert_eq!(copy.payload.metadata, job.payload.metadata);
    assert_ne!(JobStatus::Queued, JobStatus::DLQ);
}
