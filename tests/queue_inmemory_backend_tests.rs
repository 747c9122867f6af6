use chrono::Utc;
use mimivibe_backend::clock::Timestamp;
use mimivibe_backend::queue::inmemory_queue::InMemoryQueue;
use mimivibe_backend::queue::JobPayload;
use uuid::Uuid;

fn now() -> Timestamp {
    let t = Utc::now();
    Timestamp { unix_seconds: t.timestamp(), subsec_nanos: t.timestamp_subsec_nanos() }
}

fn test_metadata() -> serde_json::Value {
    let mut m = serde_json::Map::new();
    m.insert("locale".to_string(), serde_json::Value::String("th".to_string()));
    m.insert("source".to_string(), serde_json::Value::String("test".to_string()));
    serde_json::Value::Object(m)
}

fn create_test_payload(question: &str) -> JobPayload {
    JobPayload {
        job_id: Uuid::new_v4().to_string(),
        user_id: Uuid::new_v4(),
        question: question.to_string(),
        card_count: 3,
        schema_version: "1".to_string(),
        prompt_version: "v2025-11-20-a".to_string(),
        dedupe_key: None,
        trace_id: None,
        created_at: now(),
        metadata: test_metadata(),
    }
}

#[test]
fn test_inmemory_queue_basic_enqueue_dequeue() {
    let mut queue = InMemoryQueue::new();
    let payload = create_test_payload("ความรักของฉันจะเป็นอย่างไร");
    let job_id = payload.job_id.clone();

    let enqueue_result = queue.enqueue(payload);
    assert_eq!(enqueue_result, job_id);

    let length = queue.get_queue_length();
    assert_eq!(length, 1, "Queue should have 1 job");

    let queued_job = queue.dequeue("worker-1");
    assert!(queued_job.is_some(), "Should return a job");

    let job = queued_job.unwrap();
    assert_eq!(job.job_id, job_id);
    assert_eq!(job.payload.question, "ความรักของฉันจะเป็นอย่างไร");

    let empty_result = queue.dequeue("worker-2");
    assert!(empty_result.is_none(), "Queue should be empty");
}

#[test]
fn test_inmemory_queue_ack_removes_job() {
    let mut queue = InMemoryQueue::new();
    let payload = create_test_payload("การงานของฉันจะดีขึ้นไหม");

    queue.enqueue(payload);
    let job = queue.dequeue("worker-1").unwrap();

    queue.ack(&job.job_id, "worker-1");

    let length = queue.get_queue_length();
    assert_eq!(length, 0, "Queue should be empty after ACK");
}

#[test]
fn test_inmemory_queue_concurrent_enqueue() {
    let queue = std::sync::Mutex::new(InMemoryQueue::new());
    for i in 0..10 {
        for j in 0..10 {
            let payload = create_test_payload(&format!("Question {} from task {}", j, i));
            queue.lock().unwrap().enqueue(payload);
        }
    }
    let length = queue.lock().unwrap().get_queue_length();
    assert_eq!(length, 100, "Should have 100 jobs in queue");
}

#[test]
fn test_inmemory_queue_concurrent_dequeue() {
    let queue = std::sync::Mutex::new(InMemoryQueue::new());
    for i in 0..50 {
        queue.lock().unwrap().enqueue(create_test_payload(&format!("Job {}", i)));
    }

    let mut processed: Vec<String> = Vec::new();
    let mut active = vec![true; 5];
    while active.iter().any(|a| *a) {
        for worker_id in 0..5 {
            if !active[worker_id] {
                continue;
            }
            let consumer_id = format!("worker-{}", worker_id);
            let job_option = queue.lock().unwrap().dequeue(&consumer_id);
            match job_option {
                Some(job) => {
                    queue.lock().unwrap().ack(&job.job_id, &consumer_id);
                    processed.push(job.job_id);
                }
                None => active[worker_id] = false,
            }
        }
    }

    assert_eq!(processed.len(), 50, "All 50 jobs should be processed");
    let unique: std::collections::HashSet<_> = processed.iter().collect();
    assert_eq!(unique.len(), 50);
    let length = queue.lock().unwrap().get_queue_length();
    assert_eq!(length, 0, "Queue should be empty after processing");
}

#[test]
fn test_inmemory_queue_duplicate_ack() {
    let mut queue = InMemoryQueue::new();
    queue.enqueue(create_test_payload("Test duplicate ack"));
    queue.enqueue(create_test_payload("Another job"));
    let job = queue.dequeue("worker-1").unwrap();

    queue.ack(&job.job_id, "worker-1");
    assert_eq!(queue.get_queue_length(), 1);

    queue.ack(&job.job_id, "worker-1");
    assert_eq!(queue.get_queue_length(), 1, "Duplicate ACK should change nothing");
}

#[test]
fn test_inmemory_queue_nack_requeues_job() {
    let mut queue = InMemoryQueue::new();
    queue.enqueue(create_test_payload("Test NACK behavior"));
    let job = queue.dequeue("worker-1").unwrap();

    queue.nack(&job.job_id, "worker-1", Some("Worker crashed".to_string()));

    let length = queue.get_queue_length();
    assert!(length >= 1, "Job should be available after NACK");
}

#[test]
fn test_inmemory_queue_worker_crash_simulation() {
    let mut queue = InMemoryQueue::new();
    queue.enqueue(create_test_payload("Test worker crash"));

    {
        let job = queue.dequeue("worker-1").unwrap();
        assert!(!job.job_id.is_empty());
    }

    let length = queue.get_queue_length();
    assert_eq!(length, 0, "Queue should be empty (job is in processing state)");
}

#[test]
fn test_inmemory_queue_multiple_consumers_same_job() {
    let queue = std::sync::Mutex::new(InMemoryQueue::new());
    queue.lock().unwrap().enqueue(create_test_payload("Single job test"));

    let got_job_1 = queue.lock().unwrap().dequeue("worker-1").is_some();
    let got_job_2 = queue.lock().unwrap().dequeue("worker-2").is_some();

    assert!((got_job_1 && !got_job_2) || (!got_job_1 && got_job_2), "Only one worker should get the job");
}

#[test]
fn test_inmemory_queue_fifo_order() {
    let mut queue = InMemoryQueue::new();
    let mut job_ids = vec![];

    for i in 0..5 {
        let payload = create_test_payload(&format!("Job {}", i));
        job_ids.push(payload.job_id.clone());
        queue.enqueue(payload);
    }

    for expected_id in job_ids {
        let job = queue.dequeue("worker-1").unwrap();
        assert_eq!(job.job_id, expected_id, "Jobs should be dequeued in FIFO order");
        queue.ack(&job.job_id, "worker-1");
    }
}

#[test]
fn test_inmemory_queue_empty_dequeue() {
    let mut queue = InMemoryQueue::new();
    let result = queue.dequeue("worker-1");
    assert!(result.is_none(), "Should return None for empty queue");
}

#[test]
fn test_inmemory_queue_length_tracking() {
    let mut queue = InMemoryQueue::new();

    assert_eq!(queue.get_queue_length(), 0);

    for i in 0..3 {
        queue.enqueue(create_test_payload(&format!("Job {}", i)));
    }
    assert_eq!(queue.get_queue_length(), 3);

    let job = queue.dequeue("worker-1").unwrap();
    assert_eq!(queue.get_queue_length(), 2);

    queue.ack(&job.job_id, "worker-1");
    assert_eq!(queue.get_queue_length(), 2);

    queue.dequeue("worker-1");
    queue.dequeue("worker-1");
    assert_eq!(queue.get_queue_length(), 0);
}

#[test]
fn nack_puts_job_at_front_with_next_attempt() {
    let mut queue = InMemoryQueue::default();
    let first = create_test_payload("first");
    let second = create_test_payload("second");
    let first_id = first.job_id.clone();
    queue.enqueue(first);
    queue.enqueue(second);

    let job = queue.dequeue_at("worker-1", Timestamp { unix_seconds: 10, subsec_nanos: 0 }).unwrap();
    assert_eq!(job.attempts, 1);
    assert_eq!(job.claimed_at, Timestamp { unix_seconds: 10, subsec_nanos: 0 });
    queue.nack(&job.job_id, "worker-1", None);
    assert_eq!(queue.get_queue_length(), 2);

    let again = queue.dequeue("worker-2").unwrap();
    assert_eq!(again.job_id, first_id);
    assert_eq!(again.payload.question, "first");
    assert_eq!(again.attempts, 2);
}

#[test]
fn ack_and_nack_of_unknown_job_change_nothing() {
    let mut queue = InMemoryQueue::new();
    queue.enqueue(create_test_payload("pending"));
    queue.ack("no-such-job", "worker-1");
    queue.nack("no-such-job", "worker-1", Some("x".to_string()));
    assert_eq!(queue.get_queue_length(), 1);
    let job = queue.dequeue("worker-1").unwrap();
    assert_eq!(job.attempts, 1);
}

#[test]
fn acked_job_starts_counting_afresh() {
    let mut queue = InMemoryQueue::new();
    let payload = create_test_payload("again");
    let copy = payload.clone();
    queue.enqueue(payload);
    let job = queue.dequeue("worker-1").unwrap();
    queue.ack(&job.job_id, "worker-1");
    queue.enqueue(copy);
    let job = queue.dequeue("worker-1").unwrap();
    assert_eq!(job.attempts, 1);
}

#[test]
fn acks_between_dequeues_keep_fifo_order() {
    let mut queue = InMemoryQueue::new();
    let mut ids = vec![];
    for i in 0..6 {
        let payload = create_test_payload(&format!("Job {}", i));
        ids.push(payload.job_id.clone());
        queue.enqueue(payload);
    }
    let first = queue.dequeue("worker-1").unwrap();
    let second = queue.dequeue("worker-2").unwrap();
    queue.ack(&second.job_id, "worker-2");
    queue.ack(&first.job_id, "worker-1");
    queue.ack("unknown", "worker-3");
    let third = queue.dequeue("worker-3").unwrap();
    assert_eq!(vec![first.job_id, second.job_id, third.job_id], ids[0..3].to_vec());
    assert_eq!(queue.get_queue_length(), 3);
}
