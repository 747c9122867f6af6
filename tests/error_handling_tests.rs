use mimivibe_backend::error::{
    classify_error, create_error_response, create_error_response_at, ErrorExt, ErrorSeverity,
    QueueError, WorkerError,
};

#[test]
fn test_queue_error_mapping() {
    let queue_error = QueueError::ConnectionFailed("Redis connection timeout".to_string());

    let error_code = queue_error.error_code();
    assert_eq!(error_code, "QUEUE_CONNECTION_FAILED");

    let user_message = queue_error.user_message();
    assert!(user_message.contains("Service temporarily unavailable"));
    assert!(!user_message.contains("Redis"));

    let log_context = queue_error.log_context();
    assert!(log_context.contains("Redis connection timeout"));
    assert!(log_context.contains("error"));
}

#[test]
fn test_worker_error_mapping() {
    let worker_error = WorkerError::JobProcessingFailed {
        job_id: "job-123".to_string(),
        attempts: 3,
        reason: "Gemini API timeout".to_string(),
    };

    let error_code = worker_error.error_code();
    assert_eq!(error_code, "WORKER_JOB_PROCESSING_FAILED");

    let user_message = worker_error.user_message();
    assert!(user_message.contains("processing"));
    assert!(!user_message.contains("Gemini"));
    assert!(!user_message.contains("job-123"));

    let log_context = worker_error.log_context();
    assert!(log_context.contains("job-123"));
    assert!(log_context.contains("Gemini API timeout"));
    assert!(log_context.contains("attempts=3"));
}

#[test]
fn test_error_severity_classification() {
    let timeout_error = WorkerError::JobTimeout { job_id: "job-456".to_string(), timeout_ms: 30_000 };
    assert_eq!(timeout_error.severity(), ErrorSeverity::Warning);

    let network_error = QueueError::NetworkError("Connection refused".to_string());
    assert_eq!(network_error.severity(), ErrorSeverity::Error);

    let validation_error = QueueError::InvalidPayload("Invalid card count".to_string());
    assert_eq!(validation_error.severity(), ErrorSeverity::Warning);
}

#[test]
fn test_error_display_and_debug() {
    let error = QueueError::QueueFull("Maximum capacity reached".to_string());

    let display_str = error.to_string();
    assert!(display_str.contains("QUEUE_QUEUE_FULL"));
    assert!(display_str.contains("high demand"));

    let debug_str = format!("{:?}", error);
    assert!(debug_str.contains("QueueFull"));
    assert!(debug_str.contains("Maximum capacity reached"));
}

#[test]
fn test_error_response_creation() {
    let queue_error = QueueError::DequeueFailed("Queue locked".to_string());
    let response = create_error_response(&queue_error);

    assert_eq!(response.error_code, "QUEUE_DEQUEUE_FAILED");
    assert!(response.user_message.contains("Please try again"));
    assert_eq!(response.severity, "warning");
    assert!(!response.timestamp.is_empty());
}

#[test]
fn test_error_classification_function() {
    let io_error = std::io::Error::new(std::io::ErrorKind::NotFound, "Config file not found");
    let classified = classify_error(&io_error.to_string());

    assert!(matches!(classified, QueueError::InternalError(_)));
}

#[test]
fn test_error_chaining() {
    let _root_cause =
        std::io::Error::new(std::io::ErrorKind::ConnectionRefused, "Network unreachable");
    let worker_error = WorkerError::JobProcessingFailed {
        job_id: "job-789".to_string(),
        attempts: 1,
        reason: "API call failed".to_string(),
    };

    assert!(worker_error.to_string().contains("WORKER_JOB_PROCESSING_FAILED"));
}

#[test]
fn test_queue_integration_error_handling() {
    let enqueue_error = QueueError::EnqueueFailed {
        payload_id: "payload-123".to_string(),
        reason: "Queue size limit exceeded".to_string(),
    };

    let response = create_error_response(&enqueue_error);
    assert!(response.user_message.contains("Please try again later"));
    assert_eq!(response.error_code, "QUEUE_ENQUEUE_FAILED");
}

#[test]
fn test_worker_retry_error_handling() {
    let retry_error = WorkerError::RetryableError {
        job_id: "job-retry-123".to_string(),
        attempts: 2,
        next_retry_in_ms: 5_000,
        reason: "Temporary API rate limit".to_string(),
    };

    assert_eq!(retry_error.severity(), ErrorSeverity::Warning);
    assert!(retry_error.log_context().contains("next_retry_in=5s"));

    let response = create_error_response(&retry_error);
    assert!(response.user_message.contains("processed"));
}

#[test]
fn test_all_error_variants_coverage() {
    let queue_errors = vec![
        QueueError::ConnectionFailed("DB connection lost".to_string()),
        QueueError::NetworkError("DNS resolution failed".to_string()),
        QueueError::TimeoutError("Operation timed out".to_string()),
        QueueError::EnqueueFailed { payload_id: "test".to_string(), reason: "Full".to_string() },
        QueueError::DequeueFailed("Empty queue".to_string()),
        QueueError::AckFailed { job_id: "job-1".to_string(), reason: "Job not found".to_string() },
        QueueError::NackFailed { job_id: "job-2".to_string(), reason: "Invalid state".to_string() },
        QueueError::QueueFull("Capacity exceeded".to_string()),
        QueueError::InvalidPayload("Bad format".to_string()),
        QueueError::InternalError("Panic occurred".to_string()),
    ];

    for error in queue_errors {
        let _code = error.error_code();
        let _user_msg = error.user_message();
        let _log_ctx = error.log_context();
        let _severity = error.severity();
        let _display = error.to_string();
        let _response = create_error_response(&error);
    }

    let worker_errors = vec![
        WorkerError::JobProcessingFailed { job_id: "job-1".to_string(), attempts: 1, reason: "Failed".to_string() },
        WorkerError::JobTimeout { job_id: "job-2".to_string(), timeout_ms: 30_000 },
        WorkerError::RetryableError {
            job_id: "job-3".to_string(),
            attempts: 2,
            next_retry_in_ms: 10_000,
            reason: "Temp fail".to_string(),
        },
        WorkerError::MaxRetriesExceeded { job_id: "job-4".to_string(), total_attempts: 5 },
        WorkerError::InvalidJobData { job_id: "job-5".to_string(), validation_errors: vec!["Bad field".to_string()] },
        WorkerError::InternalError("Worker panic".to_string()),
    ];

    for error in worker_errors {
        let _code = error.error_code();
        let _user_msg = error.user_message();
        let _log_ctx = error.log_context();
        let _severity = error.severity();
        let _display = error.to_string();
        let _response = create_error_response(&error);
    }
}

#[test]
fn test_log_context_formatting() {
    let error = QueueError::EnqueueFailed {
        payload_id: "payload-789".to_string(),
        reason: "Queue at maximum capacity".to_string(),
    };

    let log_context = error.log_context();

    assert!(log_context.contains("error_code=QUEUE_ENQUEUE_FAILED"));
    assert!(log_context.contains("severity=warning"));
    assert!(log_context.contains("payload_id=\"payload-789\""));
    assert!(log_context.contains("reason=\"Queue at maximum capacity\""));
    assert!(log_context.contains("timestamp="));

    assert!(log_context.contains("]"));
}

#[test]
fn queue_log_line_is_exact_for_a_given_time() {
    let error = QueueError::AckFailed { job_id: "job-1".to_string(), reason: "gone".to_string() };
    assert_eq!(
        error.log_context_at("2025-11-21T12:00:00+00:00"),
        "[QUEUE_ACK_FAILED] error_code=QUEUE_ACK_FAILED severity=warning \
         timestamp=2025-11-21T12:00:00+00:00 job_id=\"job-1\" reason=\"gone\""
    );
}

#[test]
fn worker_log_lines_are_exact_for_a_given_time() {
    let t = "T";
    let timeout = WorkerError::JobTimeout { job_id: "j".to_string(), timeout_ms: 30_500 };
    assert_eq!(
        timeout.log_context_at(t),
        "[WORKER_JOB_TIMEOUT] error_code=WORKER_JOB_TIMEOUT severity=warning timestamp=T \
         job_id=\"j\" timeout_seconds=30"
    );
    let retry = WorkerError::RetryableError {
        job_id: "j".to_string(),
        attempts: 12,
        next_retry_in_ms: 0,
        reason: "r".to_string(),
    };
    assert_eq!(
        retry.log_context_at(t),
        "[WORKER_RETRYABLE_ERROR] error_code=WORKER_RETRYABLE_ERROR severity=warning timestamp=T \
         job_id=\"j\" attempts=12 next_retry_in=0s reason=\"r\""
    );
    let exhausted = WorkerError::MaxRetriesExceeded { job_id: "j".to_string(), total_attempts: 105 };
    assert_eq!(
        exhausted.log_context_at(t),
        "[WORKER_MAX_RETRIES_EXCEEDED] error_code=WORKER_MAX_RETRIES_EXCEEDED severity=error \
         timestamp=T job_id=\"j\" total_attempts=105"
    );
    let invalid = WorkerError::InvalidJobData {
        job_id: "j".to_string(),
        validation_errors: vec!["a".to_string(), "b".to_string(), "c".to_string()],
    };
    assert_eq!(
        invalid.log_context_at(t),
        "[WORKER_INVALID_JOB_DATA] error_code=WORKER_INVALID_JOB_DATA severity=warning \
         timestamp=T job_id=\"j\" validation_errors=[a, b, c]"
    );
    let none = WorkerError::InvalidJobData { job_id: "j".to_string(), validation_errors: vec![] };
    assert!(none.log_context_at(t).ends_with("validation_errors=[]"));
}

#[test]
fn worker_messages_follow_attempts() {
    let first = WorkerError::JobProcessingFailed { job_id: "j".to_string(), attempts: 1, reason: "x".to_string() };
    assert_eq!(first.user_message(), "Your request is being processed. This may take a few moments.");
    let later = WorkerError::JobProcessingFailed { job_id: "j".to_string(), attempts: 2, reason: "x".to_string() };
    assert_eq!(
        later.user_message(),
        "Job processing is taking longer than expected. Attempt 2 of 3. Please be patient."
    );
    assert_eq!(
        later.to_string(),
        "WORKER_JOB_PROCESSING_FAILED: Job processing is taking longer than expected. Attempt 2 of 3. Please be patient."
    );
}

#[test]
fn classification_follows_keyword_order() {
    assert!(matches!(classify_error("could not connect"), QueueError::ConnectionFailed(m) if m == "could not connect"));
    assert!(matches!(classify_error("connection timeout"), QueueError::ConnectionFailed(_)));
    assert!(matches!(classify_error("request timed out"), QueueError::TimeoutError(_)));
    assert!(matches!(classify_error("dns failure"), QueueError::NetworkError(_)));
    assert!(matches!(classify_error("network is down"), QueueError::NetworkError(_)));
    assert!(matches!(classify_error("disk full"), QueueError::QueueFull(_)));
    assert!(matches!(classify_error("over capacity"), QueueError::QueueFull(_)));
    assert!(matches!(classify_error(""), QueueError::InternalError(m) if m.is_empty()));
    assert!(matches!(classify_error("Timeout"), QueueError::InternalError(_)));
}

#[test]
fn error_response_at_keeps_timestamp() {
    let error = WorkerError::InternalError("boom".to_string());
    let response = create_error_response_at(&error, "2025-01-01T00:00:00Z".to_string());
    assert_eq!(response.error_code, "WORKER_INTERNAL_ERROR");
    assert_eq!(response.severity, "error");
    assert_eq!(response.timestamp, "2025-01-01T00:00:00Z");
    assert!(response.request_id.is_none());
    assert!(!response.user_message.contains("boom"));
}
