//! Error taxonomy: queue-transport and worker errors, each with a stable code, a
//! severity, a sanitized message for users and a detailed log line for operators.

use std::collections::HashMap;
use vstd::prelude::*;
use crate::clock::{current_time_rfc3339, Timestamp};
use crate::text::{contains_str, decimal, has_substring, joined, push_decimal, push_joined, views_of};

verus! {

/// Error severity levels.
#[derive(Debug, Clone, Copy, PartialEq, Eq, Structural)]
pub enum ErrorSeverity {
    /// Informational message, not an error
    Info,
    /// Does not stop operation
    Warning,
    /// Requires attention
    Error,
    /// Needs immediate attention
    Critical,
}

impl ErrorSeverity {
    /// The lower-case name of the level.
    pub open spec fn label(self) -> Seq<char> {
        match self {
            ErrorSeverity::Info => "info"@,
            ErrorSeverity::Warning => "warning"@,
            ErrorSeverity::Error => "error"@,
            ErrorSeverity::Critical => "critical"@,
        }
    }

    /// The lower-case name of the level.
    pub fn to_string(&self) -> (r: String)
        ensures
            r@ == self.label(),
    {
        match self {
            ErrorSeverity::Info => "info".to_owned(),
            ErrorSeverity::Warning => "warning".to_owned(),
            ErrorSeverity::Error => "error".to_owned(),
            ErrorSeverity::Critical => "critical".to_owned(),
        }
    }
}

/// Context recorded with an error for operators.
#[derive(Debug, Clone)]
pub struct ErrorContext {
    pub error_code: String,
    pub severity: ErrorSeverity,
    pub timestamp: Timestamp,
    pub job_id: Option<String>,
    pub user_id: Option<String>,
    pub trace_id: Option<String>,
    pub metadata: HashMap<String, String>,
}

/// Queue-transport errors.
#[derive(Debug, Clone)]
pub enum QueueError {
    /// Connection to the queue backend failed
    ConnectionFailed(String),
    /// Network-related error
    NetworkError(String),
    /// Operation timed out
    TimeoutError(String),
    /// A job could not be enqueued
    EnqueueFailed { payload_id: String, reason: String },
    /// A job could not be dequeued
    DequeueFailed(String),
    /// A job could not be acknowledged
    AckFailed { job_id: String, reason: String },
    /// A job could not be negatively acknowledged
    NackFailed { job_id: String, reason: String },
    /// The queue is at capacity
    QueueFull(String),
    /// The job payload is invalid
    InvalidPayload(String),
    /// Unclassified error of the queue system
    InternalError(String),
}

/// Worker-side processing errors. Durations are in milliseconds.
#[derive(Debug, Clone)]
pub enum WorkerError {
    /// Processing of a job failed
    JobProcessingFailed { job_id: String, attempts: u32, reason: String },
    /// Processing of a job timed out
    JobTimeout { job_id: String, timeout_ms: u64 },
    /// A failure that will be retried
    RetryableError { job_id: String, attempts: u32, next_retry_in_ms: u64, reason: String },
    /// The retry budget of a job is exhausted
    MaxRetriesExceeded { job_id: String, total_attempts: u32 },
    /// The job data did not validate
    InvalidJobData { job_id: String, validation_errors: Vec<String> },
    /// Unclassified worker error
    InternalError(String),
}

/// The error as shown to users.
#[derive(Debug, Clone)]
pub struct ErrorResponse {
    pub error_code: String,
    pub user_message: String,
    pub severity: String,
    pub timestamp: String,
    pub request_id: Option<String>,
}

/// Codes, messages, severity and log context of an error.
pub trait ErrorExt {
    /// The machine-readable code.
    spec fn code_view(&self) -> Seq<char>;

    /// The message for users, free of internal detail.
    spec fn user_message_view(&self) -> Seq<char>;

    /// The severity level.
    spec fn severity_view(&self) -> ErrorSeverity;

    /// The operator log line, for the given RFC 3339 timestamp.
    spec fn log_context_view(&self, timestamp: Seq<char>) -> Seq<char>;

    /// Machine-readable error code.
    fn error_code(&self) -> (r: String)
        ensures
            r@ == self.code_view(),
    ;

    /// User-facing message; hides internal details.
    fn user_message(&self) -> (r: String)
        ensures
            r@ == self.user_message_view(),
    ;

    /// Severity level.
    fn severity(&self) -> (r: ErrorSeverity)
        ensures
            r == self.severity_view(),
    ;

    /// Operator log line with full details, stamped with `timestamp`.
    fn log_context_at(&self, timestamp: &str) -> (r: String)
        ensures
            r@ == self.log_context_view(timestamp@),
    ;

    /// Operator log line with full details, stamped with the current time.
    fn log_context(&self) -> (r: String)
        ensures
            exists|t: Seq<char>| r@ == self.log_context_view(t),
    ;
}

/// `[CODE] error_code=CODE severity=LEVEL timestamp=T`
pub open spec fn log_header(code: Seq<char>, severity: ErrorSeverity, t: Seq<char>) -> Seq<char> {
    "["@ + code + "] error_code="@ + code + " severity="@ + severity.label() + " timestamp="@ + t
}

/// `pre` followed by ` name="value"`.
pub open spec fn quoted_field(pre: Seq<char>, name: Seq<char>, value: Seq<char>) -> Seq<char> {
    pre + " "@ + name + "=\""@ + value + "\""@
}

/// `pre` followed by ` name=N`.
pub open spec fn number_field(pre: Seq<char>, name: Seq<char>, n: nat) -> Seq<char> {
    pre + " "@ + name + "="@ + decimal(n)
}

fn push_header(code: &String, severity: ErrorSeverity, t: &str) -> (r: String)
    ensures
        r@ == log_header(code@, severity, t@),
{
    let mut s = "[".to_owned();
    s.append(code.as_str());
    s.append("] error_code=");
    s.append(code.as_str());
    s.append(" severity=");
    let label = severity.to_string();
    s.append(label.as_str());
    s.append(" timestamp=");
    s.append(t);
    s
}

fn push_quoted_field(s: &mut String, name: &str, value: &str)
    ensures
        final(s)@ == quoted_field(old(s)@, name@, value@),
{
    s.append(" ");
    s.append(name);
    s.append("=\"");
    s.append(value);
    s.append("\"");
}

fn push_number_field(s: &mut String, name: &str, n: u64)
    ensures
        final(s)@ == number_field(old(s)@, name@, n as nat),
{
    s.append(" ");
    s.append(name);
    s.append("=");
    push_decimal(s, n);
}

impl QueueError {
    /// `CODE: user message`, the error as displayed.
    pub fn to_string(&self) -> (r: String)
        ensures
            r@ == self.code_view() + ": "@ + self.user_message_view(),
    {
        let mut s = self.error_code();
        s.append(": ");
        let m = self.user_message();
        s.append(m.as_str());
        s
    }
}

impl ErrorExt for QueueError {
    open spec fn code_view(&self) -> Seq<char> {
        match self {
            QueueError::ConnectionFailed(_) => "QUEUE_CONNECTION_FAILED"@,
            QueueError::NetworkError(_) => "QUEUE_NETWORK_ERROR"@,
            QueueError::TimeoutError(_) => "QUEUE_TIMEOUT_ERROR"@,
            QueueError::EnqueueFailed { .. } => "QUEUE_ENQUEUE_FAILED"@,
            QueueError::DequeueFailed(_) => "QUEUE_DEQUEUE_FAILED"@,
            QueueError::AckFailed { .. } => "QUEUE_ACK_FAILED"@,
            QueueError::NackFailed { .. } => "QUEUE_NACK_FAILED"@,
            QueueError::QueueFull(_) => "QUEUE_QUEUE_FULL"@,
            QueueError::InvalidPayload(_) => "QUEUE_INVALID_PAYLOAD"@,
            QueueError::InternalError(_) => "QUEUE_INTERNAL_ERROR"@,
        }
    }

    open spec fn user_message_view(&self) -> Seq<char> {
        match self {
            QueueError::ConnectionFailed(_) | QueueError::NetworkError(_) =>
                "Service temporarily unavailable. Please try again in a few moments."@,
            QueueError::TimeoutError(_) => "Request timed out. Please try again."@,
            QueueError::EnqueueFailed { .. } | QueueError::QueueFull(_) =>
                "Service is experiencing high demand. Please try again later."@,
            QueueError::DequeueFailed(_) =>
                "Unable to process request at this time. Please try again."@,
            QueueError::AckFailed { .. } | QueueError::NackFailed { .. } =>
                "Job processing encountered an issue. Please contact support if this persists."@,
            QueueError::InvalidPayload(_) =>
                "Invalid request format. Please check your input and try again."@,
            QueueError::InternalError(_) =>
                "An unexpected error occurred. Please try again or contact support."@,
        }
    }

    open spec fn severity_view(&self) -> ErrorSeverity {
        match self {
            QueueError::ConnectionFailed(_) | QueueError::NetworkError(_)
            | QueueError::InternalError(_) => ErrorSeverity::Error,
            _ => ErrorSeverity::Warning,
        }
    }

    open spec fn log_context_view(&self, t: Seq<char>) -> Seq<char> {
        let head = log_header(self.code_view(), self.severity_view(), t);
        match self {
            QueueError::EnqueueFailed { payload_id, reason } => quoted_field(
                quoted_field(head, "payload_id"@, payload_id@),
                "reason"@,
                reason@,
            ),
            QueueError::AckFailed { job_id, reason } | QueueError::NackFailed { job_id, reason } =>
                quoted_field(quoted_field(head, "job_id"@, job_id@), "reason"@, reason@),
            QueueError::ConnectionFailed(reason) | QueueError::NetworkError(reason)
            | QueueError::TimeoutError(reason) | QueueError::DequeueFailed(reason)
            | QueueError::QueueFull(reason) | QueueError::InvalidPayload(reason)
            | QueueError::InternalError(reason) => quoted_field(head, "reason"@, reason@),
        }
    }

    fn error_code(&self) -> (r: String) {
        match self {
            QueueError::ConnectionFailed(_) => "QUEUE_CONNECTION_FAILED".to_owned(),
            QueueError::NetworkError(_) => "QUEUE_NETWORK_ERROR".to_owned(),
            QueueError::TimeoutError(_) => "QUEUE_TIMEOUT_ERROR".to_owned(),
            QueueError::EnqueueFailed { .. } => "QUEUE_ENQUEUE_FAILED".to_owned(),
            QueueError::DequeueFailed(_) => "QUEUE_DEQUEUE_FAILED".to_owned(),
            QueueError::AckFailed { .. } => "QUEUE_ACK_FAILED".to_owned(),
            QueueError::NackFailed { .. } => "QUEUE_NACK_FAILED".to_owned(),
            QueueError::QueueFull(_) => "QUEUE_QUEUE_FULL".to_owned(),
            QueueError::InvalidPayload(_) => "QUEUE_INVALID_PAYLOAD".to_owned(),
            QueueError::InternalError(_) => "QUEUE_INTERNAL_ERROR".to_owned(),
        }
    }

    fn user_message(&self) -> (r: String) {
        match self {
            QueueError::ConnectionFailed(_) | QueueError::NetworkError(_) =>
                "Service temporarily unavailable. Please try again in a few moments.".to_owned(),
            QueueError::TimeoutError(_) => "Request timed out. Please try again.".to_owned(),
            QueueError::EnqueueFailed { .. } | QueueError::QueueFull(_) =>
                "Service is experiencing high demand. Please try again later.".to_owned(),
            QueueError::DequeueFailed(_) =>
                "Unable to process request at this time. Please try again.".to_owned(),
            QueueError::AckFailed { .. } | QueueError::NackFailed { .. } =>
                "Job processing encountered an issue. Please contact support if this persists.".to_owned(),
            QueueError::InvalidPayload(_) =>
                "Invalid request format. Please check your input and try again.".to_owned(),
            QueueError::InternalError(_) =>
                "An unexpected error occurred. Please try again or contact support.".to_owned(),
        }
    }

    fn severity(&self) -> (r: ErrorSeverity) {
        match self {
            QueueError::ConnectionFailed(_) | QueueError::NetworkError(_)
            | QueueError::InternalError(_) => ErrorSeverity::Error,
            _ => ErrorSeverity::Warning,
        }
    }

    fn log_context_at(&self, timestamp: &str) -> (r: String) {
        let code = self.error_code();
        let mut s = push_header(&code, self.severity(), timestamp);
        match self {
            QueueError::EnqueueFailed { payload_id, reason } => {
                push_quoted_field(&mut s, "payload_id", payload_id.as_str());
                push_quoted_field(&mut s, "reason", reason.as_str());
            },
            QueueError::AckFailed { job_id, reason } | QueueError::NackFailed { job_id, reason } => {
                push_quoted_field(&mut s, "job_id", job_id.as_str());
                push_quoted_field(&mut s, "reason", reason.as_str());
            },
            QueueError::ConnectionFailed(reason) | QueueError::NetworkError(reason)
            | QueueError::TimeoutError(reason) | QueueError::DequeueFailed(reason)
            | QueueError::QueueFull(reason) | QueueError::InvalidPayload(reason)
            | QueueError::InternalError(reason) => {
                push_quoted_field(&mut s, "reason", reason.as_str());
            },
        }
        s
    }

    fn log_context(&self) -> (r: String) {
        let t = current_time_rfc3339();
        self.log_context_at(t.as_str())
    }
}

/// The message shown while a failed job is being retried.
pub open spec fn processing_message(attempts: u32) -> Seq<char> {
    if attempts > 1 {
        "Job processing is taking longer than expected. Attempt "@ + decimal(attempts as nat)
            + " of 3. Please be patient."@
    } else {
        "Your request is being processed. This may take a few moments."@
    }
}

impl WorkerError {
    /// `CODE: user message`, the error as displayed.
    pub fn to_string(&self) -> (r: String)
        ensures
            r@ == self.code_view() + ": "@ + self.user_message_view(),
    {
        let mut s = self.error_code();
        s.append(": ");
        let m = self.user_message();
        s.append(m.as_str());
        s
    }
}

impl ErrorExt for WorkerError {
    open spec fn code_view(&self) -> Seq<char> {
        match self {
            WorkerError::JobProcessingFailed { .. } => "WORKER_JOB_PROCESSING_FAILED"@,
            WorkerError::JobTimeout { .. } => "WORKER_JOB_TIMEOUT"@,
            WorkerError::RetryableError { .. } => "WORKER_RETRYABLE_ERROR"@,
            WorkerError::MaxRetriesExceeded { .. } => "WORKER_MAX_RETRIES_EXCEEDED"@,
            WorkerError::InvalidJobData { .. } => "WORKER_INVALID_JOB_DATA"@,
            WorkerError::InternalError(_) => "WORKER_INTERNAL_ERROR"@,
        }
    }

    open spec fn user_message_view(&self) -> Seq<char> {
        match self {
            WorkerError::JobProcessingFailed { attempts, .. } => processing_message(*attempts),
            WorkerError::JobTimeout { .. } =>
                "Request processing timed out. Please try again with a simpler query."@,
            WorkerError::RetryableError { .. } =>
                "Your request is still being processed. Please check back in a few moments."@,
            WorkerError::MaxRetriesExceeded { .. } =>
                "Request processing failed after multiple attempts. Please try again later."@,
            WorkerError::InvalidJobData { .. } =>
                "Invalid request format. Please check your input and try again."@,
            WorkerError::InternalError(_) =>
                "An unexpected error occurred during processing. Please try again."@,
        }
    }

    open spec fn severity_view(&self) -> ErrorSeverity {
        match self {
            WorkerError::MaxRetriesExceeded { .. } | WorkerError::InternalError(_) =>
                ErrorSeverity::Error,
            _ => ErrorSeverity::Warning,
        }
    }

    open spec fn log_context_view(&self, t: Seq<char>) -> Seq<char> {
        let head = log_header(self.code_view(), self.severity_view(), t);
        match self {
            WorkerError::JobProcessingFailed { job_id, attempts, reason } => quoted_field(
                number_field(quoted_field(head, "job_id"@, job_id@), "attempts"@, *attempts as nat),
                "reason"@,
                reason@,
            ),
            WorkerError::JobTimeout { job_id, timeout_ms } => number_field(
                quoted_field(head, "job_id"@, job_id@),
                "timeout_seconds"@,
                (*timeout_ms / 1000) as nat,
            ),
            WorkerError::RetryableError { job_id, attempts, next_retry_in_ms, reason } =>
                quoted_field(
                    number_field(
                        number_field(quoted_field(head, "job_id"@, job_id@), "attempts"@, *attempts as nat),
                        "next_retry_in"@,
                        (*next_retry_in_ms / 1000) as nat,
                    ) + "s"@,
                    "reason"@,
                    reason@,
                ),
            WorkerError::MaxRetriesExceeded { job_id, total_attempts } => number_field(
                quoted_field(head, "job_id"@, job_id@),
                "total_attempts"@,
                *total_attempts as nat,
            ),
            WorkerError::InvalidJobData { job_id, validation_errors } => quoted_field(
                head,
                "job_id"@,
                job_id@,
            ) + " validation_errors=["@ + joined(views_of(validation_errors@), ", "@) + "]"@,
            WorkerError::InternalError(reason) => quoted_field(head, "reason"@, reason@),
        }
    }

    fn error_code(&self) -> (r: String) {
        match self {
            WorkerError::JobProcessingFailed { .. } => "WORKER_JOB_PROCESSING_FAILED".to_owned(),
            WorkerError::JobTimeout { .. } => "WORKER_JOB_TIMEOUT".to_owned(),
            WorkerError::RetryableError { .. } => "WORKER_RETRYABLE_ERROR".to_owned(),
            WorkerError::MaxRetriesExceeded { .. } => "WORKER_MAX_RETRIES_EXCEEDED".to_owned(),
            WorkerError::InvalidJobData { .. } => "WORKER_INVALID_JOB_DATA".to_owned(),
            WorkerError::InternalError(_) => "WORKER_INTERNAL_ERROR".to_owned(),
        }
    }

    fn user_message(&self) -> (r: String) {
        match self {
            WorkerError::JobProcessingFailed { attempts, .. } => {
                if *attempts > 1 {
                    let mut s = "Job processing is taking longer than expected. Attempt ".to_owned();
                    push_decimal(&mut s, *attempts as u64);
                    s.append(" of 3. Please be patient.");
                    s
                } else {
                    "Your request is being processed. This may take a few moments.".to_owned()
                }
            },
            WorkerError::JobTimeout { .. } =>
                "Request processing timed out. Please try again with a simpler query.".to_owned(),
            WorkerError::RetryableError { .. } =>
                "Your request is still being processed. Please check back in a few moments.".to_owned(),
            WorkerError::MaxRetriesExceeded { .. } =>
                "Request processing failed after multiple attempts. Please try again later.".to_owned(),
            WorkerError::InvalidJobData { .. } =>
                "Invalid request format. Please check your input and try again.".to_owned(),
            WorkerError::InternalError(_) =>
                "An unexpected error occurred during processing. Please try again.".to_owned(),
        }
    }

    fn severity(&self) -> (r: ErrorSeverity) {
        match self {
            WorkerError::MaxRetriesExceeded { .. } | WorkerError::InternalError(_) =>
                ErrorSeverity::Error,
            _ => ErrorSeverity::Warning,
        }
    }

    fn log_context_at(&self, timestamp: &str) -> (r: String) {
        let code = self.error_code();
        let mut s = push_header(&code, self.severity(), timestamp);
        match self {
            WorkerError::JobProcessingFailed { job_id, attempts, reason } => {
                push_quoted_field(&mut s, "job_id", job_id.as_str());
                push_number_field(&mut s, "attempts", *attempts as u64);
                push_quoted_field(&mut s, "reason", reason.as_str());
            },
            WorkerError::JobTimeout { job_id, timeout_ms } => {
                push_quoted_field(&mut s, "job_id", job_id.as_str());
                push_number_field(&mut s, "timeout_seconds", *timeout_ms / 1000);
            },
            WorkerError::RetryableError { job_id, attempts, next_retry_in_ms, reason } => {
                push_quoted_field(&mut s, "job_id", job_id.as_str());
                push_number_field(&mut s, "attempts", *attempts as u64);
                push_number_field(&mut s, "next_retry_in", *next_retry_in_ms / 1000);
                s.append("s");
                push_quoted_field(&mut s, "reason", reason.as_str());
            },
            WorkerError::MaxRetriesExceeded { job_id, total_attempts } => {
                push_quoted_field(&mut s, "job_id", job_id.as_str());
                push_number_field(&mut s, "total_attempts", *total_attempts as u64);
            },
            WorkerError::InvalidJobData { job_id, validation_errors } => {
                push_quoted_field(&mut s, "job_id", job_id.as_str());
                s.append(" validation_errors=[");
                push_joined(&mut s, validation_errors, ", ");
                s.append("]");
            },
            WorkerError::InternalError(reason) => {
                push_quoted_field(&mut s, "reason", reason.as_str());
            },
        }
        s
    }

    fn log_context(&self) -> (r: String) {
        let t = current_time_rfc3339();
        self.log_context_at(t.as_str())
    }
}

/// The user-facing response for `error`, stamped with `timestamp`.
pub fn create_error_response_at<E: ErrorExt>(error: &E, timestamp: String) -> (r: ErrorResponse)
    ensures
        r.error_code@ == error.code_view(),
        r.user_message@ == error.user_message_view(),
        r.severity@ == error.severity_view().label(),
        r.timestamp == timestamp,
        r.request_id.is_none(),
{
    let severity = error.severity();
    ErrorResponse {
        error_code: error.error_code(),
        user_message: error.user_message(),
        severity: severity.to_string(),
        timestamp,
        request_id: None,
    }
}

/// The user-facing response for `error`, stamped with the current time.
pub fn create_error_response<E: ErrorExt>(error: &E) -> (r: ErrorResponse)
    ensures
        r.error_code@ == error.code_view(),
        r.user_message@ == error.user_message_view(),
        r.severity@ == error.severity_view().label(),
        r.timestamp@.len() > 0,
        r.request_id.is_none(),
{
    create_error_response_at(error, current_time_rfc3339())
}

/// The text mentions a failed or refused connection.
pub open spec fn mentions_connection(msg: Seq<char>) -> bool {
    has_substring(msg, "connection"@) || has_substring(msg, "connect"@)
}

/// The text mentions a timeout.
pub open spec fn mentions_timeout(msg: Seq<char>) -> bool {
    has_substring(msg, "timeout"@) || has_substring(msg, "timed out"@)
}

/// The text mentions the network or name resolution.
pub open spec fn mentions_network(msg: Seq<char>) -> bool {
    has_substring(msg, "network"@) || has_substring(msg, "dns"@)
}

/// The text mentions exhausted capacity.
pub open spec fn mentions_capacity(msg: Seq<char>) -> bool {
    has_substring(msg, "full"@) || has_substring(msg, "capacity"@)
}

/// Classifies a lower-level error by the keywords in its description, checked in the
/// order connection, timeout, network, capacity; anything else is internal. The
/// description is kept as the error's reason.
pub fn classify_error(error_msg: &str) -> (r: QueueError)
    ensures
        match r {
            QueueError::ConnectionFailed(m) => m@ == error_msg@ && mentions_connection(error_msg@),
            QueueError::TimeoutError(m) => m@ == error_msg@ && !mentions_connection(error_msg@)
                && mentions_timeout(error_msg@),
            QueueError::NetworkError(m) => m@ == error_msg@ && !mentions_connection(error_msg@)
                && !mentions_timeout(error_msg@) && mentions_network(error_msg@),
            QueueError::QueueFull(m) => m@ == error_msg@ && !mentions_connection(error_msg@)
                && !mentions_timeout(error_msg@) && !mentions_network(error_msg@)
                && mentions_capacity(error_msg@),
            QueueError::InternalError(m) => m@ == error_msg@ && !mentions_connection(error_msg@)
                && !mentions_timeout(error_msg@) && !mentions_network(error_msg@)
                && !mentions_capacity(error_msg@),
            _ => false,
        },
{
    let msg = error_msg.to_owned();
    if contains_str(error_msg, "connection") || contains_str(error_msg, "connect") {
        QueueError::ConnectionFailed(msg)
    } else if contains_str(error_msg, "timeout") || contains_str(error_msg, "timed out") {
        QueueError::TimeoutError(msg)
    } else if contains_str(error_msg, "network") || contains_str(error_msg, "dns") {
        QueueError::NetworkError(msg)
    } else if contains_str(error_msg, "full") || contains_str(error_msg, "capacity") {
        QueueError::QueueFull(msg)
    } else {
        QueueError::InternalError(msg)
    }
}

} // verus!
