//! Verified parts of the HTTP-mediated broker backend: its error type and how each
//! outcome of a command request is described. HTTP-layer failures are transport
//! errors, distinct from errors that the broker reports in its answer.

use vstd::prelude::*;
use crate::queue::stream::{delivery_view, find_read_delivery, read_reply_delivery, Delivery, Reply};

verus! {

/// Errors of the HTTP-mediated backend.
#[derive(Debug)]
pub enum UpstashError {
    /// The HTTP request failed
    HttpError(String),
    /// A body could not be encoded or decoded
    JsonError(String),
    /// Configuration is missing
    ConfigError(String),
    /// The broker answered with an error
    ApiError(String),
    /// The request timed out
    TimeoutError(String),
}

impl UpstashError {
    /// The text of the error.
    pub open spec fn message_view(&self) -> Seq<char> {
        match self {
            UpstashError::HttpError(m) => "HTTP error: "@ + m@,
            UpstashError::JsonError(m) => "JSON error: "@ + m@,
            UpstashError::ConfigError(m) => "Configuration error: "@ + m@,
            UpstashError::ApiError(m) => "Upstash API error: "@ + m@,
            UpstashError::TimeoutError(m) => "Timeout error: "@ + m@,
        }
    }

    /// The text of the error.
    pub fn to_string(&self) -> (r: String)
        ensures
            r@ == self.message_view(),
    {
        let (mut s, m) = match self {
            UpstashError::HttpError(m) => ("HTTP error: ".to_owned(), m),
            UpstashError::JsonError(m) => ("JSON error: ".to_owned(), m),
            UpstashError::ConfigError(m) => ("Configuration error: ".to_owned(), m),
            UpstashError::ApiError(m) => ("Upstash API error: ".to_owned(), m),
            UpstashError::TimeoutError(m) => ("Timeout error: ".to_owned(), m),
        };
        s.append(m.as_str());
        s
    }

    /// The error for a request that could not be sent or answered: a timeout, or
    /// another HTTP failure, with the failure's description.
    pub fn send_failure(timed_out: bool, detail: &str) -> (r: UpstashError)
        ensures
            timed_out ==> (r matches UpstashError::TimeoutError(m) && m@ == "Request timed out: "@ + detail@),
            !timed_out ==> (r matches UpstashError::HttpError(m) && m@ == "HTTP request failed: "@ + detail@),
    {
        if timed_out {
            let mut m = "Request timed out: ".to_owned();
            m.append(detail);
            UpstashError::TimeoutError(m)
        } else {
            let mut m = "HTTP request failed: ".to_owned();
            m.append(detail);
            UpstashError::HttpError(m)
        }
    }

    /// The error for a failure of the HTTP client.
    pub fn from_request_error(e: &reqwest::Error) -> (r: UpstashError)
        ensures
            r is TimeoutError || r is HttpError,
    {
        let timed_out = e.is_timeout();
        let detail = e.to_string();
        UpstashError::send_failure(timed_out, detail.as_str())
    }

    /// The error for a body that could not be read.
    pub fn read_failure(detail: &str) -> (r: UpstashError)
        ensures
            r matches UpstashError::HttpError(m) && m@ == "Failed to read response: "@ + detail@,
    {
        let mut m = "Failed to read response: ".to_owned();
        m.append(detail);
        UpstashError::HttpError(m)
    }

    /// The error for an answer whose HTTP status is not a success: a transport error,
    /// not an error of the broker.
    pub fn status_failure(status: &str, body: &str) -> (r: UpstashError)
        ensures
            r matches UpstashError::HttpError(m)
                && m@ == "API request failed with status "@ + status@ + ": "@ + body@,
    {
        let mut m = "API request failed with status ".to_owned();
        m.append(status);
        m.append(": ");
        m.append(body);
        UpstashError::HttpError(m)
    }

    /// The error for an answer that is not the expected JSON.
    pub fn decode_failure(detail: &str, body: &str) -> (r: UpstashError)
        ensures
            r matches UpstashError::JsonError(m)
                && m@ == "Failed to parse response: "@ + detail@ + " - Response: "@ + body@,
    {
        let mut m = "Failed to parse response: ".to_owned();
        m.append(detail);
        m.append(" - Response: ");
        m.append(body);
        UpstashError::JsonError(m)
    }
}

#[verifier::external_type_specification]
#[verifier::external_body]
pub struct ExReqwestError(reqwest::Error);

/// Relies on reqwest's `Error::is_timeout`, a test of the error's kind.
pub assume_specification[ reqwest::Error::is_timeout ](e: &reqwest::Error) -> bool;

/// The outcome of a decoded answer `{result, error}`: an error in the answer wins, then a
/// missing result is an error, else the result.
pub fn command_outcome<T>(error: Option<String>, result: Option<T>) -> (r: Result<T, UpstashError>)
    ensures
        error matches Some(e) ==> (r matches Err(UpstashError::ApiError(m)) && m == e),
        error is None && result is None ==> (r matches Err(UpstashError::ApiError(m))
            && m@ == "No result in response"@),
        error is None && result is Some ==> r == Ok::<T, UpstashError>(result->Some_0),
{
    match error {
        Some(e) => Err(UpstashError::ApiError(e)),
        None => match result {
            Some(v) => Ok(v),
            None => Err(UpstashError::ApiError("No result in response".to_owned())),
        },
    }
}

/// The outcome of a decoded group-read answer: an error in the answer is an error, a null
/// result means that no job is available, and otherwise the first delivered entry
/// with a payload, with its entry id, payload text and delivery count.
pub fn group_read_outcome(error: Option<String>, result: Option<Reply>) -> (r: Result<Option<Delivery>, UpstashError>)
    ensures
        error matches Some(e) ==> (r matches Err(UpstashError::ApiError(m)) && m == e),
        error is None && result is None ==> (r matches Ok(found) && found is None),
        error is None && result is Some ==> (r matches Ok(found) && (match found {
            Some(d) => read_reply_delivery(result->Some_0) == Some(delivery_view(d)),
            None => read_reply_delivery(result->Some_0) is None,
        })),
{
    match error {
        Some(e) => Err(UpstashError::ApiError(e)),
        None => match result {
            None => Ok(None),
            Some(reply) => Ok(find_read_delivery(&reply)),
        },
    }
}

} // verus!
