//! Deduplication keys and errors. A key must hold a character that is not white
//! space; the broker's errors are sorted into connection errors, timeouts and
//! operation errors. The set-if-absent-with-expiry itself runs on the broker.

use vstd::prelude::*;

verus! {

/// Errors of the deduplication gate.
#[derive(Debug)]
pub enum DedupeError {
    /// The broker connection failed or dropped
    ConnectionError(String),
    /// The key is empty or whitespace only
    InvalidKey(String),
    /// The broker answered with an error
    OperationError(String),
    /// The broker did not answer in time
    Timeout(String),
}

impl DedupeError {
    /// The text of the error.
    pub open spec fn message_view(&self) -> Seq<char> {
        match self {
            DedupeError::ConnectionError(m) => "Redis connection error: "@ + m@,
            DedupeError::InvalidKey(m) => "Invalid dedupe key: "@ + m@,
            DedupeError::OperationError(m) => "Redis operation error: "@ + m@,
            DedupeError::Timeout(m) => "Redis timeout: "@ + m@,
        }
    }

    /// The text of the error.
    pub fn to_string(&self) -> (r: String)
        ensures
            r@ == self.message_view(),
    {
        let (mut s, m) = match self {
            DedupeError::ConnectionError(m) => ("Redis connection error: ".to_owned(), m),
            DedupeError::InvalidKey(m) => ("Invalid dedupe key: ".to_owned(), m),
            DedupeError::OperationError(m) => ("Redis operation error: ".to_owned(), m),
            DedupeError::Timeout(m) => ("Redis timeout: ".to_owned(), m),
        };
        s.append(m.as_str());
        s
    }

    /// The error for a broker failure with the given traits: a dropped connection or
    /// an I/O failure is a connection error, else a timeout is a timeout, else it is an
    /// operation error. The failure's description is kept.
    pub fn from_failure(connection_dropped: bool, io_error: bool, timed_out: bool, message: String) -> (r: DedupeError)
        ensures
            match r {
                DedupeError::ConnectionError(m) => m == message && (connection_dropped || io_error),
                DedupeError::Timeout(m) => m == message && !(connection_dropped || io_error) && timed_out,
                DedupeError::OperationError(m) => m == message && !(connection_dropped || io_error)
                    && !timed_out,
                DedupeError::InvalidKey(_) => false,
            },
    {
        if connection_dropped || io_error {
            DedupeError::ConnectionError(message)
        } else if timed_out {
            DedupeError::Timeout(message)
        } else {
            DedupeError::OperationError(message)
        }
    }

    /// The error for a failure of the Redis client.
    pub fn from_redis(err: &redis::RedisError) -> (r: DedupeError)
        ensures
            !(r is InvalidKey),
    {
        let dropped = err.is_connection_dropped();
        let io = err.is_io_error();
        let timed_out = err.is_timeout();
        DedupeError::from_failure(dropped, io, timed_out, err.to_string())
    }
}

#[verifier::external_type_specification]
#[verifier::external_body]
pub struct ExRedisError(redis::RedisError);

/// Relies on redis's `RedisError::is_connection_dropped`, a test of the error's kind.
pub assume_specification[ redis::RedisError::is_connection_dropped ](e: &redis::RedisError) -> bool;

/// Relies on redis's `RedisError::is_io_error`, a test of the error's kind.
pub assume_specification[ redis::RedisError::is_io_error ](e: &redis::RedisError) -> bool;

/// Relies on redis's `RedisError::is_timeout`, a test of the error's kind.
pub assume_specification[ redis::RedisError::is_timeout ](e: &redis::RedisError) -> bool;

/// `c` has the Unicode White_Space property, as `char::is_whitespace` tests it.
pub open spec fn is_white_space(c: char) -> bool {
    let u = c as u32;
    (0x9 <= u <= 0xD) || u == 0x20 || u == 0x85 || u == 0xA0 || u == 0x1680
        || (0x2000 <= u <= 0x200A) || u == 0x2028 || u == 0x2029 || u == 0x202F
        || u == 0x205F || u == 0x3000
}

/// Whether `c` has the Unicode White_Space property.
pub fn is_white_space_char(c: char) -> (r: bool)
    ensures
        r == is_white_space(c),
{
    let u = c as u32;
    (0x9 <= u && u <= 0xD) || u == 0x20 || u == 0x85 || u == 0xA0 || u == 0x1680
        || (0x2000 <= u && u <= 0x200A) || u == 0x2028 || u == 0x2029 || u == 0x202F
        || u == 0x205F || u == 0x3000
}

/// `key` is empty or consists of white space only, so that trimming leaves nothing.
pub open spec fn is_blank(key: Seq<char>) -> bool {
    forall|i: int| 0 <= i < key.len() ==> is_white_space(key[i])
}

/// Checks a dedupe key before any broker call: an empty or whitespace-only key is refused.
pub fn validate_dedupe_key(key: &str) -> (r: Result<(), DedupeError>)
    ensures
        r is Ok <==> !is_blank(key@),
        r matches Err(e) ==> (e matches DedupeError::InvalidKey(m)
            && m@ == "Dedupe key cannot be empty or whitespace"@),
{
    let n = key.unicode_len();
    let mut i: usize = 0;
    while i < n
        invariant
            n == key@.len(),
            i <= n,
            forall|j: int| 0 <= j < i ==> is_white_space(key@[j]),
        decreases n - i,
    {
        if !is_white_space_char(key.get_char(i)) {
            return Ok(());
        }
        i = i + 1;
    }
    Err(DedupeError::InvalidKey("Dedupe key cannot be empty or whitespace".to_owned()))
}

} // verus!
