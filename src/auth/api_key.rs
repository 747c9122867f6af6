//! API key validation.

use vstd::prelude::*;

verus! {

/// Whether `key` is accepted: it must not be empty.
pub fn validate_api_key(key: &str) -> (r: Result<bool, String>)
    ensures
        r matches Ok(b) && b == (key@.len() > 0),
{
    Ok(!key.is_empty())
}

} // verus!
