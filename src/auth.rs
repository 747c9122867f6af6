//! Authentication of API requests.

pub mod api_key;
