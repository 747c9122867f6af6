//! Job queue core for the tarot reading backend: payload model, an in-process
//! queue state machine, retry policy, dedupe key rules and the error taxonomy.

pub mod queue;
pub mod worker;
pub mod error;
pub mod agents;
pub mod auth;
pub mod utils;
pub mod clock;
pub mod outside;
pub mod text;
