//! The model client and prompt management.

pub mod gemini;
pub mod prompt_manager;
