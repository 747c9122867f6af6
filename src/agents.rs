//! The stages of the reading pipeline: question filter, question analysis and
//! reading generation.

pub mod question_analyzer;
pub mod question_filter;
pub mod reading_agent;
