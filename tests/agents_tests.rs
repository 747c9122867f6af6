use mimivibe_backend::agents::question_analyzer::analyze_question;
use mimivibe_backend::agents::reading_agent::{format_reading, generate_reading};
use mimivibe_backend::auth::api_key::validate_api_key;
use mimivibe_backend::utils::gemini::call_gemini;
use mimivibe_backend::utils::prompt_manager::load_prompt;

#[test]
fn pipeline_stage_texts() {
    assert_eq!(analyze_question("love?").unwrap(), "Analyzed question: love?");
    assert_eq!(load_prompt("reading").unwrap(), "Prompt for agent: reading");
    assert_eq!(call_gemini("hi").unwrap(), "Response to prompt: hi");
    assert_eq!(format_reading("q", "[]"), "Reading for question: q with cards: []");
}

#[test]
fn reading_lists_cards() {
    let r = generate_reading("Will I find love?", vec!["The Fool".to_string(), "The \"Star\"".to_string()]).unwrap();
    assert_eq!(r, "Reading for question: Will I find love? with cards: [\"The Fool\", \"The \\\"Star\\\"\"]");
    assert_eq!(generate_reading("q", vec![]).unwrap(), "Reading for question: q with cards: []");
}

#[test]
fn api_keys_must_be_present() {
    assert_eq!(validate_api_key("").unwrap(), false);
    assert_eq!(validate_api_key("SECRET-REDACTED").unwrap(), true);
}
