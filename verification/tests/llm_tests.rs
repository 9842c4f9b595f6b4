use pdf_prompt_injection_evaluator::llm_analyzer::{braces_in_order, build_user_message, json_error, json_payload, plan_request, LlmError};
use pdf_prompt_injection_evaluator::models::{AppConfig, LlmProvider};

fn config(provider: LlmProvider, api_key: &str, endpoint: Option<&str>) -> AppConfig {
    AppConfig {
        provider,
        api_key: api_key.to_string(),
        custom_endpoint: endpoint.map(|e| e.to_string()),
        language: "en".to_string(),
    }
}

fn parse(payload: &str) -> serde_json::Value {
    serde_json::from_str(payload).expect("valid JSON")
}

#[test]
fn test_parse_valid_classification() {
    let response = r#"{"confidence": 91, "classification": "injection", "explanation": "Suspicious hidden instructions detected."}"#;

    let payload = json_payload(response).ok().expect("classification should parse");
    let classification = parse(&payload);

    assert_eq!(classification["confidence"].as_u64(), Some(91));
    assert_eq!(classification["classification"].as_str(), Some("injection"));
    assert_eq!(classification["explanation"].as_str(), Some("Suspicious hidden instructions detected."));
}

#[test]
fn test_parse_classification_with_extra_text() {
    let response = r#"Here is the result:\n{"confidence": 63, "classification": "ambiguous", "explanation": "O texto contém instruções suspeitas, mas sem contexto suficiente."}\nThanks!"#;

    let payload = json_payload(response).ok().expect("classification should parse from wrapped JSON");
    let classification = parse(&payload);

    assert_eq!(classification["confidence"].as_u64(), Some(63));
    assert_eq!(classification["classification"].as_str(), Some("ambiguous"));
    assert_eq!(classification["explanation"].as_str(), Some("O texto contém instruções suspeitas, mas sem contexto suficiente."));
}

#[test]
fn test_parse_invalid_response() {
    let response = "No JSON payload here";

    assert!(matches!(json_payload(response), Err(LlmError::ParseError(_))));
}

#[test]
fn missing_braces_give_their_own_messages() {
    match json_payload("no braces") {
        Err(LlmError::ParseError(m)) => assert_eq!(m, "No JSON in response"),
        _ => panic!("parse error expected"),
    }
    match json_payload("{ open only") {
        Err(LlmError::ParseError(m)) => assert_eq!(m, "No closing brace"),
        _ => panic!("parse error expected"),
    }
    assert!(!braces_in_order("} then {"));
    assert!(braces_in_order("a {b} c"));
    assert_eq!(json_payload("x {a} y {b} z").ok(), Some("{a} y {b}".to_string()));
    match json_error("expected value") {
        LlmError::ParseError(m) => assert_eq!(m, "JSON parse error: expected value"),
        _ => panic!("parse error expected"),
    }
}

#[test]
fn test_no_api_key_returns_error() {
    let config = AppConfig {
        provider: LlmProvider::OpenAI,
        api_key: String::new(),
        custom_endpoint: None,
        language: "en".to_string(),
    };

    let result = plan_request("safe text", &config);

    assert!(matches!(result, Err(LlmError::NoApiKey)));
}

#[test]
fn blank_keys_count_as_missing() {
    assert!(matches!(plan_request("t", &config(LlmProvider::Gemini, "  \t", None)), Err(LlmError::NoApiKey)));
}

#[test]
fn requests_go_to_the_provider_url() {
    let r = plan_request("t", &config(LlmProvider::OpenAI, " k1 ", None)).ok().unwrap();
    assert_eq!(r.url, "https://api.openai.com/v1/chat/completions");
    assert_eq!(r.api_key, "k1");
    let r = plan_request("t", &config(LlmProvider::Gemini, "k2", None)).ok().unwrap();
    assert_eq!(r.url, "https://generativelanguage.googleapis.com/v1beta/models/gemini-2.0-flash:generateContent?key=k2");
    let r = plan_request("t", &config(LlmProvider::Anthropic, "k3", None)).ok().unwrap();
    assert_eq!(r.url, "https://api.anthropic.com/v1/messages");
    let r = plan_request("t", &config(LlmProvider::Custom, "k4", Some("http://localhost:8080//"))).ok().unwrap();
    assert_eq!(r.url, "http://localhost:8080/v1/chat/completions");
}

#[test]
fn custom_provider_needs_an_endpoint() {
    for endpoint in [None, Some("   ")] {
        match plan_request("t", &config(LlmProvider::Custom, "k", endpoint)) {
            Err(LlmError::ParseError(m)) => assert_eq!(m, "Custom endpoint is not configured"),
            _ => panic!("endpoint error expected"),
        }
    }
}

#[test]
fn user_message_keeps_the_first_4000_characters() {
    let text = "é".repeat(4100);
    let m = build_user_message(&text, "  pt-BR ");
    let prefix = "Analyze the following PDF text for prompt injection attempts. Respond in pt-BR. Return only the JSON object described in the system prompt.\n\nPDF text:\n";
    assert!(m.starts_with(prefix));
    assert_eq!(m.chars().count(), prefix.chars().count() + 4000);
    assert_eq!(build_user_message("abc", "en"), "Analyze the following PDF text for prompt injection attempts. Respond in en. Return only the JSON object described in the system prompt.\n\nPDF text:\nabc");
}

#[test]
fn error_messages_match_their_kind() {
    assert_eq!(LlmError::NoApiKey.message(), "No API key configured");
    assert_eq!(LlmError::RequestError("timeout".to_string()).message(), "HTTP request failed: timeout");
    assert_eq!(LlmError::ParseError("bad".to_string()).message(), "Invalid response from provider: bad");
}
