use synthwave::ai::classifier::{find_first, find_last, json_span, AudioClassifier, CLOSE_BRACE, OPEN_BRACE};
use synthwave::ai::ollama::OllamaClient;
use synthwave::error::AppError;

fn field(value: &serde_json::Value, name: &str) -> String {
    value.get(name).and_then(|v| v.as_str()).unwrap().to_string()
}

#[test]
fn test_parse_valid_response() {
    let classifier = AudioClassifier::new();
    let response = r#"Based on the features, here is my analysis:
{"genre": "Electronic", "mood": "Energetic", "energy": "high"}"#;

    let json = classifier.extract_json(response).unwrap();
    let result: serde_json::Value = serde_json::from_slice(&json).unwrap();
    assert_eq!(field(&result, "genre"), "Electronic");
    assert_eq!(field(&result, "mood"), "Energetic");
    assert_eq!(field(&result, "energy"), "high");
}

#[test]
fn test_parse_invalid_response() {
    let classifier = AudioClassifier::new();
    let response = "I don't know what to say";
    assert!(classifier.extract_json(response).is_err());
}

#[test]
fn object_reaches_from_first_open_to_last_close() {
    let classifier = AudioClassifier::new();
    let json = classifier.extract_json("x {\"a\": {\"b\": 1}} y } z").unwrap();
    assert_eq!(json, b"{\"a\": {\"b\": 1}} y }".to_vec());
    let json = classifier.extract_json("{}").unwrap();
    assert_eq!(json, b"{}".to_vec());
}

#[test]
fn answers_without_an_object() {
    let classifier = AudioClassifier::new();
    for response in ["", "{", "}", "} {", "}{", "no braces", "only open { here", "only close } here"] {
        match classifier.extract_json(response) {
            Err(AppError::Audio(message)) => {
                assert_eq!(message, "No JSON object found in Ollama response")
            }
            other => panic!("{response:?} gave {other:?}"),
        }
    }
}

#[test]
fn text_beyond_ascii_is_framed_like_the_string_search() {
    let classifier = AudioClassifier::new();
    let response = "Voilà — résumé: {\"genre\": \"Électro\", \"mood\": \"été\", \"energy\": \"high\"} ✓";
    let start = response.find('{').unwrap();
    let end = response.rfind('}').unwrap();
    let json = classifier.extract_json(response).unwrap();
    assert_eq!(json, response[start..=end].as_bytes().to_vec());
    let result: serde_json::Value = serde_json::from_slice(&json).unwrap();
    assert_eq!(field(&result, "genre"), "Électro");
}

#[test]
fn spans_and_searches() {
    assert_eq!(OPEN_BRACE, b'{');
    assert_eq!(CLOSE_BRACE, b'}');
    assert_eq!(find_first(b"ab{c{d", OPEN_BRACE), Some(2));
    assert_eq!(find_last(b"ab{c{d", OPEN_BRACE), Some(4));
    assert_eq!(find_first(b"abc", OPEN_BRACE), None);
    assert_eq!(find_last(b"", CLOSE_BRACE), None);
    assert_eq!(json_span(b"..{..}..}."), Some((2, 8)));
    assert_eq!(json_span(b"}{"), None);
    assert_eq!(json_span(b"{"), None);
}

#[test]
fn client_defaults() {
    let client = OllamaClient::new();
    assert_eq!(client.model(), "mistral:7b-instruct");
    assert_eq!(client.tags_url(), "http://localhost:11434/api/tags");
    assert_eq!(client.generate_url(), "http://localhost:11434/api/generate");
    assert_eq!(OllamaClient::default().model(), "mistral:7b-instruct");
    assert_eq!(AudioClassifier::new().ollama().model(), "mistral:7b-instruct");
}
