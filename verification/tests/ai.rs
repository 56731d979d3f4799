use daily_knowledge::ai::{
    decode_ai_response, decode_fact, extract_generated_text, read_field, AiResponse,
    API_KEY_HEADER, CONTENT_TYPE, CONTENT_TYPE_HEADER, GENERATE_URL, TEXT_POINTER,
};
use daily_knowledge::error::ErrorKind;

const ENVELOPE: &str = "{\"candidates\":[{\"content\":{\"parts\":[{\"text\":\"{\\\"title\\\":\\\"T\\\",\\\"category\\\":\\\"C\\\",\\\"content\\\":\\\"X\\\"}\"}]}}]}";

fn parse(text: &str) -> serde_json::Value {
    serde_json::from_str(text).unwrap()
}

fn parse_failure(text: &str) -> String {
    serde_json::from_str::<serde_json::Value>(text).unwrap_err().to_string()
}

fn envelope_around(text: &str) -> String {
    let quoted = serde_json::to_string(text).unwrap();
    format!("{{\"candidates\":[{{\"content\":{{\"parts\":[{{\"text\":{}}}]}}}}]}}", quoted)
}

#[test]
fn request_goes_to_the_documented_endpoint() {
    assert_eq!(
        GENERATE_URL,
        "https://generativelanguage.googleapis.com/v1beta/models/gemini-2.0-flash:generateContent"
    );
    assert_eq!(API_KEY_HEADER, "X-goog-api-key");
    assert_eq!(CONTENT_TYPE_HEADER, "Content-Type");
    assert_eq!(CONTENT_TYPE, "application/json");
    assert_eq!(TEXT_POINTER, "/candidates/0/content/parts/0/text");
}

#[test]
fn envelope_decodes_to_the_fact() {
    let fact = decode_ai_response(ENVELOPE).unwrap();
    assert_eq!(
        fact,
        AiResponse { title: "T".to_string(), category: "C".to_string(), content: "X".to_string() }
    );
}

#[test]
fn envelope_without_candidates_is_a_shape_mismatch() {
    let body = "{\"candidates\":[]}";
    let error = decode_ai_response(body).unwrap_err();
    assert_eq!(error.kind, ErrorKind::ShapeMismatch);
    assert_eq!(error.message, "Failed to get AI response: {\"candidates\":[]}");
}

#[test]
fn envelope_that_is_no_json_is_a_decode_failure() {
    let body = "<html>busy</html>";
    let error = decode_ai_response(body).unwrap_err();
    assert_eq!(error.kind, ErrorKind::Decode);
    assert_eq!(
        error.message,
        format!("Failed to deserialize AI response: {}", parse_failure(body))
    );
}

#[test]
fn empty_body_is_a_decode_failure() {
    let error = decode_ai_response("").unwrap_err();
    assert_eq!(error.kind, ErrorKind::Decode);
    assert_eq!(
        error.message,
        "Failed to deserialize AI response: EOF while parsing a value at line 1 column 0"
    );
}

#[test]
fn generated_text_that_is_no_string_is_an_unresolved_type() {
    let body = "{\"candidates\":[{\"content\":{\"parts\":[{\"text\":42}]}}]}";
    let error = decode_ai_response(body).unwrap_err();
    assert_eq!(error.kind, ErrorKind::UnresolvedType);
    assert_eq!(error.message, "Failed to read generated text: not a string");
}

#[test]
fn generated_text_that_is_no_json_is_a_decode_failure() {
    let error = decode_ai_response(&envelope_around("Did you know?")).unwrap_err();
    assert_eq!(error.kind, ErrorKind::Decode);
    assert_eq!(
        error.message,
        format!("Failed to decode generated fact: {}", parse_failure("Did you know?"))
    );
}

#[test]
fn generated_text_without_a_field_is_a_shape_mismatch() {
    let inner = "{\"title\":\"T\",\"content\":\"X\"}";
    let error = decode_ai_response(&envelope_around(inner)).unwrap_err();
    assert_eq!(error.kind, ErrorKind::ShapeMismatch);
    assert_eq!(error.message, "Failed to decode generated fact: missing field `category`");
}

#[test]
fn generated_text_with_a_mistyped_field_is_a_shape_mismatch() {
    let inner = "{\"title\":\"T\",\"category\":\"C\",\"content\":[\"X\"]}";
    let error = decode_ai_response(&envelope_around(inner)).unwrap_err();
    assert_eq!(error.kind, ErrorKind::ShapeMismatch);
    assert_eq!(error.message, "Failed to decode generated fact: field `content` is not a string");
}

#[test]
fn outer_and_inner_failures_have_different_messages() {
    let outer = decode_ai_response("x").unwrap_err();
    let inner = decode_ai_response(&envelope_around("x")).unwrap_err();
    assert_eq!(outer.kind, ErrorKind::Decode);
    assert_eq!(inner.kind, ErrorKind::Decode);
    assert_eq!(outer.message, "Failed to deserialize AI response: expected value at line 1 column 1");
    assert_eq!(inner.message, "Failed to decode generated fact: expected value at line 1 column 1");
    assert_ne!(outer.message, inner.message);
}

#[test]
fn every_failure_of_the_response_has_a_message_of_its_own() {
    let bodies = vec![
        "x".to_string(),
        "{\"candidates\":[]}".to_string(),
        "{\"candidates\":[{\"content\":{\"parts\":[{\"text\":1}]}}]}".to_string(),
        envelope_around("x"),
        envelope_around("{}"),
    ];
    let messages: Vec<String> =
        bodies.iter().map(|body| decode_ai_response(body).unwrap_err().message).collect();
    for (index, message) in messages.iter().enumerate() {
        for other in &messages[index + 1..] {
            assert_ne!(message, other);
        }
    }
    let leads = [
        "Failed to deserialize AI response: ",
        "Failed to get AI response: ",
        "Failed to read generated text: ",
        "Failed to decode generated fact: ",
        "Failed to decode generated fact: ",
    ];
    for (message, lead) in messages.iter().zip(leads) {
        assert!(message.starts_with(lead), "{}", message);
    }
}

#[test]
fn only_the_first_candidate_and_part_count() {
    let body = "{\"candidates\":[{\"content\":{\"parts\":[{\"text\":\"{\\\"title\\\":\\\"1\\\",\\\"category\\\":\\\"2\\\",\\\"content\\\":\\\"3\\\"}\"},{\"text\":\"other\"}]}},{\"content\":null}]}";
    let fact = decode_ai_response(body).unwrap();
    assert_eq!(fact.title, "1");
    assert_eq!(fact.category, "2");
    assert_eq!(fact.content, "3");
}

#[test]
fn extract_finds_the_text_under_the_path() {
    let text = extract_generated_text(ENVELOPE, &parse(ENVELOPE)).unwrap();
    assert_eq!(text, "{\"title\":\"T\",\"category\":\"C\",\"content\":\"X\"}");
}

#[test]
fn extract_reports_the_raw_body_when_the_path_is_missing() {
    let body = "{ \"error\": { \"code\": 429 } }";
    let error = extract_generated_text(body, &parse(body)).unwrap_err();
    assert_eq!(error.kind, ErrorKind::ShapeMismatch);
    assert_eq!(error.message, format!("Failed to get AI response: {}", body));
}

#[test]
fn extract_rejects_a_top_level_string() {
    let body = "\"text\"";
    let error = extract_generated_text(body, &parse(body)).unwrap_err();
    assert_eq!(error.kind, ErrorKind::ShapeMismatch);
}

#[test]
fn fact_ignores_other_members() {
    let fact = decode_fact("{\"content\":\"X\",\"extra\":1,\"category\":\"C\",\"title\":\"T\"}").unwrap();
    assert_eq!(
        fact,
        AiResponse { title: "T".to_string(), category: "C".to_string(), content: "X".to_string() }
    );
}

#[test]
fn fact_keeps_escaped_and_foreign_characters() {
    let fact = decode_fact("{\"title\":\"a\\\"b\",\"category\":\"Größe\",\"content\":\"line\\nbreak\"}")
        .unwrap();
    assert_eq!(fact.title, "a\"b");
    assert_eq!(fact.category, "Größe");
    assert_eq!(fact.content, "line\nbreak");
}

#[test]
fn fact_reports_the_first_missing_field() {
    let error = decode_fact("{}").unwrap_err();
    assert_eq!(error.kind, ErrorKind::ShapeMismatch);
    assert_eq!(error.message, "Failed to decode generated fact: missing field `title`");
}

#[test]
fn fact_from_something_that_is_no_object_is_a_shape_mismatch() {
    for text in ["[\"T\",\"C\",\"X\"]", "\"T\"", "1", "null", "true"] {
        let error = decode_fact(text).unwrap_err();
        assert_eq!(error.kind, ErrorKind::ShapeMismatch, "{}", text);
        assert_eq!(error.message, "Failed to decode generated fact: missing field `title`");
    }
}

#[test]
fn fact_from_a_document_reads_its_members() {
    let document = parse("{\"title\":\"T\",\"category\":\"C\",\"content\":\"X\"}");
    let fact = AiResponse::from_document(&document).unwrap();
    assert_eq!(fact.title, "T");
    assert_eq!(fact.category, "C");
    assert_eq!(fact.content, "X");
}

#[test]
fn read_field_tells_missing_from_mistyped() {
    let document = parse("{\"a\":\"text\",\"b\":null}");
    assert_eq!(read_field(&document, "a").unwrap(), "text");
    let mistyped = read_field(&document, "b").unwrap_err();
    assert_eq!(mistyped.kind, ErrorKind::ShapeMismatch);
    assert_eq!(mistyped.message, "Failed to decode generated fact: field `b` is not a string");
    let missing = read_field(&document, "c").unwrap_err();
    assert_eq!(missing.kind, ErrorKind::ShapeMismatch);
    assert_eq!(missing.message, "Failed to decode generated fact: missing field `c`");
}
