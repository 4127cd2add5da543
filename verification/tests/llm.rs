use backend_bro::helpers::text::quote_optional;
use backend_bro::models::general::llm::{read_completion, text_in_envelope, CompletionError};

const ENVELOPE: &str = r#"{"candidates":[{"content":{"parts":[{"text":"Hello there"}],"role":"model"},"finishReason":"STOP"}],"usageMetadata":{"promptTokenCount":4}}"#;

#[test]
fn completion_is_read_from_the_envelope() {
    assert_eq!(read_completion(200, ENVELOPE), Ok("Hello there".to_string()));
}

#[test]
fn completion_body_is_trimmed_first() {
    let body = format!("  \n{}\n\t ", ENVELOPE);
    assert_eq!(read_completion(200, &body), Ok("Hello there".to_string()));
    assert_eq!(
        read_completion(500, "  overloaded \n"),
        Err(CompletionError::Transport("API error: overloaded".to_string()))
    );
}

#[test]
fn completion_takes_the_first_candidate_and_part() {
    let body = r#"{"candidates":[{"content":{"parts":[{"text":"one"},{"text":"two"}]}},{"content":{"parts":[{"text":"three"}]}}]}"#;
    assert_eq!(read_completion(200, body), Ok("one".to_string()));
}

#[test]
fn completion_text_may_be_empty_or_escaped() {
    let body = r#"{"candidates":[{"content":{"parts":[{"text":""}]}}]}"#;
    assert_eq!(read_completion(200, body), Ok(String::new()));
    let body = r#"{"candidates":[{"content":{"parts":[{"text":"a\n\"b\" é"}]}}]}"#;
    assert_eq!(read_completion(200, body), Ok("a\n\"b\" é".to_string()));
}

#[test]
fn completion_with_any_success_status() {
    assert_eq!(read_completion(299, ENVELOPE), Ok("Hello there".to_string()));
    assert_eq!(read_completion(204, ENVELOPE), Ok("Hello there".to_string()));
}

#[test]
fn completion_with_a_failure_status_is_a_transport_error() {
    for status in [0u16, 199, 300, 401, 404, 500, 65535] {
        assert_eq!(
            read_completion(status, ENVELOPE),
            Err(CompletionError::Transport(format!("API error: {}", ENVELOPE)))
        );
    }
}

#[test]
fn completion_of_another_shape_is_a_shape_error() {
    let shapes = [
        r#"{}"#,
        r#"[]"#,
        r#"null"#,
        r#""text""#,
        r#"{"candidates":[]}"#,
        r#"{"candidates":{"0":{"content":{"parts":[{"text":"x"}]}}}}"#,
        r#"{"candidates":[{"content":{"parts":[]}}]}"#,
        r#"{"candidates":[{"content":{"parts":[{"text":5}]}}]}"#,
        r#"{"candidates":[{"content":{"parts":[{"text":null}]}}]}"#,
        r#"{"candidates":[{"content":{"parts":[{"words":"x"}]}}]}"#,
        r#"{"candidates":[{"content":[{"parts":[{"text":"x"}]}]}]}"#,
        r#"{"candidate":[{"content":{"parts":[{"text":"x"}]}}]}"#,
        r#"{"error":{"code":400,"message":"API key not valid"}}"#,
    ];
    for body in shapes {
        assert_eq!(read_completion(200, body), Err(CompletionError::ResponseShape), "{}", body);
    }
}

#[test]
fn completion_that_is_no_json_is_a_shape_error() {
    for body in ["", "   ", "not json", "{\"candidates\":", "{} trailing"] {
        assert_eq!(read_completion(200, body), Err(CompletionError::ResponseShape), "{}", body);
    }
}

#[test]
fn completion_error_messages() {
    assert_eq!(CompletionError::Transport("API error: x".to_string()).message(), "API error: x");
    assert_eq!(CompletionError::Authentication.message(), "environment variable not found");
    assert_eq!(CompletionError::ResponseShape.message(), "Cannot parse API response");
}

#[test]
fn text_is_read_from_a_parsed_envelope() {
    let envelope: serde_json::Value = serde_json::from_str(ENVELOPE).unwrap();
    assert_eq!(text_in_envelope(&envelope), Some("Hello there".to_string()));
    let other: serde_json::Value =
        serde_json::from_str(r#"{"candidates":[{"content":{"parts":[{"text":7}]}}]}"#).unwrap();
    assert_eq!(text_in_envelope(&other), None);
    assert_eq!(text_in_envelope(&serde_json::Value::Null), None);
    assert_eq!(text_in_envelope(&serde_json::Value::Array(vec![])), None);
}

#[test]
fn optional_text_reads_as_the_debug_format_writes_it() {
    let texts = [
        None,
        Some(String::new()),
        Some("plain".to_string()),
        Some("two\nlines \"quoted\" \\ tab\t é".to_string()),
    ];
    for text in texts {
        assert_eq!(quote_optional(&text), format!("{:?}", text));
    }
    assert_eq!(quote_optional(&None), "None");
    assert_eq!(quote_optional(&Some("a\"b".to_string())), "Some(\"a\\\"b\")");
}
