use llm_primitives_rs::chat::{interpret_outcome, ChatOutcome};
use llm_primitives_rs::decode::{
    binary_classify_decode, classify_decode, generate_text_decode, parse_decode, score_int_decode,
};
use llm_primitives_rs::errors::{ChatError, ErrorKind, ParseError};
use llm_primitives_rs::messages::{Message, MessageRole};

fn reply(content: &str, force_json: bool) -> Result<Message, ChatError> {
    interpret_outcome(
        ChatOutcome::Reply { role: MessageRole::Assistant, content: String::from(content) },
        force_json,
    )
}

#[test]
fn binary_classify_true_on_label_a() {
    let r = binary_classify_decode(reply("{\"classification\": \"A\"}", true));
    assert_eq!(r.unwrap(), true);
}

#[test]
fn binary_classify_false_on_label_b() {
    let r = binary_classify_decode(reply("{\"classification\": \"B\"}", true));
    assert_eq!(r.unwrap(), false);
}

#[test]
fn binary_classify_rejects_other_labels() {
    let e = binary_classify_decode(reply("{\"classification\": \"C\"}", true)).unwrap_err();
    assert_eq!(e.kind, ErrorKind::InvalidChoice);
    assert_eq!(e.message, "Invalid classification: C");
    let e = binary_classify_decode(reply("{\"classification\": \"a\"}", true)).unwrap_err();
    assert_eq!(e.kind, ErrorKind::InvalidChoice);
}

#[test]
fn classify_picks_positional_index() {
    let r = classify_decode(reply("{\"classification\": \"B\"}", true), 3);
    assert_eq!(r.unwrap(), 1);
    let r = classify_decode(reply("{\"classification\": \"AA\"}", true), 30);
    assert_eq!(r.unwrap(), 26);
}

#[test]
fn classify_rejects_label_beyond_choice_set() {
    let e = classify_decode(reply("{\"classification\": \"D\"}", true), 3).unwrap_err();
    assert_eq!(e.kind, ErrorKind::InvalidChoice);
    assert_eq!(e.message, "Invalid classification: D");
}

#[test]
fn classify_missing_field() {
    let e = classify_decode(reply("{\"other\": 1}", true), 3).unwrap_err();
    assert_eq!(e.kind, ErrorKind::MissingField);
    assert_eq!(e.message, "Classification not found in response");
}

#[test]
fn classify_non_string_field_is_wrong_type() {
    let e = classify_decode(reply("{\"classification\": 3}", true), 3).unwrap_err();
    assert_eq!(e.kind, ErrorKind::WrongType);
    assert_eq!(e.message, "Classification not found in response");
}

#[test]
fn classify_without_object_is_missing_object() {
    let e = classify_decode(reply("{\"classification\": \"A\"}", false), 3).unwrap_err();
    assert_eq!(e.kind, ErrorKind::MissingObject);
    assert_eq!(e.message, "Object not found in response");
}

#[test]
fn score_int_reads_integral_score() {
    let r = score_int_decode(reply("{\"score\": 4}", true));
    assert_eq!(r.unwrap(), 4);
    let r = score_int_decode(reply("{\"score\": -12}", true));
    assert_eq!(r.unwrap(), -12);
}

#[test]
fn score_int_rejects_fractional_score() {
    let e = score_int_decode(reply("{\"score\": 4.5}", true)).unwrap_err();
    assert_eq!(e.kind, ErrorKind::WrongType);
    assert_eq!(e.message, "Score not found in response");
}

#[test]
fn score_int_missing_field() {
    let e = score_int_decode(reply("{\"points\": 4}", true)).unwrap_err();
    assert_eq!(e.kind, ErrorKind::MissingField);
    assert_eq!(e.message, "Score not found in response");
}

#[test]
fn score_int_non_numeric_is_wrong_type() {
    let e = score_int_decode(reply("{\"score\": \"high\"}", true)).unwrap_err();
    assert_eq!(e.kind, ErrorKind::WrongType);
}

#[test]
fn generate_text_returns_content_verbatim() {
    let r = generate_text_decode(reply("hello", false));
    assert_eq!(r.unwrap(), "hello");
}

#[test]
fn generate_text_leaves_json_uninterpreted() {
    let r = generate_text_decode(reply("{\"classification\": \"A\"}", false));
    assert_eq!(r.unwrap(), "{\"classification\": \"A\"}");
}

#[test]
fn unparsable_structured_reply_is_decode_error() {
    let e = reply("not json at all", true).unwrap_err();
    assert_eq!(e.kind, ErrorKind::StructuredDecode);
    assert_eq!(e.message, "Failed to parse response");
}

#[test]
fn json_array_reply_is_not_an_object() {
    let e = reply("[1, 2, 3]", true).unwrap_err();
    assert_eq!(e.kind, ErrorKind::StructuredDecode);
}

#[test]
fn http_failure_surfaces_status_and_body_everywhere() {
    let failed = || {
        interpret_outcome(
            ChatOutcome::HttpFailure {
                status: String::from("500 Internal Server Error"),
                body: String::from("server error"),
            },
            true,
        )
    };
    let expected = "500 Internal Server Error: server error";

    let e = classify_decode(failed(), 3).unwrap_err();
    assert_eq!(e.kind, ErrorKind::Transport);
    assert_eq!(e.message, expected);

    let e = binary_classify_decode(failed()).unwrap_err();
    assert_eq!(e.kind, ErrorKind::Transport);
    assert_eq!(e.message, expected);

    let e = generate_text_decode(failed()).unwrap_err();
    assert_eq!(e.kind, ErrorKind::Transport);
    assert_eq!(e.message, expected);

    let e = score_int_decode(failed()).unwrap_err();
    assert_eq!(e.kind, ErrorKind::Transport);
    assert_eq!(e.message, expected);

    let e = parse_decode(failed()).unwrap_err();
    assert_eq!(e.kind, ErrorKind::Transport);
    assert_eq!(e.message, expected);
}

#[test]
fn network_failure_is_transport_error() {
    let outcome = ChatOutcome::NetworkFailure { message: String::from("connection refused") };
    let e = interpret_outcome(outcome, false).unwrap_err();
    assert_eq!(e.kind, ErrorKind::Transport);
    assert_eq!(e.message, "connection refused");
}

#[test]
fn empty_candidate_list_is_an_error() {
    let e = interpret_outcome(ChatOutcome::NoChoice, true).unwrap_err();
    assert_eq!(e.kind, ErrorKind::Transport);
    assert_eq!(e.message, "Choice not found in response");
}

#[test]
fn malformed_response_body_is_decode_error() {
    let outcome = ChatOutcome::MalformedResponse { message: String::from("missing field") };
    let e = interpret_outcome(outcome, true).unwrap_err();
    assert_eq!(e.kind, ErrorKind::StructuredDecode);
    assert_eq!(e.message, "Failed to parse response, error: missing field");
}

#[test]
fn parse_decode_yields_canonical_object_text() {
    let r = parse_decode(reply("{\"street\": \"123 main st\", \"number\": 123}", true));
    let text = r.unwrap();
    assert_eq!(text, "{\"number\":123,\"street\":\"123 main st\"}");

    let round: serde_json::Value = serde_json::from_str(&text).unwrap();
    let mut expected = serde_json::Map::new();
    expected.insert(String::from("street"), serde_json::Value::from("123 main st"));
    expected.insert(String::from("number"), serde_json::Value::from(123i64));
    assert_eq!(round, serde_json::Value::Object(expected));
}

#[test]
fn parse_decode_missing_object() {
    let e = parse_decode(reply("{\"street\": \"x\"}", false)).unwrap_err();
    assert_eq!(e.kind, ErrorKind::MissingObject);
}

#[test]
fn schema_mismatch_error_shape() {
    let e = ParseError::schema_mismatch();
    assert_eq!(e.kind, ErrorKind::SchemaMismatch);
    assert_eq!(e.message, "Failed to parse response");
    assert_eq!(e.display_text(), "ParseError: Failed to parse response");
}
