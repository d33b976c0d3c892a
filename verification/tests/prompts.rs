use llm_primitives_rs::chat::{chat_url, response_format_name};
use llm_primitives_rs::errors::{ClassifyError, ErrorKind};
use llm_primitives_rs::messages::{
    role_name, wire_messages, GenerateMessageOptionsBuilder, MessageRole,
};
use llm_primitives_rs::numbers::{i64_to_dec, u64_to_dec};
use llm_primitives_rs::prompts::{
    binary_classify_request, classify_request, generate_text_request, parse_request,
    score_float_request, score_int_request,
};
use llm_primitives_rs::OpenAIModel;

#[test]
fn classify_request_builds_exact_messages() {
    let choices = vec![String::from("cats"), String::from("dogs")];
    let (messages, options) = classify_request("Pick the topic.", "meow", &choices);
    assert_eq!(messages.len(), 2);
    assert_eq!(messages[0].role, MessageRole::System);
    assert_eq!(
        messages[0].content,
        "Classify the following text with the provided instruction and choices. To classify, provide the key of the choice:\n{\"classification\": string}\n\nFor example, if the correct choice is 'Z. description of choice Z', then provide 'Z' as the classification as valid JSON:\n{\"classification\": \"Z\"}"
    );
    assert_eq!(
        messages[1].content,
        "Instruction:\nPick the topic.\n\nText:\nmeow\n\nChoices:\nA. cats\nB. dogs\n\nValid JSON:"
    );
    assert_eq!(messages[1].role, MessageRole::User);
    assert!(messages[0].obj.is_none());
    assert!(messages[1].obj.is_none());
    assert_eq!(options.temperature_milli, 0);
    assert!(options.force_json);
}

#[test]
fn classify_request_is_deterministic() {
    let choices = vec![String::from("x")];
    let (a, _) = classify_request("i", "t", &choices);
    let (b, _) = classify_request("i", "t", &choices);
    assert_eq!(a[0].content, b[0].content);
    assert_eq!(a[1].content, b[1].content);
}

#[test]
fn binary_classify_request_uses_true_false_choices() {
    let (messages, options) = binary_classify_request("Is it raining?", "drizzle");
    assert_eq!(
        messages[1].content,
        "Instruction:\nIs it raining?\n\nText:\ndrizzle\n\nChoices:\nA. true\nB. false\n\nValid JSON:"
    );
    assert!(options.force_json);
}

#[test]
fn generate_text_request_passes_texts_verbatim() {
    let (messages, options) = generate_text_request("Answer briefly.", "hello");
    assert_eq!(messages[0].role, MessageRole::System);
    assert_eq!(messages[0].content, "Answer briefly.");
    assert_eq!(messages[1].role, MessageRole::User);
    assert_eq!(messages[1].content, "hello");
    assert_eq!(options.temperature_milli, 0);
    assert!(!options.force_json);
}

#[test]
fn score_int_request_quotes_declared_range() {
    let (messages, options) = score_int_request("Rate politeness.", "thanks!", 1, 5);
    assert_eq!(
        messages[0].content,
        "Score the following text with the provided instruction and range as an integer value as valid JSON:\n{\"score\": int}"
    );
    assert_eq!(
        messages[1].content,
        "Instruction:\nRate politeness.\n\nText:\nthanks!\n\nRange:\n[1, 5]\n\nValid JSON:"
    );
    assert!(options.force_json);
}

#[test]
fn score_int_request_renders_negative_bounds() {
    let (messages, _) = score_int_request("Rate.", "t", -3, 7);
    assert_eq!(
        messages[1].content,
        "Instruction:\nRate.\n\nText:\nt\n\nRange:\n[-3, 7]\n\nValid JSON:"
    );
}

#[test]
fn score_float_request_embeds_rendered_bounds() {
    let (messages, options) = score_float_request("Rate.", "t", "0.5", "9.25");
    assert_eq!(
        messages[0].content,
        "Score the following text with the provided instruction and range as a float value as valid JSON:\n{\"score\": float}"
    );
    assert_eq!(
        messages[1].content,
        "Instruction:\nRate.\n\nText:\nt\n\nRange:\n[0.5, 9.25]\n\nValid JSON:"
    );
    assert!(options.force_json);
}

#[test]
fn parse_request_embeds_schema_verbatim() {
    let (messages, options) = parse_request("My street is 123 main st", "{\"type\":\"object\"}");
    assert_eq!(messages[0].content, "Parse the following text with the provided schema.");
    assert_eq!(
        messages[1].content,
        "Text:\nMy street is 123 main st\n\nSchema:\n{\"type\":\"object\"}\n\nValid JSON:"
    );
    assert!(options.force_json);
}

#[test]
fn options_builder_defaults_and_overrides() {
    let options = GenerateMessageOptionsBuilder::new().build();
    assert_eq!(options.temperature_milli, 0);
    assert!(!options.force_json);
    let options = GenerateMessageOptionsBuilder::new().temperature(700).force_json(true).build();
    assert_eq!(options.temperature_milli, 700);
    assert!(options.force_json);
}

#[test]
fn roles_carry_their_wire_names() {
    assert_eq!(role_name(MessageRole::System), "system");
    assert_eq!(role_name(MessageRole::Assistant), "assistant");
    assert_eq!(role_name(MessageRole::User), "user");
}

#[test]
fn wire_messages_project_role_and_content() {
    let (messages, _) = generate_text_request("a", "b");
    let wire = wire_messages(&messages);
    assert_eq!(wire.len(), 2);
    assert_eq!(wire[0].role, "system");
    assert_eq!(wire[0].content, "a");
    assert_eq!(wire[1].role, "user");
    assert_eq!(wire[1].content, "b");
}

#[test]
fn endpoint_url_and_response_formats() {
    assert_eq!(chat_url(), "https://api.openai.com/v1/chat/completions");
    assert_eq!(response_format_name(true), "json_object");
    assert_eq!(response_format_name(false), "text");
}

#[test]
fn decimal_rendering_known_values() {
    assert_eq!(u64_to_dec(0), "0");
    assert_eq!(u64_to_dec(7), "7");
    assert_eq!(u64_to_dec(10), "10");
    assert_eq!(u64_to_dec(1234567890), "1234567890");
    assert_eq!(u64_to_dec(u64::MAX), "18446744073709551615");
    assert_eq!(i64_to_dec(0), "0");
    assert_eq!(i64_to_dec(-1), "-1");
    assert_eq!(i64_to_dec(42), "42");
    assert_eq!(i64_to_dec(i64::MIN), "-9223372036854775808");
    assert_eq!(i64_to_dec(i64::MAX), "9223372036854775807");
}

#[test]
fn facade_keeps_its_configuration() {
    let model = OpenAIModel::new(String::from("gpt-4o"), String::from("key"));
    assert_eq!(model.model, "gpt-4o");
    assert_eq!(model.api_key, "key");
}

#[test]
fn error_display_text_prefixes_kind() {
    let e = ClassifyError {
        kind: ErrorKind::Transport,
        message: String::from("boom"),
    };
    assert_eq!(e.display_text(), "ClassifyError: boom");
}
