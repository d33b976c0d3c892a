//! Prompt construction.  Each primitive's arguments map deterministically
//! onto a two-message sequence (system contract, user payload) plus the
//! generation options for the call; identical inputs give byte-identical
//! message content.

use vstd::prelude::*;
use crate::labels::{choices_display, display_choices};
use crate::messages::{
    GenerateMessageOptions, GenerateMessageOptionsBuilder, Message, MessageRole,
};
use crate::numbers::{i64_to_dec, spec_int_text};

verus! {

/// The system contract for `classify`: reply with the chosen label as a
/// one-field JSON object, with a worked example.
pub open spec fn classify_system_text() -> Seq<char> {
    "Classify the following text with the provided instruction and choices. To classify, provide the key of the choice:\n{\"classification\": string}\n\nFor example, if the correct choice is 'Z. description of choice Z', then provide 'Z' as the classification as valid JSON:\n{\"classification\": \"Z\"}"@
}

/// The user payload for `classify`: instruction, text and the labelled
/// choice listing.
pub open spec fn classify_user_text(
    instruction: Seq<char>,
    text: Seq<char>,
    choices: Seq<Seq<char>>,
) -> Seq<char> {
    "Instruction:\n"@ + instruction + "\n\nText:\n"@ + text + "\n\nChoices:\n"@ + choices_display(
        choices,
    ) + "\n\nValid JSON:"@
}

/// Builds the message sequence and options for `classify`.
pub fn classify_request(instruction: &str, text: &str, choices: &Vec<String>) -> (r: (
    Vec<Message>,
    GenerateMessageOptions,
))
    ensures
        r.0@.len() == 2,
        r.0@[0].role == MessageRole::System,
        r.0@[0].content@ == classify_system_text(),
        r.0@[0].obj is None,
        r.0@[1].role == MessageRole::User,
        r.0@[1].content@ == classify_user_text(instruction@, text@, choices.deep_view()),
        r.0@[1].obj is None,
        r.1 == (GenerateMessageOptions { temperature_milli: 0, force_json: true }),
{
    let display = display_choices(choices);
    let mut user = String::from_str("Instruction:\n");
    user.append(instruction);
    user.append("\n\nText:\n");
    user.append(text);
    user.append("\n\nChoices:\n");
    user.append(display.as_str());
    user.append("\n\nValid JSON:");
    proof {
        assert(user@ =~= classify_user_text(instruction@, text@, choices.deep_view()));
    }
    let system = String::from_str(
        "Classify the following text with the provided instruction and choices. To classify, provide the key of the choice:\n{\"classification\": string}\n\nFor example, if the correct choice is 'Z. description of choice Z', then provide 'Z' as the classification as valid JSON:\n{\"classification\": \"Z\"}",
    );
    let mut messages: Vec<Message> = Vec::new();
    messages.push(Message { role: MessageRole::System, content: system, obj: None });
    messages.push(Message { role: MessageRole::User, content: user, obj: None });
    let options = GenerateMessageOptionsBuilder::new().temperature(0).force_json(true).build();
    (messages, options)
}

/// The two-element choice set `binary_classify` delegates to `classify`
/// with: label `A` stands for `true`, label `B` for `false`.
pub open spec fn binary_choices() -> Seq<Seq<char>> {
    seq!["true"@, "false"@]
}

/// Builds the message sequence and options for `binary_classify`: exactly
/// `classify` over the choices `true`, `false`.
pub fn binary_classify_request(instruction: &str, text: &str) -> (r: (
    Vec<Message>,
    GenerateMessageOptions,
))
    ensures
        r.0@.len() == 2,
        r.0@[0].role == MessageRole::System,
        r.0@[0].content@ == classify_system_text(),
        r.0@[0].obj is None,
        r.0@[1].role == MessageRole::User,
        r.0@[1].content@ == classify_user_text(instruction@, text@, binary_choices()),
        r.0@[1].obj is None,
        r.1 == (GenerateMessageOptions { temperature_milli: 0, force_json: true }),
{
    let mut choices: Vec<String> = Vec::new();
    choices.push(String::from_str("true"));
    choices.push(String::from_str("false"));
    proof {
        assert(choices.deep_view() =~= binary_choices());
    }
    classify_request(instruction, text, &choices)
}

/// Builds the message sequence and options for `generate_text`: the
/// instruction verbatim as the system message, the text verbatim as the
/// user message, no structured output.
pub fn generate_text_request(instruction: &str, text: &str) -> (r: (
    Vec<Message>,
    GenerateMessageOptions,
))
    ensures
        r.0@.len() == 2,
        r.0@[0].role == MessageRole::System,
        r.0@[0].content@ == instruction@,
        r.0@[0].obj is None,
        r.0@[1].role == MessageRole::User,
        r.0@[1].content@ == text@,
        r.0@[1].obj is None,
        r.1 == (GenerateMessageOptions { temperature_milli: 0, force_json: false }),
{
    let mut messages: Vec<Message> = Vec::new();
    messages.push(
        Message { role: MessageRole::System, content: String::from_str(instruction), obj: None },
    );
    messages.push(Message { role: MessageRole::User, content: String::from_str(text), obj: None });
    let options = GenerateMessageOptionsBuilder::new().temperature(0).force_json(false).build();
    (messages, options)
}

/// The system contract for `score_int`: reply with an integer score as a
/// one-field JSON object.
pub open spec fn score_int_system_text() -> Seq<char> {
    "Score the following text with the provided instruction and range as an integer value as valid JSON:\n{\"score\": int}"@
}

/// The system contract for `score_float`: reply with a float score as a
/// one-field JSON object.
pub open spec fn score_float_system_text() -> Seq<char> {
    "Score the following text with the provided instruction and range as a float value as valid JSON:\n{\"score\": float}"@
}

/// The user payload for the scoring primitives: instruction, text and the
/// declared range.  The range is informational only; the decoded score is
/// never checked against it.
pub open spec fn score_user_text(
    instruction: Seq<char>,
    text: Seq<char>,
    min_text: Seq<char>,
    max_text: Seq<char>,
) -> Seq<char> {
    "Instruction:\n"@ + instruction + "\n\nText:\n"@ + text + "\n\nRange:\n["@ + min_text + ", "@
        + max_text + "]\n\nValid JSON:"@
}

/// Builds the user payload shared by the scoring primitives, from bounds
/// already rendered as text.
fn score_user(instruction: &str, text: &str, min_text: &str, max_text: &str) -> (r: String)
    ensures
        r@ == score_user_text(instruction@, text@, min_text@, max_text@),
{
    let mut user = String::from_str("Instruction:\n");
    user.append(instruction);
    user.append("\n\nText:\n");
    user.append(text);
    user.append("\n\nRange:\n[");
    user.append(min_text);
    user.append(", ");
    user.append(max_text);
    user.append("]\n\nValid JSON:");
    proof {
        assert(user@ =~= score_user_text(instruction@, text@, min_text@, max_text@));
    }
    user
}

/// Builds the message sequence and options for `score_int`.  The declared
/// bounds appear only in the prompt text.
pub fn score_int_request(instruction: &str, text: &str, min_bound: i64, max_bound: i64) -> (r: (
    Vec<Message>,
    GenerateMessageOptions,
))
    ensures
        r.0@.len() == 2,
        r.0@[0].role == MessageRole::System,
        r.0@[0].content@ == score_int_system_text(),
        r.0@[0].obj is None,
        r.0@[1].role == MessageRole::User,
        r.0@[1].content@ == score_user_text(
            instruction@,
            text@,
            spec_int_text(min_bound as int),
            spec_int_text(max_bound as int),
        ),
        r.0@[1].obj is None,
        r.1 == (GenerateMessageOptions { temperature_milli: 0, force_json: true }),
{
    let min_text = i64_to_dec(min_bound);
    let max_text = i64_to_dec(max_bound);
    let user = score_user(instruction, text, min_text.as_str(), max_text.as_str());
    let system = String::from_str(
        "Score the following text with the provided instruction and range as an integer value as valid JSON:\n{\"score\": int}",
    );
    let mut messages: Vec<Message> = Vec::new();
    messages.push(Message { role: MessageRole::System, content: system, obj: None });
    messages.push(Message { role: MessageRole::User, content: user, obj: None });
    let options = GenerateMessageOptionsBuilder::new().temperature(0).force_json(true).build();
    (messages, options)
}

/// Builds the message sequence and options for `score_float`.  Float bounds
/// live with the transport, which renders them to text before this call;
/// the prompt embeds that text as given.
pub fn score_float_request(instruction: &str, text: &str, min_text: &str, max_text: &str) -> (r: (
    Vec<Message>,
    GenerateMessageOptions,
))
    ensures
        r.0@.len() == 2,
        r.0@[0].role == MessageRole::System,
        r.0@[0].content@ == score_float_system_text(),
        r.0@[0].obj is None,
        r.0@[1].role == MessageRole::User,
        r.0@[1].content@ == score_user_text(instruction@, text@, min_text@, max_text@),
        r.0@[1].obj is None,
        r.1 == (GenerateMessageOptions { temperature_milli: 0, force_json: true }),
{
    let user = score_user(instruction, text, min_text, max_text);
    let system = String::from_str(
        "Score the following text with the provided instruction and range as a float value as valid JSON:\n{\"score\": float}",
    );
    let mut messages: Vec<Message> = Vec::new();
    messages.push(Message { role: MessageRole::System, content: system, obj: None });
    messages.push(Message { role: MessageRole::User, content: user, obj: None });
    let options = GenerateMessageOptionsBuilder::new().temperature(0).force_json(true).build();
    (messages, options)
}

/// The system contract for `parse`.
pub open spec fn parse_system_text() -> Seq<char> {
    "Parse the following text with the provided schema."@
}

/// The user payload for `parse`: the input text and the target's rendered
/// JSON Schema, embedded verbatim.
pub open spec fn parse_user_text(text: Seq<char>, schema: Seq<char>) -> Seq<char> {
    "Text:\n"@ + text + "\n\nSchema:\n"@ + schema + "\n\nValid JSON:"@
}

/// Builds the message sequence and options for `parse`.  The schema text
/// comes from the schema provider for the target type and is embedded as
/// given.
pub fn parse_request(text: &str, schema: &str) -> (r: (Vec<Message>, GenerateMessageOptions))
    ensures
        r.0@.len() == 2,
        r.0@[0].role == MessageRole::System,
        r.0@[0].content@ == parse_system_text(),
        r.0@[0].obj is None,
        r.0@[1].role == MessageRole::User,
        r.0@[1].content@ == parse_user_text(text@, schema@),
        r.0@[1].obj is None,
        r.1 == (GenerateMessageOptions { temperature_milli: 0, force_json: true }),
{
    let mut user = String::from_str("Text:\n");
    user.append(text);
    user.append("\n\nSchema:\n");
    user.append(schema);
    user.append("\n\nValid JSON:");
    proof {
        assert(user@ =~= parse_user_text(text@, schema@));
    }
    let system = String::from_str("Parse the following text with the provided schema.");
    let mut messages: Vec<Message> = Vec::new();
    messages.push(Message { role: MessageRole::System, content: system, obj: None });
    messages.push(Message { role: MessageRole::User, content: user, obj: None });
    let options = GenerateMessageOptionsBuilder::new().temperature(0).force_json(true).build();
    (messages, options)
}

} // verus!
