//! The chat-backend boundary.  The transport performs one network round
//! trip per call and reports what happened as a plain [`ChatOutcome`]; this
//! module turns that outcome into the reply message the decoders consume,
//! or into a [`ChatError`].

use vstd::prelude::*;
use crate::errors::{ChatError, ErrorKind};
use crate::json::{parse_object, parses_as_object};
use crate::messages::{Message, MessageRole};

verus! {

/// What one chat round trip came to, as the transport hands it back.
pub enum ChatOutcome {
    /// The request never got a response; the message renders the underlying
    /// network failure.
    NetworkFailure { message: String },
    /// The endpoint answered with a non-success status; `status` is the
    /// status line text and `body` the raw body text.
    HttpFailure { status: String, body: String },
    /// The endpoint answered with success but the body did not have the
    /// expected shape; the message renders the underlying decode failure.
    MalformedResponse { message: String },
    /// The endpoint answered with success but offered no candidate reply.
    NoChoice,
    /// The first candidate reply, with its role and raw content.
    Reply { role: MessageRole, content: String },
}

/// The message a failed HTTP status surfaces: the status, a separator, the
/// raw body text.
pub open spec fn transport_text(status: Seq<char>, body: Seq<char>) -> Seq<char> {
    status + ": "@ + body
}

/// Turns a transport outcome into the reply message, enforcing the
/// structured-output contract: when `force_json` was requested the reply
/// content must parse as one JSON object, which is kept as `obj`; content
/// that does not parse is a terminal decode failure, distinct from any
/// later per-primitive validation.
pub fn interpret_outcome(outcome: ChatOutcome, force_json: bool) -> (r: Result<
    Message,
    ChatError,
>)
    ensures
        outcome matches ChatOutcome::NetworkFailure { message } ==> (r matches Err(e)
            && e.kind == ErrorKind::Transport && e.message == message),
        outcome matches ChatOutcome::HttpFailure { status, body } ==> (r matches Err(e)
            && e.kind == ErrorKind::Transport && e.message@ == transport_text(status@, body@)),
        outcome matches ChatOutcome::MalformedResponse { message } ==> (r matches Err(e)
            && e.kind == ErrorKind::StructuredDecode
            && e.message@ == "Failed to parse response, error: "@ + message@),
        outcome matches ChatOutcome::NoChoice ==> (r matches Err(e)
            && e.kind == ErrorKind::Transport
            && e.message@ == "Choice not found in response"@),
        outcome matches ChatOutcome::Reply { role, content } ==> !force_json ==> (r matches Ok(msg)
            && msg.role == role && msg.content == content && msg.obj is None),
        outcome matches ChatOutcome::Reply { role, content } ==> force_json && parses_as_object(
            content@,
        ) ==> (r matches Ok(msg) && msg.role == role && msg.content == content && msg.obj is Some),
        outcome matches ChatOutcome::Reply { content, .. } ==> force_json && !parses_as_object(
            content@,
        ) ==> (r matches Err(e) && e.kind == ErrorKind::StructuredDecode
            && e.message@ == "Failed to parse response"@),
{
    match outcome {
        ChatOutcome::NetworkFailure { message } => Err(
            ChatError { kind: ErrorKind::Transport, message },
        ),
        ChatOutcome::HttpFailure { status, body } => {
            let mut message = status;
            message.append(": ");
            message.append(body.as_str());
            Err(ChatError { kind: ErrorKind::Transport, message })
        },
        ChatOutcome::MalformedResponse { message } => {
            let mut full = String::from_str("Failed to parse response, error: ");
            full.append(message.as_str());
            Err(ChatError { kind: ErrorKind::StructuredDecode, message: full })
        },
        ChatOutcome::NoChoice => Err(
            ChatError {
                kind: ErrorKind::Transport,
                message: String::from_str("Choice not found in response"),
            },
        ),
        ChatOutcome::Reply { role, content } => {
            if force_json {
                match parse_object(content.as_str()) {
                    Some(obj) => Ok(Message { role, content, obj: Some(obj) }),
                    None => Err(
                        ChatError {
                            kind: ErrorKind::StructuredDecode,
                            message: String::from_str("Failed to parse response"),
                        },
                    ),
                }
            } else {
                Ok(Message { role, content, obj: None })
            }
        },
    }
}

/// The response-format selector the wire request carries: constrained JSON
/// output when the caller forces a structured reply, plain text otherwise.
pub fn response_format_name(force_json: bool) -> (r: &'static str)
    ensures
        force_json ==> r@ == "json_object"@,
        !force_json ==> r@ == "text"@,
{
    if force_json {
        "json_object"
    } else {
        "text"
    }
}

/// The chat-completion endpoint's full URL.
pub fn chat_url() -> (r: String)
    ensures
        r@ == "https://"@ + crate::OPENAI_API_BASE@ + crate::OPENAI_API_CHAT_ENDPOINT@,
{
    let mut out = String::from_str("https://");
    out.append(crate::OPENAI_API_BASE);
    out.append(crate::OPENAI_API_CHAT_ENDPOINT);
    out
}

} // verus!
