//! The typed chat message and the per-call generation options, independent
//! of any transport.

use vstd::prelude::*;
use crate::json::JsonObj;

verus! {

/// Who a chat message speaks as.
#[derive(Clone, Copy, Debug, PartialEq, Eq, Structural)]
pub enum MessageRole {
    System,
    Assistant,
    User,
}

/// The name a role carries on the wire.
pub open spec fn spec_role_name(role: MessageRole) -> Seq<char> {
    match role {
        MessageRole::System => "system"@,
        MessageRole::Assistant => "assistant"@,
        MessageRole::User => "user"@,
    }
}

/// Renders a role for the wire.
pub fn role_name(role: MessageRole) -> (r: &'static str)
    ensures
        r@ == spec_role_name(role),
{
    match role {
        MessageRole::System => "system",
        MessageRole::Assistant => "assistant",
        MessageRole::User => "user",
    }
}

/// One chat message.  `obj` is populated only for a reply whose caller asked
/// for structured output and whose content parsed as a JSON object.
#[derive(Debug)]
pub struct Message {
    pub role: MessageRole,
    pub content: String,
    pub obj: Option<JsonObj>,
}

/// A message as the wire request carries it: role name and content only.
pub struct WireMessage {
    pub role: String,
    pub content: String,
}

/// Projects messages onto their wire form, in order.
pub fn wire_messages(messages: &Vec<Message>) -> (r: Vec<WireMessage>)
    ensures
        r@.len() == messages@.len(),
        forall|i: int|
            0 <= i < r@.len() ==> #[trigger] r@[i].role@ == spec_role_name(messages@[i].role)
                && r@[i].content@ == messages@[i].content@,
{
    let mut out: Vec<WireMessage> = Vec::new();
    let n = messages.len();
    let mut i: usize = 0;
    while i < n
        invariant
            n == messages@.len(),
            i <= n,
            out@.len() == i,
            forall|j: int|
                0 <= j < i ==> #[trigger] out@[j].role@ == spec_role_name(messages@[j].role)
                    && out@[j].content@ == messages@[j].content@,
        decreases n - i,
    {
        let w = WireMessage {
            role: String::from_str(role_name(messages[i].role)),
            content: messages[i].content.clone(),
        };
        out.push(w);
        i = i + 1;
    }
    out
}

/// Per-call generation options.  Temperature is carried in thousandths of a
/// unit so that it stays a plain value; the transport divides by 1000 when
/// it builds the wire request.  The default is 0 (deterministic sampling)
/// with plain-text output.
#[derive(Clone, Copy, Debug, PartialEq, Eq, Structural)]
pub struct GenerateMessageOptions {
    pub temperature_milli: u64,
    pub force_json: bool,
}

/// Builder for [`GenerateMessageOptions`].
pub struct GenerateMessageOptionsBuilder {
    pub temperature_milli: u64,
    pub force_json: bool,
}

impl GenerateMessageOptionsBuilder {
    /// Starts from the defaults: temperature 0, plain-text output.
    pub fn new() -> (r: Self)
        ensures
            r.temperature_milli == 0,
            !r.force_json,
    {
        GenerateMessageOptionsBuilder { temperature_milli: 0, force_json: false }
    }

    /// Sets the sampling temperature, in thousandths.
    pub fn temperature(self, temperature_milli: u64) -> (r: Self)
        ensures
            r.temperature_milli == temperature_milli,
            r.force_json == self.force_json,
    {
        GenerateMessageOptionsBuilder { temperature_milli, ..self }
    }

    /// Sets whether the reply must be a single JSON object.
    pub fn force_json(self, force_json: bool) -> (r: Self)
        ensures
            r.temperature_milli == self.temperature_milli,
            r.force_json == force_json,
    {
        GenerateMessageOptionsBuilder { force_json, ..self }
    }

    /// Finishes the options value.
    pub fn build(&self) -> (r: GenerateMessageOptions)
        ensures
            r.temperature_milli == self.temperature_milli,
            r.force_json == self.force_json,
    {
        GenerateMessageOptions {
            temperature_milli: self.temperature_milli,
            force_json: self.force_json,
        }
    }
}

} // verus!
