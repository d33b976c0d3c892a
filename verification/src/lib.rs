//! Client-side protocol for a handful of natural-language primitives
//! (classification, free-text generation, bounded scoring, schema-guided
//! parsing) spoken against a remote chat-completion endpoint.
//!
//! The verified core is the prompt-construction and response-decoding
//! protocol: how a request becomes a deterministic message sequence, and how
//! the JSON object a model replies with becomes a typed value or a typed
//! error.  The network transport itself lives outside this crate and hands
//! its outcome back as plain values.

use vstd::prelude::*;

pub mod chat;
pub mod decode;
pub mod errors;
pub mod json;
pub mod labels;
pub mod messages;
pub mod numbers;
pub mod prompts;

verus! {

/// Name of the environment variable the transport reads its credential from.
pub const OPENAI_API_KEY_NAME: &'static str = "OPENAI_API_KEY";

/// Host and version prefix of the chat endpoint.
pub const OPENAI_API_BASE: &'static str = "api.openai.com/v1";

/// Path of the chat-completion endpoint.
pub const OPENAI_API_CHAT_ENDPOINT: &'static str = "/chat/completions";

/// Configuration a model facade carries for its whole lifetime: the target
/// model identifier and the bearer credential the transport presents.
pub struct OpenAIModel {
    pub model: String,
    pub api_key: String,
}

impl OpenAIModel {
    /// The credential is read from the environment by the caller that
    /// constructs the facade; misconfiguration is the caller's fatal error.
    pub fn new(model: String, api_key: String) -> (r: Self)
        ensures
            r.model == model,
            r.api_key == api_key,
    {
        OpenAIModel { model, api_key }
    }
}

} // verus!
