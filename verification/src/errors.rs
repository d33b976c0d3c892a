//! The error taxonomy.  Every failure a primitive returns carries the kind
//! of condition it arose from and a human-readable message.

use vstd::prelude::*;

verus! {

/// What went wrong, across all primitives.
#[derive(Clone, Copy, Debug, PartialEq, Eq, Structural)]
pub enum ErrorKind {
    /// Non-success status or network failure at the chat-backend boundary.
    Transport,
    /// A structured reply was requested but its content was not valid JSON.
    StructuredDecode,
    /// A primitive required a decoded object but none was produced.
    MissingObject,
    /// An expected field (`classification` or `score`) is absent.
    MissingField,
    /// An expected field is present but of the wrong shape.
    WrongType,
    /// A classification label outside the known set for this call.
    InvalidChoice,
    /// The parse target's deserialization failed against its schema.
    SchemaMismatch,
}

/// Failure of the chat backend itself, before any primitive-level decoding.
#[derive(Debug)]
pub struct ChatError {
    pub kind: ErrorKind,
    pub message: String,
}

/// Failure of `classify` or `binary_classify`.
#[derive(Debug)]
pub struct ClassifyError {
    pub kind: ErrorKind,
    pub message: String,
}

/// Failure of `generate_text`.
#[derive(Debug)]
pub struct GenerateTextError {
    pub kind: ErrorKind,
    pub message: String,
}

/// Failure of `score_float`.
#[derive(Debug)]
pub struct ScoreFloatError {
    pub kind: ErrorKind,
    pub message: String,
}

/// Failure of `score_int`.
#[derive(Debug)]
pub struct ScoreIntError {
    pub kind: ErrorKind,
    pub message: String,
}

/// Failure of `parse`.
#[derive(Debug)]
pub struct ParseError {
    pub kind: ErrorKind,
    pub message: String,
}

impl ChatError {
    /// One-line rendering, in place of a `Display` implementation.
    pub fn display_text(&self) -> (r: String)
        ensures
            r@ == "ChatError: "@ + self.message@,
    {
        let mut out = String::from_str("ChatError: ");
        out.append(self.message.as_str());
        out
    }
}

impl ClassifyError {
    /// One-line rendering, in place of a `Display` implementation.
    pub fn display_text(&self) -> (r: String)
        ensures
            r@ == "ClassifyError: "@ + self.message@,
    {
        let mut out = String::from_str("ClassifyError: ");
        out.append(self.message.as_str());
        out
    }
}

impl GenerateTextError {
    /// One-line rendering, in place of a `Display` implementation.
    pub fn display_text(&self) -> (r: String)
        ensures
            r@ == "GenerateTextError: "@ + self.message@,
    {
        let mut out = String::from_str("GenerateTextError: ");
        out.append(self.message.as_str());
        out
    }
}

impl ScoreFloatError {
    /// One-line rendering, in place of a `Display` implementation.
    pub fn display_text(&self) -> (r: String)
        ensures
            r@ == "ScoreFloatError: "@ + self.message@,
    {
        let mut out = String::from_str("ScoreFloatError: ");
        out.append(self.message.as_str());
        out
    }
}

impl ScoreIntError {
    /// One-line rendering, in place of a `Display` implementation.
    pub fn display_text(&self) -> (r: String)
        ensures
            r@ == "ScoreIntError: "@ + self.message@,
    {
        let mut out = String::from_str("ScoreIntError: ");
        out.append(self.message.as_str());
        out
    }
}

impl ParseError {
    /// One-line rendering, in place of a `Display` implementation.
    pub fn display_text(&self) -> (r: String)
        ensures
            r@ == "ParseError: "@ + self.message@,
    {
        let mut out = String::from_str("ParseError: ");
        out.append(self.message.as_str());
        out
    }

    /// The error `parse` reports when the decoded object does not fit the
    /// target's schema.
    pub fn schema_mismatch() -> (r: Self)
        ensures
            r.kind == ErrorKind::SchemaMismatch,
            r.message@ == "Failed to parse response"@,
    {
        ParseError {
            kind: ErrorKind::SchemaMismatch,
            message: String::from_str("Failed to parse response"),
        }
    }
}

} // verus!
