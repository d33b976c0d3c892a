//! The full `parse` flow as a caller runs it: the library decodes the reply
//! down to canonical JSON text, and the caller deserializes that text
//! strictly against the target's shape, reporting a schema mismatch when a
//! required field is absent.

use llm_primitives_rs::chat::{interpret_outcome, ChatOutcome};
use llm_primitives_rs::decode::parse_decode;
use llm_primitives_rs::errors::{ChatError, ErrorKind, ParseError};
use llm_primitives_rs::messages::{Message, MessageRole};

#[derive(Debug, PartialEq)]
struct Address {
    street: String,
    number: i64,
}

impl<'de> serde::Deserialize<'de> for Address {
    fn deserialize<D>(deserializer: D) -> Result<Address, D::Error>
    where
        D: serde::Deserializer<'de>,
    {
        let v = serde_json::Value::deserialize(deserializer)?;
        let street = v
            .get("street")
            .and_then(|s| s.as_str())
            .ok_or_else(|| serde::de::Error::custom("missing street"))?
            .to_string();
        let number = v
            .get("number")
            .and_then(|n| n.as_i64())
            .ok_or_else(|| serde::de::Error::custom("missing number"))?;
        Ok(Address { street, number })
    }
}

fn structured_reply(content: &str) -> Result<Message, ChatError> {
    interpret_outcome(
        ChatOutcome::Reply { role: MessageRole::Assistant, content: String::from(content) },
        true,
    )
}

fn parse_address(content: &str) -> Result<Address, ParseError> {
    match parse_decode(structured_reply(content)) {
        Err(e) => Err(e),
        Ok(canonical) => match serde_json::from_str::<Address>(&canonical) {
            Ok(value) => Ok(value),
            Err(_) => Err(ParseError::schema_mismatch()),
        },
    }
}

#[test]
fn parse_returns_value_matching_schema() {
    let r = parse_address("{\"street\": \"123 main st\", \"number\": 123}");
    assert_eq!(r.unwrap(), Address { street: String::from("123 main st"), number: 123 });
}

#[test]
fn parse_missing_required_field_is_schema_mismatch() {
    let e = parse_address("{\"street\": \"x\"}").unwrap_err();
    assert_eq!(e.kind, ErrorKind::SchemaMismatch);
    assert_eq!(e.message, "Failed to parse response");
}

#[test]
fn parse_extra_input_noise_still_decodes_object() {
    let e = parse_address("not an object").unwrap_err();
    assert_eq!(e.kind, ErrorKind::StructuredDecode);
}
