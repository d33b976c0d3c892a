//! Response decoding.  Each primitive takes the chat round trip's result
//! and turns it into its typed value, or into its own error kind: a chat
//! failure is carried through, a missing object, a missing or ill-shaped
//! field, and an unknown label each get their own kind.

use vstd::prelude::*;
use crate::errors::{ClassifyError, ChatError, ErrorKind, GenerateTextError, ParseError,
    ScoreIntError};
use crate::json::{json_text_of, obj_get_i64, obj_get_str, obj_has_key, obj_keys, obj_int_fields,
    obj_str_fields, obj_to_text};
use crate::labels::{label_num, label_to_index, label_wf, spec_label};
use crate::messages::Message;

verus! {

/// Whether a label names one of the first `count` choices: it is well
/// formed and its value is between 1 and `count`.
pub open spec fn label_selects(l: Seq<char>, count: int) -> bool {
    label_wf(l) && 1 <= label_num(l) <= count
}

/// Decodes a `classify` reply into the zero-based index of the chosen
/// label, among `num_choices` choices.
pub fn classify_decode(reply: Result<Message, ChatError>, num_choices: usize) -> (r: Result<
    usize,
    ClassifyError,
>)
    ensures
        reply matches Err(e) ==> (r matches Err(ce) && ce.kind == e.kind && ce.message == e.message),
        reply matches Ok(msg) ==> msg.obj is None ==> (r matches Err(ce)
            && ce.kind == ErrorKind::MissingObject
            && ce.message@ == "Object not found in response"@),
        reply matches Ok(msg) ==> msg.obj matches Some(m) ==> obj_str_fields(m).contains_key(
            "classification"@,
        ) && label_selects(obj_str_fields(m)["classification"@], num_choices as int) ==> (r matches
            Ok(i) && i as int == label_num(obj_str_fields(m)["classification"@]) - 1),
        reply matches Ok(msg) ==> msg.obj matches Some(m) ==> obj_str_fields(m).contains_key(
            "classification"@,
        ) && !label_selects(obj_str_fields(m)["classification"@], num_choices as int) ==> (r matches
            Err(ce) && ce.kind == ErrorKind::InvalidChoice
            && ce.message@ == "Invalid classification: "@ + obj_str_fields(m)["classification"@]),
        reply matches Ok(msg) ==> msg.obj matches Some(m) ==> !obj_str_fields(m).contains_key(
            "classification"@,
        ) && obj_keys(m).contains("classification"@) ==> (r matches Err(ce)
            && ce.kind == ErrorKind::WrongType
            && ce.message@ == "Classification not found in response"@),
        reply matches Ok(msg) ==> msg.obj matches Some(m) ==> !obj_str_fields(m).contains_key(
            "classification"@,
        ) && !obj_keys(m).contains("classification"@) ==> (r matches Err(ce)
            && ce.kind == ErrorKind::MissingField
            && ce.message@ == "Classification not found in response"@),
{
    match reply {
        Err(e) => Err(ClassifyError { kind: e.kind, message: e.message }),
        Ok(msg) => match msg.obj {
            None => Err(
                ClassifyError {
                    kind: ErrorKind::MissingObject,
                    message: String::from_str("Object not found in response"),
                },
            ),
            Some(m) => match obj_get_str(&m, "classification") {
                Some(label) => {
                    match label_to_index(label.as_str()) {
                        Some(i) if i < num_choices => Ok(i),
                        _ => {
                            let mut message = String::from_str("Invalid classification: ");
                            message.append(label.as_str());
                            Err(ClassifyError { kind: ErrorKind::InvalidChoice, message })
                        },
                    }
                },
                None => {
                    let kind = if obj_has_key(&m, "classification") {
                        ErrorKind::WrongType
                    } else {
                        ErrorKind::MissingField
                    };
                    Err(
                        ClassifyError {
                            kind,
                            message: String::from_str("Classification not found in response"),
                        },
                    )
                },
            },
        },
    }
}

/// The labels `binary_classify` decides between: `A`, the label of index 0,
/// stands for `true`; `B`, the label of index 1, for `false`.
pub proof fn lemma_binary_labels()
    ensures
        spec_label(0) == "A"@,
        spec_label(1) == "B"@,
        label_wf("A"@) && label_num("A"@) == 1,
        label_wf("B"@) && label_num("B"@) == 2,
{
    reveal_strlit("A");
    reveal_strlit("B");
    assert(spec_label(0) =~= "A"@);
    assert(spec_label(1) =~= "B"@);
    crate::labels::lemma_label_round_trip(0);
    crate::labels::lemma_label_round_trip(1);
}

/// Decodes a `binary_classify` reply: the reply is `classify`'s over the
/// choices `true`, `false`, and the result is `true` exactly when the model
/// chose the first of them, the label of value 1.
pub fn binary_classify_decode(reply: Result<Message, ChatError>) -> (r: Result<
    bool,
    ClassifyError,
>)
    ensures
        reply matches Err(e) ==> (r matches Err(ce) && ce.kind == e.kind && ce.message == e.message),
        reply matches Ok(msg) ==> msg.obj is None ==> (r matches Err(ce)
            && ce.kind == ErrorKind::MissingObject
            && ce.message@ == "Object not found in response"@),
        reply matches Ok(msg) ==> msg.obj matches Some(m) ==> obj_str_fields(m).contains_key(
            "classification"@,
        ) && label_selects(obj_str_fields(m)["classification"@], 2) ==> (r matches Ok(b) && (b
            <==> label_num(obj_str_fields(m)["classification"@]) == 1)),
        reply matches Ok(msg) ==> msg.obj matches Some(m) ==> obj_str_fields(m).contains_key(
            "classification"@,
        ) && !label_selects(obj_str_fields(m)["classification"@], 2) ==> (r matches Err(ce)
            && ce.kind == ErrorKind::InvalidChoice),
        reply matches Ok(msg) ==> msg.obj matches Some(m) ==> !obj_str_fields(m).contains_key(
            "classification"@,
        ) ==> r is Err,
{
    match classify_decode(reply, 2) {
        Ok(i) => Ok(i == 0),
        Err(e) => Err(e),
    }
}

/// Decodes a `generate_text` reply: the raw content, returned as-is, with
/// no JSON interpretation attempted.
pub fn generate_text_decode(reply: Result<Message, ChatError>) -> (r: Result<
    String,
    GenerateTextError,
>)
    ensures
        reply matches Err(e) ==> (r matches Err(ge) && ge.kind == e.kind && ge.message == e.message),
        reply matches Ok(msg) ==> (r matches Ok(s) && s == msg.content),
{
    match reply {
        Err(e) => Err(GenerateTextError { kind: e.kind, message: e.message }),
        Ok(msg) => Ok(msg.content),
    }
}

/// Decodes a `score_int` reply: the `score` field, which must be an
/// integer-typed number held exactly by an `i64`; a fractional value is a
/// wrong shape, not truncated.  The declared bounds are never enforced
/// against the decoded value.
pub fn score_int_decode(reply: Result<Message, ChatError>) -> (r: Result<i64, ScoreIntError>)
    ensures
        reply matches Err(e) ==> (r matches Err(se) && se.kind == e.kind && se.message == e.message),
        reply matches Ok(msg) ==> msg.obj is None ==> (r matches Err(se)
            && se.kind == ErrorKind::MissingObject
            && se.message@ == "Object not found in response"@),
        reply matches Ok(msg) ==> msg.obj matches Some(m) ==> obj_int_fields(m).contains_key(
            "score"@,
        ) ==> (r matches Ok(v) && v as int == obj_int_fields(m)["score"@]),
        reply matches Ok(msg) ==> msg.obj matches Some(m) ==> !obj_int_fields(m).contains_key(
            "score"@,
        ) && obj_keys(m).contains("score"@) ==> (r matches Err(se)
            && se.kind == ErrorKind::WrongType && se.message@ == "Score not found in response"@),
        reply matches Ok(msg) ==> msg.obj matches Some(m) ==> !obj_int_fields(m).contains_key(
            "score"@,
        ) && !obj_keys(m).contains("score"@) ==> (r matches Err(se)
            && se.kind == ErrorKind::MissingField && se.message@ == "Score not found in response"@),
{
    match reply {
        Err(e) => Err(ScoreIntError { kind: e.kind, message: e.message }),
        Ok(msg) => match msg.obj {
            None => Err(
                ScoreIntError {
                    kind: ErrorKind::MissingObject,
                    message: String::from_str("Object not found in response"),
                },
            ),
            Some(m) => match obj_get_i64(&m, "score") {
                Some(v) => Ok(v),
                None => {
                    let kind = if obj_has_key(&m, "score") {
                        ErrorKind::WrongType
                    } else {
                        ErrorKind::MissingField
                    };
                    Err(
                        ScoreIntError {
                            kind,
                            message: String::from_str("Score not found in response"),
                        },
                    )
                },
            },
        },
    }
}

/// Decodes a `parse` reply down to the canonical JSON text of the decoded
/// object.  Deserializing that text strictly against the target type is the
/// caller's final step; when it fails the caller reports
/// [`ParseError::schema_mismatch`].
pub fn parse_decode(reply: Result<Message, ChatError>) -> (r: Result<String, ParseError>)
    ensures
        reply matches Err(e) ==> (r matches Err(pe) && pe.kind == e.kind && pe.message == e.message),
        reply matches Ok(msg) ==> msg.obj is None ==> (r matches Err(pe)
            && pe.kind == ErrorKind::MissingObject
            && pe.message@ == "Object not found in response"@),
        reply matches Ok(msg) ==> msg.obj matches Some(m) ==> (r matches Ok(s) && s@ == json_text_of(
            m,
        )),
{
    match reply {
        Err(e) => Err(ParseError { kind: e.kind, message: e.message }),
        Ok(msg) => match msg.obj {
            None => Err(
                ParseError {
                    kind: ErrorKind::MissingObject,
                    message: String::from_str("Object not found in response"),
                },
            ),
            Some(m) => Ok(obj_to_text(&m)),
        },
    }
}

} // verus!
