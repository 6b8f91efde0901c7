//! JSON documents, parsed and walked by `serde_json`.
//!
//! A parsed document stays a `serde_json::Value`. What the rest of the
//! crate knows of it is what stands at each JSON pointer (RFC 6901) that
//! leads into it.

use vstd::prelude::*;
use vstd::string::StringExecFns;
use crate::errors::{OracleError, OracleErrorKind};

verus! {

/// `serde_json::Value`: a parsed document, carried as it is.
#[verifier::external_type_specification]
#[verifier::external_body]
pub struct ExJsonValue(serde_json::Value);

/// What stands at one place of a document: which kind of value, and for
/// a text what it says, for a list how long it is.
#[derive(Debug)]
pub enum JsonNode {
    Null,
    Bool(bool),
    Number,
    Text(String),
    List(usize),
    Object,
}

/// What a node says.
pub enum JsonNodeView {
    Null,
    Bool(bool),
    Number,
    Text(Seq<char>),
    List(nat),
    Object,
}

impl View for JsonNode {
    type V = JsonNodeView;

    open spec fn view(&self) -> JsonNodeView {
        match self {
            JsonNode::Null => JsonNodeView::Null,
            JsonNode::Bool(b) => JsonNodeView::Bool(*b),
            JsonNode::Number => JsonNodeView::Number,
            JsonNode::Text(text) => JsonNodeView::Text(text@),
            JsonNode::List(length) => JsonNodeView::List(*length as nat),
            JsonNode::Object => JsonNodeView::Object,
        }
    }
}

/// What a parsed document holds: for each JSON pointer that leads to a
/// value in it, what stands there.
pub uninterp spec fn json_contents(document: serde_json::Value) -> Map<Seq<char>, JsonNodeView>;

/// What `serde_json::from_str` makes of a text: the contents of the
/// document that it parses to, or its report of why the text is no JSON.
pub uninterp spec fn json_of_text(text: Seq<char>) -> Result<
    Map<Seq<char>, JsonNodeView>,
    Seq<char>,
>;

/// Calls `serde_json::from_str` for a `serde_json::Value`, and `to_string`
/// on its error. Both the document and the report depend on the text
/// alone; they are only given names.
#[verifier::external_body]
fn value_from_text(text: &str) -> (r: Result<serde_json::Value, String>)
    ensures
        match r {
            Ok(document) => json_of_text(text@) == Ok::<Map<Seq<char>, JsonNodeView>, Seq<char>>(
                json_contents(document),
            ),
            Err(report) => json_of_text(text@) == Err::<Map<Seq<char>, JsonNodeView>, Seq<char>>(
                report@,
            ),
        },
{
    serde_json::from_str::<serde_json::Value>(text).map_err(|e| e.to_string())
}

/// Calls `serde_json::Value::pointer`, and tells the variants of the value
/// that it finds apart. `None` means that the pointer leads nowhere in
/// the document.
#[verifier::external_body]
fn node_at(document: &serde_json::Value, pointer: &str) -> (r: Option<JsonNode>)
    ensures
        r is Some <==> json_contents(*document).contains_key(pointer@),
        r matches Some(node) ==> node@ == json_contents(*document)[pointer@],
{
    Some(
        match document.pointer(pointer)? {
            serde_json::Value::Null => JsonNode::Null,
            serde_json::Value::Bool(b) => JsonNode::Bool(*b),
            serde_json::Value::Number(_) => JsonNode::Number,
            serde_json::Value::String(text) => JsonNode::Text(text.clone()),
            serde_json::Value::Array(items) => JsonNode::List(items.len()),
            serde_json::Value::Object(_) => JsonNode::Object,
        },
    )
}

/// The text at a pointer, if a text stands there.
pub open spec fn text_in(contents: Map<Seq<char>, JsonNodeView>, pointer: Seq<char>) -> Option<
    Seq<char>,
> {
    if contents.contains_key(pointer) {
        match contents[pointer] {
            JsonNodeView::Text(text) => Some(text),
            _ => None,
        }
    } else {
        None
    }
}

/// The length of the list at a pointer, if a list stands there.
pub open spec fn length_in(contents: Map<Seq<char>, JsonNodeView>, pointer: Seq<char>) -> Option<
    nat,
> {
    if contents.contains_key(pointer) {
        match contents[pointer] {
            JsonNodeView::List(length) => Some(length),
            _ => None,
        }
    } else {
        None
    }
}

/// What is wrong at a pointer where the expected kind of value does not
/// stand: nothing stands there, or something else.
pub open spec fn field_problem(contents: Map<Seq<char>, JsonNodeView>, pointer: Seq<char>) -> Seq<
    char,
> {
    if contents.contains_key(pointer) {
        "invalid type at field "@ + pointer
    } else {
        "missing field "@ + pointer
    }
}

fn problem_at(present: bool, pointer: &str) -> (r: OracleError)
    ensures
        r.says(
            OracleErrorKind::MalformedJson,
            if present {
                "invalid type at field "@ + pointer@
            } else {
                "missing field "@ + pointer@
            },
        ),
{
    let mut detail = if present {
        String::from_str("invalid type at field ")
    } else {
        String::from_str("missing field ")
    };
    detail.append(pointer);
    OracleError::new(OracleErrorKind::MalformedJson, detail.as_str())
}

/// Parses a text as JSON.
pub fn parse_document(text: &str) -> (r: Result<serde_json::Value, OracleError>)
    ensures
        match r {
            Ok(document) => json_of_text(text@) == Ok::<Map<Seq<char>, JsonNodeView>, Seq<char>>(
                json_contents(document),
            ),
            Err(e) => json_of_text(text@) matches Err(report) && e.says(
                OracleErrorKind::MalformedJson,
                report,
            ),
        },
{
    match value_from_text(text) {
        Ok(document) => Ok(document),
        Err(report) => Err(OracleError::new(OracleErrorKind::MalformedJson, report.as_str())),
    }
}

/// The text that stands at a pointer of a document.
pub fn text_at(document: &serde_json::Value, pointer: &str) -> (r: Result<String, OracleError>)
    ensures
        match r {
            Ok(text) => text_in(json_contents(*document), pointer@) == Some(text@),
            Err(e) => text_in(json_contents(*document), pointer@) is None && e.says(
                OracleErrorKind::MalformedJson,
                field_problem(json_contents(*document), pointer@),
            ),
        },
{
    let found = node_at(document, pointer);
    let present = found.is_some();
    match found {
        Some(JsonNode::Text(text)) => Ok(text),
        _ => Err(problem_at(present, pointer)),
    }
}

/// The length of the list that stands at a pointer of a document.
pub fn length_at(document: &serde_json::Value, pointer: &str) -> (r: Result<usize, OracleError>)
    ensures
        match r {
            Ok(length) => length_in(json_contents(*document), pointer@) == Some(length as nat),
            Err(e) => length_in(json_contents(*document), pointer@) is None && e.says(
                OracleErrorKind::MalformedJson,
                field_problem(json_contents(*document), pointer@),
            ),
        },
{
    let found = node_at(document, pointer);
    let present = found.is_some();
    match found {
        Some(JsonNode::List(length)) => Ok(length),
        _ => Err(problem_at(present, pointer)),
    }
}

} // verus!
