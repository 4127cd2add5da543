//! The answer of the completion service: from status and body to text or
//! failure.

use crate::helpers::text::{trim, trimmed};
use vstd::prelude::*;
use vstd::string::StringExecFns;

verus! {

#[verifier::external_type_specification]
#[verifier::external_body]
pub struct ExJsonValue(serde_json::Value);

#[verifier::external_type_specification]
#[verifier::external_body]
pub struct ExJsonError(serde_json::Error);

/// A JSON document as a mathematical value. A number is held as the text
/// that stands for it.
pub enum Json {
    Null,
    Bool(bool),
    Number(Seq<char>),
    Text(Seq<char>),
    Array(Seq<Json>),
    Object(Map<Seq<char>, Json>),
}

/// The document that a `serde_json::Value` holds.
pub uninterp spec fn json_of(value: serde_json::Value) -> Json;

/// The document that `text` is the JSON notation of, as `serde_json` reads
/// it; `None` where it refuses the text.
pub uninterp spec fn parsed_json(text: Seq<char>) -> Option<Json>;

/// The member `key` of an object; `Null` where `doc` is no object or has no
/// such member.
pub open spec fn member(doc: Json, key: Seq<char>) -> Json {
    match doc {
        Json::Object(members) => if members.contains_key(key) {
            members[key]
        } else {
            Json::Null
        },
        _ => Json::Null,
    }
}

/// The element `index` of an array; `None` where `doc` is no array or is
/// shorter.
pub open spec fn element(doc: Json, index: int) -> Option<Json> {
    match doc {
        Json::Array(items) => if 0 <= index < items.len() {
            Some(items[index])
        } else {
            None
        },
        _ => None,
    }
}

/// The text of a JSON string; `None` where `doc` is anything else.
pub open spec fn text_of(doc: Json) -> Option<Seq<char>> {
    match doc {
        Json::Text(text) => Some(text),
        _ => None,
    }
}

/// Calls `serde_json::from_str` for a `Value`. Trusted: that success and the
/// document depend on the characters of `text` alone.
#[verifier::external_body]
fn parse_json(text: &str) -> (outcome: Result<serde_json::Value, serde_json::Error>)
    ensures
        match outcome {
            Ok(value) => parsed_json(text@) == Some(json_of(value)),
            Err(_) => parsed_json(text@) is None,
        },
{
    serde_json::from_str::<serde_json::Value>(text)
}

/// Indexes a `Value` by a string, `value[key]`. Trusted, from the `Index`
/// impl of `Value`: the member of that name where `value` is an object that
/// has it, and a null otherwise.
#[verifier::external_body]
fn json_member<'a>(value: &'a serde_json::Value, key: &str) -> (found: &'a serde_json::Value)
    ensures
        json_of(*found) == member(json_of(*value), key@),
{
    &value[key]
}

/// Calls `Value::get` with a number. Trusted, from its source: the element
/// at that index where `value` is an array that long, and `None` otherwise.
#[verifier::external_body]
fn json_element<'a>(value: &'a serde_json::Value, index: usize) -> (found: Option<
    &'a serde_json::Value,
>)
    ensures
        match found {
            Some(item) => element(json_of(*value), index as int) == Some(json_of(*item)),
            None => element(json_of(*value), index as int) is None,
        },
{
    value.get(index)
}

/// Calls `Value::as_str`. Trusted, from its source: the text where `value`
/// is a string, and `None` otherwise.
#[verifier::external_body]
fn json_text<'a>(value: &'a serde_json::Value) -> (found: Option<&'a str>)
    ensures
        match found {
            Some(text) => text_of(json_of(*value)) == Some(text@),
            None => text_of(json_of(*value)) is None,
        },
{
    value.as_str()
}

/// Why a call of the completion service gave no text.
#[derive(Debug, Clone, PartialEq, Eq)]
pub enum CompletionError {
    /// The request did not get through, or the provider answered with a
    /// failure; the text says which.
    Transport(String),
    /// No credential for the provider is at hand.
    Authentication,
    /// The answer is no JSON, or lacks the text where it is looked for.
    ResponseShape,
}

/// A `CompletionError` as plain values.
pub enum CompletionErrorView {
    Transport(Seq<char>),
    Authentication,
    ResponseShape,
}

impl View for CompletionError {
    type V = CompletionErrorView;

    open spec fn view(&self) -> CompletionErrorView {
        match self {
            CompletionError::Transport(detail) => CompletionErrorView::Transport(detail@),
            CompletionError::Authentication => CompletionErrorView::Authentication,
            CompletionError::ResponseShape => CompletionErrorView::ResponseShape,
        }
    }
}

/// What a completion call came to, as plain values.
pub open spec fn reply_view(reply: Result<String, CompletionError>) -> Result<
    Seq<char>,
    CompletionErrorView,
> {
    match reply {
        Ok(text) => Ok(text@),
        Err(error) => Err(error@),
    }
}

impl CompletionError {
    /// What to tell the user about the failure.
    pub open spec fn spec_message(self) -> Seq<char> {
        match self {
            CompletionError::Transport(detail) => detail@,
            CompletionError::Authentication => "environment variable not found"@,
            CompletionError::ResponseShape => "Cannot parse API response"@,
        }
    }

    pub fn message(&self) -> (text: String)
        ensures
            text@ == self.spec_message(),
    {
        match self {
            CompletionError::Transport(detail) => detail.clone(),
            CompletionError::Authentication => String::from_str("environment variable not found"),
            CompletionError::ResponseShape => String::from_str("Cannot parse API response"),
        }
    }
}

/// Whether an HTTP status reports success: 200 to 299.
pub open spec fn is_success(status: u16) -> bool {
    200 <= status <= 299
}

/// The text that a completion envelope carries, at
/// `candidates[0].content.parts[0].text`; `None` where that path leads
/// nowhere or to something that is no string.
pub open spec fn completion_text(envelope: Json) -> Option<Seq<char>> {
    match element(member(envelope, "candidates"@), 0) {
        None => None,
        Some(candidate) => match element(member(member(candidate, "content"@), "parts"@), 0) {
            None => None,
            Some(part) => text_of(member(part, "text"@)),
        },
    }
}

/// What an HTTP answer of the completion service comes to: the text of the
/// envelope in its body, read without the white space round it, or the
/// failure.
pub open spec fn completion_of_response(status: u16, body: Seq<char>) -> Result<
    Seq<char>,
    CompletionErrorView,
> {
    if !is_success(status) {
        Err(CompletionErrorView::Transport("API error: "@ + trimmed(body)))
    } else {
        match parsed_json(trimmed(body)) {
            None => Err(CompletionErrorView::ResponseShape),
            Some(envelope) => match completion_text(envelope) {
                None => Err(CompletionErrorView::ResponseShape),
                Some(text) => Ok(text),
            },
        }
    }
}

/// Reads the completion out of a parsed envelope: the string at
/// `candidates[0].content.parts[0].text`, and `None` where the envelope has
/// another shape.
pub fn text_in_envelope(envelope: &serde_json::Value) -> (found: Option<String>)
    ensures
        found.deep_view() == completion_text(json_of(*envelope)),
{
    let candidate = match json_element(json_member(envelope, "candidates"), 0) {
        Some(candidate) => candidate,
        None => {
            return None;
        },
    };
    let parts = json_member(json_member(candidate, "content"), "parts");
    let part = match json_element(parts, 0) {
        Some(part) => part,
        None => {
            return None;
        },
    };
    match json_text(json_member(part, "text")) {
        Some(text) => Some(text.to_owned()),
        None => None,
    }
}

/// Turns the HTTP answer of the completion service, its status and its
/// body, into the completion's text or the failure it stands for.
pub fn read_completion(status: u16, body: &str) -> (reply: Result<String, CompletionError>)
    ensures
        reply_view(reply) == completion_of_response(status, body@),
{
    let response_text = trim(body);
    if !(200 <= status && status <= 299) {
        let mut detail = String::from_str("API error: ");
        detail.append(response_text);
        return Err(CompletionError::Transport(detail));
    }
    match parse_json(response_text) {
        Err(_) => Err(CompletionError::ResponseShape),
        Ok(envelope) => match text_in_envelope(&envelope) {
            Some(text) => Ok(text),
            None => Err(CompletionError::ResponseShape),
        },
    }
}

} // verus!
