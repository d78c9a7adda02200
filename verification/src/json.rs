//! JSON text, as far as the engine writes any itself.

use vstd::prelude::*;
use vstd::string::StringExecFns;

verus! {

#[verifier::external_type_specification]
#[verifier::external_body]
pub struct ExJsonError(serde_json::Error);

/// A text as a JSON string literal, quotes and escapes included, as
/// `serde_json` writes it; `None` where it reports an error.
pub uninterp spec fn json_string(text: Seq<char>) -> Option<Seq<char>>;

/// Writes `text` as a JSON string literal through `serde_json::to_string`.
///
/// Trusted. The claim is that the outcome is a function of the text alone,
/// which `json_string` names.
#[verifier::external_body]
fn to_json_string(text: &str) -> (r: Result<String, serde_json::Error>)
    ensures
        match r {
            Ok(s) => json_string(text@) == Some(s@),
            Err(_) => json_string(text@) is None,
        },
{
    serde_json::to_string(text)
}

/// Writes `text` as a JSON string literal.
pub fn quote(text: &str) -> (quoted: Option<String>)
    ensures
        match quoted {
            Some(q) => json_string(text@) == Some(q@),
            None => json_string(text@) is None,
        },
{
    match to_json_string(text) {
        Ok(s) => Some(s),
        Err(_) => None,
    }
}

/// The JSON object that records a request for generated text, given its three
/// values as JSON string literals.
pub open spec fn ai_event_text(prompt: Seq<char>, request_type: Seq<char>, response: Seq<char>) -> Seq<
    char,
> {
    "{\"prompt\":"@ + prompt + ",\"request_type\":"@ + request_type + ",\"response\":"@ + response
        + "}"@
}

/// The record of a request for generated text as JSON, where each of the
/// three values can be written as JSON.
pub open spec fn ai_event_json(prompt: Seq<char>, request_type: Seq<char>, response: Seq<char>) -> Option<
    Seq<char>,
> {
    match (json_string(prompt), json_string(request_type), json_string(response)) {
        (Some(p), Some(t), Some(r)) => Some(ai_event_text(p, t, r)),
        _ => None,
    }
}

/// Frames the record of a request for generated text. Each argument is a
/// JSON string literal already.
pub fn frame_ai_event(prompt: &str, request_type: &str, response: &str) -> (data: String)
    ensures
        data@ == ai_event_text(prompt@, request_type@, response@),
{
    let mut data = "{\"prompt\":".to_owned();
    data.append(prompt);
    data.append(",\"request_type\":");
    data.append(request_type);
    data.append(",\"response\":");
    data.append(response);
    data.append("}");
    data
}

/// The record of a request for generated text as JSON, or `None` where one of
/// the three values cannot be written as JSON.
pub fn ai_event_data(prompt: &str, request_type: &str, response: &str) -> (data: Option<String>)
    ensures
        match ai_event_json(prompt@, request_type@, response@) {
            Some(text) => data matches Some(d) && d@ == text,
            None => data is None,
        },
{
    let p = match quote(prompt) {
        Some(p) => p,
        None => {
            return None;
        },
    };
    let t = match quote(request_type) {
        Some(t) => t,
        None => {
            return None;
        },
    };
    let r = match quote(response) {
        Some(r) => r,
        None => {
            return None;
        },
    };
    Some(frame_ai_event(p.as_str(), t.as_str(), r.as_str()))
}

} // verus!
