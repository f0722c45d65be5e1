//! Inbound wire messages: a mathematical model of JSON documents, trusted
//! bindings to serde_json, and the verified classification of one parsed
//! line as a response, a streaming update, or something to ignore.

use vstd::prelude::*;
use crate::text::{all_ws, parses_as_u64, u64_value, parse_u64, str_eq};

verus! {

/// The mathematical shape of a JSON document. Numbers keep their integer
/// value where they have one; any other number (a fraction, or an integer
/// out of range) is `Real`, of which the engine reads nothing.
#[verifier::ext_equal]
pub enum JsonData {
    Null,
    Bool(bool),
    /// An integer in `0 ..= u64::MAX`.
    IntP(u64),
    /// A negative integer.
    IntN(i64),
    /// A number with no in-range integer value.
    Real,
    Text(Seq<char>),
    List(Seq<JsonData>),
    Object(Seq<(Seq<char>, JsonData)>),
}

/// Field lookup in an object's field list: the first binding of the key.
pub open spec fn obj_get(fields: Seq<(Seq<char>, JsonData)>, key: Seq<char>) -> Option<JsonData>
    decreases fields.len(),
{
    if fields.len() == 0 {
        None
    } else if fields[0].0 == key {
        Some(fields[0].1)
    } else {
        obj_get(fields.drop_first(), key)
    }
}

pub open spec fn field_of(j: JsonData, key: Seq<char>) -> Option<JsonData> {
    match j {
        JsonData::Object(fields) => obj_get(fields, key),
        _ => None,
    }
}

pub open spec fn has_field(j: JsonData, key: Seq<char>) -> bool {
    field_of(j, key) is Some
}

/// The field's text, when the field exists and is a string.
pub open spec fn str_field(j: JsonData, key: Seq<char>) -> Option<Seq<char>> {
    match field_of(j, key) {
        Some(JsonData::Text(t)) => Some(t),
        _ => None,
    }
}

#[verifier::external_type_specification]
#[verifier::external_body]
pub struct ExValue(serde_json::Value);

/// The model of what a `serde_json::Value` holds. The value is a container
/// of plain data; this name stands for its contents.
pub uninterp spec fn json_model(v: serde_json::Value) -> JsonData;

/// The JSON document written by a line of text, or `None` when the line is
/// not valid JSON.
pub uninterp spec fn json_of_line(s: Seq<char>) -> Option<JsonData>;

/// The canonical text serde_json renders a document as.
pub uninterp spec fn rendered(j: JsonData) -> Seq<char>;

/// Relies on `serde_json::from_str::<Value>`: parses one line of text as a
/// JSON document, failing exactly on text that is not valid JSON.
#[verifier::external_body]
pub(crate) fn parse_json_line(line: &str) -> (r: Result<serde_json::Value, String>)
    ensures
        r matches Ok(v) ==> json_of_line(line@) == Some(json_model(v)),
        (r is Ok) == (json_of_line(line@) is Some),
{
    serde_json::from_str::<serde_json::Value>(line).map_err(|e| e.to_string())
}

/// Relies on `serde_json::Value::get` with a string key: looks the key up
/// when the value is an object, and returns `None` otherwise.
#[verifier::external_body]
pub(crate) fn value_get<'a>(v: &'a serde_json::Value, key: &str) -> (r: Option<&'a serde_json::Value>)
    ensures
        r matches Some(f) ==> field_of(json_model(*v), key@) == Some(json_model(*f)),
        r is None ==> field_of(json_model(*v), key@) is None,
{
    v.get(key)
}

/// Relies on `serde_json::Value::as_str`: the borrowed text of a string
/// value, and `None` for every other kind of value.
#[verifier::external_body]
pub(crate) fn value_as_str<'a>(v: &'a serde_json::Value) -> (r: Option<&'a str>)
    ensures
        r matches Some(s) ==> json_model(*v) == JsonData::Text(s@),
        r is None ==> !(json_model(*v) is Text),
{
    v.as_str()
}

/// Relies on `serde_json::Value::as_u64`: the value of a non-negative
/// integer number, and `None` for every other kind of value.
#[verifier::external_body]
pub(crate) fn value_as_u64(v: &serde_json::Value) -> (r: Option<u64>)
    ensures
        r matches Some(u) ==> json_model(*v) == JsonData::IntP(u),
        r is None ==> !(json_model(*v) is IntP),
{
    v.as_u64()
}

/// Relies on `serde_json::Value::as_i64`: the value of an integer number
/// that fits in `i64`, and `None` for every other kind of value.
#[verifier::external_body]
pub(crate) fn value_as_i64(v: &serde_json::Value) -> (r: Option<i64>)
    ensures
        r matches Some(i) ==> (i >= 0 && json_model(*v) == JsonData::IntP(i as u64)) || (i < 0
            && json_model(*v) == JsonData::IntN(i)),
        r is None ==> (match json_model(*v) {
            JsonData::IntP(u) => u > i64::MAX as u64,
            JsonData::IntN(_) => false,
            _ => true,
        }),
{
    v.as_i64()
}

/// Relies on `serde_json::Value`'s `Display` impl, which renders the value
/// with its serializer; the text depends on the document alone.
#[verifier::external_body]
pub(crate) fn value_to_text(v: &serde_json::Value) -> (r: String)
    ensures
        r@ == rendered(json_model(*v)),
{
    v.to_string()
}

/// The response identifier a message carries: its `id` field read as an
/// unsigned integer, either directly or as a decimal string.
pub open spec fn response_id_of(j: JsonData) -> Option<u64> {
    match field_of(j, "id"@) {
        Some(JsonData::IntP(u)) => Some(u),
        Some(JsonData::Text(t)) => if parses_as_u64(t) {
            Some(u64_value(t) as u64)
        } else {
            None
        },
        _ => None,
    }
}

/// Whether the message carries a `result` or an `error` field.
pub open spec fn carries_result(j: JsonData) -> bool {
    has_field(j, "result"@) || has_field(j, "error"@)
}

pub open spec fn method_of(j: JsonData) -> Option<Seq<char>> {
    str_field(j, "method"@)
}

/// The streaming delta a `session/update` notification carries: the thread
/// identifier and a non-empty text fragment, for the one update shape the
/// engine interprets (an agent message chunk with text content). Every
/// other shape carries none.
pub open spec fn delta_of(j: JsonData) -> Option<(Seq<char>, Seq<char>)> {
    match field_of(j, "params"@) {
        Some(params) => match str_field(params, "sessionId"@) {
            Some(sid) => match field_of(params, "update"@) {
                Some(update) => if str_field(update, "sessionUpdate"@) == Some(
                    "agent_message_chunk"@,
                ) {
                    match field_of(update, "content"@) {
                        Some(content) => if str_field(content, "type"@) == Some("text"@) {
                            match str_field(content, "text"@) {
                                Some(t) => if t.len() > 0 {
                                    Some((sid, t))
                                } else {
                                    None
                                },
                                None => None,
                            }
                        } else {
                            None
                        },
                        None => None,
                    }
                } else {
                    None
                },
                None => None,
            },
            None => None,
        },
        None => None,
    }
}

/// How one parsed message is routed. A message with an identifier and a
/// result-or-error field is a response; otherwise the one interpreted
/// notification shape is a streaming delta; everything else — peer
/// requests, unknown notifications, responses with an unreadable
/// identifier — is left alone.
pub enum RouteKind {
    ResponseTo(u64),
    Delta { thread: Seq<char>, text: Seq<char> },
    Other,
}

pub open spec fn classify(j: JsonData) -> RouteKind {
    if response_id_of(j) is Some && carries_result(j) {
        RouteKind::ResponseTo(response_id_of(j)->Some_0)
    } else if method_of(j) == Some("session/update"@) && delta_of(j) is Some {
        RouteKind::Delta { thread: delta_of(j)->Some_0.0, text: delta_of(j)->Some_0.1 }
    } else {
        RouteKind::Other
    }
}

/// The executable routing decision for one parsed message.
pub enum Routed {
    ResponseTo(u64),
    Delta { thread: String, text: String },
    Other,
}

pub open spec fn routed_model(r: Routed) -> RouteKind {
    match r {
        Routed::ResponseTo(id) => RouteKind::ResponseTo(id),
        Routed::Delta { thread, text } => RouteKind::Delta { thread: thread@, text: text@ },
        Routed::Other => RouteKind::Other,
    }
}

/// Reads the message's `id` field as a response identifier.
fn response_id_value(v: &serde_json::Value) -> (r: Option<u64>)
    ensures
        r == response_id_of(json_model(*v)),
{
    match value_get(v, "id") {
        None => None,
        Some(id_field) => match value_as_u64(id_field) {
            Some(u) => Some(u),
            None => match value_as_str(id_field) {
                Some(s) => parse_u64(s),
                None => None,
            },
        },
    }
}

/// Extracts the streaming delta from a `session/update` notification.
fn delta_value(v: &serde_json::Value) -> (r: Option<(String, String)>)
    ensures
        r matches Some((thread, text)) ==> delta_of(json_model(*v)) == Some((thread@, text@)),
        r is None ==> delta_of(json_model(*v)) is None,
{
    let params = match value_get(v, "params") {
        Some(p) => p,
        None => {
            return None;
        },
    };
    let sid = match value_get(params, "sessionId") {
        Some(f) => match value_as_str(f) {
            Some(s) => s,
            None => {
                return None;
            },
        },
        None => {
            return None;
        },
    };
    let update = match value_get(params, "update") {
        Some(u) => u,
        None => {
            return None;
        },
    };
    let kind_ok = match value_get(update, "sessionUpdate") {
        Some(f) => match value_as_str(f) {
            Some(s) => str_eq(s, "agent_message_chunk"),
            None => false,
        },
        None => false,
    };
    if !kind_ok {
        return None;
    }
    let content = match value_get(update, "content") {
        Some(c) => c,
        None => {
            return None;
        },
    };
    let type_ok = match value_get(content, "type") {
        Some(f) => match value_as_str(f) {
            Some(s) => str_eq(s, "text"),
            None => false,
        },
        None => false,
    };
    if !type_ok {
        return None;
    }
    let text = match value_get(content, "text") {
        Some(f) => match value_as_str(f) {
            Some(s) => s,
            None => {
                return None;
            },
        },
        None => {
            return None;
        },
    };
    if text.unicode_len() == 0 {
        return None;
    }
    Some((sid.to_owned(), text.to_owned()))
}

/// Classifies one parsed message, applying the rules in arrival order: a
/// readable identifier next to a result-or-error field makes a response;
/// otherwise the one interpreted notification shape makes a delta;
/// everything else is left alone.
pub fn classify_value(v: &serde_json::Value) -> (r: Routed)
    ensures
        routed_model(r) == classify(json_model(*v)),
{
    let id_opt = response_id_value(v);
    let has_outcome = match value_get(v, "result") {
        Some(_) => true,
        None => match value_get(v, "error") {
            Some(_) => true,
            None => false,
        },
    };
    if let Some(id) = id_opt {
        if has_outcome {
            return Routed::ResponseTo(id);
        }
    }
    let method_matches = match value_get(v, "method") {
        Some(m) => match value_as_str(m) {
            Some(s) => str_eq(s, "session/update"),
            None => false,
        },
        None => false,
    };
    if method_matches {
        if let Some((thread, text)) = delta_value(v) {
            return Routed::Delta { thread, text };
        }
    }
    Routed::Other
}

/// Whether a response carries an `error` field.
pub fn has_error_field(v: &serde_json::Value) -> (r: bool)
    ensures
        r == has_field(json_model(*v), "error"@),
{
    match value_get(v, "error") {
        Some(_) => true,
        None => false,
    }
}

/// The conversation identifier a response announces: the `sessionId` text
/// of its `result`, or of the whole message when it has no `result` field.
pub open spec fn session_id_of(j: JsonData) -> Option<Seq<char>> {
    match field_of(j, "result"@) {
        Some(payload) => str_field(payload, "sessionId"@),
        None => str_field(j, "sessionId"@),
    }
}

/// Reads the conversation identifier out of a response.
pub fn extract_session_id(v: &serde_json::Value) -> (r: Option<String>)
    ensures
        r matches Some(s) ==> session_id_of(json_model(*v)) == Some(s@),
        r is None ==> session_id_of(json_model(*v)) is None,
{
    let payload = match value_get(v, "result") {
        Some(p) => p,
        None => v,
    };
    match value_get(payload, "sessionId") {
        Some(f) => match value_as_str(f) {
            Some(s) => Some(s.to_owned()),
            None => None,
        },
        None => None,
    }
}

/// Whether an error response says the probed method itself is unknown:
/// the JSON-RPC method-not-found code, with the method named in the
/// error's data.
pub open spec fn is_method_not_found(j: JsonData, method: Seq<char>) -> bool {
    match field_of(j, "error"@) {
        Some(err) => field_of(err, "code"@) == Some(JsonData::IntN(-32601i64)) && (match field_of(
            err,
            "data"@,
        ) {
            Some(d) => str_field(d, "method"@) == Some(method),
            None => false,
        }),
        None => false,
    }
}

/// Tests a response for the method-not-found rejection of one method.
pub fn error_is_method_not_found(v: &serde_json::Value, method: &str) -> (r: bool)
    ensures
        r == is_method_not_found(json_model(*v), method@),
{
    let err = match value_get(v, "error") {
        Some(e) => e,
        None => {
            return false;
        },
    };
    let code_ok = match value_get(err, "code") {
        Some(c) => match value_as_i64(c) {
            Some(i) => i == -32601,
            None => false,
        },
        None => false,
    };
    if !code_ok {
        return false;
    }
    match value_get(err, "data") {
        Some(d) => match value_get(d, "method") {
            Some(m) => match value_as_str(m) {
                Some(s) => str_eq(s, method),
                None => false,
            },
            None => false,
        },
        None => false,
    }
}

/// How one raw line of output is handled: blank lines are skipped, lines
/// that are not valid JSON are reported, and valid JSON is classified.
pub enum LineRoute {
    Skip,
    Bad,
    ResponseTo(u64),
    Delta { thread: Seq<char>, text: Seq<char> },
    Other,
}

pub open spec fn line_route(s: Seq<char>) -> LineRoute {
    if all_ws(s) {
        LineRoute::Skip
    } else {
        match json_of_line(s) {
            None => LineRoute::Bad,
            Some(j) => match classify(j) {
                RouteKind::ResponseTo(id) => LineRoute::ResponseTo(id),
                RouteKind::Delta { thread, text } => LineRoute::Delta { thread, text },
                RouteKind::Other => LineRoute::Other,
            },
        }
    }
}

} // verus!
