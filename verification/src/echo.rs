//! The echo responder: two optional string fields in, one greeting out.
//!
//! The event is first decoded into a typed request record; the declared
//! defaults are applied when the greeting is formatted, so no input fails.

use vstd::prelude::*;
use vstd::string::StringExecFns;
use crate::json::{lookup, JsonValue};

verus! {

/// The echo handler's typed request: its two optional string fields, as
/// found in the event.
#[derive(Debug, PartialEq, Eq)]
pub struct EchoRequest {
    pub message: Option<String>,
    pub first_name: Option<String>,
}

/// The echo handler's answer: the formatted greeting.
#[derive(Debug, PartialEq, Eq)]
pub struct EchoResponse {
    pub response: String,
}

/// The text of the first field named `key`, where the event is an object
/// and that field holds text; absent otherwise.
pub open spec fn opt_string_field(event: JsonValue, key: Seq<char>) -> Option<Seq<char>> {
    match event {
        JsonValue::Object(fields) => match lookup(fields@, key) {
            Some(JsonValue::Text(s)) => Some(s@),
            _ => None,
        },
        _ => None,
    }
}

/// An optional field's text, or its declared default.
pub open spec fn text_or(field: Option<Seq<char>>, default: Seq<char>) -> Seq<char> {
    match field {
        Some(s) => s,
        None => default,
    }
}

/// The greeting the echo responder formats.
pub open spec fn greeting(message: Seq<char>, first_name: Seq<char>) -> Seq<char> {
    "Hello, "@ + message + "! Your name is "@ + first_name
}

/// The greeting an event gets: its `message` field (default `"world"`) and
/// its `firstName` field (default `"Anonymous"`), formatted.
pub open spec fn echo_greeting(event: JsonValue) -> Seq<char> {
    greeting(
        text_or(opt_string_field(event, "message"@), "world"@),
        text_or(opt_string_field(event, "firstName"@), "Anonymous"@),
    )
}

/// The single-field envelope every echo answer is wrapped in.
pub open spec fn is_text_envelope(v: JsonValue, text: Seq<char>) -> bool {
    &&& v matches JsonValue::Object(fields)
    &&& fields@.len() == 1
    &&& fields@[0].0@ == "response"@
    &&& (fields@[0].1 matches JsonValue::Text(s) && s@ == text)
}

/// The decoded record holds exactly the event's optional text fields.
pub open spec fn echo_decodes_to(event: JsonValue, req: EchoRequest) -> bool {
    &&& (match req.message {
        Some(s) => opt_string_field(event, "message"@) == Some(s@),
        None => opt_string_field(event, "message"@) is None,
    })
    &&& (match req.first_name {
        Some(s) => opt_string_field(event, "firstName"@) == Some(s@),
        None => opt_string_field(event, "firstName"@) is None,
    })
}

/// Read one optional text field: absent where the event is no object, the
/// field is missing, or it holds no text.
fn extract_text_field(event: &JsonValue, key: &String) -> (r: Option<String>)
    ensures
        match r {
            Some(s) => opt_string_field(*event, key@) == Some(s@),
            None => opt_string_field(*event, key@) is None,
        },
{
    match event {
        JsonValue::Object(fields) => match crate::json::find_field(fields, key) {
            Some(v) => match v {
                JsonValue::Text(s) => Some(s.clone()),
                _ => None,
            },
            None => None,
        },
        _ => None,
    }
}

/// Decode an event into the echo handler's typed request. Total: every
/// event decodes, with absent or ill-shaped fields left empty.
pub fn decode_echo_request(event: &JsonValue) -> (r: EchoRequest)
    ensures
        echo_decodes_to(*event, r),
{
    let k_message: String = "message".to_owned();
    let k_first_name: String = "firstName".to_owned();
    EchoRequest {
        message: extract_text_field(event, &k_message),
        first_name: extract_text_field(event, &k_first_name),
    }
}

/// Format the greeting for the given message and name.
pub fn format_greeting(message: &str, first_name: &str) -> (r: String)
    ensures
        r@ == greeting(message@, first_name@),
{
    let mut s: String = "Hello, ".to_owned();
    s.append(message);
    s.append("! Your name is ");
    s.append(first_name);
    s
}

/// Greet a decoded request, substituting the declared defaults for its
/// absent fields.
pub fn greet(req: EchoRequest) -> (r: EchoResponse)
    ensures
        r.response@ == greeting(
            text_or(
                match req.message {
                    Some(s) => Some(s@),
                    None => None,
                },
                "world"@,
            ),
            text_or(
                match req.first_name {
                    Some(s) => Some(s@),
                    None => None,
                },
                "Anonymous"@,
            ),
        ),
{
    let message = match req.message {
        Some(s) => s,
        None => "world".to_owned(),
    };
    let first_name = match req.first_name {
        Some(s) => s,
        None => "Anonymous".to_owned(),
    };
    EchoResponse { response: format_greeting(message.as_str(), first_name.as_str()) }
}

/// Wrap an echo answer in the response envelope the platform serializes.
pub fn echo_to_json(resp: EchoResponse) -> (r: JsonValue)
    ensures
        is_text_envelope(r, resp.response@),
{
    JsonValue::Object(vec![("response".to_owned(), JsonValue::Text(resp.response))])
}

/// Handle one echo event: decode, greet, wrap. Missing or ill-shaped
/// fields fall back to their defaults; no input fails.
pub fn echo_response(event: &JsonValue) -> (r: JsonValue)
    ensures
        is_text_envelope(r, echo_greeting(*event)),
{
    let request = decode_echo_request(event);
    let response = greet(request);
    echo_to_json(response)
}

} // verus!
