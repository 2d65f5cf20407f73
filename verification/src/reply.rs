//! Inbound messages: the handshake record the server sends on a fresh
//! connection, and the response object it sends to every request. A response
//! carries either an `error` field or a `value` field; this module projects
//! the dynamic JSON of both onto plain values once, at the trusted boundary,
//! and everything after works on those.

use vstd::prelude::*;

verus! {

/// The handshake record: declared protocol version and application family.
#[derive(Debug, Clone)]
pub struct Handshake {
    pub protocol: u64,
    pub application_type: String,
}

/// The mathematical content of a handshake record.
pub struct HandshakeV {
    pub protocol: u64,
    pub application_type: Seq<char>,
}

impl View for Handshake {
    type V = HandshakeV;

    open spec fn view(&self) -> HandshakeV {
        HandshakeV { protocol: self.protocol, application_type: self.application_type@ }
    }
}

/// What the handshake bytes hold, if they hold one: the value of the
/// `marionetteProtocol` field and the text of the `applicationType` field of
/// the JSON object they spell.
pub uninterp spec fn handshake_of(b: Seq<u8>) -> Option<HandshakeV>;

/// Relies on `serde_json::from_slice` to parse the handshake bytes and on
/// `serde_json::Value::{get, as_u64, as_str}` to read its two fields; the
/// result is a function of the bytes alone.
#[verifier::external_body]
pub fn parse_handshake(b: &[u8]) -> (r: Option<Handshake>)
    ensures
        match r {
            Some(h) => handshake_of(b@) == Some(h@),
            None => handshake_of(b@) is None,
        },
{
    let v: serde_json::Value = serde_json::from_slice(b).ok()?;
    let protocol = v.get("marionetteProtocol")?.as_u64()?;
    let application_type = v.get("applicationType")?.as_str()?.to_string();
    Some(Handshake { protocol, application_type })
}

/// The shape of a response's `value` field, as far as the library reads it: a
/// string (a stylesheet identifier, a data URL), a boolean (an unload
/// verdict), an object (the manifest registrar's `{success, error}` record),
/// or anything else carried by its rendering.
#[derive(Debug, Clone, PartialEq)]
pub enum RemoteValue {
    Null,
    Bool(bool),
    Str(String),
    Object { success: Option<bool>, error: Option<String>, rendering: String },
    Other { rendering: String },
}

/// The mathematical content of a `value` field.
pub enum RemoteValueV {
    Null,
    Bool(bool),
    Str(Seq<char>),
    Object { success: Option<bool>, error: Option<Seq<char>>, rendering: Seq<char> },
    Other { rendering: Seq<char> },
}

impl View for RemoteValue {
    type V = RemoteValueV;

    open spec fn view(&self) -> RemoteValueV {
        match self {
            RemoteValue::Null => RemoteValueV::Null,
            RemoteValue::Bool(b) => RemoteValueV::Bool(*b),
            RemoteValue::Str(s) => RemoteValueV::Str(s@),
            RemoteValue::Object { success, error, rendering } => RemoteValueV::Object {
                success: *success,
                error: match error {
                    Some(e) => Some(e@),
                    None => None,
                },
                rendering: rendering@,
            },
            RemoteValue::Other { rendering } => RemoteValueV::Other { rendering: rendering@ },
        }
    }
}

/// One response: the rendering of its `error` field if one is present, and
/// the shape of its `value` field (`Null` when absent or null).
#[derive(Debug, Clone, PartialEq)]
pub struct Response {
    pub error: Option<String>,
    pub value: RemoteValue,
}

/// The mathematical content of a response.
pub struct ResponseV {
    pub error: Option<Seq<char>>,
    pub value: RemoteValueV,
}

impl View for Response {
    type V = ResponseV;

    open spec fn view(&self) -> ResponseV {
        ResponseV {
            error: match &self.error {
                Some(e) => Some(e@),
                None => None,
            },
            value: self.value@,
        }
    }
}

/// What the response bytes hold, if they spell a JSON object: the rendering
/// of its `error` field when one is present, and the shape of its `value`
/// field.
pub uninterp spec fn response_of(b: Seq<u8>) -> Option<ResponseV>;

/// Relies on `serde_json::from_slice` to parse the response bytes, on
/// `serde_json::Value::{is_object, get}` to find the `error` and `value`
/// fields, and on the `Display` rendering of `serde_json::Value` (compact
/// JSON) for the error text; the result is a function of the bytes alone.
#[verifier::external_body]
pub fn parse_response(b: &[u8]) -> (r: Option<Response>)
    ensures
        match r {
            Some(resp) => response_of(b@) == Some(resp@),
            None => response_of(b@) is None,
        },
{
    let v: serde_json::Value = match serde_json::from_slice(b) {
        Ok(v) => v,
        Err(_) => return None,
    };
    if !v.is_object() {
        return None;
    }
    let error = v.get("error").map(|e| e.to_string());
    let value = match v.get("value") {
        None => RemoteValue::Null,
        Some(inner) => value_shape(inner),
    };
    Some(Response { error, value })
}

/// The dynamic JSON value of `serde_json`, opaque here: it only passes from
/// `parse_response` into `value_shape`.
#[verifier::external_type_specification]
#[verifier::external_body]
pub struct ExValue(serde_json::Value);

/// Relies on `serde_json::Value`'s variants and on
/// `serde_json::Value::{get, as_bool, as_str}` and its `Display` rendering:
/// maps one JSON value onto the shapes the library reads. Used only by
/// `parse_response`, whose contract covers the composition.
#[verifier::external_body]
fn value_shape(v: &serde_json::Value) -> RemoteValue {
    match v {
        serde_json::Value::Null => RemoteValue::Null,
        serde_json::Value::Bool(b) => RemoteValue::Bool(*b),
        serde_json::Value::String(s) => RemoteValue::Str(s.clone()),
        serde_json::Value::Object(_) => RemoteValue::Object {
            success: v.get("success").and_then(|x| x.as_bool()),
            error: v.get("error").and_then(|x| x.as_str()).map(|s| s.to_string()),
            rendering: v.to_string(),
        },
        other => RemoteValue::Other { rendering: other.to_string() },
    }
}

} // verus!
