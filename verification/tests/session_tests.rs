//! The protocol session against simulated server bytes: handshake
//! strictness, identifier monotonicity, response interpretation.

use mus_uc_devtools::errors::ProtocolError;
use mus_uc_devtools::reply::RemoteValue;
use mus_uc_devtools::session::Context;
use mus_uc_devtools::session::Session;

fn split_frame(frame: &[u8]) -> serde_json::Value {
    let colon = frame.iter().position(|&b| b == b':').expect("frame has a colon");
    let (prefix, rest) = frame.split_at(colon);
    let len: usize = std::str::from_utf8(prefix).unwrap().parse().unwrap();
    let payload = &rest[1..];
    assert_eq!(payload.len(), len, "prefix counts the payload bytes");
    serde_json::from_slice(payload).expect("request payload is JSON")
}

fn good_handshake() -> &'static [u8] {
    b"{\"marionetteProtocol\": 3, \"applicationType\": \"gecko\"}"
}

#[test]
fn open_accepts_good_handshake() {
    let s = Session::open(good_handshake()).expect("handshake accepted");
    assert_eq!(s.handshake().protocol, 3);
    assert_eq!(s.handshake().application_type, "gecko");
    assert_eq!(s.context(), Context::Content);
}

#[test]
fn open_rejects_version_mismatch() {
    // Scenario: protocol 2 from an otherwise fine server.
    let r = Session::open(b"{\"marionetteProtocol\": 2, \"applicationType\": \"gecko\"}");
    assert!(matches!(r, Err(ProtocolError::VersionMismatch)));
}

#[test]
fn open_rejects_wrong_application_type() {
    let r = Session::open(b"{\"marionetteProtocol\": 3, \"applicationType\": \"other\"}");
    assert!(matches!(r, Err(ProtocolError::HandshakeInvalid)));
}

#[test]
fn open_rejects_wrong_application_type_even_with_wrong_version() {
    let r = Session::open(b"{\"marionetteProtocol\": 2, \"applicationType\": \"other\"}");
    assert!(matches!(r, Err(ProtocolError::HandshakeInvalid)));
}

#[test]
fn open_rejects_garbage() {
    assert!(matches!(Session::open(b"not json"), Err(ProtocolError::HandshakeInvalid)));
    assert!(matches!(Session::open(b"{}"), Err(ProtocolError::HandshakeInvalid)));
    assert!(matches!(
        Session::open(b"{\"marionetteProtocol\": \"3\", \"applicationType\": \"gecko\"}"),
        Err(ProtocolError::HandshakeInvalid)
    ));
}

#[test]
fn ids_count_calls_from_one() {
    let mut s = Session::open(good_handshake()).unwrap();
    for expected_id in 1u64..=5 {
        let frame = s.send_command_request(b"WebDriver:GetTitle", b"{}");
        let msg = split_frame(&frame);
        assert_eq!(msg["id"].as_u64(), Some(expected_id));
        let _ = s.send_command_complete(b"{\"value\": null}").unwrap();
    }
}

#[test]
fn request_wire_form_is_exact() {
    let mut s = Session::open(good_handshake()).unwrap();
    let frame = s.send_command_request(b"WebDriver:GetTitle", b"{}");
    assert_eq!(
        frame,
        b"52:{\"id\":1,\"name\":\"WebDriver:GetTitle\",\"parameters\":{}}".to_vec()
    );
}

#[test]
fn set_context_switches_on_success() {
    let mut s = Session::open(good_handshake()).unwrap();
    let frame = s.set_context_request(Context::Chrome);
    let msg = split_frame(&frame);
    assert_eq!(msg["name"].as_str(), Some("Marionette:SetContext"));
    assert_eq!(msg["parameters"]["value"].as_str(), Some("chrome"));
    s.set_context_complete(b"{\"value\": null}").unwrap();
    assert_eq!(s.context(), Context::Chrome);
}

#[test]
fn set_context_keeps_context_on_remote_error() {
    let mut s = Session::open(good_handshake()).unwrap();
    let _ = s.set_context_request(Context::Chrome);
    let r = s.set_context_complete(b"{\"error\": {\"message\": \"denied\"}}");
    assert!(matches!(r, Err(ProtocolError::RemoteError(_))));
    assert_eq!(s.context(), Context::Content);
}

#[test]
fn remote_error_is_preserved_verbatim() {
    let mut s = Session::open(good_handshake()).unwrap();
    let _ = s.send_command_request(b"WebDriver:ExecuteScript", b"{}");
    match s.send_command_complete(b"{\"error\": {\"message\": \"nope\"}}") {
        Err(ProtocolError::RemoteError(m)) => assert!(m.contains("nope")),
        other => panic!("expected a remote error, got {other:?}"),
    }
}

#[test]
fn value_shapes_come_through() {
    let mut s = Session::open(good_handshake()).unwrap();

    let _ = s.send_command_request(b"C", b"{}");
    assert_eq!(s.send_command_complete(b"{\"value\": \"abc\"}").unwrap(),
        RemoteValue::Str("abc".to_string()));

    let _ = s.send_command_request(b"C", b"{}");
    assert_eq!(s.send_command_complete(b"{\"value\": true}").unwrap(), RemoteValue::Bool(true));

    let _ = s.send_command_request(b"C", b"{}");
    assert_eq!(s.send_command_complete(b"{\"value\": null}").unwrap(), RemoteValue::Null);

    let _ = s.send_command_request(b"C", b"{}");
    assert_eq!(s.send_command_complete(b"{}").unwrap(), RemoteValue::Null);

    let _ = s.send_command_request(b"C", b"{}");
    match s.send_command_complete(b"{\"value\": [1, 2]}").unwrap() {
        RemoteValue::Other { rendering } => assert_eq!(rendering, "[1,2]"),
        other => panic!("expected an array rendering, got {other:?}"),
    }
}

#[test]
fn unframed_response_is_a_decode_error() {
    let mut s = Session::open(good_handshake()).unwrap();
    let _ = s.send_command_request(b"C", b"{}");
    assert!(matches!(
        s.send_command_complete(b"[1, 2, 3]"),
        Err(ProtocolError::DecodeError)
    ));
}

#[test]
fn script_arguments_default_to_empty_array() {
    let mut s = Session::open(good_handshake()).unwrap();
    let frame = s.execute_script_request(b"return 1;", None);
    let msg = split_frame(&frame);
    assert_eq!(msg["parameters"]["script"].as_str(), Some("return 1;"));
    assert_eq!(msg["parameters"]["args"].as_array().map(|a| a.len()), Some(0));

    let _ = s.send_command_complete(b"{\"value\": 1}").unwrap();
    let frame = s.execute_script_request(b"return a;", Some(b"[4, 5]"));
    let msg = split_frame(&frame);
    let args: serde_json::Value = serde_json::from_str("[4, 5]").unwrap();
    assert_eq!(msg["parameters"]["args"], args);
}

#[test]
fn script_with_quotes_and_newlines_survives_json_escaping() {
    let mut s = Session::open(good_handshake()).unwrap();
    let script = b"return \"a\\b\"\n\t+ 'c';";
    let frame = s.execute_script_request(script, None);
    let msg = split_frame(&frame);
    assert_eq!(
        msg["parameters"]["script"].as_str(),
        Some("return \"a\\b\"\n\t+ 'c';")
    );
}
