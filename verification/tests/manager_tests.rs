//! The stylesheet manager against simulated server responses: the load /
//! unload / clear / list lifecycle, the registry on failures, bootstrap
//! idempotence, manifest registration.

use mus_uc_devtools::errors::CssError;
use mus_uc_devtools::errors::ProtocolError;
use mus_uc_devtools::errors::RegisterError;
use mus_uc_devtools::manager::ChromeCSSManager;
use mus_uc_devtools::session::Context;
use mus_uc_devtools::session::Session;

fn payload_of(frame: &[u8]) -> serde_json::Value {
    let colon = frame.iter().position(|&b| b == b':').expect("frame has a colon");
    let (prefix, rest) = frame.split_at(colon);
    let len: usize = std::str::from_utf8(prefix).unwrap().parse().unwrap();
    let payload = &rest[1..];
    assert_eq!(payload.len(), len, "prefix counts the payload bytes");
    serde_json::from_slice(payload).expect("request payload is JSON")
}

fn script_of(frame: &[u8]) -> String {
    payload_of(frame)["parameters"]["script"].as_str().unwrap().to_string()
}

fn chrome_session() -> Session {
    let mut s =
        Session::open(b"{\"marionetteProtocol\": 3, \"applicationType\": \"gecko\"}").unwrap();
    let _ = s.set_context_request(Context::Chrome);
    s.set_context_complete(b"{\"value\": null}").unwrap();
    s
}

fn bootstrapped_manager() -> ChromeCSSManager {
    let mut m = ChromeCSSManager::new_with_connection(chrome_session());
    let _ = m.initialize_chrome_context();
    m.initialize_chrome_context_complete(b"{\"value\": \"initialized\"}").unwrap();
    m
}

#[test]
fn scenario_load_list_unload() {
    // Server accepts the handshake, answers "my-id" to the load and true to
    // the unload.
    let mut m = bootstrapped_manager();

    let frame = m.load_css("body{}", Some("my-id")).unwrap();
    let script = script_of(&frame);
    assert!(script.contains("load(`body{}`, 'my-id')"));
    let id = m.load_css_complete(b"{\"value\": \"my-id\"}").unwrap();
    assert_eq!(id, "my-id");
    assert_eq!(m.list_loaded(), vec!["my-id".to_string()]);

    let frame = m.unload_css("my-id").unwrap();
    assert!(script_of(&frame).contains("unload('my-id')"));
    let gone = m.unload_css_complete(b"{\"value\": true}").unwrap();
    assert!(gone);
    assert!(m.list_loaded().is_empty());
}

#[test]
fn scenario_auto_id() {
    // A load without an identifier: the server generates one.
    let mut m = bootstrapped_manager();
    let frame = m.load_css("body{}", None).unwrap();
    let script = script_of(&frame);
    assert!(script.contains("load(`body{}`)"));
    let id = m.load_css_complete(b"{\"value\": \"sheet-42\"}").unwrap();
    assert_eq!(id, "sheet-42");
    assert_eq!(m.list_loaded(), vec!["sheet-42".to_string()]);
}

#[test]
fn scenario_remote_error_leaves_registry_unchanged() {
    let mut m = bootstrapped_manager();
    let _ = m.load_css("body{}", Some("my-id")).unwrap();
    match m.load_css_complete(b"{\"error\": {\"message\": \"nope\"}}") {
        Err(CssError::Protocol(ProtocolError::RemoteError(msg))) => {
            assert!(msg.contains("nope"));
        }
        other => panic!("expected a remote error, got {other:?}"),
    }
    assert!(m.list_loaded().is_empty());
}

#[test]
fn load_collision_needs_explicit_unload_first() {
    let mut m = bootstrapped_manager();
    let _ = m.load_css("a{}", Some("x")).unwrap();
    let _ = m.load_css_complete(b"{\"value\": \"x\"}").unwrap();

    match m.load_css("b{}", Some("x")) {
        Err(CssError::IdCollision(id)) => assert_eq!(id, "x"),
        other => panic!("expected a collision, got {other:?}"),
    }
    // The failed load sent nothing and changed nothing.
    assert_eq!(m.list_loaded(), vec!["x".to_string()]);

    let _ = m.unload_css("x").unwrap();
    let _ = m.unload_css_complete(b"{\"value\": true}").unwrap();
    let _ = m.load_css("b{}", Some("x")).unwrap();
    let _ = m.load_css_complete(b"{\"value\": \"x\"}").unwrap();
    assert_eq!(m.list_loaded(), vec!["x".to_string()]);
}

#[test]
fn load_escapes_backticks_backslashes_and_dollars() {
    let mut m = bootstrapped_manager();
    let frame = m.load_css("a::before{content:\"`${x}\\\\\"}", None).unwrap();
    let script = script_of(&frame);
    assert!(script.contains("\\`"), "backtick must be neutralised: {script}");
    assert!(script.contains("\\$"), "dollar must be neutralised: {script}");
    assert!(script.contains("\\\\"), "backslash must be neutralised: {script}");
}

#[test]
fn load_rejects_identifier_that_cannot_ride_in_quotes() {
    let mut m = bootstrapped_manager();
    match m.load_css("a{}", Some("bad'id")) {
        Err(CssError::Escaping(id)) => assert_eq!(id, "bad'id"),
        other => panic!("expected an escaping fault, got {other:?}"),
    }
    match m.unload_css("bad\\id") {
        Err(CssError::Escaping(id)) => assert_eq!(id, "bad\\id"),
        other => panic!("expected an escaping fault, got {other:?}"),
    }
    assert!(m.list_loaded().is_empty());
}

#[test]
fn unload_of_unknown_id_reports_false() {
    let mut m = bootstrapped_manager();
    let _ = m.unload_css("ghost").unwrap();
    let gone = m.unload_css_complete(b"{\"value\": false}").unwrap();
    assert!(!gone);
}

#[test]
fn unload_false_for_known_id_is_a_registry_mismatch() {
    let mut m = bootstrapped_manager();
    let _ = m.load_css("a{}", Some("x")).unwrap();
    let _ = m.load_css_complete(b"{\"value\": \"x\"}").unwrap();
    let _ = m.unload_css("x").unwrap();
    match m.unload_css_complete(b"{\"value\": false}") {
        Err(CssError::RegistryMismatch(id)) => assert_eq!(id, "x"),
        other => panic!("expected a registry mismatch, got {other:?}"),
    }
    // The client registry still holds the sheet it believes is loaded.
    assert_eq!(m.list_loaded(), vec!["x".to_string()]);
}

#[test]
fn clear_empties_the_registry() {
    let mut m = bootstrapped_manager();
    for (css, id) in [("a{}", "one"), ("b{}", "two")] {
        let _ = m.load_css(css, Some(id)).unwrap();
        let _ = m.load_css_complete(format!("{{\"value\": \"{id}\"}}").as_bytes()).unwrap();
    }
    assert_eq!(m.list_loaded().len(), 2);
    let frame = m.clear_all();
    assert!(script_of(&frame).contains("clear()"));
    m.clear_all_complete(b"{\"value\": null}").unwrap();
    assert!(m.list_loaded().is_empty());
}

#[test]
fn bootstrap_twice_keeps_registered_sheets() {
    // Bootstrapping is idempotent: a second run neither builds a second
    // singleton (the script guards on the existing one) nor unregisters
    // sheets loaded in between.
    let mut m = bootstrapped_manager();
    let _ = m.load_css("a{}", Some("kept")).unwrap();
    let _ = m.load_css_complete(b"{\"value\": \"kept\"}").unwrap();

    let frame = m.initialize_chrome_context();
    let script = script_of(&frame);
    assert!(script.starts_with("if (typeof window.chromeCssManager === 'undefined')"));
    for method in ["load(css, id)", "unload(id)", "list()", "clear()"] {
        assert!(script.contains(method), "bootstrap must define {method}");
    }
    m.initialize_chrome_context_complete(b"{\"value\": \"initialized\"}").unwrap();

    assert_eq!(m.list_loaded(), vec!["kept".to_string()]);
}

#[test]
fn register_manifest_records_path_on_success() {
    let mut m = bootstrapped_manager();
    assert!(m.get_registered_manifest().is_none());
    let frame = m.register_chrome_manifest("/tmp/chrome.manifest").unwrap();
    let script = script_of(&frame);
    assert!(script.contains("initWithPath('/tmp/chrome.manifest')"));
    assert!(script.contains("autoRegister(file)"));
    m.register_chrome_manifest_complete(b"{\"value\": {\"success\": true}}").unwrap();
    assert_eq!(m.get_registered_manifest().unwrap(), "/tmp/chrome.manifest");
}

#[test]
fn register_manifest_surfaces_remote_failure() {
    let mut m = bootstrapped_manager();
    let _ = m.register_chrome_manifest("/tmp/chrome.manifest").unwrap();
    match m.register_chrome_manifest_complete(
        b"{\"value\": {\"success\": false, \"error\": \"boom\"}}",
    ) {
        Err(RegisterError::RemoteFailure(msg)) => assert_eq!(msg, "boom"),
        other => panic!("expected a remote failure, got {other:?}"),
    }
    assert!(m.get_registered_manifest().is_none());
}

#[test]
fn register_manifest_rejects_unquotable_path() {
    let mut m = bootstrapped_manager();
    match m.register_chrome_manifest("/tmp/it's.manifest") {
        Err(RegisterError::PathEncoding) => {}
        other => panic!("expected a path-encoding fault, got {other:?}"),
    }
}

#[test]
fn register_manifest_without_error_text_reports_unknown() {
    let mut m = bootstrapped_manager();
    let _ = m.register_chrome_manifest("/tmp/chrome.manifest").unwrap();
    match m.register_chrome_manifest_complete(b"{\"value\": {\"success\": false}}") {
        Err(RegisterError::RemoteFailure(msg)) => assert_eq!(msg, "Unknown error"),
        other => panic!("expected a remote failure, got {other:?}"),
    }
}

#[test]
fn execute_script_passes_value_through() {
    let mut m = bootstrapped_manager();
    let frame = m.execute_script("return document.title;", None);
    let msg = payload_of(&frame);
    assert_eq!(msg["parameters"]["script"].as_str(), Some("return document.title;"));
    let v = m.execute_script_complete(b"{\"value\": \"Title\"}").unwrap();
    assert_eq!(v, mus_uc_devtools::reply::RemoteValue::Str("Title".to_string()));
}

#[test]
fn load_result_that_is_not_a_string_is_refused() {
    let mut m = bootstrapped_manager();
    let _ = m.load_css("a{}", None).unwrap();
    match m.load_css_complete(b"{\"value\": 17}") {
        Err(CssError::Protocol(ProtocolError::DecodeError)) => {}
        other => panic!("expected a decode error, got {other:?}"),
    }
    assert!(m.list_loaded().is_empty());
}

#[test]
fn register_manifest_surfaces_remote_error() {
    let mut m = bootstrapped_manager();
    let _ = m.register_chrome_manifest("/tmp/chrome.manifest").unwrap();
    match m.register_chrome_manifest_complete(b"{\"error\": {\"message\": \"sandbox\"}}") {
        Err(RegisterError::Protocol(ProtocolError::RemoteError(msg))) => {
            assert!(msg.contains("sandbox"));
        }
        other => panic!("expected a remote error, got {other:?}"),
    }
    assert!(m.get_registered_manifest().is_none());
}

#[test]
fn register_manifest_with_non_object_value_reports_unknown() {
    let mut m = bootstrapped_manager();
    let _ = m.register_chrome_manifest("/tmp/chrome.manifest").unwrap();
    match m.register_chrome_manifest_complete(b"{\"value\": \"done\"}") {
        Err(RegisterError::RemoteFailure(msg)) => assert_eq!(msg, "Unknown error"),
        other => panic!("expected a remote failure, got {other:?}"),
    }
    assert!(m.get_registered_manifest().is_none());
}
