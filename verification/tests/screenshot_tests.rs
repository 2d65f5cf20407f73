//! Screenshot capture and data-URL decoding against simulated responses.

use mus_uc_devtools::errors::ProtocolError;
use mus_uc_devtools::errors::ScreenshotError;
use mus_uc_devtools::screenshot::ScreenshotManager;
use mus_uc_devtools::screenshot::decode_data_url;
use mus_uc_devtools::session::Context;
use mus_uc_devtools::session::Session;

fn script_of(frame: &[u8]) -> String {
    let colon = frame.iter().position(|&b| b == b':').unwrap();
    let msg: serde_json::Value = serde_json::from_slice(&frame[colon + 1..]).unwrap();
    msg["parameters"]["script"].as_str().unwrap().to_string()
}

fn chrome_session() -> Session {
    let mut s =
        Session::open(b"{\"marionetteProtocol\": 3, \"applicationType\": \"gecko\"}").unwrap();
    let _ = s.set_context_request(Context::Chrome);
    s.set_context_complete(b"{\"value\": null}").unwrap();
    s
}

#[test]
fn scenario_screenshot_save_decodes_png_header() {
    // The canonical eight PNG signature bytes ride in this data URL.
    let bytes = decode_data_url("data:image/png;base64,iVBORw0KGgo=").unwrap();
    assert_eq!(bytes, vec![0x89, 0x50, 0x4E, 0x47, 0x0D, 0x0A, 0x1A, 0x0A]);
}

#[test]
fn data_url_without_comma_is_rejected() {
    match decode_data_url("data:image/png;base64") {
        Err(ScreenshotError::InvalidDataUrl) => {}
        other => panic!("expected an invalid data URL, got {other:?}"),
    }
}

#[test]
fn data_url_with_bad_base64_is_rejected() {
    match decode_data_url("data:image/png;base64,not base64!") {
        Err(ScreenshotError::DecodeFailed) => {}
        other => panic!("expected a decode failure, got {other:?}"),
    }
}

#[test]
fn data_url_splits_on_first_comma_only() {
    // "aGksdGhlcmU=" holds a comma inside the decoded text; the split must
    // take the first comma of the URL, not the last.
    let bytes = decode_data_url("data:text/plain;base64,aGksdGhlcmU=").unwrap();
    assert_eq!(bytes, b"hi,there".to_vec());
}

#[test]
fn full_screen_capture_returns_data_url() {
    let mut m = ScreenshotManager::new(chrome_session());
    let frame = m.capture_full_screen();
    let script = script_of(&frame);
    assert!(script.contains("drawWindow"));
    assert!(script.contains("toDataURL(\"image/png\")"));
    let url = m.capture_complete(b"{\"value\": \"data:image/png;base64,iVBORw0KGgo=\"}").unwrap();
    assert_eq!(url, "data:image/png;base64,iVBORw0KGgo=");
}

#[test]
fn element_capture_escapes_the_selector() {
    let mut m = ScreenshotManager::new(chrome_session());
    let frame = m.capture_element("#nav > a[title=\"x\\y\"]");
    let script = script_of(&frame);
    assert!(script.contains("querySelector(\"#nav > a[title=\\\"x\\\\y\\\"]\")"));
    assert!(script.contains("Element not found: #nav > a[title=\\\"x\\\\y\\\"]"));
}

#[test]
fn capture_of_non_string_value_is_refused() {
    let mut m = ScreenshotManager::new(chrome_session());
    let _ = m.capture_full_screen();
    match m.capture_complete(b"{\"value\": 5}") {
        Err(ScreenshotError::NotAString) => {}
        other => panic!("expected a non-string fault, got {other:?}"),
    }
}

#[test]
fn capture_surfaces_remote_error() {
    let mut m = ScreenshotManager::new(chrome_session());
    let _ = m.capture_element("#gone");
    match m.capture_complete(b"{\"error\": {\"message\": \"Element not found\"}}") {
        Err(ScreenshotError::Protocol(ProtocolError::RemoteError(msg))) => {
            assert!(msg.contains("Element not found"));
        }
        other => panic!("expected a remote error, got {other:?}"),
    }
}
