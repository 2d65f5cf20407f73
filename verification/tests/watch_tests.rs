//! The watcher's decisions, and the reload sequence a file change triggers.

use mus_uc_devtools::manager::ChromeCSSManager;
use mus_uc_devtools::session::Context;
use mus_uc_devtools::session::Session;
use mus_uc_devtools::watch::WatchSignal;
use mus_uc_devtools::watch::WatchStep;
use mus_uc_devtools::watch::watch_step;
use mus_uc_devtools::watch::watched_sheet_id;

fn script_of(frame: &[u8]) -> String {
    let colon = frame.iter().position(|&b| b == b':').unwrap();
    let msg: serde_json::Value = serde_json::from_slice(&frame[colon + 1..]).unwrap();
    msg["parameters"]["script"].as_str().unwrap().to_string()
}

fn bootstrapped_manager() -> ChromeCSSManager {
    let mut s =
        Session::open(b"{\"marionetteProtocol\": 3, \"applicationType\": \"gecko\"}").unwrap();
    let _ = s.set_context_request(Context::Chrome);
    s.set_context_complete(b"{\"value\": null}").unwrap();
    let mut m = ChromeCSSManager::new_with_connection(s);
    let _ = m.initialize_chrome_context();
    m.initialize_chrome_context_complete(b"{\"value\": \"initialized\"}").unwrap();
    m
}

#[test]
fn only_changes_trigger_a_reload() {
    assert_eq!(watch_step(WatchSignal::Changed), WatchStep::Reload);
    assert_eq!(watch_step(WatchSignal::OtherEvent), WatchStep::KeepPolling);
    assert_eq!(watch_step(WatchSignal::TimedOut), WatchStep::KeepPolling);
    assert_eq!(watch_step(WatchSignal::Disconnected), WatchStep::Stop);
}

#[test]
fn watched_sheet_id_defaults() {
    assert_eq!(watched_sheet_id(None), "watched-sheet");
    assert_eq!(watched_sheet_id(Some("mine")), "mine");
}

#[test]
fn scenario_watch_reload_is_one_unload_then_one_load() {
    // A file first holding `a{}` is loaded once; it changes to `b{}`; the
    // loop reloads: the server observes exactly one unload followed by one
    // load, and the registry still holds one identifier.
    let mut m = bootstrapped_manager();
    let id = watched_sheet_id(None);

    let frame = m.load_css("a{}", Some(&id)).unwrap();
    assert!(script_of(&frame).contains("load(`a{}`, 'watched-sheet')"));
    let _ = m.load_css_complete(b"{\"value\": \"watched-sheet\"}").unwrap();

    let mut observed: Vec<String> = Vec::new();
    match watch_step(WatchSignal::Changed) {
        WatchStep::Reload => {
            let frame = m.unload_css(&id).unwrap();
            observed.push(script_of(&frame));
            let _ = m.unload_css_complete(b"{\"value\": true}").unwrap();
            // (the debounce sleep and the fresh read happen here)
            let frame = m.load_css("b{}", Some(&id)).unwrap();
            observed.push(script_of(&frame));
            let _ = m.load_css_complete(b"{\"value\": \"watched-sheet\"}").unwrap();
        }
        other => panic!("a change must reload, got {other:?}"),
    }

    assert_eq!(observed.len(), 2);
    assert!(observed[0].contains("unload('watched-sheet')"));
    assert!(observed[1].contains("load(`b{}`, 'watched-sheet')"));
    assert_eq!(m.list_loaded(), vec!["watched-sheet".to_string()]);
}
