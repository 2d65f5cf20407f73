//! The watcher loop's decisions. The caller owns the file watcher and the
//! event channel; this module decides, for each thing the channel yields,
//! whether to reload the watched sheet, sit still, or give up. A reload is
//! unload, a short debounce sleep (atomic-rename saves settle), a fresh read,
//! a load under the same identifier.

use vstd::prelude::*;

verus! {

/// How long a reload waits after the unload, in milliseconds.
pub const DEBOUNCE_MS: u64 = 50;

/// How long one poll of the event channel waits, in milliseconds.
pub const POLL_TIMEOUT_MS: u64 = 100;

/// The identifier a watched sheet is loaded under when the caller names none.
pub const DEFAULT_WATCHED_ID: &'static str = "watched-sheet";

/// What one poll of the event channel yielded: a change to the watched file
/// (a modification or a creation), some other filesystem event, nothing
/// within the poll timeout, or a dead channel.
#[derive(Debug, Clone, Copy, PartialEq, Eq, Structural)]
pub enum WatchSignal {
    Changed,
    OtherEvent,
    TimedOut,
    Disconnected,
}

/// What the loop does next: reload the sheet, keep polling, or stop with an
/// error.
#[derive(Debug, Clone, Copy, PartialEq, Eq, Structural)]
pub enum WatchStep {
    Reload,
    KeepPolling,
    Stop,
}

/// The loop's decision: exactly the change events trigger a reload, other
/// events and timeouts are ignored, and a dead channel is fatal.
pub fn watch_step(signal: WatchSignal) -> (r: WatchStep)
    ensures
        r == (match signal {
            WatchSignal::Changed => WatchStep::Reload,
            WatchSignal::OtherEvent => WatchStep::KeepPolling,
            WatchSignal::TimedOut => WatchStep::KeepPolling,
            WatchSignal::Disconnected => WatchStep::Stop,
        }),
{
    match signal {
        WatchSignal::Changed => WatchStep::Reload,
        WatchSignal::OtherEvent => WatchStep::KeepPolling,
        WatchSignal::TimedOut => WatchStep::KeepPolling,
        WatchSignal::Disconnected => WatchStep::Stop,
    }
}

/// The identifier the watched sheet lives under: the caller's, or the
/// default.
pub fn watched_sheet_id(id: Option<&str>) -> (r: String)
    ensures
        match id {
            Some(s) => r@ == s@,
            None => r@ == DEFAULT_WATCHED_ID@,
        },
{
    match id {
        Some(s) => s.to_owned(),
        None => DEFAULT_WATCHED_ID.to_owned(),
    }
}

} // verus!
