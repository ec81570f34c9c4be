//! Watching the configuration file: what the watcher tells the application,
//! and what it does with each look at the file.

use crate::config::Config;
use vstd::prelude::*;

verus! {

/// What the watcher tells the application.
pub enum ConfigEvent {
    /// The file changed and was read: the new configuration.
    Modified(Config),
    /// The file could not be looked at or read: why.
    Error(String),
}

/// Time between two looks at the file, in milliseconds.
pub const POLL_INTERVAL_MS: u64 = 500;

/// A change that is seen sooner than this after the last one is looked at
/// again later.
pub const DEBOUNCE_MS: u64 = 100;

/// How long the watcher waits before it reads a changed file or looks again
/// at one that is still changing.
pub const SETTLE_MS: u64 = 50;

/// How long the watcher waits before it looks again at a file that another
/// process holds.
pub const SHARING_RETRY_MS: u64 = 100;

/// The system's error code for a file that another process holds.
pub const SHARING_VIOLATION: i32 = 32;

/// What one look at the file found.
#[derive(Clone, Copy, Debug, PartialEq, Eq, Structural)]
pub enum Probe {
    /// The file is there; the stamp of its last modification.
    Stamp(u64),
    /// The file is there, but its modification time cannot be had.
    Unstamped,
    /// The file could not be looked at; the system's error code, if any.
    Failed(Option<i32>),
}

/// What the watcher does after a look at the file.
#[derive(Clone, Copy, Debug, PartialEq, Eq, Structural)]
pub enum WatchStep {
    /// Wait for the poll interval.
    Idle,
    /// The file is still changing: wait for the settle time, look again.
    Debounce,
    /// The file changed: wait for the settle time, read it, send the
    /// outcome, wait for the poll interval.
    Reload,
    /// Another process holds the file: wait for the retry time, look again.
    Retry,
    /// Send the failure as an error event, wait for the poll interval.
    ReportFailure,
}

/// What the watcher remembers between two looks.
#[derive(Clone, Copy, Debug, PartialEq, Eq, Structural)]
pub struct WatchState {
    /// The stamp that the file had when it was last read.
    pub last_modified: Option<u64>,
    /// When the last change was taken up, on the host's clock in
    /// milliseconds.
    pub last_change_ms: u64,
}

/// The time from `since` to `now`, zero where `now` is the earlier.
pub open spec fn elapsed(since: u64, now: u64) -> int {
    if now >= since {
        now - since
    } else {
        0
    }
}

/// The step that follows a look at the file at time `now`.
pub open spec fn step_for(state: WatchState, probe: Probe, now: u64) -> WatchStep {
    match probe {
        Probe::Stamp(stamp) => if state.last_modified == Some(stamp) {
            WatchStep::Idle
        } else if elapsed(state.last_change_ms, now) < DEBOUNCE_MS {
            WatchStep::Debounce
        } else {
            WatchStep::Reload
        },
        Probe::Unstamped => WatchStep::Idle,
        Probe::Failed(code) => if code == Some(SHARING_VIOLATION) {
            WatchStep::Retry
        } else {
            WatchStep::ReportFailure
        },
    }
}

/// The watcher's memory after a look: a change that is taken up is
/// remembered with its time, nothing else is.
pub open spec fn state_after(state: WatchState, probe: Probe, now: u64) -> WatchState {
    match probe {
        Probe::Stamp(stamp) => if step_for(state, probe, now) == WatchStep::Reload {
            WatchState { last_modified: Some(stamp), last_change_ms: now }
        } else {
            state
        },
        _ => state,
    }
}

/// How long the watcher sleeps in all for a step, in milliseconds.
pub open spec fn pause_for(step: WatchStep) -> int {
    match step {
        WatchStep::Idle => POLL_INTERVAL_MS as int,
        WatchStep::Debounce => SETTLE_MS as int,
        WatchStep::Reload => SETTLE_MS + POLL_INTERVAL_MS,
        WatchStep::Retry => SHARING_RETRY_MS as int,
        WatchStep::ReportFailure => POLL_INTERVAL_MS as int,
    }
}

impl WatchState {
    /// The memory of a watcher that starts at time `now` and has read
    /// nothing yet.
    pub fn new(now: u64) -> (state: WatchState)
        ensures
            state == (WatchState { last_modified: None, last_change_ms: now }),
    {
        WatchState { last_modified: None, last_change_ms: now }
    }

    /// Takes one look at the file into account and says what to do next.
    pub fn on_probe(&mut self, probe: Probe, now: u64) -> (step: WatchStep)
        ensures
            step == step_for(*old(self), probe, now),
            *final(self) == state_after(*old(self), probe, now),
    {
        match probe {
            Probe::Stamp(stamp) => {
                let unchanged = match self.last_modified {
                    Some(seen) => seen == stamp,
                    None => false,
                };
                if unchanged {
                    WatchStep::Idle
                } else {
                    let since: u64 = if now >= self.last_change_ms {
                        now - self.last_change_ms
                    } else {
                        0
                    };
                    if since < DEBOUNCE_MS {
                        WatchStep::Debounce
                    } else {
                        self.last_modified = Some(stamp);
                        self.last_change_ms = now;
                        WatchStep::Reload
                    }
                }
            },
            Probe::Unstamped => WatchStep::Idle,
            Probe::Failed(code) => {
                let sharing = match code {
                    Some(c) => c == SHARING_VIOLATION,
                    None => false,
                };
                if sharing {
                    WatchStep::Retry
                } else {
                    WatchStep::ReportFailure
                }
            },
        }
    }
}

/// How long to sleep in all for a step, in milliseconds.
pub fn pause_ms(step: WatchStep) -> (ms: u64)
    ensures
        ms == pause_for(step),
{
    match step {
        WatchStep::Idle => POLL_INTERVAL_MS,
        WatchStep::Debounce => SETTLE_MS,
        WatchStep::Reload => SETTLE_MS + POLL_INTERVAL_MS,
        WatchStep::Retry => SHARING_RETRY_MS,
        WatchStep::ReportFailure => POLL_INTERVAL_MS,
    }
}

/// A change is read at most once: after a look that took a change up, the
/// same stamp asks for nothing more.
pub proof fn lemma_change_read_once(state: WatchState, stamp: u64, now: u64, later: u64)
    requires
        step_for(state, Probe::Stamp(stamp), now) == WatchStep::Reload,
    ensures
        step_for(state_after(state, Probe::Stamp(stamp), now), Probe::Stamp(stamp), later)
            == WatchStep::Idle,
{
}

} // verus!
