//! The watchdog that asks for a screenshot while the user is active in a
//! fullscreen application.

use vstd::prelude::*;
use crate::window::{is_window_fullscreen, Rect};

verus! {

/// Seconds between two polls of the watchdog.
pub const IDLE_POLL_SECS: u64 = 300;

/// The rectangle of the foreground window and that of its monitor.
#[derive(Clone, Copy, Debug, PartialEq, Eq, Structural)]
pub struct WindowGeometry {
    pub window: Rect,
    pub monitor: Rect,
}

/// What one poll of the last-input time says of the user.
#[derive(Clone, Copy, Debug, PartialEq, Eq, Structural)]
pub enum IdleVerdict {
    /// No input since the poll before.
    Idle,
    /// The last-input time could not be read; the cycle counts as idle.
    QueryFailed,
    /// The user made an input since the poll before.
    Active,
}

/// The watchdog's memory between polls.
#[derive(Clone, Copy, Debug, PartialEq, Eq, Structural)]
pub struct IdleWatchdog {
    /// The newest last-input time seen so far, in the system's ticks.
    pub last_input_time: u32,
}

impl IdleWatchdog {
    /// What a poll that read `input` says of the user.
    pub open spec fn verdict(self, input: Option<u32>) -> IdleVerdict {
        match input {
            None => IdleVerdict::QueryFailed,
            Some(time) => if time <= self.last_input_time {
                IdleVerdict::Idle
            } else {
                IdleVerdict::Active
            },
        }
    }

    /// The watchdog after a poll that read `input`: an advanced time becomes
    /// the new baseline, anything else leaves it as it was.
    pub open spec fn after(self, input: Option<u32>) -> IdleWatchdog {
        match input {
            Some(time) if time > self.last_input_time => IdleWatchdog { last_input_time: time },
            _ => self,
        }
    }

    /// Whether a poll that read `input` and found `foreground` in front asks
    /// for a screenshot: the user was active and the window fills its monitor.
    pub open spec fn wants_capture(
        self,
        input: Option<u32>,
        foreground: Option<WindowGeometry>,
    ) -> bool {
        &&& self.verdict(input) == IdleVerdict::Active
        &&& foreground is Some
        &&& foreground.unwrap().window.covers(foreground.unwrap().monitor)
    }

    /// A watchdog that has seen no input yet.
    pub fn new() -> (watchdog: IdleWatchdog)
        ensures
            watchdog.last_input_time == 0,
    {
        IdleWatchdog { last_input_time: 0 }
    }

    /// Takes in the last-input time that a poll read, `None` where the
    /// query failed, and says whether the user was active since the poll before.
    pub fn observe_input(&mut self, input: Option<u32>) -> (verdict: IdleVerdict)
        ensures
            verdict == old(self).verdict(input),
            *final(self) == old(self).after(input),
    {
        match input {
            None => IdleVerdict::QueryFailed,
            Some(time) => {
                if time <= self.last_input_time {
                    IdleVerdict::Idle
                } else {
                    self.last_input_time = time;
                    IdleVerdict::Active
                }
            },
        }
    }

    /// One cycle of the watchdog: returns whether a screenshot is to be
    /// requested. `foreground` is `None` where no window is in front or its
    /// geometry could not be read.
    pub fn check(&mut self, input: Option<u32>, foreground: Option<WindowGeometry>) -> (capture:
        bool)
        ensures
            capture == old(self).wants_capture(input, foreground),
            *final(self) == old(self).after(input),
    {
        match self.observe_input(input) {
            IdleVerdict::Active => capture_due(foreground),
            _ => false,
        }
    }
}

/// Whether the window in front, if any, fills its monitor.
pub fn capture_due(foreground: Option<WindowGeometry>) -> (due: bool)
    ensures
        due == (foreground is Some && foreground.unwrap().window.covers(
            foreground.unwrap().monitor,
        )),
{
    match foreground {
        None => false,
        Some(geometry) => is_window_fullscreen(&geometry.window, &geometry.monitor),
    }
}

/// Two polls in a row that read the same last-input time: the second asks
/// for no screenshot, whatever is in front, and leaves the watchdog as the
/// first left it.
pub proof fn lemma_unchanged_input_no_capture(
    watchdog: IdleWatchdog,
    time: u32,
    foreground: Option<WindowGeometry>,
)
    ensures
        watchdog.after(Some(time)).verdict(Some(time)) == IdleVerdict::Idle,
        !watchdog.after(Some(time)).wants_capture(Some(time), foreground),
        watchdog.after(Some(time)).after(Some(time)) == watchdog.after(Some(time)),
{
}

/// A poll whose query failed asks for no screenshot and changes nothing.
pub proof fn lemma_failed_query_no_capture(
    watchdog: IdleWatchdog,
    foreground: Option<WindowGeometry>,
)
    ensures
        !watchdog.wants_capture(None, foreground),
        watchdog.after(None) == watchdog,
{
}

} // verus!
