use vstd::prelude::*;

use crate::time::TimeOfDay;
use crate::time::hhmm_seconds;
use crate::time::is_hhmm;

verus! {

/// Why a window could not be configured or used.
#[derive(Clone, Copy, Debug, PartialEq, Eq, Structural)]
pub enum ConfigError {
    /// A time string is not in 24-hour `HH:MM` form.
    MalformedTimeString,
    /// The window's start is not strictly before its end.
    InvalidWindow,
}

impl ConfigError {
    /// A short description of the error, fit for a user.
    pub fn describe(self) -> (r: &'static str)
        ensures
            self is MalformedTimeString ==> r@ == "time must be in HH:MM form"@,
            self is InvalidWindow ==> r@ == "start time must be strictly before end time"@,
    {
        match self {
            ConfigError::MalformedTimeString => "time must be in HH:MM form",
            ConfigError::InvalidWindow => "start time must be strictly before end time",
        }
    }
}

/// The window spelled by two `HH:MM` strings (meaningful when both are
/// well formed).
pub open spec fn window_of(start: Seq<char>, end: Seq<char>) -> TimeWindow {
    TimeWindow {
        start: TimeOfDay { seconds: hhmm_seconds(start) as u32 },
        end: TimeOfDay { seconds: hhmm_seconds(end) as u32 },
    }
}

/// The configured daily window within which a generated commit
/// timestamp's time of day must fall.
#[derive(Clone, Copy, Debug, PartialEq, Eq, Structural)]
pub struct TimeWindow {
    pub start: TimeOfDay,
    pub end: TimeOfDay,
}

impl TimeWindow {
    /// A window is well formed when both bounds lie within one day and
    /// the start is strictly before the end.
    pub open spec fn wf(self) -> bool {
        &&& self.start.wf()
        &&& self.end.wf()
        &&& self.start.seconds < self.end.seconds
    }

    /// The window's width in seconds; strictly positive for a well formed
    /// window and always below one day.
    pub open spec fn spec_span(self) -> int {
        self.end.seconds - self.start.seconds
    }

    /// Builds a window from two times of day; succeeds exactly when the
    /// start is strictly before the end.
    pub fn new(start: TimeOfDay, end: TimeOfDay) -> (r: Result<TimeWindow, ConfigError>)
        requires
            start.wf(),
            end.wf(),
        ensures
            r is Ok <==> start.seconds < end.seconds,
            r matches Ok(w) ==> w.wf() && w.start == start && w.end == end,
            r matches Err(e) ==> e is InvalidWindow,
    {
        if start.seconds < end.seconds {
            Ok(TimeWindow { start, end })
        } else {
            Err(ConfigError::InvalidWindow)
        }
    }

    /// Parses and validates a window from two `HH:MM` strings, as a `set`
    /// command supplies them.  Succeeds exactly when both strings parse
    /// and the start is strictly before the end; a string off the format
    /// is reported before an inverted window.
    pub fn parse(start: &str, end: &str) -> (r: Result<TimeWindow, ConfigError>)
        ensures
            r is Ok <==> (is_hhmm(start@) && is_hhmm(end@) && hhmm_seconds(start@) < hhmm_seconds(
                end@,
            )),
            r matches Ok(w) ==> {
                &&& w.wf()
                &&& w.start.seconds == hhmm_seconds(start@)
                &&& w.end.seconds == hhmm_seconds(end@)
            },
            !(is_hhmm(start@) && is_hhmm(end@)) ==> (r matches Err(e)
                && e is MalformedTimeString),
            is_hhmm(start@) && is_hhmm(end@) && hhmm_seconds(start@) >= hhmm_seconds(end@) ==> (
            r matches Err(e) && e is InvalidWindow),
    {
        let s = match TimeOfDay::parse(start) {
            Some(t) => t,
            None => { return Err(ConfigError::MalformedTimeString); },
        };
        let e = match TimeOfDay::parse(end) {
            Some(t) => t,
            None => { return Err(ConfigError::MalformedTimeString); },
        };
        TimeWindow::new(s, e)
    }
}

impl Default for TimeWindow {
    /// The window used before any has been configured: `00:00`–`02:00`.
    fn default() -> (r: TimeWindow)
        ensures
            r.wf(),
            r.start.seconds == 0,
            r.end.seconds == 7200,
    {
        TimeWindow { start: TimeOfDay { seconds: 0 }, end: TimeOfDay { seconds: 7200 } }
    }
}

} // verus!
