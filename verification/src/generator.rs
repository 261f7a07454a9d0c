use vstd::prelude::*;

use crate::time::LocalStamp;
use crate::time::MAX_DAY;
use crate::time::SECONDS_PER_DAY;
use crate::time::hhmm_seconds;
use crate::time::is_hhmm;
use crate::window::ConfigError;
use crate::window::TimeWindow;
use crate::window::window_of;

verus! {

/// Relies on rand::random_range over `lo..=hi`: a sample drawn uniformly
/// from the inclusive range, which is non-empty when `lo <= hi`.
#[verifier::external_body]
fn random_in_range(lo: u32, hi: u32) -> (r: u32)
    requires
        lo <= hi,
    ensures
        lo <= r <= hi,
{
    rand::random_range(lo..=hi)
}

/// The calendar day on which the window is instantiated: today (taken
/// from `now`), advanced to the reference's day when an existing commit
/// is dated later than today.
pub open spec fn anchor_day(reference: Option<LocalStamp>, now: LocalStamp) -> int {
    match reference {
        Some(rf) => if rf.day > now.day {
            rf.day as int
        } else {
            now.day as int
        },
        None => now.day as int,
    }
}

/// The candidate drawn before any ordering correction: the window's
/// start on the anchor day, moved forward by `off` seconds.
pub open spec fn candidate_secs(
    window: TimeWindow,
    reference: Option<LocalStamp>,
    now: LocalStamp,
    off: int,
) -> int {
    anchor_day(reference, now) * (SECONDS_PER_DAY as int) + window.start.seconds + off
}

/// The generated instant for a given draw `off`, after the single
/// ordering correction: a candidate at or before the reference — or,
/// with no reference, strictly before `now` — moves one day forward.
pub open spec fn generated_secs(
    window: TimeWindow,
    reference: Option<LocalStamp>,
    now: LocalStamp,
    off: int,
) -> int {
    let c = candidate_secs(window, reference, now, off);
    match reference {
        Some(rf) => if c <= rf.as_secs() {
            c + SECONDS_PER_DAY
        } else {
            c
        },
        None => if c < now.as_secs() {
            c + SECONDS_PER_DAY
        } else {
            c
        },
    }
}

/// Draws one randomized commit timestamp.
///
/// The window is re-validated defensively, since the configuration it
/// comes from is external state: an inverted or empty window is rejected
/// with `InvalidWindow`.  On success the result's time of day lies within
/// the window, the result is strictly later than the reference commit
/// when one exists, and never earlier than `now` when none does.
pub fn generate(window: TimeWindow, reference: Option<LocalStamp>, now: LocalStamp) -> (r: Result<
    LocalStamp,
    ConfigError,
>)
    requires
        window.start.wf(),
        window.end.wf(),
        now.wf(),
        now.day < MAX_DAY,
        reference matches Some(rf) ==> rf.wf() && rf.day < MAX_DAY,
    ensures
        r is Ok <==> window.start.seconds < window.end.seconds,
        r matches Err(e) ==> e is InvalidWindow,
        r matches Ok(t) ==> {
            &&& t.wf()
            &&& exists|off: int|
                0 <= off <= window.spec_span() && t.as_secs() == generated_secs(
                    window,
                    reference,
                    now,
                    off,
                )
            &&& window.start.seconds <= t.sec <= window.end.seconds
            &&& (reference matches Some(rf) ==> t.as_secs() > rf.as_secs())
            &&& (reference is None ==> t.as_secs() >= now.as_secs())
            &&& t.day >= now.day
            &&& (reference matches Some(rf) ==> t.day >= rf.day)
        },
{
    if window.start.seconds >= window.end.seconds {
        return Err(ConfigError::InvalidWindow);
    }
    let span: u32 = window.end.seconds - window.start.seconds;
    let off: u32 = random_in_range(0, span);
    let base_day: i64 = match reference {
        Some(rf) => if rf.day > now.day {
            rf.day
        } else {
            now.day
        },
        None => now.day,
    };
    let candidate = LocalStamp { day: base_day, sec: window.start.seconds + off };
    let shifted = LocalStamp { day: base_day + 1, sec: candidate.sec };
    proof {
        assert(candidate.as_secs() == candidate_secs(window, reference, now, off as int));
        assert(shifted.as_secs() == candidate.as_secs() + SECONDS_PER_DAY);
    }
    let result = match reference {
        Some(rf) => if candidate.is_at_or_before(rf) {
            shifted
        } else {
            candidate
        },
        None => if candidate.is_before(now) {
            shifted
        } else {
            candidate
        },
    };
    proof {
        assert(result.as_secs() == generated_secs(window, reference, now, off as int));
        if let Some(rf) = reference {
            assert(candidate.as_secs() >= rf.day * (SECONDS_PER_DAY as int));
            assert(result.as_secs() > rf.as_secs());
        }
    }
    Ok(result)
}

/// Draws one randomized commit timestamp straight from the stored
/// configuration strings, as one run of the tool does: parse the window,
/// validate it, then generate.
///
/// Succeeds exactly when both strings are well formed `HH:MM` times and
/// the start is strictly before the end; the result then carries the same
/// guarantees as `generate`.
pub fn plan_commit_time(
    start: &str,
    end: &str,
    reference: Option<LocalStamp>,
    now: LocalStamp,
) -> (r: Result<LocalStamp, ConfigError>)
    requires
        now.wf(),
        now.day < MAX_DAY,
        reference matches Some(rf) ==> rf.wf() && rf.day < MAX_DAY,
    ensures
        r is Ok <==> (is_hhmm(start@) && is_hhmm(end@) && hhmm_seconds(start@) < hhmm_seconds(
            end@,
        )),
        !(is_hhmm(start@) && is_hhmm(end@)) ==> (r matches Err(e) && e is MalformedTimeString),
        is_hhmm(start@) && is_hhmm(end@) && hhmm_seconds(start@) >= hhmm_seconds(end@) ==> (
        r matches Err(e) && e is InvalidWindow),
        r matches Ok(t) ==> {
            &&& t.wf()
            &&& exists|off: int|
                0 <= off <= window_of(start@, end@).spec_span() && t.as_secs() == generated_secs(
                    window_of(start@, end@),
                    reference,
                    now,
                    off,
                )
            &&& hhmm_seconds(start@) <= t.sec <= hhmm_seconds(end@)
            &&& (reference matches Some(rf) ==> t.as_secs() > rf.as_secs())
            &&& (reference is None ==> t.as_secs() >= now.as_secs())
            &&& t.day >= now.day
            &&& (reference matches Some(rf) ==> t.day >= rf.day)
        },
{
    let window = match TimeWindow::parse(start, end) {
        Ok(w) => w,
        Err(e) => { return Err(e); },
    };
    proof {
        assert(window == window_of(start@, end@));
    }
    generate(window, reference, now)
}

} // verus!
