//! The decisions of the reminder scheduler: what to do with the earliest
//! pending reminder, and how long to sleep.

use vstd::prelude::*;
use crate::time::{
    Timestamp, WaitTime, before, chrono_span, is_before, parse_rfc3339, rfc3339_timestamp,
    span_between,
};

verus! {

/// The earliest pending reminder: the memo's id, title and stored time.
#[derive(Debug, PartialEq, Eq)]
pub struct DueReminder {
    pub id: i64,
    pub title: String,
    pub remind_at: String,
}

/// What the scheduler does next.
#[derive(Debug, PartialEq, Eq)]
pub enum ScanStep {
    /// No reminder is pending: sleep without a deadline of its own.
    Idle,
    /// The stored time cannot be parsed: clear the memo's reminder and scan
    /// again.
    Discard { id: i64 },
    /// The reminder is due: notify, clear the memo's reminder and scan
    /// again.
    Fire { id: i64, title: String },
    /// The earliest reminder is still ahead: sleep this long.
    Wait(WaitTime),
}

/// The zero span.
pub open spec fn zero_wait() -> WaitTime {
    WaitTime { secs: 0, nanos: 0 }
}

/// How long to sleep until `due`, as chrono computes the span; zero where
/// chrono cannot give it.
pub open spec fn wait_until(due: Timestamp, now: Timestamp) -> WaitTime {
    match chrono_span(due, now) {
        Some(w) => w,
        None => zero_wait(),
    }
}

/// Decides one scan step from the earliest pending reminder (if any) and
/// the current instant: unparsable times are discarded, times not after
/// `now` fire, later times set the sleep.
pub fn scan_step(next: Option<DueReminder>, now: Timestamp) -> (r: ScanStep)
    ensures
        next is None ==> r == ScanStep::Idle,
        next matches Some(d) ==> match rfc3339_timestamp(d.remind_at@) {
            None => r == ScanStep::Discard { id: d.id },
            Some(due) => if !before(now, due) {
                r == ScanStep::Fire { id: d.id, title: d.title }
            } else {
                r == ScanStep::Wait(wait_until(due, now))
            },
        },
{
    match next {
        None => ScanStep::Idle,
        Some(d) => match parse_rfc3339(d.remind_at.as_str()) {
            None => ScanStep::Discard { id: d.id },
            Some(due) => {
                if !is_before(now, due) {
                    ScanStep::Fire { id: d.id, title: d.title }
                } else {
                    match span_between(due, now) {
                        Some(w) => ScanStep::Wait(w),
                        None => ScanStep::Wait(WaitTime { secs: 0, nanos: 0 }),
                    }
                }
            },
        },
    }
}

/// How long the scheduler sleeps with no pending reminder: one hour.
pub open spec fn idle_wait() -> WaitTime {
    WaitTime { secs: 3600, nanos: 0 }
}

/// The sleep after a scan: until the earliest reminder, or an hour when
/// none is pending. A poke from a command ends the sleep early.
pub fn sleep_after_scan(next_wait: Option<WaitTime>) -> (w: WaitTime)
    ensures
        next_wait matches Some(n) ==> w == n,
        next_wait is None ==> w == idle_wait(),
{
    match next_wait {
        Some(n) => n,
        None => WaitTime { secs: 3600, nanos: 0 },
    }
}

} // verus!
