//! Instants as plain values, with the RFC 3339 parsing and formatting that
//! chrono provides.

use vstd::prelude::*;

verus! {

/// A UTC instant as chrono reports it: whole seconds since the Unix epoch
/// (leap seconds not counted) and the nanoseconds past that second, which
/// exceed 999,999,999 only during a leap second.
#[derive(Debug, Clone, Copy, PartialEq, Eq, Structural)]
pub struct Timestamp {
    pub secs: i64,
    pub nanos: u32,
}

/// A non-negative span of time: whole seconds and nanoseconds.
#[derive(Debug, Clone, Copy, PartialEq, Eq, Structural)]
pub struct WaitTime {
    pub secs: u64,
    pub nanos: u32,
}

/// What chrono's `DateTime::parse_from_rfc3339` gives for `raw`, taken as
/// a UTC instant: `None` where it refuses the text.
pub uninterp spec fn rfc3339_timestamp(raw: Seq<char>) -> Option<Timestamp>;

/// chrono's `DateTime::parse_from_rfc3339`, with the parsed instant read as
/// its UTC timestamp and sub-second nanoseconds. Claimed: the result is
/// `rfc3339_timestamp(raw)`; RFC 3339's grammar and the calendar are left
/// to chrono and not restated. Also claimed, from chrono's source: a parsed
/// instant lies on a date chrono can represent (its years stay within about
/// 262,000 of year 0, so its timestamp is far above `i64::MIN`), and the
/// start of its minute, which falls on the same date, is accepted by
/// `DateTime::from_timestamp` with zero nanoseconds, so chrono can format it.
#[verifier::external_body]
pub(crate) fn parse_rfc3339(raw: &str) -> (r: Option<Timestamp>)
    ensures
        r == rfc3339_timestamp(raw@),
        r matches Some(t) ==> i64::MIN + 60 <= t.secs,
        r matches Some(t) ==> rfc3339_millis_text(
            Timestamp { secs: (t.secs - t.secs % 60) as i64, nanos: 0 },
        ) is Some,
{
    match chrono::DateTime::parse_from_rfc3339(raw) {
        Ok(d) => Some(Timestamp { secs: d.timestamp(), nanos: d.timestamp_subsec_nanos() }),
        Err(_) => None,
    }
}

/// What chrono's `to_rfc3339_opts(SecondsFormat::Millis, true)` writes for
/// the UTC instant `t`, or `None` where chrono's `DateTime::from_timestamp`
/// cannot represent `t`.
pub uninterp spec fn rfc3339_millis_text(t: Timestamp) -> Option<Seq<char>>;

/// chrono's `to_rfc3339_opts(SecondsFormat::Millis, true)` on the UTC
/// instant `t` (made by chrono's `DateTime::from_timestamp`), such as
/// `2026-09-14T03:15:00.000Z`. Claimed: the result is
/// `rfc3339_millis_text(t)`; the calendar arithmetic is left to chrono.
#[verifier::external_body]
pub(crate) fn format_rfc3339_millis(t: Timestamp) -> (r: Option<String>)
    ensures
        r matches Some(s) ==> rfc3339_millis_text(t) == Some(s@),
        r is None ==> rfc3339_millis_text(t) is None,
{
    match chrono::DateTime::from_timestamp(t.secs, t.nanos) {
        Some(d) => Some(d.to_rfc3339_opts(chrono::SecondsFormat::Millis, true)),
        None => None,
    }
}

/// Whether instant `a` comes strictly before instant `b` (chrono orders UTC
/// instants by timestamp, then by sub-second nanoseconds).
pub open spec fn before(a: Timestamp, b: Timestamp) -> bool {
    a.secs < b.secs || (a.secs == b.secs && a.nanos < b.nanos)
}

/// Whether `a` comes strictly before `b`.
pub fn is_before(a: Timestamp, b: Timestamp) -> (r: bool)
    ensures
        r == before(a, b),
{
    a.secs < b.secs || (a.secs == b.secs && a.nanos < b.nanos)
}

/// The start of the minute that holds `t`: seconds and nanoseconds set to
/// zero; `None` where that start is below the range of `i64`.
pub open spec fn minute_start(t: Timestamp) -> Option<Timestamp> {
    let s = t.secs - t.secs % 60;
    if s >= i64::MIN {
        Some(Timestamp { secs: s as i64, nanos: 0 })
    } else {
        None
    }
}

/// `before` orders instants strictly and totally: by seconds, then by
/// nanoseconds.
pub proof fn lemma_before_is_strict_total_order(a: Timestamp, b: Timestamp, c: Timestamp)
    ensures
        !before(a, a),
        before(a, b) ==> !before(b, a),
        before(a, b) && before(b, c) ==> before(a, c),
        a != b ==> before(a, b) || before(b, a),
{
}

/// The start of a minute is a whole minute with no nanoseconds, at most
/// `t` and less than a minute before it, and is its own start.
pub proof fn lemma_minute_start(t: Timestamp)
    requires
        minute_start(t) is Some,
    ensures
        ({
            let d = minute_start(t)->Some_0;
            &&& d.secs % 60 == 0
            &&& d.nanos == 0
            &&& d.secs <= t.secs < d.secs + 60
            &&& !before(t, d)
            &&& minute_start(d) == Some(d)
        }),
        t.secs % 60 == 0 && t.nanos == 0 ==> minute_start(t) == Some(t),
{
}

/// Truncates `t` to the start of its minute.
pub fn truncate_to_minute(t: Timestamp) -> (r: Option<Timestamp>)
    ensures
        r == minute_start(t),
{
    let mut rem = t.secs % 60;
    if rem < 0 {
        rem = rem + 60;
    }
    assert(rem == t.secs % 60);
    match t.secs.checked_sub(rem) {
        Some(s) => Some(Timestamp { secs: s, nanos: 0 }),
        None => None,
    }
}

/// What chrono's `(due - now).to_std()` gives for two UTC instants made by
/// `DateTime::from_timestamp`: `None` where either instant cannot be
/// represented or the span is negative.
pub uninterp spec fn chrono_span(due: Timestamp, now: Timestamp) -> Option<WaitTime>;

/// chrono's difference of two UTC instants, converted to a std duration.
/// Claimed: the result is `chrono_span(due, now)`; chrono's treatment of
/// leap seconds in the difference is not restated.
#[verifier::external_body]
pub(crate) fn span_between(due: Timestamp, now: Timestamp) -> (r: Option<WaitTime>)
    ensures
        r == chrono_span(due, now),
{
    match (
        chrono::DateTime::from_timestamp(due.secs, due.nanos),
        chrono::DateTime::from_timestamp(now.secs, now.nanos),
    ) {
        (Some(d), Some(n)) => match (d - n).to_std() {
            Ok(w) => Some(WaitTime { secs: w.as_secs(), nanos: w.subsec_nanos() }),
            Err(_) => None,
        },
        _ => None,
    }
}

} // verus!
