//! The decision of `set_memo_reminder`: which instant a requested reminder
//! time stands for, and whether it is accepted.

use vstd::prelude::*;
use crate::error::{AppError, ErrorCode};
use crate::time::{
    Timestamp, before, format_rfc3339_millis, is_before, minute_start, parse_rfc3339,
    rfc3339_millis_text, rfc3339_timestamp, truncate_to_minute,
};

verus! {

/// The outcome of a reminder request, as the stored text or an error code
/// with its message.
pub open spec fn reminder_outcome(memo_exists: bool, raw: Seq<char>, now: Timestamp) -> Result<
    Seq<char>,
    (ErrorCode, Seq<char>),
> {
    if !memo_exists {
        Err((ErrorCode::NotFound, "备忘录不存在"@))
    } else {
        match rfc3339_timestamp(raw) {
            None => Err((ErrorCode::Validation, "提醒时间格式不正确"@)),
            Some(t) => match minute_start(t) {
                None => Err((ErrorCode::Validation, "提醒时间格式不正确"@)),
                Some(due) => if before(due, now) {
                    Err((ErrorCode::Validation, "提醒时间不能早于当前时间"@))
                } else {
                    match rfc3339_millis_text(due) {
                        Some(text) => Ok(text),
                        None => Err((ErrorCode::Validation, "提醒时间格式不正确"@)),
                    }
                },
            },
        }
    }
}

/// Whether a reminder request is accepted: the memo exists, the time
/// parses, and the start of its minute is not before `now`.
pub open spec fn reminder_accepted(memo_exists: bool, raw: Seq<char>, now: Timestamp) -> bool {
    memo_exists && match rfc3339_timestamp(raw) {
        Some(t) => match minute_start(t) {
            Some(due) => !before(due, now),
            None => false,
        },
        None => false,
    }
}

/// Decides a reminder request for a memo: the memo must exist; the time
/// must parse as RFC 3339; it is truncated to the start of its minute, which
/// must not lie before `now`; the stored text is that minute in UTC with
/// milliseconds and a `Z` suffix.
pub fn reminder_text(memo_exists: bool, raw: &str, now: Timestamp) -> (r: Result<
    String,
    AppError,
>)
    ensures
        r matches Ok(s) ==> reminder_outcome(memo_exists, raw@, now) == Ok::<
            Seq<char>,
            (ErrorCode, Seq<char>),
        >(s@),
        r matches Err(e) ==> reminder_outcome(memo_exists, raw@, now) == Err::<
            Seq<char>,
            (ErrorCode, Seq<char>),
        >((e.code, e.message@)),
        r is Ok <==> reminder_accepted(memo_exists, raw@, now),
        r is Ok <==> (memo_exists && rfc3339_timestamp(raw@) is Some && {
            let t = rfc3339_timestamp(raw@)->Some_0;
            let start = t.secs - t.secs % 60;
            !(start < now.secs || (start == now.secs && 0 < now.nanos))
        }),
        r matches Ok(s) ==> rfc3339_timestamp(raw@) is Some && {
            let t = rfc3339_timestamp(raw@)->Some_0;
            rfc3339_millis_text(Timestamp { secs: (t.secs - t.secs % 60) as i64, nanos: 0 })
                == Some(s@)
        },
{
    if !memo_exists {
        return Err(AppError::not_found("备忘录不存在"));
    }
    let parsed = match parse_rfc3339(raw) {
        Some(t) => t,
        None => return Err(AppError::validation("提醒时间格式不正确")),
    };
    let due = match truncate_to_minute(parsed) {
        Some(d) => d,
        None => return Err(AppError::validation("提醒时间格式不正确")),
    };
    if is_before(due, now) {
        return Err(AppError::validation("提醒时间不能早于当前时间"));
    }
    match format_rfc3339_millis(due) {
        Some(text) => Ok(text),
        None => Err(AppError::validation("提醒时间格式不正确")),
    }
}

/// A reminder request is accepted exactly when the memo exists, the text
/// parses to an instant, and the start of that instant's minute is not
/// before `now`; in particular a time that is already the start of a minute
/// and not in the past is accepted.
pub proof fn lemma_reminder_acceptance(memo_exists: bool, raw: Seq<char>, now: Timestamp)
    ensures
        reminder_accepted(memo_exists, raw, now) <==> ({
            &&& memo_exists
            &&& rfc3339_timestamp(raw) is Some
            &&& minute_start(rfc3339_timestamp(raw)->Some_0) is Some
            &&& !before(minute_start(rfc3339_timestamp(raw)->Some_0)->Some_0, now)
        }),
        ({
            &&& memo_exists
            &&& rfc3339_timestamp(raw) is Some
            &&& rfc3339_timestamp(raw)->Some_0.secs % 60 == 0
            &&& rfc3339_timestamp(raw)->Some_0.nanos == 0
            &&& !before(rfc3339_timestamp(raw)->Some_0, now)
        }) ==> reminder_accepted(memo_exists, raw, now),
{
}

/// A request accepted at one moment is accepted at any earlier moment.
pub proof fn lemma_reminder_accepted_earlier(
    memo_exists: bool,
    raw: Seq<char>,
    now: Timestamp,
    earlier: Timestamp,
)
    requires
        reminder_accepted(memo_exists, raw, now),
        !before(now, earlier),
    ensures
        reminder_accepted(memo_exists, raw, earlier),
{
}

/// A request for a memo that does not exist is answered with not-found,
/// whatever the time.
pub proof fn lemma_reminder_missing_memo(raw: Seq<char>, now: Timestamp)
    ensures
        !reminder_accepted(false, raw, now),
        reminder_outcome(false, raw, now) == Err::<Seq<char>, (ErrorCode, Seq<char>)>(
            (ErrorCode::NotFound, "备忘录不存在"@),
        ),
{
}

/// An accepted reminder is stored as the start of a whole minute that is
/// not before the moment of the request, and within the minute requested.
pub proof fn lemma_accepted_reminder_is_due_minute(
    memo_exists: bool,
    raw: Seq<char>,
    now: Timestamp,
)
    requires
        reminder_outcome(memo_exists, raw, now) is Ok,
    ensures
        memo_exists,
        rfc3339_timestamp(raw) is Some,
        ({
            let t = rfc3339_timestamp(raw)->Some_0;
            let due = minute_start(t)->Some_0;
            &&& minute_start(t) is Some
            &&& due.secs % 60 == 0
            &&& due.nanos == 0
            &&& due.secs <= t.secs < due.secs + 60
            &&& !before(due, now)
            &&& reminder_outcome(memo_exists, raw, now) == Ok::<Seq<char>, (ErrorCode, Seq<char>)>(
                rfc3339_millis_text(due)->Some_0,
            )
        }),
{
}

} // verus!
