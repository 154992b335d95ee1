use my_echo::error::ErrorCode;
use my_echo::reminder::reminder_text;
use my_echo::time::{truncate_to_minute, Timestamp};

const NOW_2026: Timestamp = Timestamp { secs: 1767225600, nanos: 0 };

#[test]
fn missing_memo_comes_first() {
    let err = reminder_text(false, "not a time", NOW_2026).unwrap_err();
    assert_eq!(err.code, ErrorCode::NotFound);
    assert_eq!(err.message, "备忘录不存在");
}

#[test]
fn unparsable_time_is_refused() {
    for raw in ["", "tomorrow", "2026-13-01T00:00:00Z", "2026-01-01 10:00"] {
        let err = reminder_text(true, raw, NOW_2026).unwrap_err();
        assert_eq!(err.code, ErrorCode::Validation);
        assert_eq!(err.message, "提醒时间格式不正确");
    }
}

#[test]
fn past_time_is_refused() {
    let err = reminder_text(true, "2025-12-31T23:59:59Z", NOW_2026).unwrap_err();
    assert_eq!(err.code, ErrorCode::Validation);
    assert_eq!(err.message, "提醒时间不能早于当前时间");
}

#[test]
fn time_is_truncated_to_minute_in_utc() {
    assert_eq!(
        reminder_text(true, "2099-01-01T10:20:30.456Z", NOW_2026).unwrap(),
        "2099-01-01T10:20:00.000Z"
    );
    assert_eq!(
        reminder_text(true, "2099-01-01T10:20:59+08:00", NOW_2026).unwrap(),
        "2099-01-01T02:20:00.000Z"
    );
}

#[test]
fn truncation_can_move_a_time_before_now() {
    // Thirty seconds ahead, but the start of its minute has already passed.
    let now = Timestamp { secs: 1767225600 + 10, nanos: 0 };
    let err = reminder_text(true, "2026-01-01T00:00:40Z", now).unwrap_err();
    assert_eq!(err.message, "提醒时间不能早于当前时间");
    // Exactly the start of the current minute is accepted.
    let now = Timestamp { secs: 1767225600, nanos: 0 };
    assert_eq!(
        reminder_text(true, "2026-01-01T00:00:40Z", now).unwrap(),
        "2026-01-01T00:00:00.000Z"
    );
}

#[test]
fn accepted_time_keeps_date_and_formats_in_utc() {
    let now = Timestamp { secs: 1789355700 - 3600, nanos: 0 };
    assert_eq!(
        reminder_text(true, "2026-09-14T03:15:00.123Z", now).unwrap(),
        "2026-09-14T03:15:00.000Z"
    );
    assert_eq!(
        reminder_text(true, "2026-09-14t11:15:59.999+08:00", now).unwrap(),
        "2026-09-14T03:15:00.000Z"
    );
}

#[test]
fn truncation_handles_negative_timestamps() {
    let t = Timestamp { secs: -61, nanos: 5 };
    assert_eq!(truncate_to_minute(t), Some(Timestamp { secs: -120, nanos: 0 }));
    let t = Timestamp { secs: 119, nanos: 999_999_999 };
    assert_eq!(truncate_to_minute(t), Some(Timestamp { secs: 60, nanos: 0 }));
}
