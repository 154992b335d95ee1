use my_echo::scheduler::{scan_step, sleep_after_scan, DueReminder, ScanStep};
use my_echo::time::{Timestamp, WaitTime};

const NOW: Timestamp = Timestamp { secs: 1767225600, nanos: 0 };

fn due(id: i64, at: &str) -> Option<DueReminder> {
    Some(DueReminder { id, title: format!("memo {id}"), remind_at: at.to_string() })
}

#[test]
fn nothing_pending_is_idle() {
    assert_eq!(scan_step(None, NOW), ScanStep::Idle);
}

#[test]
fn unparsable_reminder_is_discarded() {
    assert_eq!(scan_step(due(4, "soon"), NOW), ScanStep::Discard { id: 4 });
}

#[test]
fn reminder_due_now_or_earlier_fires() {
    assert_eq!(
        scan_step(due(7, "2026-01-01T00:00:00.000Z"), NOW),
        ScanStep::Fire { id: 7, title: "memo 7".to_string() }
    );
    assert_eq!(
        scan_step(due(8, "2025-06-01T00:00:00.000Z"), NOW),
        ScanStep::Fire { id: 8, title: "memo 8".to_string() }
    );
}

#[test]
fn future_reminder_sets_the_wait() {
    assert_eq!(
        scan_step(due(9, "2026-01-01T00:01:30.000Z"), NOW),
        ScanStep::Wait(WaitTime { secs: 90, nanos: 0 })
    );
    let now = Timestamp { secs: 1767225600, nanos: 250_000_000 };
    assert_eq!(
        scan_step(due(9, "2026-01-01T00:00:01.000Z"), now),
        ScanStep::Wait(WaitTime { secs: 0, nanos: 750_000_000 })
    );
}

#[test]
fn idle_sleep_is_one_hour() {
    assert_eq!(sleep_after_scan(None), WaitTime { secs: 3600, nanos: 0 });
    let w = WaitTime { secs: 12, nanos: 3 };
    assert_eq!(sleep_after_scan(Some(w)), w);
}
