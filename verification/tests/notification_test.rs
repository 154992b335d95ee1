use my_echo::notification::{escape_script_text, reminder_script};

#[test]
fn script_inserts_title() {
    assert_eq!(
        reminder_script("买牛奶"),
        "display notification \"备忘提醒\" with title \"买牛奶\""
    );
    assert_eq!(reminder_script(""), "display notification \"备忘提醒\" with title \"\"");
}

#[test]
fn script_escapes_quotes_and_backslashes() {
    assert_eq!(
        reminder_script("a\"b"),
        "display notification \"备忘提醒\" with title \"a\\\"b\""
    );
    assert_eq!(
        reminder_script("C:\\dir \"x\""),
        "display notification \"备忘提醒\" with title \"C:\\\\dir \\\"x\\\"\""
    );
    assert_eq!(escape_script_text("plain"), "plain");
    assert_eq!(escape_script_text("\\\""), "\\\\\\\"");
}
