use my_echo::error::ErrorCode;
use my_echo::models::{AppSettings, ShortcutBindings, UpdateSettingsInput};
use my_echo::settings::{
    default_settings, default_shortcuts, find_app_conflict, is_valid_close_behavior,
    is_valid_shortcut, is_valid_theme, merge_settings, settings_from_stored,
    settings_need_seeding, validate_settings_update, validate_shortcuts, ShortcutSlot,
};

fn bindings(a: &str, b: &str, c: &str, d: &str, e: &str) -> ShortcutBindings {
    ShortcutBindings {
        new_memo: a.to_string(),
        save: b.to_string(),
        delete: c.to_string(),
        focus_search: d.to_string(),
        quick_note: e.to_string(),
    }
}

#[test]
fn default_shortcuts_match_binding_protocol() {
    let s = default_shortcuts();
    assert_eq!(s.new_memo, "Cmd+N");
    assert_eq!(s.save, "Cmd+S");
    assert_eq!(s.delete, "Cmd+Backspace");
    assert_eq!(s.focus_search, "Cmd+F");
    assert_eq!(s.quick_note, "Cmd+Shift+Space");
}

#[test]
fn default_settings_values() {
    let s = default_settings();
    assert_eq!(s.theme, "system");
    assert_eq!(s.close_behavior, "quit");
    assert_eq!(s.shortcuts.delete, "Cmd+Backspace");
}

#[test]
fn default_shortcuts_pass_validation() {
    assert!(validate_shortcuts(&default_shortcuts()).is_ok());
}

#[test]
fn themes_and_close_behaviours() {
    for t in ["system", "light", "dark"] {
        assert!(is_valid_theme(t));
    }
    for t in ["bogus", "Dark", " dark", ""] {
        assert!(!is_valid_theme(t));
    }
    assert!(is_valid_close_behavior("quit"));
    assert!(is_valid_close_behavior("hide"));
    assert!(!is_valid_close_behavior("Quit"));
    assert!(!is_valid_close_behavior("minimize"));
}

#[test]
fn shortcut_validity() {
    for s in ["Cmd+N", "ctrl+alt+x", " shift + a ", "F1", "f12", "F10", "CommandOrControl+K", "Cmd+Shift+Space"] {
        assert!(is_valid_shortcut(s), "{:?} should be valid", s);
    }
    // A modifier alone, or modifiers with no main key, are refused.
    for s in ["", "   ", "N", "F13", "F0", "A+B", "Cmdx+N", "+", "Cmd", "Cmd+", "Cmd+Shift", "ctrl + alt +  "] {
        assert!(!is_valid_shortcut(s), "{:?} should be invalid", s);
    }
}

#[test]
fn conflict_detection_ignores_case_and_space() {
    let b = bindings("Cmd+N", "cmd+n ", "Cmd+D", "Cmd+F", "Cmd+Shift+Space");
    assert_eq!(find_app_conflict(ShortcutSlot::NewMemo, "Cmd+N", &b), Some(ShortcutSlot::Save));
    assert_eq!(find_app_conflict(ShortcutSlot::Save, "cmd+n ", &b), Some(ShortcutSlot::NewMemo));
    assert_eq!(find_app_conflict(ShortcutSlot::Delete, "Cmd+D", &b), None);
    // The global quick-note binding is not among the in-app candidates.
    assert_eq!(find_app_conflict(ShortcutSlot::Delete, "Cmd+Shift+Space", &b), None);
}

#[test]
fn invalid_binding_is_reported_before_conflicts() {
    let b = bindings("N", "Cmd+S", "Cmd+S", "Cmd+F", "Cmd+Q");
    let err = validate_shortcuts(&b).unwrap_err();
    assert_eq!(err.code, ErrorCode::Validation);
    assert_eq!(err.message, "快捷键必须包含修饰键或为功能键");
}

#[test]
fn conflict_message_names_the_other_binding() {
    let b = bindings("Cmd+N", "Cmd+S", "cmd+s", "Cmd+F", "Cmd+Q");
    let err = validate_shortcuts(&b).unwrap_err();
    assert_eq!(err.code, ErrorCode::Validation);
    assert_eq!(err.message, "该组合已被『删除』使用");

    let b = bindings("Cmd+F", "Cmd+S", "Cmd+D", "Cmd+F", "Cmd+Q");
    assert_eq!(validate_shortcuts(&b).unwrap_err().message, "该组合已被『搜索』使用");

    // Quick note may share a combination with an in-app binding.
    let b = bindings("Cmd+N", "Cmd+S", "Cmd+D", "Cmd+F", "Cmd+N");
    assert!(validate_shortcuts(&b).is_ok());
}

#[test]
fn stored_values_fall_back_to_defaults_when_invalid_or_missing() {
    let s = settings_from_stored(Some("bogus".to_string()), Some("bogus".to_string()), None);
    assert_eq!(s.theme, "system");
    assert_eq!(s.close_behavior, "quit");
    assert_eq!(s.shortcuts.delete, "Cmd+Backspace");

    let s = settings_from_stored(None, None, None);
    assert_eq!(s, default_settings());
}

#[test]
fn stored_settings_read_back_as_written() {
    let written = AppSettings {
        theme: "dark".to_string(),
        close_behavior: "hide".to_string(),
        shortcuts: bindings("Cmd+1", "Cmd+2", "Cmd+3", "Cmd+4", "F5"),
    };
    let read = settings_from_stored(
        Some(written.theme.clone()),
        Some(written.close_behavior.clone()),
        Some(written.shortcuts.clone()),
    );
    assert_eq!(read, written);
}

#[test]
fn seeding_only_when_table_empty() {
    assert!(settings_need_seeding(0));
    assert!(!settings_need_seeding(1));
    assert!(!settings_need_seeding(3));
}

#[test]
fn empty_update_is_refused() {
    let input = UpdateSettingsInput { theme: None, close_behavior: None, shortcuts: None };
    let err = validate_settings_update(&input).unwrap_err();
    assert_eq!(err.code, ErrorCode::Validation);
    assert_eq!(err.message, "没有需要更新的配置");
}

#[test]
fn update_errors_in_order() {
    let input = UpdateSettingsInput {
        theme: Some("neon".to_string()),
        close_behavior: Some("explode".to_string()),
        shortcuts: None,
    };
    assert_eq!(validate_settings_update(&input).unwrap_err().message, "主题配置不合法");
    let input = UpdateSettingsInput {
        theme: Some("dark".to_string()),
        close_behavior: Some("explode".to_string()),
        shortcuts: None,
    };
    assert_eq!(validate_settings_update(&input).unwrap_err().message, "关闭行为配置不合法");
    let input = UpdateSettingsInput {
        theme: None,
        close_behavior: None,
        shortcuts: Some(bindings("Cmd+N", "Cmd+N", "Cmd+D", "Cmd+F", "Cmd+Q")),
    };
    assert_eq!(validate_settings_update(&input).unwrap_err().message, "该组合已被『保存』使用");
    let input = UpdateSettingsInput {
        theme: Some("light".to_string()),
        close_behavior: None,
        shortcuts: None,
    };
    assert!(validate_settings_update(&input).is_ok());
}

#[test]
fn merge_replaces_only_given_fields() {
    let input = UpdateSettingsInput {
        theme: Some("dark".to_string()),
        close_behavior: None,
        shortcuts: None,
    };
    let merged = merge_settings(default_settings(), input);
    assert_eq!(merged.theme, "dark");
    assert_eq!(merged.close_behavior, "quit");
    assert_eq!(merged.shortcuts, default_shortcuts());

    let input = UpdateSettingsInput {
        theme: None,
        close_behavior: Some("hide".to_string()),
        shortcuts: Some(bindings("Cmd+1", "Cmd+2", "Cmd+3", "Cmd+4", "Cmd+5")),
    };
    let merged = merge_settings(default_settings(), input);
    assert_eq!(merged.theme, "system");
    assert_eq!(merged.close_behavior, "hide");
    assert_eq!(merged.shortcuts.quick_note, "Cmd+5");
}

#[test]
fn slot_labels() {
    assert_eq!(ShortcutSlot::NewMemo.label(), "新建");
    assert_eq!(ShortcutSlot::Save.label(), "保存");
    assert_eq!(ShortcutSlot::Delete.label(), "删除");
    assert_eq!(ShortcutSlot::FocusSearch.label(), "搜索");
    assert_eq!(ShortcutSlot::QuickNote.label(), "全局速记");
}

#[test]
fn accepted_update_keeps_settings_valid() {
    let input = UpdateSettingsInput {
        theme: Some("light".to_string()),
        close_behavior: Some("hide".to_string()),
        shortcuts: Some(bindings("Ctrl+1", "Ctrl+2", "Ctrl+3", "Ctrl+4", "F9")),
    };
    assert!(validate_settings_update(&input).is_ok());
    let merged = merge_settings(default_settings(), input);
    assert!(is_valid_theme(&merged.theme));
    assert!(is_valid_close_behavior(&merged.close_behavior));
    assert!(validate_shortcuts(&merged.shortcuts).is_ok());
}
