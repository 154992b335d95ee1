use my_echo::error::ErrorCode;
use my_echo::memo::{
    checked_title, ensure_memo_exists, escape_like, found_memo, like_pattern, validate_title,
};
use my_echo::models::Memo;

#[test]
fn empty_title_is_refused() {
    let err = validate_title("").unwrap_err();
    assert_eq!(err.code, ErrorCode::Validation);
    assert_eq!(err.message, "标题不能为空");
}

#[test]
fn title_limit_counts_characters() {
    assert!(validate_title(&"字".repeat(100)).is_ok());
    let err = validate_title(&"字".repeat(101)).unwrap_err();
    assert_eq!(err.code, ErrorCode::Validation);
    assert_eq!(err.message, "标题不能超过 100 个字符");
    assert!(validate_title(&"a".repeat(100)).is_ok());
}

#[test]
fn checked_title_trims_before_validating() {
    assert_eq!(checked_title("  会议纪要  ").unwrap(), "会议纪要");
    let err = checked_title(" \t\n ").unwrap_err();
    assert_eq!(err.message, "标题不能为空");
    let padded = format!("  {}  ", "字".repeat(100));
    assert_eq!(checked_title(&padded).unwrap(), "字".repeat(100));
}

#[test]
fn escape_like_escapes_wildcards_and_backslash() {
    assert_eq!(escape_like("100%"), "100\\%");
    assert_eq!(escape_like("a_b"), "a\\_b");
    assert_eq!(escape_like("c:\\dir"), "c:\\\\dir");
    assert_eq!(escape_like("普通"), "普通");
    assert_eq!(escape_like(""), "");
}

#[test]
fn like_pattern_wraps_trimmed_escaped_keyword() {
    assert_eq!(like_pattern("  会议 ").unwrap(), "%会议%");
    assert_eq!(like_pattern("50%_off").unwrap(), "%50\\%\\_off%");
    assert!(like_pattern("   ").is_none());
    assert!(like_pattern("").is_none());
}

/// Reads an escaped LIKE pattern back as literal text, refusing wildcards.
fn decode_literal(p: &str) -> Option<String> {
    let mut out = String::new();
    let mut it = p.chars();
    while let Some(c) = it.next() {
        match c {
            '\\' => out.push(it.next()?),
            '%' | '_' => return None,
            _ => out.push(c),
        }
    }
    Some(out)
}

#[test]
fn escaped_keyword_reads_back_literally() {
    for k in ["%", "_", "\\", "a%b_c\\d", "正常文本", "100% sure_"] {
        assert_eq!(decode_literal(&escape_like(k)).as_deref(), Some(k));
    }
}

#[test]
fn missing_memo_is_not_found() {
    assert!(ensure_memo_exists(true).is_ok());
    let err = ensure_memo_exists(false).unwrap_err();
    assert_eq!(err.code, ErrorCode::NotFound);
    assert_eq!(err.message, "备忘录不存在");

    let err = found_memo(None).unwrap_err();
    assert_eq!(err.code, ErrorCode::NotFound);
    assert_eq!(err.message, "备忘录不存在");

    let memo = Memo {
        id: 1,
        title: "标题".to_string(),
        content: "正文".to_string(),
        created_at: "2026-09-14T03:15:00.000Z".to_string(),
        updated_at: "2026-09-14T03:15:00.000Z".to_string(),
        remind_at: "".to_string(),
    };
    let expected = Memo {
        id: 1,
        title: "标题".to_string(),
        content: "正文".to_string(),
        created_at: "2026-09-14T03:15:00.000Z".to_string(),
        updated_at: "2026-09-14T03:15:00.000Z".to_string(),
        remind_at: "".to_string(),
    };
    assert_eq!(found_memo(Some(memo)).unwrap(), expected);
}

#[test]
fn checked_title_is_stable() {
    let once = checked_title("  周报 \n").unwrap();
    assert_eq!(checked_title(&once).unwrap(), once);
}

#[test]
fn search_pattern_reads_back_as_trimmed_keyword() {
    let p = like_pattern("  a%b_c\\ ").unwrap();
    assert!(p.starts_with('%') && p.ends_with('%'));
    let inner = &p[1..p.len() - 1];
    assert_eq!(decode_literal(inner).as_deref(), Some("a%b_c\\"));
}
