use my_echo::error::ErrorCode;
use my_echo::tag::{
    checked_tag_name, ensure_tag_exists, ensure_tag_name_free, normalize_tag_names,
    validate_tag_name,
};

fn names(v: &[&str]) -> Vec<String> {
    v.iter().map(|s| s.to_string()).collect()
}

#[test]
fn tag_name_rules() {
    assert_eq!(validate_tag_name("").unwrap_err().message, "标签名不能为空");
    assert!(validate_tag_name(&"字".repeat(30)).is_ok());
    let err = validate_tag_name(&"字".repeat(31)).unwrap_err();
    assert_eq!(err.code, ErrorCode::Validation);
    assert_eq!(err.message, "标签不能超过 30 个字符");
    assert_eq!(validate_tag_name("a\nb").unwrap_err().message, "标签名不能包含换行");
    assert_eq!(validate_tag_name("a\rb").unwrap_err().message, "标签名不能包含换行");
    assert!(validate_tag_name("工作").is_ok());
}

#[test]
fn checked_tag_name_trims() {
    assert_eq!(checked_tag_name("  工作 ").unwrap(), "工作");
    assert_eq!(checked_tag_name("   ").unwrap_err().message, "标签名不能为空");
}

#[test]
fn normalize_trims_and_drops_case_repeats_keeping_first() {
    let out = normalize_tag_names(&names(&[" Work ", "life", "work", "LIFE", "生活", "Life "]))
        .unwrap();
    assert_eq!(out, names(&["Work", "life", "生活"]));
}

#[test]
fn normalize_reports_first_invalid_name() {
    let err = normalize_tag_names(&names(&["ok", "   ", "a\nb"])).unwrap_err();
    assert_eq!(err.code, ErrorCode::Validation);
    assert_eq!(err.message, "标签名不能为空");
    let err = normalize_tag_names(&names(&["ok", "ok", &"字".repeat(31)])).unwrap_err();
    assert_eq!(err.message, "标签不能超过 30 个字符");
}

#[test]
fn normalize_empty_list_is_empty() {
    assert_eq!(normalize_tag_names(&Vec::new()).unwrap(), Vec::<String>::new());
}

#[test]
fn normalize_is_idempotent() {
    let once = normalize_tag_names(&names(&["A", " a", "b ", "B", "c"])).unwrap();
    let twice = normalize_tag_names(&once).unwrap();
    assert_eq!(once, twice);
}

#[test]
fn tag_existence_errors() {
    assert!(ensure_tag_exists(true).is_ok());
    let err = ensure_tag_exists(false).unwrap_err();
    assert_eq!(err.code, ErrorCode::NotFound);
    assert_eq!(err.message, "标签不存在");
    assert!(ensure_tag_name_free(None).is_ok());
    let err = ensure_tag_name_free(Some(3)).unwrap_err();
    assert_eq!(err.code, ErrorCode::Validation);
    assert_eq!(err.message, "标签已存在");
}
