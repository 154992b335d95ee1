use my_echo::error::{AppError, ErrorCode};

#[test]
fn error_code_as_str_matches_contract() {
    assert_eq!(ErrorCode::Validation.as_str(), "E_VALIDATION");
    assert_eq!(ErrorCode::NotFound.as_str(), "E_NOT_FOUND");
    assert_eq!(ErrorCode::Internal.as_str(), "E_INTERNAL");
}

#[test]
fn constructors_set_code_and_message() {
    let cases = [
        (AppError::validation("标题不能为空"), ErrorCode::Validation, "标题不能为空"),
        (AppError::not_found("备忘录不存在"), ErrorCode::NotFound, "备忘录不存在"),
        (AppError::internal("数据库操作失败"), ErrorCode::Internal, "数据库操作失败"),
    ];
    for (err, code, message) in cases {
        assert_eq!(err.code, code);
        assert_eq!(err.message, message);
    }
}

#[test]
fn error_code_texts_are_distinct() {
    let texts = [
        ErrorCode::Validation.as_str(),
        ErrorCode::NotFound.as_str(),
        ErrorCode::Internal.as_str(),
    ];
    assert_ne!(texts[0], texts[1]);
    assert_ne!(texts[0], texts[2]);
    assert_ne!(texts[1], texts[2]);
}

#[test]
fn rusqlite_error_maps_to_internal() {
    let conn = rusqlite::Connection::open_in_memory().unwrap();
    let err = conn.execute("SELECT * FROM missing_table", []).unwrap_err();
    let app_err = AppError::from_storage(err);
    assert_eq!(app_err.code.as_str(), "E_INTERNAL");
    assert_eq!(app_err.message, "数据库操作失败");
}
