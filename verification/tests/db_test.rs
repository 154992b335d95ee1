use my_echo::db::{column_present, MIGRATION_SQL, SCHEMA_SQL};

#[test]
fn schema_sql_has_no_p1_p2_fields() {
    assert!(!SCHEMA_SQL.contains("is_pinned"));
    assert!(!SCHEMA_SQL.contains("deleted_at"));
    assert!(!SCHEMA_SQL.contains("archived"));
    assert!(!SCHEMA_SQL.contains("encrypt"));
    assert!(!SCHEMA_SQL.contains("pinned"));
}

#[test]
fn schema_sql_has_check_and_index() {
    assert!(SCHEMA_SQL.contains("CHECK (length(title) <= 100)"));
    assert!(SCHEMA_SQL.contains("idx_memo_updated_at"));
    assert!(MIGRATION_SQL.contains("idx_tag_name_unique"));
    assert!(MIGRATION_SQL.contains("idx_memo_tags_tag"));
    assert!(MIGRATION_SQL.contains("CREATE TABLE IF NOT EXISTS settings"));
}

#[test]
fn column_present_finds_exact_name() {
    let cols: Vec<String> = ["id", "title", "content"].iter().map(|s| s.to_string()).collect();
    assert!(column_present(&cols, "title"));
    assert!(!column_present(&cols, "remind_at"));
    assert!(!column_present(&cols, "Title"));
    assert!(!column_present(&Vec::new(), "id"));
}
