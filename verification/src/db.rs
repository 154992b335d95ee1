//! The storage schema: the memo table of the first release and the
//! migration that adds tags, memo-tag links and settings.

use vstd::prelude::*;
use crate::text::str_eq;

verus! {

/// The memo table: five fields, a length check on the title and an index on
/// the update time (the reminder column is added by migration).
pub const SCHEMA_SQL: &'static str = "
CREATE TABLE IF NOT EXISTS memo (
    id         INTEGER PRIMARY KEY AUTOINCREMENT,
    title      TEXT    NOT NULL,
    content    TEXT    NOT NULL DEFAULT '',
    created_at TEXT    NOT NULL,
    updated_at TEXT    NOT NULL,
    CONSTRAINT chk_title_len CHECK (length(title) <= 100)
);

CREATE INDEX IF NOT EXISTS idx_memo_updated_at ON memo (updated_at DESC);
";

/// The tag, memo-tag and settings tables with their indexes.
pub const MIGRATION_SQL: &'static str = "
CREATE TABLE IF NOT EXISTS tag (
    id          INTEGER PRIMARY KEY AUTOINCREMENT,
    name        TEXT    NOT NULL,
    created_at  TEXT    NOT NULL,
    CONSTRAINT chk_tag_name_len CHECK (length(name) <= 30)
);

CREATE UNIQUE INDEX IF NOT EXISTS idx_tag_name_unique ON tag (name COLLATE NOCASE);

CREATE TABLE IF NOT EXISTS memo_tags (
    memo_id INTEGER NOT NULL,
    tag_id  INTEGER NOT NULL,
    PRIMARY KEY (memo_id, tag_id),
    FOREIGN KEY (memo_id) REFERENCES memo (id) ON DELETE CASCADE,
    FOREIGN KEY (tag_id)  REFERENCES tag  (id) ON DELETE CASCADE
);

CREATE INDEX IF NOT EXISTS idx_memo_tags_tag ON memo_tags (tag_id);

CREATE TABLE IF NOT EXISTS settings (
    key   TEXT PRIMARY KEY,
    value TEXT NOT NULL
);
";

/// The column that migration appends to a memo table of the first release.
pub const ADD_REMIND_AT_SQL: &'static str = "ALTER TABLE memo ADD COLUMN remind_at TEXT NOT NULL DEFAULT '';";

/// The schema version recorded after migration.
pub const USER_VERSION_SQL: &'static str = "PRAGMA user_version = 1;";

/// Whether a table already has `column`, given the names of its columns.
pub fn column_present(columns: &Vec<String>, column: &str) -> (r: bool)
    ensures
        r == exists|i: int| 0 <= i < columns@.len() && (#[trigger] columns@[i])@ == column@,
{
    let mut i: usize = 0;
    while i < columns.len()
        invariant
            i <= columns@.len(),
            forall|k: int| 0 <= k < i ==> (#[trigger] columns@[k])@ != column@,
        decreases columns@.len() - i,
    {
        if str_eq(columns[i].as_str(), column) {
            return true;
        }
        i = i + 1;
    }
    false
}

} // verus!
