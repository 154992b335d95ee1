//! The records the commands take and return. Field names and their order
//! follow the front end's contract.

use vstd::prelude::*;

verus! {

/// A stored memo. Times are UTC RFC 3339 text with milliseconds and a `Z`
/// suffix; `remind_at` is empty when no reminder is set.
#[derive(Debug, PartialEq, Eq)]
pub struct Memo {
    pub id: i64,
    pub title: String,
    pub content: String,
    pub created_at: String,
    pub updated_at: String,
    pub remind_at: String,
}

/// Input of `create_memo`.
#[derive(Debug, PartialEq, Eq)]
pub struct CreateMemoInput {
    pub title: String,
    pub content: String,
}

/// Input of `get_memo`.
#[derive(Debug, PartialEq, Eq)]
pub struct GetMemoInput {
    pub id: i64,
}

/// Input of `update_memo`.
#[derive(Debug, PartialEq, Eq)]
pub struct UpdateMemoInput {
    pub id: i64,
    pub title: String,
    pub content: String,
}

/// Input of `delete_memo`.
#[derive(Debug, PartialEq, Eq)]
pub struct DeleteMemoInput {
    pub id: i64,
}

/// Result of `delete_memo`.
#[derive(Debug, PartialEq, Eq)]
pub struct DeleteMemoResult {
    pub id: i64,
}

/// Input of `search_memos`.
#[derive(Debug, PartialEq, Eq)]
pub struct SearchMemosInput {
    pub keyword: String,
}

/// A stored tag.
#[derive(Debug, PartialEq, Eq)]
pub struct Tag {
    pub id: i64,
    pub name: String,
    pub created_at: String,
}

/// A tag with the number of memos that carry it (`list_tags`).
#[derive(Debug, PartialEq, Eq)]
pub struct TagWithCount {
    pub id: i64,
    pub name: String,
    pub created_at: String,
    pub memo_count: i64,
}

/// Input of `create_tag`.
#[derive(Debug, PartialEq, Eq)]
pub struct CreateTagInput {
    pub name: String,
}

/// Input of `delete_tag`.
#[derive(Debug, PartialEq, Eq)]
pub struct DeleteTagInput {
    pub id: i64,
}

/// Result of `delete_tag`.
#[derive(Debug, PartialEq, Eq)]
pub struct DeleteTagResult {
    pub id: i64,
}

/// Input of `list_memo_tags`.
#[derive(Debug, PartialEq, Eq)]
pub struct ListMemoTagsInput {
    pub memo_id: i64,
}

/// Input of `set_memo_tags`: the memo's whole new set of tag names.
#[derive(Debug, PartialEq, Eq)]
pub struct SetMemoTagsInput {
    pub memo_id: i64,
    pub tag_names: Vec<String>,
}

/// Input of `list_memos_by_tag`; the keyword is optional and narrows the
/// listing further.
#[derive(Debug, PartialEq, Eq)]
pub struct ListMemosByTagInput {
    pub tag_id: i64,
    pub keyword: Option<String>,
}

/// Input of `set_memo_reminder`.
#[derive(Debug, PartialEq, Eq)]
pub struct SetMemoReminderInput {
    pub memo_id: i64,
    pub remind_at: String,
}

/// Input of `clear_memo_reminder`.
#[derive(Debug, PartialEq, Eq)]
pub struct ClearMemoReminderInput {
    pub memo_id: i64,
}

/// The shortcut bindings: four inside the app and the global quick note.
#[derive(Debug, Clone, PartialEq, Eq)]
pub struct ShortcutBindings {
    pub new_memo: String,
    pub save: String,
    pub delete: String,
    pub focus_search: String,
    pub quick_note: String,
}

/// The five bindings as character sequences.
pub struct ShortcutBindingsView {
    pub new_memo: Seq<char>,
    pub save: Seq<char>,
    pub delete: Seq<char>,
    pub focus_search: Seq<char>,
    pub quick_note: Seq<char>,
}

impl View for ShortcutBindings {
    type V = ShortcutBindingsView;

    open spec fn view(&self) -> ShortcutBindingsView {
        ShortcutBindingsView {
            new_memo: self.new_memo@,
            save: self.save@,
            delete: self.delete@,
            focus_search: self.focus_search@,
            quick_note: self.quick_note@,
        }
    }
}

/// The whole application configuration.
#[derive(Debug, Clone, PartialEq, Eq)]
pub struct AppSettings {
    pub theme: String,
    pub close_behavior: String,
    pub shortcuts: ShortcutBindings,
}

/// The configuration as character sequences.
pub struct AppSettingsView {
    pub theme: Seq<char>,
    pub close_behavior: Seq<char>,
    pub shortcuts: ShortcutBindingsView,
}

impl View for AppSettings {
    type V = AppSettingsView;

    open spec fn view(&self) -> AppSettingsView {
        AppSettingsView {
            theme: self.theme@,
            close_behavior: self.close_behavior@,
            shortcuts: self.shortcuts@,
        }
    }
}

/// Input of `update_settings`: only the fields that are present change.
#[derive(Debug, PartialEq, Eq)]
pub struct UpdateSettingsInput {
    pub theme: Option<String>,
    pub close_behavior: Option<String>,
    pub shortcuts: Option<ShortcutBindings>,
}

} // verus!
