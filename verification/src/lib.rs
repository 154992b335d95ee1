//! The rules of a desktop memo app: validation of memos, tags, reminders
//! and settings, search patterns, and the decisions of the reminder
//! scheduler. Storage and the window shell are left to the caller.

use vstd::prelude::*;

pub mod db;
pub mod error;
pub mod memo;
pub mod models;
pub mod notification;
pub mod reminder;
pub mod scheduler;
pub mod settings;
pub mod tag;
pub mod text;
pub mod time;

verus! {
}
