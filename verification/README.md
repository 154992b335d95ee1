# my_echo

The rules of a small desktop memo app (memos, tags, reminders, settings),
written in Verus and proved against their contracts.

- `src/` — the verified library: validation of titles, tag names, reminder
  times and settings; LIKE search patterns with escaping; normalisation of a
  memo's tag list; merging of stored and updated settings; the decisions of
  the reminder scheduler; the storage schema.
- `tests/` — tests of the library.
- `app/` — the desktop shell around it: Tauri commands, SQLite access,
  the reminder thread, notifications and global shortcuts.
