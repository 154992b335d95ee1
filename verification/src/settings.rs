//! Application settings: defaults, validation of themes, close behaviours
//! and shortcut bindings, conflict detection, and how stored and updated
//! values merge into the settings in force.

use vstd::prelude::*;
use crate::error::{AppError, ErrorCode};
use crate::models::{
    AppSettings, AppSettingsView, ShortcutBindings, ShortcutBindingsView, UpdateSettingsInput,
};
use crate::text::{
    all_ascii, ascii_lower_char, ascii_upper_char, is_white_space, lemma_split_on_first_piece,
    lemma_split_on_last_piece, lemma_trim_idempotent, lowercase,
    split_chars, split_on, str_eq, to_lowercase, to_uppercase, trim, trim_spec, uppercase,
};

verus! {

/// The default bindings.
pub open spec fn default_shortcuts_spec() -> ShortcutBindingsView {
    ShortcutBindingsView {
        new_memo: "Cmd+N"@,
        save: "Cmd+S"@,
        delete: "Cmd+Backspace"@,
        focus_search: "Cmd+F"@,
        quick_note: "Cmd+Shift+Space"@,
    }
}

/// The default configuration.
pub open spec fn default_settings_spec() -> AppSettingsView {
    AppSettingsView {
        theme: "system"@,
        close_behavior: "quit"@,
        shortcuts: default_shortcuts_spec(),
    }
}

/// The default shortcut bindings: four inside the app, one global.
pub fn default_shortcuts() -> (b: ShortcutBindings)
    ensures
        b@ == default_shortcuts_spec(),
{
    ShortcutBindings {
        new_memo: String::from_str("Cmd+N"),
        save: String::from_str("Cmd+S"),
        delete: String::from_str("Cmd+Backspace"),
        focus_search: String::from_str("Cmd+F"),
        quick_note: String::from_str("Cmd+Shift+Space"),
    }
}

/// The configuration used where nothing valid is stored.
pub fn default_settings() -> (s: AppSettings)
    ensures
        s@ == default_settings_spec(),
{
    AppSettings {
        theme: String::from_str("system"),
        close_behavior: String::from_str("quit"),
        shortcuts: default_shortcuts(),
    }
}

/// The themes the app knows.
pub open spec fn valid_theme(v: Seq<char>) -> bool {
    v == "system"@ || v == "light"@ || v == "dark"@
}

/// The window-close behaviours the app knows.
pub open spec fn valid_close_behavior(v: Seq<char>) -> bool {
    v == "quit"@ || v == "hide"@
}

/// Whether `c` is an ASCII letter.
pub open spec fn is_ascii_letter(c: char) -> bool {
    ('a' <= c && c <= 'z') || ('A' <= c && c <= 'Z')
}

/// Every modifier name, CMD, COMMAND, CTRL, CONTROL, OPTION, ALT, SHIFT,
/// SUPER, CMDORCTRL or COMMANDORCONTROL, written in any case, followed by
/// `+` and a letter key, is a valid binding.
pub proof fn lemma_modifier_and_letter_is_valid(m: Seq<char>, c: char)
    requires
        m.len() > 0,
        forall|i: int| 0 <= i < m.len() ==> is_ascii_letter(#[trigger] m[i]),
        is_ascii_letter(c),
        ({
            let u = m.map_values(|x: char| ascii_upper_char(x));
            ||| u == "CMD"@
            ||| u == "COMMAND"@
            ||| u == "CTRL"@
            ||| u == "CONTROL"@
            ||| u == "OPTION"@
            ||| u == "ALT"@
            ||| u == "SHIFT"@
            ||| u == "SUPER"@
            ||| u == "CMDORCTRL"@
            ||| u == "COMMANDORCONTROL"@
        }),
    ensures
        valid_shortcut(m + seq!['+'] + seq![c]),
{
    reveal_strlit("CMD");
    reveal_strlit("COMMAND");
    reveal_strlit("CTRL");
    reveal_strlit("CONTROL");
    reveal_strlit("OPTION");
    reveal_strlit("ALT");
    reveal_strlit("SHIFT");
    reveal_strlit("SUPER");
    reveal_strlit("CMDORCTRL");
    reveal_strlit("COMMANDORCONTROL");
    let s = m + seq!['+'] + seq![c];
    let z = seq![c];
    assert(!m.contains('+')) by {
        if m.contains('+') {
            let j = choose|j: int| 0 <= j < m.len() && m[j] == '+';
            assert(is_ascii_letter(m[j]));
        }
    }
    assert(!z.contains('+')) by {
        if z.contains('+') {
            let j = choose|j: int| 0 <= j < z.len() && z[j] == '+';
            assert(z[j] == c);
        }
    }
    assert(s[0] == m[0]);
    assert(is_ascii_letter(m[0]));
    assert(s.last() == c);
    assert(trim_spec(s) == s);
    assert(all_ascii(m));
    assert(m[m.len() - 1] == m.last());
    assert(is_ascii_letter(m[m.len() - 1]));
    assert(trim_spec(m) == m);
    assert(is_modifier_part(m));
    assert(trim_spec(z) == z);
    assert(all_ascii(z));
    let uz = uppercase(z);
    assert(uz.len() == 1);
    assert(!is_modifier_name(uz));
    assert(is_main_key_part(z));
    assert(s =~= m + seq!['+'] + z);
    lemma_split_on_first_piece(m, '+', z);
    lemma_split_on_last_piece(m, '+', z);
    let parts = split_on(trim_spec(s), '+');
    assert(parts[0] == m);
    assert(parts[parts.len() - 1] == z);
}

/// White space around a binding does not change whether it is accepted.
pub proof fn lemma_shortcut_validity_ignores_outer_space(binding: Seq<char>)
    ensures
        valid_shortcut(trim_spec(binding)) == valid_shortcut(binding),
{
    lemma_trim_idempotent(binding);
}

/// The function keys F1 to F12, with `F` in either case, are valid
/// bindings on their own.
pub proof fn lemma_function_key_is_valid(f: char, digits: Seq<char>)
    requires
        f == 'F' || f == 'f',
        ({
            ||| digits == "1"@
            ||| digits == "2"@
            ||| digits == "3"@
            ||| digits == "4"@
            ||| digits == "5"@
            ||| digits == "6"@
            ||| digits == "7"@
            ||| digits == "8"@
            ||| digits == "9"@
            ||| digits == "10"@
            ||| digits == "11"@
            ||| digits == "12"@
        }),
    ensures
        valid_shortcut(seq![f] + digits),
{
    reveal_strlit("1");
    reveal_strlit("2");
    reveal_strlit("3");
    reveal_strlit("4");
    reveal_strlit("5");
    reveal_strlit("6");
    reveal_strlit("7");
    reveal_strlit("8");
    reveal_strlit("9");
    reveal_strlit("10");
    reveal_strlit("11");
    reveal_strlit("12");
    reveal_strlit("F1");
    reveal_strlit("F2");
    reveal_strlit("F3");
    reveal_strlit("F4");
    reveal_strlit("F5");
    reveal_strlit("F6");
    reveal_strlit("F7");
    reveal_strlit("F8");
    reveal_strlit("F9");
    reveal_strlit("F10");
    reveal_strlit("F11");
    reveal_strlit("F12");
    let s = seq![f] + digits;
    assert(s[0] == f);
    assert(s.last() == digits.last());
    assert(trim_spec(s) == s);
    assert(all_ascii(s));
    let u = uppercase(s);
    assert(u =~= seq!['F'] + digits);
    if digits == "1"@ {
        assert(u =~= "F1"@);
    } else if digits == "2"@ {
        assert(u =~= "F2"@);
    } else if digits == "3"@ {
        assert(u =~= "F3"@);
    } else if digits == "4"@ {
        assert(u =~= "F4"@);
    } else if digits == "5"@ {
        assert(u =~= "F5"@);
    } else if digits == "6"@ {
        assert(u =~= "F6"@);
    } else if digits == "7"@ {
        assert(u =~= "F7"@);
    } else if digits == "8"@ {
        assert(u =~= "F8"@);
    } else if digits == "9"@ {
        assert(u =~= "F9"@);
    } else if digits == "10"@ {
        assert(u =~= "F10"@);
    } else if digits == "11"@ {
        assert(u =~= "F11"@);
    } else if digits == "12"@ {
        assert(u =~= "F12"@);
    }
    assert(is_function_key(u));
}

/// The themes accepted are exactly `system`, `light` and `dark`, and the
/// close behaviours exactly `quit` and `hide`, written as they stand: case
/// and white space count.
pub proof fn lemma_known_values(v: Seq<char>)
    ensures
        valid_theme(v) <==> (v == "system"@ || v == "light"@ || v == "dark"@),
        valid_close_behavior(v) <==> (v == "quit"@ || v == "hide"@),
{
}

/// Whether `v` names a known theme (exactly, without trimming).
pub fn is_valid_theme(v: &str) -> (r: bool)
    ensures
        r == valid_theme(v@),
{
    str_eq(v, "system") || str_eq(v, "light") || str_eq(v, "dark")
}

/// Whether `v` names a known close behaviour (exactly, without trimming).
pub fn is_valid_close_behavior(v: &str) -> (r: bool)
    ensures
        r == valid_close_behavior(v@),
{
    str_eq(v, "quit") || str_eq(v, "hide")
}

/// The function keys F1 to F12, in upper case.
pub open spec fn is_function_key(u: Seq<char>) -> bool {
    ||| u == "F1"@
    ||| u == "F2"@
    ||| u == "F3"@
    ||| u == "F4"@
    ||| u == "F5"@
    ||| u == "F6"@
    ||| u == "F7"@
    ||| u == "F8"@
    ||| u == "F9"@
    ||| u == "F10"@
    ||| u == "F11"@
    ||| u == "F12"@
}

/// The modifier key names, in upper case.
pub open spec fn is_modifier_name(u: Seq<char>) -> bool {
    ||| u == "CMD"@
    ||| u == "COMMAND"@
    ||| u == "CTRL"@
    ||| u == "CONTROL"@
    ||| u == "OPTION"@
    ||| u == "ALT"@
    ||| u == "SHIFT"@
    ||| u == "SUPER"@
    ||| u == "CMDORCTRL"@
    ||| u == "COMMANDORCONTROL"@
}

/// Whether a `+`-separated part, trimmed, is a modifier name (case is
/// ignored by upper-casing).
pub open spec fn is_modifier_part(p: Seq<char>) -> bool {
    is_modifier_name(uppercase(trim_spec(p)))
}

/// Whether a `+`-separated part, trimmed, is a main key: non-empty and not
/// a modifier name.
pub open spec fn is_main_key_part(p: Seq<char>) -> bool {
    trim_spec(p).len() > 0 && !is_modifier_name(uppercase(trim_spec(p)))
}

/// A binding is accepted when, trimmed, it is non-empty and either is a
/// function key (F1-F12), or has a `+`-separated part that is a modifier
/// and a part that is a main key.
pub open spec fn valid_shortcut(binding: Seq<char>) -> bool {
    let b = trim_spec(binding);
    let parts = split_on(b, '+');
    &&& b.len() > 0
    &&& (is_function_key(uppercase(b)) || ((exists|i: int|
        0 <= i < parts.len() && is_modifier_part(#[trigger] parts[i])) && (exists|i: int|
        0 <= i < parts.len() && is_main_key_part(#[trigger] parts[i]))))
}

fn is_function_key_name(u: &str) -> (r: bool)
    ensures
        r == is_function_key(u@),
{
    str_eq(u, "F1") || str_eq(u, "F2") || str_eq(u, "F3") || str_eq(u, "F4") || str_eq(u, "F5")
        || str_eq(u, "F6") || str_eq(u, "F7") || str_eq(u, "F8") || str_eq(u, "F9") || str_eq(
        u,
        "F10",
    ) || str_eq(u, "F11") || str_eq(u, "F12")
}

fn is_modifier(u: &str) -> (r: bool)
    ensures
        r == is_modifier_name(u@),
{
    str_eq(u, "CMD") || str_eq(u, "COMMAND") || str_eq(u, "CTRL") || str_eq(u, "CONTROL")
        || str_eq(u, "OPTION") || str_eq(u, "ALT") || str_eq(u, "SHIFT") || str_eq(u, "SUPER")
        || str_eq(u, "CMDORCTRL") || str_eq(u, "COMMANDORCONTROL")
}

/// Whether a binding is a function key (F1-F12), or holds both a modifier
/// key and a main key.
pub fn is_valid_shortcut(binding: &str) -> (r: bool)
    ensures
        r == valid_shortcut(binding@),
{
    let b = trim(binding);
    if b.as_str().is_empty() {
        return false;
    }
    let upper = to_uppercase(b.as_str());
    if is_function_key_name(upper.as_str()) {
        return true;
    }
    let parts = split_chars(b.as_str(), '+');
    let ghost pv = parts@.map_values(|p: String| p@);
    let mut has_modifier = false;
    let mut has_main_key = false;
    let mut i: usize = 0;
    while i < parts.len()
        invariant
            pv == parts@.map_values(|p: String| p@),
            pv == split_on(b@, '+'),
            b@ == trim_spec(binding@),
            b@.len() > 0,
            !is_function_key(uppercase(b@)),
            i <= parts@.len(),
            has_modifier == exists|k: int| 0 <= k < i && is_modifier_part(#[trigger] pv[k]),
            has_main_key == exists|k: int| 0 <= k < i && is_main_key_part(#[trigger] pv[k]),
        decreases parts@.len() - i,
    {
        let part = trim(parts[i].as_str());
        let up = to_uppercase(part.as_str());
        assert(pv[i as int] == parts@[i as int]@);
        if is_modifier(up.as_str()) {
            has_modifier = true;
        } else if !part.as_str().is_empty() {
            has_main_key = true;
        }
        i = i + 1;
    }
    has_modifier && has_main_key
}

/// The four bindings used inside the app and the global one.
#[derive(Debug, Clone, Copy, PartialEq, Eq, Structural)]
pub enum ShortcutSlot {
    NewMemo,
    Save,
    Delete,
    FocusSearch,
    QuickNote,
}

/// The name shown for a binding in a conflict message.
pub open spec fn slot_label(slot: ShortcutSlot) -> Seq<char> {
    match slot {
        ShortcutSlot::NewMemo => "新建"@,
        ShortcutSlot::Save => "保存"@,
        ShortcutSlot::Delete => "删除"@,
        ShortcutSlot::FocusSearch => "搜索"@,
        ShortcutSlot::QuickNote => "全局速记"@,
    }
}

impl ShortcutSlot {
    /// The name shown for this binding in a conflict message.
    pub fn label(&self) -> (s: &'static str)
        ensures
            s@ == slot_label(*self),
    {
        match self {
            ShortcutSlot::NewMemo => "新建",
            ShortcutSlot::Save => "保存",
            ShortcutSlot::Delete => "删除",
            ShortcutSlot::FocusSearch => "搜索",
            ShortcutSlot::QuickNote => "全局速记",
        }
    }
}

/// The binding held in `slot`.
pub open spec fn slot_binding(b: ShortcutBindingsView, slot: ShortcutSlot) -> Seq<char> {
    match slot {
        ShortcutSlot::NewMemo => b.new_memo,
        ShortcutSlot::Save => b.save,
        ShortcutSlot::Delete => b.delete,
        ShortcutSlot::FocusSearch => b.focus_search,
        ShortcutSlot::QuickNote => b.quick_note,
    }
}

/// Bindings are compared trimmed and in lower case.
pub open spec fn binding_key(v: Seq<char>) -> Seq<char> {
    lowercase(trim_spec(v))
}

/// Whether the in-app binding `other` differs from `slot` and equals
/// `value` once both are trimmed and lower-cased.
pub open spec fn clashes(
    slot: ShortcutSlot,
    value: Seq<char>,
    b: ShortcutBindingsView,
    other: ShortcutSlot,
) -> bool {
    other != slot && binding_key(slot_binding(b, other)) == binding_key(value)
}

/// The first in-app binding (in the order new memo, save, delete, focus
/// search) other than `slot` that clashes with `value`.
pub open spec fn app_conflict(
    slot: ShortcutSlot,
    value: Seq<char>,
    b: ShortcutBindingsView,
) -> Option<ShortcutSlot> {
    if clashes(slot, value, b, ShortcutSlot::NewMemo) {
        Some(ShortcutSlot::NewMemo)
    } else if clashes(slot, value, b, ShortcutSlot::Save) {
        Some(ShortcutSlot::Save)
    } else if clashes(slot, value, b, ShortcutSlot::Delete) {
        Some(ShortcutSlot::Delete)
    } else if clashes(slot, value, b, ShortcutSlot::FocusSearch) {
        Some(ShortcutSlot::FocusSearch)
    } else {
        None
    }
}

fn binding_of(b: &ShortcutBindings, slot: ShortcutSlot) -> (r: &String)
    ensures
        r@ == slot_binding(b@, slot),
{
    match slot {
        ShortcutSlot::NewMemo => &b.new_memo,
        ShortcutSlot::Save => &b.save,
        ShortcutSlot::Delete => &b.delete,
        ShortcutSlot::FocusSearch => &b.focus_search,
        ShortcutSlot::QuickNote => &b.quick_note,
    }
}

fn normalized_binding(v: &str) -> (r: String)
    ensures
        r@ == binding_key(v@),
{
    let t = trim(v);
    to_lowercase(t.as_str())
}

fn clashes_with(slot: ShortcutSlot, norm: &String, b: &ShortcutBindings, other: ShortcutSlot) -> (r:
    bool)
    ensures
        r == (other != slot && binding_key(slot_binding(b@, other)) == norm@),
{
    if other == slot {
        return false;
    }
    let o = normalized_binding(binding_of(b, other).as_str());
    o == *norm
}

/// Finds the in-app binding other than `slot` that `value` would clash with,
/// comparing trimmed, lower-cased text.
pub fn find_app_conflict(slot: ShortcutSlot, value: &str, b: &ShortcutBindings) -> (r: Option<
    ShortcutSlot,
>)
    ensures
        r == app_conflict(slot, value@, b@),
{
    let norm = normalized_binding(value);
    if clashes_with(slot, &norm, b, ShortcutSlot::NewMemo) {
        Some(ShortcutSlot::NewMemo)
    } else if clashes_with(slot, &norm, b, ShortcutSlot::Save) {
        Some(ShortcutSlot::Save)
    } else if clashes_with(slot, &norm, b, ShortcutSlot::Delete) {
        Some(ShortcutSlot::Delete)
    } else if clashes_with(slot, &norm, b, ShortcutSlot::FocusSearch) {
        Some(ShortcutSlot::FocusSearch)
    } else {
        None
    }
}

/// What a conflict found for `slot` means: the slot found is one of the
/// four in-app bindings, not `slot` itself, and holds the same key
/// combination as `value` once both are trimmed and lower-cased; none is
/// found exactly when no other in-app binding holds that combination. The
/// global binding is never reported.
pub proof fn lemma_app_conflict_meaning(
    slot: ShortcutSlot,
    value: Seq<char>,
    b: ShortcutBindingsView,
)
    ensures
        app_conflict(slot, value, b) matches Some(o) ==> {
            &&& o != slot
            &&& o != ShortcutSlot::QuickNote
            &&& lowercase(trim_spec(slot_binding(b, o))) == lowercase(trim_spec(value))
        },
        app_conflict(slot, value, b) is None <==> forall|o: ShortcutSlot|
            o != slot && o != ShortcutSlot::QuickNote ==> lowercase(
                trim_spec(#[trigger] slot_binding(b, o)),
            ) != lowercase(trim_spec(value)),
{
    if app_conflict(slot, value, b) is None {
        assert forall|o: ShortcutSlot| o != slot && o != ShortcutSlot::QuickNote implies lowercase(
            trim_spec(#[trigger] slot_binding(b, o)),
        ) != lowercase(trim_spec(value)) by {
            match o {
                ShortcutSlot::NewMemo => {},
                ShortcutSlot::Save => {},
                ShortcutSlot::Delete => {},
                ShortcutSlot::FocusSearch => {},
                ShortcutSlot::QuickNote => {},
            }
        }
    } else {
        let o = app_conflict(slot, value, b)->Some_0;
        assert(o != slot && o != ShortcutSlot::QuickNote);
        assert(lowercase(trim_spec(slot_binding(b, o))) == lowercase(trim_spec(value)));
    }
}

/// The message for a binding already used by `other`.
pub open spec fn conflict_message(other: ShortcutSlot) -> Seq<char> {
    "该组合已被『"@ + slot_label(other) + "』使用"@
}

/// Whether all five bindings pass `valid_shortcut`.
pub open spec fn all_bindings_valid(b: ShortcutBindingsView) -> bool {
    &&& valid_shortcut(b.new_memo)
    &&& valid_shortcut(b.save)
    &&& valid_shortcut(b.delete)
    &&& valid_shortcut(b.focus_search)
    &&& valid_shortcut(b.quick_note)
}

/// Why a set of bindings is refused, if it is: an invalid binding first;
/// then, for new memo, save, delete and focus search in turn, the first
/// in-app binding it clashes with.
pub open spec fn shortcuts_error(b: ShortcutBindingsView) -> Option<Seq<char>> {
    if !all_bindings_valid(b) {
        Some("快捷键必须包含修饰键或为功能键"@)
    } else if let Some(c) = app_conflict(ShortcutSlot::NewMemo, b.new_memo, b) {
        Some(conflict_message(c))
    } else if let Some(c) = app_conflict(ShortcutSlot::Save, b.save, b) {
        Some(conflict_message(c))
    } else if let Some(c) = app_conflict(ShortcutSlot::Delete, b.delete, b) {
        Some(conflict_message(c))
    } else if let Some(c) = app_conflict(ShortcutSlot::FocusSearch, b.focus_search, b) {
        Some(conflict_message(c))
    } else {
        None
    }
}

/// Whether the four in-app bindings are pairwise different once trimmed
/// and lower-cased.
pub open spec fn app_bindings_distinct(b: ShortcutBindingsView) -> bool {
    let n = binding_key(b.new_memo);
    let s = binding_key(b.save);
    let d = binding_key(b.delete);
    let f = binding_key(b.focus_search);
    n != s && n != d && n != f && s != d && s != f && d != f
}

/// A set of bindings is accepted exactly when all five are valid and the
/// four in-app bindings are pairwise different (ignoring case and
/// surrounding white space); the global binding may repeat an in-app one.
pub proof fn lemma_accepted_bindings_are_distinct(b: ShortcutBindingsView)
    ensures
        shortcuts_error(b) is None <==> (all_bindings_valid(b) && app_bindings_distinct(b)),
{
}

fn conflict_error(other: ShortcutSlot) -> (e: AppError)
    ensures
        e.code == ErrorCode::Validation,
        e.message@ == conflict_message(other),
{
    let mut msg = String::from_str("该组合已被『");
    msg.append(other.label());
    msg.append("』使用");
    AppError::validation(msg.as_str())
}

/// Checks a whole set of bindings: each must be valid, and no two of the
/// four in-app bindings may be the same key combination.
pub fn validate_shortcuts(b: &ShortcutBindings) -> (r: Result<(), AppError>)
    ensures
        r is Ok <==> shortcuts_error(b@) is None,
        r matches Err(e) ==> e.code == ErrorCode::Validation && shortcuts_error(b@) == Some(
            e.message@,
        ),
{
    if !is_valid_shortcut(b.new_memo.as_str()) || !is_valid_shortcut(b.save.as_str())
        || !is_valid_shortcut(b.delete.as_str()) || !is_valid_shortcut(b.focus_search.as_str())
        || !is_valid_shortcut(b.quick_note.as_str()) {
        return Err(AppError::validation("快捷键必须包含修饰键或为功能键"));
    }
    if let Some(c) = find_app_conflict(ShortcutSlot::NewMemo, b.new_memo.as_str(), b) {
        return Err(conflict_error(c));
    }
    if let Some(c) = find_app_conflict(ShortcutSlot::Save, b.save.as_str(), b) {
        return Err(conflict_error(c));
    }
    if let Some(c) = find_app_conflict(ShortcutSlot::Delete, b.delete.as_str(), b) {
        return Err(conflict_error(c));
    }
    if let Some(c) = find_app_conflict(ShortcutSlot::FocusSearch, b.focus_search.as_str(), b) {
        return Err(conflict_error(c));
    }
    Ok(())
}

/// A binding made of ASCII characters with no white space at either end is
/// its own trimmed form, and its key is its ASCII lower case.
proof fn lemma_plain_binding(s: Seq<char>)
    requires
        s.len() > 0,
        all_ascii(s),
        !is_white_space(s[0]),
        !is_white_space(s.last()),
    ensures
        trim_spec(s) == s,
        binding_key(s) == s.map_values(|c: char| ascii_lower_char(c)),
{
}

/// A plain binding whose first `+`-separated part is a modifier and whose
/// last part is a main key is valid.
proof fn lemma_binding_with_modifier(
    s: Seq<char>,
    a: Seq<char>,
    rest: Seq<char>,
    front: Seq<char>,
    z: Seq<char>,
)
    requires
        s == a + seq!['+'] + rest,
        s == front + seq!['+'] + z,
        !a.contains('+'),
        !z.contains('+'),
        s.len() > 0,
        !is_white_space(s[0]),
        !is_white_space(s.last()),
        is_modifier_part(a),
        is_main_key_part(z),
    ensures
        valid_shortcut(s),
{
    lemma_split_on_first_piece(a, '+', rest);
    lemma_split_on_last_piece(front, '+', z);
    let parts = split_on(trim_spec(s), '+');
    assert(parts[0] == a);
    assert(parts[parts.len() - 1] == z);
}

/// The default bindings pass validation, so the default configuration is
/// one that `update_settings` would accept.
pub proof fn lemma_default_shortcuts_accepted()
    ensures
        shortcuts_error(default_shortcuts_spec()) is None,
        valid_theme(default_settings_spec().theme),
        valid_close_behavior(default_settings_spec().close_behavior),
{
    reveal_strlit("Cmd+N");
    reveal_strlit("Cmd+S");
    reveal_strlit("Cmd+Backspace");
    reveal_strlit("Cmd+F");
    reveal_strlit("Cmd+Shift+Space");
    reveal_strlit("Cmd");
    reveal_strlit("CMD");
    reveal_strlit("N");
    reveal_strlit("S");
    reveal_strlit("Backspace");
    reveal_strlit("F");
    reveal_strlit("Space");
    reveal_strlit("Shift+Space");
    reveal_strlit("Cmd+Shift");
    reveal_strlit("COMMAND");
    reveal_strlit("CTRL");
    reveal_strlit("CONTROL");
    reveal_strlit("OPTION");
    reveal_strlit("ALT");
    reveal_strlit("SHIFT");
    reveal_strlit("SUPER");
    reveal_strlit("CMDORCTRL");
    reveal_strlit("COMMANDORCONTROL");
    let cmd = "Cmd"@;
    assert(!cmd.contains('+'));
    assert(trim_spec(cmd) == cmd);
    assert(uppercase(cmd) =~= "CMD"@);
    assert(is_modifier_part(cmd));
    let keys = seq!["N"@, "S"@, "Backspace"@, "F"@, "Space"@];
    assert forall|k: int| 0 <= k < keys.len() implies !(#[trigger] keys[k]).contains('+')
        && trim_spec(keys[k]) == keys[k] && is_main_key_part(keys[k]) by {
        let z = keys[k];
        assert(z.len() > 0 && !is_white_space(z[0]) && !is_white_space(z.last()));
        assert(trim_spec(z) == z);
        let u = uppercase(z);
        assert(u.len() == z.len());
        assert(u[0] == ascii_upper_char(z[0]));
        if z.len() > 1 {
            assert(u[1] == ascii_upper_char(z[1]));
        }
        assert(!is_modifier_name(u));
        if z.contains('+') {
            let j = choose|j: int| 0 <= j < z.len() && z[j] == '+';
            assert(false);
        }
    }
    let d = default_shortcuts_spec();
    assert(d.new_memo =~= cmd + seq!['+'] + "N"@);
    assert(d.save =~= cmd + seq!['+'] + "S"@);
    assert(d.delete =~= cmd + seq!['+'] + "Backspace"@);
    assert(d.focus_search =~= cmd + seq!['+'] + "F"@);
    assert(d.quick_note =~= cmd + seq!['+'] + "Shift+Space"@);
    assert(d.quick_note =~= "Cmd+Shift"@ + seq!['+'] + "Space"@);
    assert(keys[0] == "N"@ && keys[1] == "S"@ && keys[2] == "Backspace"@ && keys[3] == "F"@
        && keys[4] == "Space"@);
    lemma_binding_with_modifier(d.new_memo, cmd, "N"@, cmd, "N"@);
    lemma_binding_with_modifier(d.save, cmd, "S"@, cmd, "S"@);
    lemma_binding_with_modifier(d.delete, cmd, "Backspace"@, cmd, "Backspace"@);
    lemma_binding_with_modifier(d.focus_search, cmd, "F"@, cmd, "F"@);
    lemma_binding_with_modifier(d.quick_note, cmd, "Shift+Space"@, "Cmd+Shift"@, "Space"@);
    lemma_plain_binding(d.new_memo);
    lemma_plain_binding(d.save);
    lemma_plain_binding(d.delete);
    lemma_plain_binding(d.focus_search);
    let kn = binding_key(d.new_memo);
    let ks = binding_key(d.save);
    let kd = binding_key(d.delete);
    let kf = binding_key(d.focus_search);
    assert(kn[4] == 'n' && ks[4] == 's' && kf[4] == 'f');
    assert(kn.len() == 5 && ks.len() == 5 && kf.len() == 5 && kd.len() == 13);
    assert(kn != ks && kn != kf && ks != kf && kd != kn && kd != ks && kd != kf);
    reveal_strlit("system");
    reveal_strlit("quit");
}

/// The character sequence of an optional string.
pub open spec fn opt_view(o: Option<String>) -> Option<Seq<char>> {
    match o {
        Some(s) => Some(s@),
        None => None,
    }
}

/// The view of optional bindings.
pub open spec fn opt_bindings_view(o: Option<ShortcutBindings>) -> Option<ShortcutBindingsView> {
    match o {
        Some(b) => Some(b@),
        None => None,
    }
}

/// The settings in force given what storage holds: a stored theme or close
/// behaviour is used only when valid, stored bindings whenever they could be
/// read; everything else is the default.
pub open spec fn stored_settings_spec(
    theme: Option<Seq<char>>,
    close_behavior: Option<Seq<char>>,
    shortcuts: Option<ShortcutBindingsView>,
) -> AppSettingsView {
    let d = default_settings_spec();
    AppSettingsView {
        theme: match theme {
            Some(t) => if valid_theme(t) {
                t
            } else {
                d.theme
            },
            None => d.theme,
        },
        close_behavior: match close_behavior {
            Some(c) => if valid_close_behavior(c) {
                c
            } else {
                d.close_behavior
            },
            None => d.close_behavior,
        },
        shortcuts: match shortcuts {
            Some(b) => b,
            None => d.shortcuts,
        },
    }
}

/// Builds the settings in force from the stored values that could be read
/// (`None` where a value is missing or unreadable); invalid values fall back
/// to the defaults.
pub fn settings_from_stored(
    theme: Option<String>,
    close_behavior: Option<String>,
    shortcuts: Option<ShortcutBindings>,
) -> (s: AppSettings)
    ensures
        s@ == stored_settings_spec(
            opt_view(theme),
            opt_view(close_behavior),
            opt_bindings_view(shortcuts),
        ),
{
    let mut s = default_settings();
    if let Some(v) = theme {
        if is_valid_theme(v.as_str()) {
            s.theme = v;
        }
    }
    if let Some(v) = close_behavior {
        if is_valid_close_behavior(v.as_str()) {
            s.close_behavior = v;
        }
    }
    if let Some(b) = shortcuts {
        s.shortcuts = b;
    }
    s
}

/// The settings in force, field by field: a stored theme that is
/// `system`, `light` or `dark` is kept, any other or a missing one gives
/// `system`; a stored close behaviour that is `quit` or `hide` is kept, any
/// other or a missing one gives `quit`; stored bindings are kept, missing
/// ones give the defaults.
pub proof fn lemma_stored_settings_fields(
    theme: Option<Seq<char>>,
    close_behavior: Option<Seq<char>>,
    shortcuts: Option<ShortcutBindingsView>,
)
    ensures
        ({
            let s = stored_settings_spec(theme, close_behavior, shortcuts);
            let t = theme->Some_0;
            let c = close_behavior->Some_0;
            let keep_theme = theme is Some && (t == "system"@ || t == "light"@ || t == "dark"@);
            let keep_close = close_behavior is Some && (c == "quit"@ || c == "hide"@);
            &&& keep_theme ==> s.theme == t
            &&& !keep_theme ==> s.theme == "system"@
            &&& keep_close ==> s.close_behavior == c
            &&& !keep_close ==> s.close_behavior == "quit"@
            &&& shortcuts matches Some(b) ==> s.shortcuts == b
            &&& shortcuts is None ==> s.shortcuts == default_shortcuts_spec()
        }),
{
}

/// Settings read back from storage are the settings that were written,
/// as long as their theme and close behaviour are valid.
pub proof fn lemma_stored_settings_round_trip(s: AppSettingsView)
    requires
        valid_theme(s.theme),
        valid_close_behavior(s.close_behavior),
    ensures
        stored_settings_spec(Some(s.theme), Some(s.close_behavior), Some(s.shortcuts)) == s,
{
}

/// The settings in force always have a valid theme and close behaviour,
/// whatever storage holds.
pub proof fn lemma_stored_settings_valid(
    theme: Option<Seq<char>>,
    close_behavior: Option<Seq<char>>,
    shortcuts: Option<ShortcutBindingsView>,
)
    ensures
        valid_theme(stored_settings_spec(theme, close_behavior, shortcuts).theme),
        valid_close_behavior(stored_settings_spec(theme, close_behavior, shortcuts).close_behavior),
{
}

/// Whether the settings table is empty and the defaults must be written
/// back, so that later partial updates have a base to merge into.
pub fn settings_need_seeding(stored_rows: i64) -> (r: bool)
    ensures
        r == (stored_rows == 0),
{
    stored_rows == 0
}

/// Why a settings update is refused, if it is: nothing to update; an
/// unknown theme; an unknown close behaviour; refused bindings.
pub open spec fn update_error(
    theme: Option<Seq<char>>,
    close_behavior: Option<Seq<char>>,
    shortcuts: Option<ShortcutBindingsView>,
) -> Option<Seq<char>> {
    if theme is None && close_behavior is None && shortcuts is None {
        Some("没有需要更新的配置"@)
    } else if theme matches Some(t) && !valid_theme(t) {
        Some("主题配置不合法"@)
    } else if close_behavior matches Some(c) && !valid_close_behavior(c) {
        Some("关闭行为配置不合法"@)
    } else if let Some(b) = shortcuts {
        shortcuts_error(b)
    } else {
        None
    }
}

/// An update is accepted exactly when it holds at least one field, a theme
/// it holds is `system`, `light` or `dark`, a close behaviour it holds is
/// `quit` or `hide`, and bindings it holds are all valid with the four
/// in-app ones pairwise different; one that holds nothing is refused with
/// its own message.
pub proof fn lemma_update_accepted(
    theme: Option<Seq<char>>,
    close_behavior: Option<Seq<char>>,
    shortcuts: Option<ShortcutBindingsView>,
)
    ensures
        update_error(theme, close_behavior, shortcuts) is None <==> ({
            &&& (theme is Some || close_behavior is Some || shortcuts is Some)
            &&& (theme matches Some(t) ==> (t == "system"@ || t == "light"@ || t == "dark"@))
            &&& (close_behavior matches Some(c) ==> (c == "quit"@ || c == "hide"@))
            &&& (shortcuts matches Some(b) ==> all_bindings_valid(b) && app_bindings_distinct(b))
        }),
        update_error(None, None, None) == Some("没有需要更新的配置"@),
{
    if let Some(b) = shortcuts {
        lemma_accepted_bindings_are_distinct(b);
    }
}

/// Checks a settings update before anything is read or written.
pub fn validate_settings_update(input: &UpdateSettingsInput) -> (r: Result<(), AppError>)
    ensures
        r is Ok <==> update_error(
            opt_view(input.theme),
            opt_view(input.close_behavior),
            opt_bindings_view(input.shortcuts),
        ) is None,
        r matches Err(e) ==> e.code == ErrorCode::Validation && update_error(
            opt_view(input.theme),
            opt_view(input.close_behavior),
            opt_bindings_view(input.shortcuts),
        ) == Some(e.message@),
{
    if input.theme.is_none() && input.close_behavior.is_none() && input.shortcuts.is_none() {
        return Err(AppError::validation("没有需要更新的配置"));
    }
    if let Some(t) = &input.theme {
        if !is_valid_theme(t.as_str()) {
            return Err(AppError::validation("主题配置不合法"));
        }
    }
    if let Some(c) = &input.close_behavior {
        if !is_valid_close_behavior(c.as_str()) {
            return Err(AppError::validation("关闭行为配置不合法"));
        }
    }
    if let Some(sc) = &input.shortcuts {
        validate_shortcuts(sc)?;
    }
    Ok(())
}

/// `current` with each field that the update holds replaced.
pub open spec fn merged_settings_spec(
    current: AppSettingsView,
    theme: Option<Seq<char>>,
    close_behavior: Option<Seq<char>>,
    shortcuts: Option<ShortcutBindingsView>,
) -> AppSettingsView {
    AppSettingsView {
        theme: match theme {
            Some(t) => t,
            None => current.theme,
        },
        close_behavior: match close_behavior {
            Some(c) => c,
            None => current.close_behavior,
        },
        shortcuts: match shortcuts {
            Some(b) => b,
            None => current.shortcuts,
        },
    }
}

/// Merges an update into the settings in force: the fields it holds replace
/// the current ones, the others are kept.
pub fn merge_settings(current: AppSettings, input: UpdateSettingsInput) -> (s: AppSettings)
    ensures
        s@ == merged_settings_spec(
            current@,
            opt_view(input.theme),
            opt_view(input.close_behavior),
            opt_bindings_view(input.shortcuts),
        ),
        input.theme matches Some(t) ==> s.theme@ == t@,
        input.theme is None ==> s.theme@ == current.theme@,
        input.close_behavior matches Some(c) ==> s.close_behavior@ == c@,
        input.close_behavior is None ==> s.close_behavior@ == current.close_behavior@,
        input.shortcuts matches Some(b) ==> s.shortcuts@ == b@,
        input.shortcuts is None ==> s.shortcuts@ == current.shortcuts@,
{
    let mut s = current;
    if let Some(t) = input.theme {
        s.theme = t;
    }
    if let Some(c) = input.close_behavior {
        s.close_behavior = c;
    }
    if let Some(b) = input.shortcuts {
        s.shortcuts = b;
    }
    s
}

/// Merging replaces exactly the fields that the update holds: a theme in
/// the update becomes the theme, whatever the other fields of the update
/// hold, and a field the update leaves out keeps its current value; the
/// same holds of the close behaviour and of the bindings.
pub proof fn lemma_merge_replaces_held_fields(
    current: AppSettingsView,
    theme: Option<Seq<char>>,
    close_behavior: Option<Seq<char>>,
    shortcuts: Option<ShortcutBindingsView>,
)
    ensures
        ({
            let m = merged_settings_spec(current, theme, close_behavior, shortcuts);
            &&& theme matches Some(t) ==> m.theme == t
            &&& theme is None ==> m.theme == current.theme
            &&& close_behavior matches Some(c) ==> m.close_behavior == c
            &&& close_behavior is None ==> m.close_behavior == current.close_behavior
            &&& shortcuts matches Some(b) ==> m.shortcuts == b
            &&& shortcuts is None ==> m.shortcuts == current.shortcuts
        }),
{
}

/// Merging the same update twice gives what merging it once gives.
pub proof fn lemma_merge_is_idempotent(
    current: AppSettingsView,
    theme: Option<Seq<char>>,
    close_behavior: Option<Seq<char>>,
    shortcuts: Option<ShortcutBindingsView>,
)
    ensures
        merged_settings_spec(
            merged_settings_spec(current, theme, close_behavior, shortcuts),
            theme,
            close_behavior,
            shortcuts,
        ) == merged_settings_spec(current, theme, close_behavior, shortcuts),
{
}

/// Two updates that touch different fields, applied one after the other,
/// give what one update holding both gives.
pub proof fn lemma_merge_sequential_updates(
    current: AppSettingsView,
    theme: Seq<char>,
    close_behavior: Seq<char>,
)
    ensures
        merged_settings_spec(
            merged_settings_spec(current, Some(theme), None, None),
            None,
            Some(close_behavior),
            None,
        ) == merged_settings_spec(current, Some(theme), Some(close_behavior), None),
{
}

/// An accepted update keeps the settings valid: the merged theme and close
/// behaviour are valid when the current ones are, and bindings that the
/// update replaces pass validation.
pub proof fn lemma_accepted_update_keeps_settings_valid(
    current: AppSettingsView,
    theme: Option<Seq<char>>,
    close_behavior: Option<Seq<char>>,
    shortcuts: Option<ShortcutBindingsView>,
)
    requires
        valid_theme(current.theme),
        valid_close_behavior(current.close_behavior),
        update_error(theme, close_behavior, shortcuts) is None,
    ensures
        valid_theme(merged_settings_spec(current, theme, close_behavior, shortcuts).theme),
        valid_close_behavior(
            merged_settings_spec(current, theme, close_behavior, shortcuts).close_behavior,
        ),
        shortcuts is Some ==> shortcuts_error(
            merged_settings_spec(current, theme, close_behavior, shortcuts).shortcuts,
        ) is None,
{
}

} // verus!
