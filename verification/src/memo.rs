//! Rules of the memo commands that hold apart from storage: title
//! validation, the search pattern, and the errors for missing memos.

use vstd::prelude::*;
use crate::error::{AppError, ErrorCode};
use crate::models::Memo;
use crate::text::{chars_of, lemma_trim_idempotent, push_char, trim, trim_spec};

verus! {

/// Longest title accepted, in characters.
pub const TITLE_MAX_CHARS: usize = 100;

/// Why a (trimmed) title is refused, if it is.
pub open spec fn title_error(t: Seq<char>) -> Option<Seq<char>> {
    if t.len() == 0 {
        Some("标题不能为空"@)
    } else if t.len() > TITLE_MAX_CHARS {
        Some("标题不能超过 100 个字符"@)
    } else {
        None
    }
}

/// Checks a title that has already been trimmed: it must be non-empty and
/// at most 100 characters long.
pub fn validate_title(title: &str) -> (r: Result<(), AppError>)
    ensures
        r is Ok <==> title_error(title@) is None,
        r matches Err(e) ==> e.code == ErrorCode::Validation && title_error(title@) == Some(
            e.message@,
        ),
        r is Ok <==> 1 <= title@.len() <= 100,
{
    if title.is_empty() {
        return Err(AppError::validation("标题不能为空"));
    }
    if title.unicode_len() > TITLE_MAX_CHARS {
        return Err(AppError::validation("标题不能超过 100 个字符"));
    }
    Ok(())
}

/// The title that create and update store: the raw title trimmed, provided
/// the trimmed title passes `validate_title`.
pub fn checked_title(raw: &str) -> (r: Result<String, AppError>)
    ensures
        r is Ok <==> title_error(trim_spec(raw@)) is None,
        r matches Ok(t) ==> t@ == trim_spec(raw@),
        r matches Err(e) ==> e.code == ErrorCode::Validation && title_error(trim_spec(raw@))
            == Some(e.message@),
        r is Ok <==> 1 <= trim_spec(raw@).len() <= 100,
{
    let title = trim(raw);
    match validate_title(title.as_str()) {
        Ok(()) => Ok(title),
        Err(e) => Err(e),
    }
}

/// Whether `c` has a special meaning in a LIKE pattern escaped by `\`.
pub open spec fn is_like_special(c: char) -> bool {
    c == '\\' || c == '%' || c == '_'
}

/// The escaped form of one character.
pub open spec fn escape_like_char(c: char) -> Seq<char> {
    if is_like_special(c) {
        seq!['\\', c]
    } else {
        seq![c]
    }
}

/// `s` with `\`, `%` and `_` each preceded by `\`.
pub open spec fn escape_like_spec(s: Seq<char>) -> Seq<char>
    decreases s.len(),
{
    if s.len() == 0 {
        seq![]
    } else {
        escape_like_char(s[0]) + escape_like_spec(s.drop_first())
    }
}

/// The text a LIKE pattern with escape character `\` matches literally, or
/// `None` where the pattern holds an unescaped wildcard or ends in a lone `\`.
pub open spec fn like_literal(p: Seq<char>) -> Option<Seq<char>>
    decreases p.len(),
{
    if p.len() == 0 {
        Some(seq![])
    } else if p[0] == '\\' {
        if p.len() >= 2 {
            match like_literal(p.skip(2)) {
                Some(rest) => Some(seq![p[1]] + rest),
                None => None,
            }
        } else {
            None
        }
    } else if p[0] == '%' || p[0] == '_' {
        None
    } else {
        match like_literal(p.drop_first()) {
            Some(rest) => Some(seq![p[0]] + rest),
            None => None,
        }
    }
}

proof fn lemma_escape_like_concat(a: Seq<char>, b: Seq<char>)
    ensures
        escape_like_spec(a + b) == escape_like_spec(a) + escape_like_spec(b),
    decreases a.len(),
{
    if a.len() == 0 {
        assert(a + b =~= b);
    } else {
        assert((a + b).drop_first() =~= a.drop_first() + b);
        lemma_escape_like_concat(a.drop_first(), b);
        assert(escape_like_spec(a + b) =~= escape_like_spec(a) + escape_like_spec(b));
    }
}

/// Escaping makes a keyword literal: the escaped keyword, read as a LIKE
/// pattern with escape character `\`, holds no wildcard and matches exactly
/// the keyword's own text.
pub proof fn lemma_escaped_keyword_is_literal(s: Seq<char>)
    ensures
        like_literal(escape_like_spec(s)) == Some(s),
    decreases s.len(),
{
    if s.len() > 0 {
        let e = escape_like_spec(s.drop_first());
        lemma_escaped_keyword_is_literal(s.drop_first());
        let p = escape_like_spec(s);
        if is_like_special(s[0]) {
            assert(p.skip(2) =~= e);
        } else {
            assert(p.drop_first() =~= e);
        }
        assert(seq![s[0]] + s.drop_first() =~= s);
    }
}

/// `keyword` with the LIKE wildcards `%`, `_` and the escape `\` escaped
/// by `\`, so that user input cannot act as a wildcard.
pub fn escape_like(keyword: &str) -> (r: String)
    ensures
        r@ == escape_like_spec(keyword@),
{
    let v = chars_of(keyword);
    let mut escaped = String::new();
    let mut i: usize = 0;
    while i < v.len()
        invariant
            v@ == keyword@,
            i <= v@.len(),
            escaped@ == escape_like_spec(v@.take(i as int)),
        decreases v@.len() - i,
    {
        let c = v[i];
        proof {
            assert(v@.take(i + 1) =~= v@.take(i as int) + seq![c]);
            lemma_escape_like_concat(v@.take(i as int), seq![c]);
            assert(seq![c].drop_first() =~= Seq::<char>::empty());
            reveal_with_fuel(escape_like_spec, 2);
            assert(escape_like_spec(seq![c]) =~= escape_like_char(c));
        }
        if c == '\\' || c == '%' || c == '_' {
            push_char(&mut escaped, '\\');
            push_char(&mut escaped, c);
        } else {
            push_char(&mut escaped, c);
        }
        proof {
            assert(escaped@ =~= escape_like_spec(v@.take(i as int)) + escape_like_char(c));
        }
        i = i + 1;
    }
    assert(v@.take(v@.len() as int) =~= v@);
    escaped
}

/// The LIKE pattern a keyword search uses: `None` when the trimmed keyword
/// is empty (no filtering by keyword), else `%` + escaped keyword + `%`.
pub open spec fn like_pattern_spec(keyword: Seq<char>) -> Option<Seq<char>> {
    let k = trim_spec(keyword);
    if k.len() == 0 {
        None
    } else {
        Some(seq!['%'] + escape_like_spec(k) + seq!['%'])
    }
}

/// The LIKE pattern for a search keyword, or `None` where the keyword is
/// blank. A search with a blank keyword returns no memos; a tag listing
/// with a blank keyword is not filtered by keyword.
pub fn like_pattern(keyword: &str) -> (r: Option<String>)
    ensures
        r matches Some(p) ==> like_pattern_spec(keyword@) == Some(p@),
        r is None ==> like_pattern_spec(keyword@) is None,
        r is Some <==> trim_spec(keyword@).len() > 0,
        r matches Some(p) ==> p@.len() >= 2 && p@[0] == '%' && p@.last() == '%' && like_literal(
            p@.subrange(1, p@.len() - 1),
        ) == Some(trim_spec(keyword@)),
{
    let k = trim(keyword);
    if k.as_str().is_empty() {
        return None;
    }
    let mut pattern = String::new();
    push_char(&mut pattern, '%');
    let escaped = escape_like(k.as_str());
    pattern.append(escaped.as_str());
    push_char(&mut pattern, '%');
    assert(pattern@ =~= seq!['%'] + escape_like_spec(trim_spec(keyword@)) + seq!['%']);
    proof {
        lemma_search_pattern_is_literal(keyword@);
    }
    Some(pattern)
}

/// A stored title is its own checked form: checking it again accepts it
/// and leaves it unchanged.
pub proof fn lemma_checked_title_is_stable(raw: Seq<char>)
    requires
        title_error(trim_spec(raw)) is None,
    ensures
        trim_spec(trim_spec(raw)) == trim_spec(raw),
        title_error(trim_spec(trim_spec(raw))) is None,
{
    lemma_trim_idempotent(raw);
}

/// A keyword gives a search pattern exactly when, trimmed, it is not
/// empty, and white space around a keyword does not change its pattern.
pub proof fn lemma_like_pattern_present(keyword: Seq<char>)
    ensures
        like_pattern_spec(keyword) is Some <==> trim_spec(keyword).len() > 0,
        like_pattern_spec(trim_spec(keyword)) == like_pattern_spec(keyword),
{
    lemma_trim_idempotent(keyword);
}

/// A trimmed title is accepted exactly when it has 1 to 100 characters.
pub proof fn lemma_title_accepted(t: Seq<char>)
    ensures
        title_error(t) is None <==> 1 <= t.len() <= 100,
{
}

/// A search pattern matches memos containing the trimmed keyword as plain
/// text: it is `%`, then a part that reads back literally as the keyword,
/// then `%`.
pub proof fn lemma_search_pattern_is_literal(keyword: Seq<char>)
    requires
        like_pattern_spec(keyword) is Some,
    ensures
        ({
            let p = like_pattern_spec(keyword)->Some_0;
            &&& p.len() >= 2
            &&& p[0] == '%'
            &&& p.last() == '%'
            &&& like_literal(p.subrange(1, p.len() - 1)) == Some(trim_spec(keyword))
        }),
{
    let k = trim_spec(keyword);
    let e = escape_like_spec(k);
    let p = seq!['%'] + e + seq!['%'];
    assert(p.subrange(1, p.len() - 1) =~= e);
    lemma_escaped_keyword_is_literal(k);
}

/// The error for a memo id that is not stored.
pub open spec fn is_memo_not_found(e: AppError) -> bool {
    e.code == ErrorCode::NotFound && e.message@ == "备忘录不存在"@
}

/// Refuses an operation on a memo that does not exist.
pub fn ensure_memo_exists(exists: bool) -> (r: Result<(), AppError>)
    ensures
        r is Ok <==> exists,
        r matches Err(e) ==> is_memo_not_found(e),
{
    if exists {
        Ok(())
    } else {
        Err(AppError::not_found("备忘录不存在"))
    }
}

/// The memo a lookup by id found, or the missing-memo error.
pub fn found_memo(found: Option<Memo>) -> (r: Result<Memo, AppError>)
    ensures
        found matches Some(m) ==> r == Ok::<Memo, AppError>(m),
        found is None ==> (r matches Err(e) && is_memo_not_found(e)),
{
    match found {
        Some(m) => Ok(m),
        None => Err(AppError::not_found("备忘录不存在")),
    }
}

} // verus!
