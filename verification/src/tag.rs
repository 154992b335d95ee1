//! Rules of the tag commands that hold apart from storage: tag name
//! validation and the normalisation of a memo's new tag list.

use vstd::prelude::*;
use crate::error::{AppError, ErrorCode};
use crate::text::{trim, trim_spec, lowercase, to_lowercase, lemma_trim_idempotent};

verus! {

/// Longest tag name accepted, in characters.
pub const TAG_NAME_MAX_CHARS: usize = 30;

/// Why a (trimmed) tag name is refused, if it is.
pub open spec fn tag_name_error(t: Seq<char>) -> Option<Seq<char>> {
    if t.len() == 0 {
        Some("标签名不能为空"@)
    } else if t.len() > TAG_NAME_MAX_CHARS {
        Some("标签不能超过 30 个字符"@)
    } else if t.contains('\n') || t.contains('\r') {
        Some("标签名不能包含换行"@)
    } else {
        None
    }
}

/// A trimmed tag name is accepted exactly when it has 1 to 30 characters
/// and none of them is a line feed or a carriage return; any other
/// character, spaces among them, may stand in it.
pub proof fn lemma_tag_name_accepted(t: Seq<char>)
    ensures
        tag_name_error(t) is None <==> (1 <= t.len() <= 30 && forall|k: int|
            0 <= k < t.len() ==> #[trigger] t[k] != '\n' && t[k] != '\r'),
{
    if 1 <= t.len() <= 30 && forall|k: int| 0 <= k < t.len() ==> #[trigger] t[k] != '\n' && t[k]
        != '\r' {
        assert(!t.contains('\n'));
        assert(!t.contains('\r'));
    }
    if t.contains('\n') {
        let k = choose|k: int| 0 <= k < t.len() && t[k] == '\n';
        assert(t[k] == '\n');
    }
    if t.contains('\r') {
        let k = choose|k: int| 0 <= k < t.len() && t[k] == '\r';
        assert(t[k] == '\r');
    }
}

/// Checks a tag name that has already been trimmed: non-empty, at most 30
/// characters, and free of line breaks.
pub fn validate_tag_name(name: &str) -> (r: Result<(), AppError>)
    ensures
        r is Ok <==> tag_name_error(name@) is None,
        r matches Err(e) ==> e.code == ErrorCode::Validation && tag_name_error(name@) == Some(
            e.message@,
        ),
        r is Ok <==> (1 <= name@.len() <= 30 && forall|k: int|
            0 <= k < name@.len() ==> name@[k] != '\n' && name@[k] != '\r'),
{
    if name.is_empty() {
        return Err(AppError::validation("标签名不能为空"));
    }
    let n = name.unicode_len();
    if n > TAG_NAME_MAX_CHARS {
        return Err(AppError::validation("标签不能超过 30 个字符"));
    }
    let mut i: usize = 0;
    while i < n
        invariant
            n == name@.len(),
            0 < n <= TAG_NAME_MAX_CHARS,
            i <= n,
            forall|k: int| 0 <= k < i ==> name@[k] != '\n' && name@[k] != '\r',
        decreases n - i,
    {
        let c = name.get_char(i);
        if c == '\n' || c == '\r' {
            assert(name@[i as int] == c);
            return Err(AppError::validation("标签名不能包含换行"));
        }
        i = i + 1;
    }
    Ok(())
}

/// The name `create_tag` stores: the raw name trimmed, provided the trimmed
/// name passes `validate_tag_name`.
pub fn checked_tag_name(raw: &str) -> (r: Result<String, AppError>)
    ensures
        r is Ok <==> tag_name_error(trim_spec(raw@)) is None,
        r matches Ok(t) ==> t@ == trim_spec(raw@),
        r matches Err(e) ==> e.code == ErrorCode::Validation && tag_name_error(trim_spec(raw@))
            == Some(e.message@),
        r is Ok <==> (1 <= trim_spec(raw@).len() <= 30 && forall|k: int|
            0 <= k < trim_spec(raw@).len() ==> trim_spec(raw@)[k] != '\n' && trim_spec(raw@)[k]
                != '\r'),
{
    let name = trim(raw);
    match validate_tag_name(name.as_str()) {
        Ok(()) => Ok(name),
        Err(e) => Err(e),
    }
}

/// The character sequences of a list of strings.
pub open spec fn strings_view(v: Seq<String>) -> Seq<Seq<char>> {
    v.map_values(|s: String| s@)
}

/// Each name trimmed.
pub open spec fn trim_all(names: Seq<Seq<char>>) -> Seq<Seq<char>> {
    names.map_values(|s: Seq<char>| trim_spec(s))
}

/// The first refusal among names taken in order, if any.
pub open spec fn first_tag_name_error(ts: Seq<Seq<char>>) -> Option<Seq<char>>
    decreases ts.len(),
{
    if ts.len() == 0 {
        None
    } else {
        match first_tag_name_error(ts.drop_last()) {
            Some(m) => Some(m),
            None => tag_name_error(ts.last()),
        }
    }
}

/// Whether a name with lower case `l` is among `names`, ignoring case.
pub open spec fn has_lower(names: Seq<Seq<char>>, l: Seq<char>) -> bool {
    exists|j: int| 0 <= j < names.len() && lowercase(#[trigger] names[j]) == l
}

/// `names` with every name dropped whose lower case equals that of an
/// earlier name; the first of each such group stays, in input order.
pub open spec fn dedup_ignoring_case(names: Seq<Seq<char>>) -> Seq<Seq<char>>
    decreases names.len(),
{
    if names.len() == 0 {
        seq![]
    } else {
        let kept = dedup_ignoring_case(names.drop_last());
        if has_lower(kept, lowercase(names.last())) {
            kept
        } else {
            kept.push(names.last())
        }
    }
}

/// The tag names `set_memo_tags` stores for raw input names: each trimmed;
/// the first refused name's error if any is refused; else the trimmed names
/// without repeats that differ only in case, first occurrences kept.
pub open spec fn normalize_tag_names_spec(raw: Seq<Seq<char>>) -> Result<
    Seq<Seq<char>>,
    Seq<char>,
> {
    let ts = trim_all(raw);
    match first_tag_name_error(ts) {
        Some(m) => Err(m),
        None => Ok(dedup_ignoring_case(ts)),
    }
}

proof fn lemma_first_error_extends(ts: Seq<Seq<char>>, k: int, m: Seq<char>)
    requires
        0 <= k <= ts.len(),
        first_tag_name_error(ts.take(k)) == Some(m),
    ensures
        first_tag_name_error(ts) == Some(m),
    decreases ts.len(),
{
    if k == ts.len() {
        assert(ts.take(k) =~= ts);
    } else {
        assert(ts.drop_last().take(k) =~= ts.take(k));
        lemma_first_error_extends(ts.drop_last(), k, m);
    }
}

/// A list of names has no refusal exactly when no name in it is refused.
proof fn lemma_first_error_none(ts: Seq<Seq<char>>)
    ensures
        first_tag_name_error(ts) is None <==> forall|k: int|
            0 <= k < ts.len() ==> tag_name_error(#[trigger] ts[k]) is None,
    decreases ts.len(),
{
    if ts.len() > 0 {
        lemma_first_error_none(ts.drop_last());
        if first_tag_name_error(ts) is None {
            assert forall|k: int| 0 <= k < ts.len() implies tag_name_error(
                #[trigger] ts[k],
            ) is None by {
                if k < ts.len() - 1 {
                    assert(ts[k] == ts.drop_last()[k]);
                }
            }
        } else {
            if first_tag_name_error(ts.drop_last()) is Some {
                let k0 = choose|k: int|
                    0 <= k < ts.drop_last().len() && tag_name_error(
                        #[trigger] ts.drop_last()[k],
                    ) is Some;
                assert(ts[k0] == ts.drop_last()[k0]);
            } else {
                assert(tag_name_error(ts[ts.len() - 1]) is Some);
            }
        }
    }
}

/// Whether `s` is in `v`, comparing characters.
fn contains_string(v: &Vec<String>, s: &String) -> (r: bool)
    ensures
        r == exists|j: int| 0 <= j < v@.len() && (#[trigger] v@[j])@ == s@,
{
    let mut k: usize = 0;
    while k < v.len()
        invariant
            k <= v@.len(),
            forall|j: int| 0 <= j < k ==> (#[trigger] v@[j])@ != s@,
        decreases v@.len() - k,
    {
        if v[k] == *s {
            return true;
        }
        k = k + 1;
    }
    false
}

/// Normalises the tag names of `set_memo_tags`: trims each, refuses the
/// first invalid one, and drops repeats that differ only in case, keeping
/// the first occurrence of each in input order.
pub fn normalize_tag_names(raw: &Vec<String>) -> (r: Result<Vec<String>, AppError>)
    ensures
        r matches Ok(v) ==> normalize_tag_names_spec(strings_view(raw@)) == Ok::<
            Seq<Seq<char>>,
            Seq<char>,
        >(strings_view(v@)),
        r matches Err(e) ==> e.code == ErrorCode::Validation && normalize_tag_names_spec(
            strings_view(raw@),
        ) == Err::<Seq<Seq<char>>, Seq<char>>(e.message@),
{
    let ghost ts = trim_all(strings_view(raw@));
    let mut names: Vec<String> = Vec::new();
    let mut seen: Vec<String> = Vec::new();
    let mut i: usize = 0;
    while i < raw.len()
        invariant
            i <= raw@.len(),
            ts == trim_all(strings_view(raw@)),
            ts.len() == raw@.len(),
            first_tag_name_error(ts.take(i as int)) is None,
            strings_view(names@) == dedup_ignoring_case(ts.take(i as int)),
            seen@.len() == names@.len(),
            forall|j: int| 0 <= j < seen@.len() ==> (#[trigger] seen@[j])@ == lowercase(
                names@[j]@,
            ),
        decreases raw@.len() - i,
    {
        let name = trim(raw[i].as_str());
        let ghost prefix = ts.take(i + 1);
        proof {
            assert(prefix.drop_last() =~= ts.take(i as int));
            assert(prefix.last() == ts[i as int]);
            assert(ts[i as int] == name@);
        }
        match validate_tag_name(name.as_str()) {
            Err(e) => {
                proof {
                    lemma_first_error_extends(ts, i + 1, e.message@);
                }
                return Err(e);
            },
            Ok(()) => {},
        }
        let lower = to_lowercase(name.as_str());
        let found = contains_string(&seen, &lower);
        let ghost kept = strings_view(names@);
        proof {
            if found {
                let j = choose|j: int| 0 <= j < seen@.len() && (#[trigger] seen@[j])@ == lower@;
                assert(lowercase(kept[j]) == lower@);
            }
            if has_lower(kept, lower@) {
                let j = choose|j: int| 0 <= j < kept.len() && lowercase(#[trigger] kept[j]) == lower@;
                assert(seen@[j]@ == lower@);
            }
        }
        if !found {
            names.push(name);
            seen.push(lower);
            proof {
                assert(strings_view(names@) =~= kept.push(ts[i as int]));
            }
        }
        i = i + 1;
    }
    proof {
        assert(ts.take(raw@.len() as int) =~= ts);
    }
    Ok(names)
}

proof fn lemma_dedup_distinct(names: Seq<Seq<char>>)
    ensures
        forall|i: int, j: int|
            0 <= i < j < dedup_ignoring_case(names).len() ==> lowercase(
                #[trigger] dedup_ignoring_case(names)[i],
            ) != lowercase(#[trigger] dedup_ignoring_case(names)[j]),
    decreases names.len(),
{
    if names.len() > 0 {
        lemma_dedup_distinct(names.drop_last());
        let kept = dedup_ignoring_case(names.drop_last());
        let d = dedup_ignoring_case(names);
        assert forall|i: int, j: int| 0 <= i < j < d.len() implies lowercase(
            #[trigger] d[i],
        ) != lowercase(#[trigger] d[j]) by {
            if j == kept.len() {
                assert(d[i] == kept[i]);
            } else {
                assert(d[i] == kept[i] && d[j] == kept[j]);
            }
        }
    }
}

proof fn lemma_dedup_covers(names: Seq<Seq<char>>)
    ensures
        forall|k: int|
            0 <= k < names.len() ==> has_lower(
                dedup_ignoring_case(names),
                lowercase(#[trigger] names[k]),
            ),
    decreases names.len(),
{
    if names.len() > 0 {
        lemma_dedup_covers(names.drop_last());
        let kept = dedup_ignoring_case(names.drop_last());
        let d = dedup_ignoring_case(names);
        assert forall|k: int| 0 <= k < names.len() implies has_lower(
            d,
            lowercase(#[trigger] names[k]),
        ) by {
            if k < names.len() - 1 {
                assert(names[k] == names.drop_last()[k]);
                assert(has_lower(kept, lowercase(names[k])));
                let j = choose|j: int| 0 <= j < kept.len() && lowercase(#[trigger] kept[j]) == lowercase(names[k]);
                assert(d[j] == kept[j]);
            } else if !has_lower(kept, lowercase(names.last())) {
                assert(d[kept.len() as int] == names.last());
            }
        }
    }
}

proof fn lemma_dedup_from_input(names: Seq<Seq<char>>)
    ensures
        forall|j: int|
            0 <= j < dedup_ignoring_case(names).len() ==> exists|k: int|
                0 <= k < names.len() && names[k] == #[trigger] dedup_ignoring_case(names)[j],
    decreases names.len(),
{
    if names.len() > 0 {
        lemma_dedup_from_input(names.drop_last());
        let kept = dedup_ignoring_case(names.drop_last());
        let d = dedup_ignoring_case(names);
        assert forall|j: int| 0 <= j < d.len() implies exists|k: int|
            0 <= k < names.len() && names[k] == #[trigger] d[j] by {
            if j < kept.len() {
                assert(d[j] == kept[j]);
                let k = choose|k: int| 0 <= k < names.drop_last().len() && names.drop_last()[k] == kept[j];
                assert(names[k] == names.drop_last()[k]);
            } else {
                assert(names[names.len() - 1] == d[j]);
            }
        }
    }
}

proof fn lemma_dedup_of_distinct(names: Seq<Seq<char>>)
    requires
        forall|i: int, j: int|
            0 <= i < j < names.len() ==> lowercase(#[trigger] names[i]) != lowercase(
                #[trigger] names[j],
            ),
    ensures
        dedup_ignoring_case(names) == names,
    decreases names.len(),
{
    if names.len() > 0 {
        let front = names.drop_last();
        assert forall|i: int, j: int| 0 <= i < j < front.len() implies lowercase(
            #[trigger] front[i],
        ) != lowercase(#[trigger] front[j]) by {
            assert(front[i] == names[i] && front[j] == names[j]);
        }
        lemma_dedup_of_distinct(front);
        if has_lower(front, lowercase(names.last())) {
            let j = choose|j: int| 0 <= j < front.len() && lowercase(#[trigger] front[j]) == lowercase(names.last());
            assert(front[j] == names[j]);
            assert(false);
        }
        assert(front.push(names.last()) =~= names);
    }
}

/// What `set_memo_tags` stores, read as names: no two differ only in case,
/// every input name is represented by a stored name equal to it ignoring
/// case, every stored name is one of the trimmed input names, and every
/// stored name passes tag name validation.
pub proof fn lemma_normalized_tag_names(raw: Seq<Seq<char>>)
    requires
        normalize_tag_names_spec(raw) is Ok,
    ensures
        ({
            let out = normalize_tag_names_spec(raw)->Ok_0;
            &&& forall|i: int, j: int|
                0 <= i < j < out.len() ==> lowercase(#[trigger] out[i]) != lowercase(
                    #[trigger] out[j],
                )
            &&& forall|k: int|
                0 <= k < raw.len() ==> has_lower(out, lowercase(trim_spec(#[trigger] raw[k])))
            &&& forall|j: int|
                0 <= j < out.len() ==> exists|k: int|
                    0 <= k < raw.len() && trim_spec(raw[k]) == #[trigger] out[j]
            &&& forall|j: int| 0 <= j < out.len() ==> tag_name_error(#[trigger] out[j]) is None
        }),
{
    let ts = trim_all(raw);
    lemma_dedup_distinct(ts);
    lemma_dedup_covers(ts);
    lemma_dedup_from_input(ts);
    lemma_first_error_none(ts);
    let out = dedup_ignoring_case(ts);
    assert forall|j: int| 0 <= j < out.len() implies tag_name_error(#[trigger] out[j]) is None by {
        let k = choose|k: int| 0 <= k < ts.len() && ts[k] == out[j];
        assert(tag_name_error(ts[k]) is None);
    }
    assert forall|k: int| 0 <= k < raw.len() implies has_lower(
        out,
        lowercase(trim_spec(#[trigger] raw[k])),
    ) by {
        assert(ts[k] == trim_spec(raw[k]));
    }
    assert forall|j: int| 0 <= j < out.len() implies exists|k: int|
        0 <= k < raw.len() && trim_spec(raw[k]) == #[trigger] out[j] by {
        let k = choose|k: int| 0 <= k < ts.len() && ts[k] == out[j];
        assert(ts[k] == trim_spec(raw[k]));
    }
}

/// A list of tag names is accepted exactly when every name in it, trimmed,
/// has 1 to 30 characters and no line break; otherwise the error is that
/// of the first refused name.
pub proof fn lemma_tag_names_accepted(raw: Seq<Seq<char>>)
    ensures
        normalize_tag_names_spec(raw) is Ok <==> forall|k: int|
            0 <= k < raw.len() ==> tag_name_error(trim_spec(#[trigger] raw[k])) is None,
        normalize_tag_names_spec(raw) is Ok <==> forall|k: int|
            0 <= k < raw.len() ==> {
                let t = trim_spec(#[trigger] raw[k]);
                &&& 1 <= t.len() <= 30
                &&& forall|i: int| 0 <= i < t.len() ==> t[i] != '\n' && t[i] != '\r'
            },
{
    let ts = trim_all(raw);
    lemma_first_error_none(ts);
    assert(ts.len() == raw.len());
    assert forall|k: int| 0 <= k < raw.len() implies #[trigger] ts[k] == trim_spec(raw[k]) by {}
    if normalize_tag_names_spec(raw) is Ok {
        assert forall|k: int| 0 <= k < raw.len() implies tag_name_error(
            trim_spec(#[trigger] raw[k]),
        ) is None by {
            assert(ts[k] == trim_spec(raw[k]));
        }
    }
    if forall|k: int| 0 <= k < raw.len() ==> tag_name_error(trim_spec(#[trigger] raw[k])) is None {
        assert forall|k: int| 0 <= k < ts.len() implies tag_name_error(#[trigger] ts[k]) is None by {
            assert(ts[k] == trim_spec(raw[k]));
        }
    }
    assert forall|k: int| 0 <= k < raw.len() implies (tag_name_error(trim_spec(#[trigger] raw[k]))
        is None <==> {
        let t = trim_spec(raw[k]);
        &&& 1 <= t.len() <= 30
        &&& forall|i: int| 0 <= i < t.len() ==> t[i] != '\n' && t[i] != '\r'
    }) by {
        lemma_tag_name_accepted(trim_spec(raw[k]));
    }
}

/// Normalising tag names twice gives what normalising once gives: the
/// stored names, sent back as they are, are stored unchanged.
pub proof fn lemma_normalize_tag_names_idempotent(raw: Seq<Seq<char>>)
    requires
        normalize_tag_names_spec(raw) is Ok,
    ensures
        normalize_tag_names_spec(normalize_tag_names_spec(raw)->Ok_0) == normalize_tag_names_spec(
            raw,
        ),
{
    let ts = trim_all(raw);
    let out = dedup_ignoring_case(ts);
    lemma_dedup_distinct(ts);
    lemma_dedup_from_input(ts);
    lemma_first_error_none(ts);
    let ts2 = trim_all(out);
    assert forall|j: int| 0 <= j < out.len() implies #[trigger] ts2[j] == out[j]
        && tag_name_error(out[j]) is None by {
        let k = choose|k: int| 0 <= k < ts.len() && ts[k] == out[j];
        assert(ts[k] == trim_spec(raw[k]));
        lemma_trim_idempotent(raw[k]);
        assert(tag_name_error(ts[k]) is None);
    }
    assert(ts2 =~= out);
    lemma_first_error_none(out);
    lemma_dedup_of_distinct(out);
}

/// The error for a tag id that is not stored.
pub open spec fn is_tag_not_found(e: AppError) -> bool {
    e.code == ErrorCode::NotFound && e.message@ == "标签不存在"@
}

/// Refuses an operation on a tag that does not exist.
pub fn ensure_tag_exists(exists: bool) -> (r: Result<(), AppError>)
    ensures
        r is Ok <==> exists,
        r matches Err(e) ==> is_tag_not_found(e),
{
    if exists {
        Ok(())
    } else {
        Err(AppError::not_found("标签不存在"))
    }
}

/// Refuses to create a tag when one with the same name, ignoring case, is
/// already stored (`existing` is its id).
pub fn ensure_tag_name_free(existing: Option<i64>) -> (r: Result<(), AppError>)
    ensures
        r is Ok <==> existing is None,
        r matches Err(e) ==> e.code == ErrorCode::Validation && e.message@ == "标签已存在"@,
{
    match existing {
        Some(_) => Err(AppError::validation("标签已存在")),
        None => Ok(()),
    }
}

} // verus!
