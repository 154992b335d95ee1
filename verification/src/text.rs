//! Character-level helpers on strings: Unicode white space, trimming,
//! splitting, comparison and case mapping.

use vstd::prelude::*;

verus! {

/// The characters with the Unicode `White_Space` property.
pub open spec fn is_white_space(c: char) -> bool {
    let n = c as u32;
    ||| 0x09 <= n <= 0x0d
    ||| n == 0x20
    ||| n == 0x85
    ||| n == 0xa0
    ||| n == 0x1680
    ||| 0x2000 <= n <= 0x200a
    ||| n == 0x2028
    ||| n == 0x2029
    ||| n == 0x202f
    ||| n == 0x205f
    ||| n == 0x3000
}

/// Whether `c` is Unicode white space.
pub fn is_white_space_char(c: char) -> (b: bool)
    ensures
        b == is_white_space(c),
{
    let n = c as u32;
    (0x09 <= n && n <= 0x0d) || n == 0x20 || n == 0x85 || n == 0xa0 || n == 0x1680 || (0x2000
        <= n && n <= 0x200a) || n == 0x2028 || n == 0x2029 || n == 0x202f || n == 0x205f || n
        == 0x3000
}

/// `s` without its leading white space.
pub open spec fn trim_start_spec(s: Seq<char>) -> Seq<char>
    decreases s.len(),
{
    if s.len() > 0 && is_white_space(s[0]) {
        trim_start_spec(s.drop_first())
    } else {
        s
    }
}

/// `s` without its trailing white space.
pub open spec fn trim_end_spec(s: Seq<char>) -> Seq<char>
    decreases s.len(),
{
    if s.len() > 0 && is_white_space(s.last()) {
        trim_end_spec(s.drop_last())
    } else {
        s
    }
}

/// `s` without leading and trailing white space.
pub open spec fn trim_spec(s: Seq<char>) -> Seq<char> {
    trim_end_spec(trim_start_spec(s))
}

proof fn lemma_trim_start_result(s: Seq<char>)
    ensures
        trim_start_spec(s).len() == 0 || !is_white_space(trim_start_spec(s)[0]),
    decreases s.len(),
{
    if s.len() > 0 && is_white_space(s[0]) {
        lemma_trim_start_result(s.drop_first());
    }
}

proof fn lemma_trim_end_result(s: Seq<char>)
    ensures
        trim_end_spec(s).len() <= s.len(),
        trim_end_spec(s) =~= s.take(trim_end_spec(s).len() as int),
        trim_end_spec(s).len() == 0 || !is_white_space(trim_end_spec(s).last()),
    decreases s.len(),
{
    if s.len() > 0 && is_white_space(s.last()) {
        lemma_trim_end_result(s.drop_last());
        let r = trim_end_spec(s.drop_last());
        assert(s.drop_last().take(r.len() as int) =~= s.take(r.len() as int));
    } else {
        assert(s.take(s.len() as int) =~= s);
    }
}

/// Trimming a trimmed string changes nothing.
pub proof fn lemma_trim_idempotent(s: Seq<char>)
    ensures
        trim_spec(trim_spec(s)) == trim_spec(s),
{
    let a = trim_start_spec(s);
    let b = trim_end_spec(a);
    lemma_trim_start_result(s);
    lemma_trim_end_result(a);
    if b.len() > 0 {
        assert(b[0] == a[0]);
    }
    assert(trim_start_spec(b) == b);
    assert(trim_end_spec(b) == b);
}

/// The characters of `s`, in order.
pub fn chars_of(s: &str) -> (v: Vec<char>)
    ensures
        v@ == s@,
{
    let mut v: Vec<char> = Vec::new();
    for c in it: s.chars()
        invariant
            v@ == it.seq().take(it.index() as int),
    {
        v.push(c);
    }
    assert(v@ =~= s@);
    v
}

/// std's `String::push`. Claimed: afterwards `s` holds what it held before
/// with `c` appended.
#[verifier::external_body]
pub(crate) fn push_char(s: &mut String, c: char)
    ensures
        final(s)@ == old(s)@.push(c),
{
    s.push(c);
}

/// The string made of the characters `v[from..to]`.
pub fn string_of(v: &Vec<char>, from: usize, to: usize) -> (r: String)
    requires
        from <= to <= v@.len(),
    ensures
        r@ == v@.subrange(from as int, to as int),
{
    let mut r = String::new();
    let mut i: usize = from;
    while i < to
        invariant
            from <= i <= to <= v@.len(),
            r@ == v@.subrange(from as int, i as int),
        decreases to - i,
    {
        push_char(&mut r, v[i]);
        i = i + 1;
        assert(r@ =~= v@.subrange(from as int, i as int));
    }
    r
}

proof fn lemma_trim_start_step(s: Seq<char>, i: int)
    requires
        0 <= i < s.len(),
        is_white_space(s[i]),
    ensures
        trim_start_spec(s.subrange(i, s.len() as int)) == trim_start_spec(
            s.subrange(i + 1, s.len() as int),
        ),
{
    assert(s.subrange(i, s.len() as int).drop_first() =~= s.subrange(i + 1, s.len() as int));
}

proof fn lemma_trim_end_step(t: Seq<char>, k: int)
    requires
        0 < k <= t.len(),
        is_white_space(t[k - 1]),
    ensures
        trim_end_spec(t.subrange(0, k)) == trim_end_spec(t.subrange(0, k - 1)),
{
    assert(t.subrange(0, k).drop_last() =~= t.subrange(0, k - 1));
}

/// The start and end of the part of `v` that trimming keeps.
fn trim_bounds(v: &Vec<char>) -> (r: (usize, usize))
    ensures
        r.0 <= r.1 <= v@.len(),
        v@.subrange(r.0 as int, r.1 as int) == trim_spec(v@),
{
    let n = v.len();
    let mut i: usize = 0;
    assert(v@.subrange(0, n as int) =~= v@);
    while i < n && is_white_space_char(v[i])
        invariant
            n == v@.len(),
            i <= n,
            trim_start_spec(v@) == trim_start_spec(v@.subrange(i as int, n as int)),
        decreases n - i,
    {
        proof {
            lemma_trim_start_step(v@, i as int);
        }
        i = i + 1;
    }
    let ghost t = v@.subrange(i as int, n as int);
    assert(trim_start_spec(v@) == t);
    let mut j: usize = n;
    assert(t.subrange(0, t.len() as int) =~= t);
    while j > i && is_white_space_char(v[j - 1])
        invariant
            i <= j <= n,
            n == v@.len(),
            t == v@.subrange(i as int, n as int),
            trim_end_spec(t) == trim_end_spec(t.subrange(0, j - i)),
        decreases j,
    {
        proof {
            lemma_trim_end_step(t, j - i);
        }
        j = j - 1;
    }
    assert(t.subrange(0, j - i) =~= v@.subrange(i as int, j as int));
    (i, j)
}

/// `s` without leading and trailing white space (as std's `str::trim`).
pub fn trim(s: &str) -> (r: String)
    ensures
        r@ == trim_spec(s@),
{
    let v = chars_of(s);
    let (i, j) = trim_bounds(&v);
    string_of(&v, i, j)
}

/// Whether two strings hold the same characters.
pub fn str_eq(a: &str, b: &str) -> (r: bool)
    ensures
        r == (a@ == b@),
{
    let n = a.unicode_len();
    if n != b.unicode_len() {
        return false;
    }
    let va = chars_of(a);
    let vb = chars_of(b);
    let mut i: usize = 0;
    while i < n
        invariant
            n == va@.len() == vb@.len(),
            va@ == a@,
            vb@ == b@,
            i <= n,
            forall|k: int| 0 <= k < i ==> va@[k] == vb@[k],
        decreases n - i,
    {
        if va[i] != vb[i] {
            return false;
        }
        i = i + 1;
    }
    assert(va@ =~= vb@);
    true
}

/// The pieces of `s` between occurrences of `sep`, as std's `str::split`
/// with a character separator yields them (empty pieces included).
pub open spec fn split_on(s: Seq<char>, sep: char) -> Seq<Seq<char>>
    decreases s.len(),
{
    if s.len() == 0 {
        seq![seq![]]
    } else {
        let front = split_on(s.drop_last(), sep);
        if s.last() == sep {
            front.push(seq![])
        } else {
            front.update(front.len() - 1, front.last().push(s.last()))
        }
    }
}

proof fn lemma_split_on_nonempty(s: Seq<char>, sep: char)
    ensures
        split_on(s, sep).len() >= 1,
    decreases s.len(),
{
    if s.len() > 0 {
        lemma_split_on_nonempty(s.drop_last(), sep);
    }
}

/// The pieces of `s` between occurrences of `sep`.
pub fn split_chars(s: &str, sep: char) -> (parts: Vec<String>)
    ensures
        parts@.map_values(|p: String| p@) == split_on(s@, sep),
{
    let v = chars_of(s);
    let mut parts: Vec<String> = Vec::new();
    let mut cur = String::new();
    let mut i: usize = 0;
    while i < v.len()
        invariant
            v@ == s@,
            i <= v@.len(),
            parts@.map_values(|p: String| p@).push(cur@) == split_on(v@.take(i as int), sep),
        decreases v@.len() - i,
    {
        let c = v[i];
        let ghost before = parts@.map_values(|p: String| p@);
        proof {
            assert(v@.take(i + 1).drop_last() =~= v@.take(i as int));
            assert(v@.take(i + 1).last() == c);
            lemma_split_on_nonempty(v@.take(i as int), sep);
        }
        if c == sep {
            let piece = cur;
            parts.push(piece);
            cur = String::new();
            assert(parts@.map_values(|p: String| p@).push(cur@) =~= before.push(piece@).push(
                seq![],
            ));
        } else {
            let ghost old_cur = cur@;
            push_char(&mut cur, c);
            assert(parts@.map_values(|p: String| p@).push(cur@) =~= before.push(old_cur).update(
                before.len() as int,
                old_cur.push(c),
            ));
        }
        i = i + 1;
    }
    assert(v@.take(v@.len() as int) =~= v@);
    parts.push(cur);
    parts
}

proof fn lemma_split_on_without_sep(a: Seq<char>, sep: char)
    requires
        !a.contains(sep),
    ensures
        split_on(a, sep) == seq![a],
    decreases a.len(),
{
    if a.len() > 0 {
        assert(!a.drop_last().contains(sep)) by {
            if a.drop_last().contains(sep) {
                let k = choose|k: int| 0 <= k < a.drop_last().len() && a.drop_last()[k] == sep;
                assert(a[k] == sep);
            }
        }
        lemma_split_on_without_sep(a.drop_last(), sep);
        assert(a[a.len() - 1] != sep);
        assert(a.drop_last().push(a.last()) =~= a);
        assert(seq![a.drop_last()].update(0, a.drop_last().push(a.last())) =~= seq![a]);
    } else {
        assert(a =~= Seq::<char>::empty());
    }
}

/// The first piece of `a + sep + b`, where `a` holds no `sep`, is `a`.
pub proof fn lemma_split_on_first_piece(a: Seq<char>, sep: char, b: Seq<char>)
    requires
        !a.contains(sep),
    ensures
        split_on(a + seq![sep] + b, sep).len() >= 2,
        split_on(a + seq![sep] + b, sep)[0] == a,
    decreases b.len(),
{
    let s = a + seq![sep] + b;
    if b.len() == 0 {
        lemma_split_on_without_sep(a, sep);
        assert(s.drop_last() =~= a);
    } else {
        lemma_split_on_first_piece(a, sep, b.drop_last());
        assert(s.drop_last() =~= a + seq![sep] + b.drop_last());
    }
}

/// The last piece of `a + sep + b`, where `b` holds no `sep`, is `b`.
pub proof fn lemma_split_on_last_piece(a: Seq<char>, sep: char, b: Seq<char>)
    requires
        !b.contains(sep),
    ensures
        split_on(a + seq![sep] + b, sep).len() >= 2,
        split_on(a + seq![sep] + b, sep).last() == b,
    decreases b.len(),
{
    let s = a + seq![sep] + b;
    if b.len() == 0 {
        lemma_split_on_nonempty(a, sep);
        assert(s.drop_last() =~= a);
        assert(b =~= Seq::<char>::empty());
    } else {
        assert(!b.drop_last().contains(sep)) by {
            if b.drop_last().contains(sep) {
                let k = choose|k: int| 0 <= k < b.drop_last().len() && b.drop_last()[k] == sep;
                assert(b[k] == sep);
            }
        }
        lemma_split_on_last_piece(a, sep, b.drop_last());
        assert(s.drop_last() =~= a + seq![sep] + b.drop_last());
        assert(s.last() == b.last());
        assert(b[b.len() - 1] != sep);
        assert(b.drop_last().push(b.last()) =~= b);
    }
}

/// ASCII upper case of one character.
pub open spec fn ascii_upper_char(c: char) -> char {
    if 'a' <= c <= 'z' {
        ((c as u32) - 32) as char
    } else {
        c
    }
}

/// ASCII lower case of one character.
pub open spec fn ascii_lower_char(c: char) -> char {
    if 'A' <= c <= 'Z' {
        ((c as u32) + 32) as char
    } else {
        c
    }
}

/// Whether every character of `s` is ASCII.
pub open spec fn all_ascii(s: Seq<char>) -> bool {
    forall|i: int| 0 <= i < s.len() ==> (s[i] as u32) < 128
}

/// Upper case of non-ASCII text as std's `str::to_uppercase` computes it,
/// from Unicode's tables, which this crate does not restate.
pub uninterp spec fn unicode_upper(s: Seq<char>) -> Seq<char>;

/// Lower case of non-ASCII text as std's `str::to_lowercase` computes it,
/// from Unicode's tables, which this crate does not restate.
pub uninterp spec fn unicode_lower(s: Seq<char>) -> Seq<char>;

/// Upper case of `s`: on all-ASCII text, `a`-`z` become `A`-`Z` and every
/// other character is kept.
pub open spec fn uppercase(s: Seq<char>) -> Seq<char> {
    if all_ascii(s) {
        s.map_values(|c: char| ascii_upper_char(c))
    } else {
        unicode_upper(s)
    }
}

/// Lower case of `s`: on all-ASCII text, `A`-`Z` become `a`-`z` and every
/// other character is kept.
pub open spec fn lowercase(s: Seq<char>) -> Seq<char> {
    if all_ascii(s) {
        s.map_values(|c: char| ascii_lower_char(c))
    } else {
        unicode_lower(s)
    }
}

/// std's `str::to_uppercase`. Claimed: on all-ASCII text each character is
/// mapped as `char::to_ascii_uppercase` maps it (std documents that
/// `to_uppercase` upper-cases ASCII characters too and keeps a character
/// that has no upper-case mapping); on other text the result is named
/// `unicode_upper` and nothing more is said of it.
#[verifier::external_body]
pub(crate) fn to_uppercase(s: &str) -> (r: String)
    ensures
        all_ascii(s@) ==> r@ == s@.map_values(|c: char| ascii_upper_char(c)),
        !all_ascii(s@) ==> r@ == unicode_upper(s@),
{
    s.to_uppercase()
}

/// std's `str::to_lowercase`. Claimed: on all-ASCII text each character is
/// mapped as `char::to_ascii_lowercase` maps it (std documents that
/// `to_lowercase` lower-cases ASCII characters too and keeps a character
/// that has no lower-case mapping); on other text the result is named
/// `unicode_lower` and nothing more is said of it.
#[verifier::external_body]
pub(crate) fn to_lowercase(s: &str) -> (r: String)
    ensures
        all_ascii(s@) ==> r@ == s@.map_values(|c: char| ascii_lower_char(c)),
        !all_ascii(s@) ==> r@ == unicode_lower(s@),
{
    s.to_lowercase()
}

} // verus!
