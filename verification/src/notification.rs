//! The text of the system notification shown when a reminder is due.

use vstd::prelude::*;
use crate::text::{chars_of, push_char};

verus! {

/// Whether `c` must be escaped inside an AppleScript string literal.
pub open spec fn needs_script_escape(c: char) -> bool {
    c == '"' || c == '\\'
}

/// The escaped form of one character in an AppleScript string literal.
pub open spec fn escape_script_char(c: char) -> Seq<char> {
    if needs_script_escape(c) {
        seq!['\\', c]
    } else {
        seq![c]
    }
}

/// `s` with each `"` and `\` preceded by `\`, so that it can stand inside
/// an AppleScript string literal.
pub open spec fn escape_script_spec(s: Seq<char>) -> Seq<char>
    decreases s.len(),
{
    if s.len() == 0 {
        seq![]
    } else {
        escape_script_char(s[0]) + escape_script_spec(s.drop_first())
    }
}

/// The text an AppleScript string literal body denotes, or `None` where it
/// holds an unescaped `"` or ends in a lone `\`.
pub open spec fn script_literal_text(p: Seq<char>) -> Option<Seq<char>>
    decreases p.len(),
{
    if p.len() == 0 {
        Some(seq![])
    } else if p[0] == '\\' {
        if p.len() >= 2 {
            match script_literal_text(p.skip(2)) {
                Some(rest) => Some(seq![p[1]] + rest),
                None => None,
            }
        } else {
            None
        }
    } else if p[0] == '"' {
        None
    } else {
        match script_literal_text(p.drop_first()) {
            Some(rest) => Some(seq![p[0]] + rest),
            None => None,
        }
    }
}

proof fn lemma_escape_script_concat(a: Seq<char>, b: Seq<char>)
    ensures
        escape_script_spec(a + b) == escape_script_spec(a) + escape_script_spec(b),
    decreases a.len(),
{
    if a.len() == 0 {
        assert(a + b =~= b);
    } else {
        assert((a + b).drop_first() =~= a.drop_first() + b);
        lemma_escape_script_concat(a.drop_first(), b);
        assert(escape_script_spec(a + b) =~= escape_script_spec(a) + escape_script_spec(b));
    }
}

/// The escaped title denotes exactly the title inside the script's string
/// literal: no quote in the title can end the literal early.
pub proof fn lemma_escaped_title_denotes_title(s: Seq<char>)
    ensures
        script_literal_text(escape_script_spec(s)) == Some(s),
    decreases s.len(),
{
    if s.len() > 0 {
        let e = escape_script_spec(s.drop_first());
        lemma_escaped_title_denotes_title(s.drop_first());
        let p = escape_script_spec(s);
        if needs_script_escape(s[0]) {
            assert(p.skip(2) =~= e);
        } else {
            assert(p.drop_first() =~= e);
        }
        assert(seq![s[0]] + s.drop_first() =~= s);
    }
}

/// `title` with each `"` and `\` preceded by `\`.
pub fn escape_script_text(title: &str) -> (r: String)
    ensures
        r@ == escape_script_spec(title@),
{
    let v = chars_of(title);
    let mut escaped = String::new();
    let mut i: usize = 0;
    while i < v.len()
        invariant
            v@ == title@,
            i <= v@.len(),
            escaped@ == escape_script_spec(v@.take(i as int)),
        decreases v@.len() - i,
    {
        let c = v[i];
        proof {
            assert(v@.take(i + 1) =~= v@.take(i as int) + seq![c]);
            lemma_escape_script_concat(v@.take(i as int), seq![c]);
            assert(seq![c].drop_first() =~= Seq::<char>::empty());
            reveal_with_fuel(escape_script_spec, 2);
            assert(escape_script_spec(seq![c]) =~= escape_script_char(c));
        }
        if c == '"' || c == '\\' {
            push_char(&mut escaped, '\\');
        }
        push_char(&mut escaped, c);
        proof {
            assert(escaped@ =~= escape_script_spec(v@.take(i as int)) + escape_script_char(c));
        }
        i = i + 1;
    }
    assert(v@.take(v@.len() as int) =~= v@);
    escaped
}

/// The AppleScript that shows a reminder notification titled with the
/// memo's title, escaped so that the script's literal denotes the title.
pub fn reminder_script(title: &str) -> (r: String)
    ensures
        r@ == "display notification \"备忘提醒\" with title \""@ + escape_script_spec(title@)
            + "\""@,
{
    let mut script = String::from_str("display notification \"备忘提醒\" with title \"");
    let escaped = escape_script_text(title);
    script.append(escaped.as_str());
    script.append("\"");
    script
}

} // verus!
