//! HTML escaping of user text, and its inverse.
//!
//! Every piece of user text that lands in a page goes through [`escape`]:
//! the six characters `& < > " ' /` become entities, everything else stays.
//! [`unescape`] turns those six entities back into their characters.

use vstd::prelude::*;
use crate::strings::{push_char, push_str, chars_of, has_prefix, starts_with_at};

verus! {

/// The entity (or the character itself) that `c` is written as.
pub open spec fn escape_char(c: char) -> Seq<char> {
    if c == '&' {
        seq!['&', 'a', 'm', 'p', ';']
    } else if c == '<' {
        seq!['&', 'l', 't', ';']
    } else if c == '>' {
        seq!['&', 'g', 't', ';']
    } else if c == '"' {
        seq!['&', 'q', 'u', 'o', 't', ';']
    } else if c == '\'' {
        seq!['&', '#', 'x', '2', '7', ';']
    } else if c == '/' {
        seq!['&', '#', 'x', '2', 'F', ';']
    } else {
        seq![c]
    }
}

/// The escaped form of a text: each character replaced by `escape_char`.
pub open spec fn escaped(s: Seq<char>) -> Seq<char>
    decreases s.len(),
{
    if s.len() == 0 {
        Seq::empty()
    } else {
        escaped(s.drop_last()) + escape_char(s.last())
    }
}

/// The entity that `s` starts with, if any: the character it stands for and
/// its length.
pub open spec fn entity(s: Seq<char>) -> Option<(char, nat)> {
    if has_prefix(s, seq!['&', 'a', 'm', 'p', ';']) {
        Some(('&', 5))
    } else if has_prefix(s, seq!['&', 'l', 't', ';']) {
        Some(('<', 4))
    } else if has_prefix(s, seq!['&', 'g', 't', ';']) {
        Some(('>', 4))
    } else if has_prefix(s, seq!['&', 'q', 'u', 'o', 't', ';']) {
        Some(('"', 6))
    } else if has_prefix(s, seq!['&', '#', 'x', '2', '7', ';']) {
        Some(('\'', 6))
    } else if has_prefix(s, seq!['&', '#', 'x', '2', 'F', ';']) {
        Some(('/', 6))
    } else {
        None
    }
}

/// The text with each of the six entities of `escape_char` read back as its
/// character, left to right; anything else is kept.
pub open spec fn unescaped(s: Seq<char>) -> Seq<char>
    decreases s.len(),
{
    if s.len() == 0 {
        Seq::empty()
    } else {
        match entity(s) {
            Some((c, n)) => seq![c] + unescaped(s.skip(n as int)),
            None => seq![s[0]] + unescaped(s.skip(1)),
        }
    }
}

fn entity_at(cs: &Vec<char>, i: usize) -> (r: Option<(char, usize)>)
    requires
        i <= cs@.len(),
    ensures
        match r {
            Some((c, n)) => entity(cs@.skip(i as int)) == Some((c, n as nat)),
            None => entity(cs@.skip(i as int)).is_none(),
        },
{
    let p0 = vec!['&', 'a', 'm', 'p', ';'];
    assert(p0@ =~= seq!['&', 'a', 'm', 'p', ';']);
    if starts_with_at(cs, i, &p0) {
        return Some(('&', 5));
    }
    let p1 = vec!['&', 'l', 't', ';'];
    assert(p1@ =~= seq!['&', 'l', 't', ';']);
    if starts_with_at(cs, i, &p1) {
        return Some(('<', 4));
    }
    let p2 = vec!['&', 'g', 't', ';'];
    assert(p2@ =~= seq!['&', 'g', 't', ';']);
    if starts_with_at(cs, i, &p2) {
        return Some(('>', 4));
    }
    let p3 = vec!['&', 'q', 'u', 'o', 't', ';'];
    assert(p3@ =~= seq!['&', 'q', 'u', 'o', 't', ';']);
    if starts_with_at(cs, i, &p3) {
        return Some(('"', 6));
    }
    let p4 = vec!['&', '#', 'x', '2', '7', ';'];
    assert(p4@ =~= seq!['&', '#', 'x', '2', '7', ';']);
    if starts_with_at(cs, i, &p4) {
        return Some(('\'', 6));
    }
    let p5 = vec!['&', '#', 'x', '2', 'F', ';'];
    assert(p5@ =~= seq!['&', '#', 'x', '2', 'F', ';']);
    if starts_with_at(cs, i, &p5) {
        return Some(('/', 6));
    }
    None
}

/// Appends the escaped form of one character.
pub fn push_escaped_char(out: &mut String, c: char)
    ensures
        final(out)@ == old(out)@ + escape_char(c),
{
    if c == '&' {
        push_str(out, "&amp;");
        proof { reveal_strlit("&amp;"); }
    } else if c == '<' {
        push_str(out, "&lt;");
        proof { reveal_strlit("&lt;"); }
    } else if c == '>' {
        push_str(out, "&gt;");
        proof { reveal_strlit("&gt;"); }
    } else if c == '"' {
        push_str(out, "&quot;");
        proof { reveal_strlit("&quot;"); }
    } else if c == '\'' {
        push_str(out, "&#x27;");
        proof { reveal_strlit("&#x27;"); }
    } else if c == '/' {
        push_str(out, "&#x2F;");
        proof { reveal_strlit("&#x2F;"); }
    } else {
        push_char(out, c);
        assert(old(out)@.push(c) =~= old(out)@ + seq![c]);
    }
}

/// Escapes a text for use in HTML.
pub fn escape(s: &str) -> (r: String)
    ensures
        r@ == escaped(s@),
{
    let cs = chars_of(s);
    let mut out = String::new();
    let mut i: usize = 0;
    while i < cs.len()
        invariant
            i <= cs@.len(),
            cs@ == s@,
            out@ == escaped(cs@.take(i as int)),
        decreases cs@.len() - i,
    {
        push_escaped_char(&mut out, cs[i]);
        assert(cs@.take(i + 1).drop_last() =~= cs@.take(i as int));
        i = i + 1;
    }
    assert(cs@.take(cs@.len() as int) =~= cs@);
    out
}

/// Reads the entities of `escape_char` back into characters.
pub fn unescape(s: &str) -> (r: String)
    ensures
        r@ == unescaped(s@),
{
    let cs = chars_of(s);
    let mut out = String::new();
    let mut i: usize = 0;
    assert(cs@.skip(0) =~= cs@);
    while i < cs.len()
        invariant
            i <= cs@.len(),
            cs@ == s@,
            out@ + unescaped(cs@.skip(i as int)) == unescaped(cs@),
        decreases cs@.len() - i,
    {
        let ghost rest = cs@.skip(i as int);
        match entity_at(&cs, i) {
            Some((c, n)) => {
                push_char(&mut out, c);
                proof {
                    assert(rest.skip(n as int) =~= cs@.skip(i + n));
                }
                i = i + n;
            },
            None => {
                push_char(&mut out, cs[i]);
                proof {
                    assert(rest.skip(1) =~= cs@.skip(i + 1));
                    assert(rest[0] == cs@[i as int]);
                }
                i = i + 1;
            },
        }
    }
    assert(cs@.skip(cs@.len() as int) =~= Seq::<char>::empty());
    assert(out@ + Seq::<char>::empty() =~= out@);
    out
}

/// Escaping distributes over concatenation.
pub proof fn lemma_escaped_concat(a: Seq<char>, b: Seq<char>)
    ensures
        escaped(a + b) == escaped(a) + escaped(b),
    decreases b.len(),
{
    if b.len() == 0 {
        assert(a + b =~= a);
        assert(escaped(a) + escaped(b) =~= escaped(a));
    } else {
        assert((a + b).drop_last() =~= a + b.drop_last());
        assert((a + b).last() == b.last());
        lemma_escaped_concat(a, b.drop_last());
        assert(escaped(a + b) =~= escaped(a) + escaped(b.drop_last()) + escape_char(b.last()));
    }
}

proof fn lemma_unescape_one(c: char, rest: Seq<char>)
    ensures
        unescaped(escape_char(c) + rest) == seq![c] + unescaped(rest),
{
    let e = escape_char(c);
    let s = e + rest;
    assert(s.len() > 0);
    if c == '&' {
        assert(s.subrange(0, 5) =~= seq!['&', 'a', 'm', 'p', ';']);
        assert(s.skip(5) =~= rest);
    } else if c == '<' {
        assert(s[1] == 'l');
        assert(s.subrange(0, 4) =~= seq!['&', 'l', 't', ';']);
        assert(s.skip(4) =~= rest);
    } else if c == '>' {
        assert(s[1] == 'g');
        assert(s.subrange(0, 4) =~= seq!['&', 'g', 't', ';']);
        assert(s.skip(4) =~= rest);
    } else if c == '"' {
        assert(s[1] == 'q');
        assert(s.subrange(0, 6) =~= seq!['&', 'q', 'u', 'o', 't', ';']);
        assert(s.skip(6) =~= rest);
    } else if c == '\'' {
        assert(s[1] == '#' && s[4] == '7');
        assert(s.subrange(0, 6) =~= seq!['&', '#', 'x', '2', '7', ';']);
        assert(s.skip(6) =~= rest);
    } else if c == '/' {
        assert(s[1] == '#' && s[4] == 'F');
        assert(s.subrange(0, 6) =~= seq!['&', '#', 'x', '2', 'F', ';']);
        assert(s.skip(6) =~= rest);
    } else {
        assert(s[0] == c && c != '&');
        assert(entity(s).is_none());
        assert(s.skip(1) =~= rest);
    }
}

/// Unescaping gives back exactly the text that was escaped.
pub proof fn law_unescape_escape(s: Seq<char>)
    ensures
        unescaped(escaped(s)) == s,
    decreases s.len(),
{
    if s.len() == 0 {
        assert(escaped(s) =~= Seq::<char>::empty());
    } else {
        let t = s.skip(1);
        assert(s =~= seq![s[0]] + t);
        lemma_escaped_concat(seq![s[0]], t);
        assert(seq![s[0]].drop_last() =~= Seq::<char>::empty());
        assert(escaped(Seq::<char>::empty()) =~= Seq::<char>::empty());
        assert(seq![s[0]].last() == s[0]);
        assert(escaped(seq![s[0]]) =~= escape_char(s[0]));
        lemma_unescape_one(s[0], escaped(t));
        law_unescape_escape(t);
    }
}

} // verus!
