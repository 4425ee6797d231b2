//! Links in post text: web addresses become links, and `>>123` becomes a
//! link to post 123 of the thread.
//!
//! The text arrives HTML-escaped, so a reply marker reads `&gt;&gt;123` and
//! a slash reads `&#x2F;`. Matching is done by the `regex` crate; what is
//! put in place of each match is decided here.

use vstd::prelude::*;
use vstd::string::StringSliceAdditionalSpecFns;
use vstd::utf8::{valid_utf8, decode_utf8, is_char_boundary, is_continuation_byte};
use crate::html::{unescape, unescaped};
use crate::strings::{push_str, push_decimal, decimal};
use crate::model::Error;

verus! {

broadcast use vstd::utf8::group_utf8_lib;

/// A match: byte offsets of its start and end in the text's UTF-8 bytes.
pub type Span = (usize, usize);

/// The bytes of `&gt;&gt;`, with which a reply marker starts.
pub open spec fn marker_head() -> Seq<u8> {
    seq![0x26u8, 0x67u8, 0x74u8, 0x3bu8, 0x26u8, 0x67u8, 0x74u8, 0x3bu8]
}

/// An ASCII digit, `0` to `9`.
pub open spec fn ascii_digit(c: u8) -> bool {
    0x30 <= c <= 0x39
}

/// How many ASCII digits follow one another from byte `i` on.
pub open spec fn digit_run(b: Seq<u8>, i: int) -> int
    decreases b.len() - i,
{
    if 0 <= i < b.len() && ascii_digit(b[i]) {
        1 + digit_run(b, i + 1)
    } else {
        0
    }
}

/// A run of digits ends inside the bytes.
pub proof fn lemma_digit_run_bound(b: Seq<u8>, i: int)
    requires
        0 <= i <= b.len(),
    ensures
        0 <= digit_run(b, i) <= b.len() - i,
    decreases b.len() - i,
{
    if i < b.len() {
        lemma_digit_run_bound(b, i + 1);
    }
}

/// A reply marker starts at byte `i`: `&gt;&gt;` and at least one digit.
pub open spec fn marker_at(b: Seq<u8>, i: int) -> bool {
    &&& 0 <= i
    &&& i + 8 <= b.len()
    &&& b.subrange(i, i + 8) == marker_head()
    &&& digit_run(b, i + 8) > 0
}

/// The reply markers from byte `i` on, leftmost first and without overlap,
/// each with all the digits that follow its `&gt;&gt;`: what
/// `&gt;&gt;[0-9]+` matches, one match after another.
pub open spec fn markers_from(b: Seq<u8>, i: int) -> Seq<Span>
    decreases b.len() - i,
{
    if i < 0 || i >= b.len() {
        Seq::empty()
    } else if marker_at(b, i) {
        let e = i + 8 + digit_run(b, i + 8);
        proof {
            lemma_digit_run_bound(b, i + 8);
        }
        seq![(i as usize, e as usize)] + markers_from(b, e)
    } else {
        markers_from(b, i + 1)
    }
}

/// The matches of `&gt;&gt;[0-9]+` in `text`, as `Regex::find_iter` yields
/// them: byte offsets of the reply markers in the text's UTF-8 bytes.
pub open spec fn reply_matches(text: Seq<char>) -> Seq<Span> {
    markers_from(vstd::utf8::encode_utf8(text), 0)
}

/// The matches of the web address pattern in `text`, as `Regex::find_iter`
/// yields them.
pub uninterp spec fn link_matches(text: Seq<char>) -> Seq<Span>;

/// Where the text before match `k` starts: the end of match `k - 1`.
pub open spec fn span_end(spans: Seq<Span>, k: int) -> int {
    if k <= 0 {
        0
    } else {
        spans[k - 1].1 as int
    }
}

/// Matches in order, not overlapping, inside the text, each starting and
/// ending between characters.
pub open spec fn spans_ok(b: Seq<u8>, spans: Seq<Span>) -> bool {
    forall|k: int|
        0 <= k < spans.len() ==> {
            &&& span_end(spans, k) <= (#[trigger] spans[k]).0 <= spans[k].1 <= b.len()
            &&& is_char_boundary(b, spans[k].0 as int)
            &&& is_char_boundary(b, spans[k].1 as int)
        }
}

/// The characters of bytes `from..to`.
pub open spec fn text_between(b: Seq<u8>, from: int, to: int) -> Seq<char> {
    decode_utf8(b.subrange(from, to))
}

/// The text up to the end of match `k`, each match replaced by `f` of it.
pub open spec fn rewritten_prefix(b: Seq<u8>, spans: Seq<Span>, f: spec_fn(Seq<char>) -> Seq<char>, k: nat) -> Seq<char>
    decreases k,
{
    if k == 0 {
        Seq::empty()
    } else {
        rewritten_prefix(b, spans, f, (k - 1) as nat)
            + text_between(b, span_end(spans, k - 1), spans[k - 1].0 as int)
            + f(text_between(b, spans[k - 1].0 as int, spans[k - 1].1 as int))
    }
}

/// The whole text with each match replaced by `f` of it.
pub open spec fn rewritten(b: Seq<u8>, spans: Seq<Span>, f: spec_fn(Seq<char>) -> Seq<char>) -> Seq<char> {
    rewritten_prefix(b, spans, f, spans.len()) + text_between(b, span_end(spans, spans.len() as int), b.len() as int)
}

/// A web address shown as itself, linking to its unescaped form.
pub open spec fn link_anchor() -> spec_fn(Seq<char>) -> Seq<char> {
    |a: Seq<char>| "<a href=\""@ + unescaped(a) + "\">"@ + a + "</a>"@
}

/// The post number of a reply marker: what follows `&gt;&gt;`.
pub open spec fn reply_number(r: Seq<char>) -> Seq<char> {
    if r.len() >= 8 {
        r.skip(8)
    } else {
        Seq::empty()
    }
}

/// A reply marker shown as itself, linking to the post in thread `tid`.
pub open spec fn reply_anchor(tid: i64) -> spec_fn(Seq<char>) -> Seq<char> {
    |r: Seq<char>| "<a href=\"/t/"@ + decimal(tid as int) + "#"@ + reply_number(r) + "\">"@ + r + "</a>"@
}

/// Finds the reply markers of `text` (`Regex::new(r"&gt;&gt;[0-9]+")`, then
/// `find_iter`, each match as its byte offsets).
///
/// Trusted: the pattern is fixed, valid in the crate's documented syntax
/// and far below its default size limit, so `Regex::new` accepts it and the
/// answer is `Some`; the spans are `reply_matches` of the text, which is
/// what the crate documents `find_iter` to yield for this pattern: the
/// leftmost match, searched for again from its end, `[0-9]` being the ASCII
/// digits and `+` taking all of them. As the documentation says, the spans
/// come in order, do not overlap, lie inside the text and fall on character
/// boundaries.
#[verifier::external_body]
fn find_reply_spans(text: &str) -> (r: Option<Vec<Span>>)
    ensures
        r is Some,
        r matches Some(v) ==> v@ == reply_matches(text@) && spans_ok(text.spec_bytes(), v@),
{
    let re = regex::Regex::new(r#"&gt;&gt;[0-9]+"#).ok()?;
    Some(re.find_iter(text).map(|m| (m.start(), m.end())).collect())
}

/// Finds the web addresses of `text` (`Regex::new` of the address pattern,
/// then `find_iter`, each match as its byte offsets).
///
/// Trusted: the pattern is fixed, valid in the crate's documented syntax
/// and far below its default size limit, so `Regex::new` accepts it and the
/// answer is `Some`; the spans are `link_matches` of the text, and as the
/// crate's documentation says they come in order, do not overlap, lie
/// inside the text and fall on character boundaries.
#[verifier::external_body]
fn find_link_spans(text: &str) -> (r: Option<Vec<Span>>)
    ensures
        r is Some,
        r matches Some(v) ==> v@ == link_matches(text@) && spans_ok(text.spec_bytes(), v@),
{
    let re = regex::Regex::new(r#"(http|https):&#x2F;&#x2F;[a-zA-Z0-9]+\.[a-zA-Z0-9]+[a-zA-Z0-9%?~@#&"&#x2F;"]*"#).ok()?;
    Some(re.find_iter(text).map(|m| (m.start(), m.end())).collect())
}

/// What a match is replaced by.
pub trait Replacement {
    spec fn f(&self) -> spec_fn(Seq<char>) -> Seq<char>;

    fn write(&self, out: &mut String, m: &str)
        ensures
            final(out)@ == old(out)@ + self.f()(m@),
    ;
}

/// Replaces a web address by a link to it.
pub struct LinkAnchor;

impl Replacement for LinkAnchor {
    open spec fn f(&self) -> spec_fn(Seq<char>) -> Seq<char> {
        link_anchor()
    }

    fn write(&self, out: &mut String, m: &str) {
        let u = unescape(m);
        push_str(out, "<a href=\"");
        push_str(out, u.as_str());
        push_str(out, "\">");
        push_str(out, m);
        push_str(out, "</a>");
        assert(out@ =~= old(out)@ + link_anchor()(m@));
    }
}

/// Replaces a reply marker by a link to the post in thread `tid`.
pub struct ReplyAnchor {
    pub tid: i64,
}

impl Replacement for ReplyAnchor {
    open spec fn f(&self) -> spec_fn(Seq<char>) -> Seq<char> {
        reply_anchor(self.tid)
    }

    fn write(&self, out: &mut String, m: &str) {
        let n = m.unicode_len();
        push_str(out, "<a href=\"/t/");
        push_decimal(out, self.tid);
        push_str(out, "#");
        if n >= 8 {
            let id = m.substring_char(8, n);
            assert(id@ =~= reply_number(m@));
            push_str(out, id);
        } else {
            assert(reply_number(m@) =~= Seq::<char>::empty());
        }
        push_str(out, "\">");
        push_str(out, m);
        push_str(out, "</a>");
        assert(out@ =~= old(out)@ + reply_anchor(self.tid)(m@));
    }
}

/// A character boundary of the text is one of any suffix that starts at a
/// boundary before it.
proof fn lemma_boundary_in_suffix(b: Seq<u8>, last: int, s: int)
    requires
        valid_utf8(b),
        is_char_boundary(b, last),
        is_char_boundary(b, s),
        0 <= last <= s <= b.len(),
    ensures
        valid_utf8(b.subrange(last, b.len() as int)),
        is_char_boundary(b.subrange(last, b.len() as int), s - last),
{
    let t = b.subrange(last, b.len() as int);
    assert(valid_utf8(t));
    if s - last == 0 {
    } else if s == b.len() {
        assert(is_char_boundary(t, t.len() as int));
    } else {
        assert(!is_continuation_byte(b[s]));
        assert(t[s - last] == b[s]);
        assert(!is_continuation_byte(t[s - last]));
    }
}

/// The text with each of the given matches replaced by `r`.
pub fn rewrite<P: Replacement>(x: &str, spans: &Vec<Span>, r: &P) -> (out: String)
    requires
        spans_ok(x.spec_bytes(), spans@),
    ensures
        out@ == rewritten(x.spec_bytes(), spans@, r.f()),
{
    let ghost b = x.spec_bytes();
    let ghost n = b.len() as int;
    let mut out = String::new();
    let mut rest: &str = x;
    let mut last: usize = 0;
    let mut k: usize = 0;
    assert(b.subrange(0, n) =~= b);
    while k < spans.len()
        invariant
            b == x.spec_bytes(),
            n == b.len(),
            valid_utf8(b),
            spans_ok(b, spans@),
            k <= spans@.len(),
            last as int == span_end(spans@, k as int),
            last <= n,
            is_char_boundary(b, last as int),
            rest.spec_bytes() == b.subrange(last as int, n),
            out@ == rewritten_prefix(b, spans@, r.f(), k as nat),
        decreases spans@.len() - k,
    {
        let (s, e) = spans[k];
        assert(span_end(spans@, k as int) <= spans@[k as int].0 <= spans@[k as int].1 <= b.len());
        proof { lemma_boundary_in_suffix(b, last as int, s as int); }
        let (before, tail) = rest.split_at(s - last);
        assert(before.spec_bytes() =~= b.subrange(last as int, s as int));
        assert(tail.spec_bytes() =~= b.subrange(s as int, n));
        proof { lemma_boundary_in_suffix(b, s as int, e as int); }
        let (m, after) = tail.split_at(e - s);
        assert(m.spec_bytes() =~= b.subrange(s as int, e as int));
        assert(after.spec_bytes() =~= b.subrange(e as int, n));
        push_str(&mut out, before);
        r.write(&mut out, m);
        rest = after;
        last = e;
        k = k + 1;
        assert(out@ =~= rewritten_prefix(b, spans@, r.f(), k as nat));
    }
    push_str(&mut out, rest);
    out
}

/// Turns web addresses, given by their matches, into links.
pub fn link_urls(x: &str, spans: &Vec<Span>) -> (out: String)
    requires
        spans_ok(x.spec_bytes(), spans@),
    ensures
        out@ == rewritten(x.spec_bytes(), spans@, link_anchor()),
{
    rewrite(x, spans, &LinkAnchor)
}

/// Turns reply markers, given by their matches, into links to the posts of
/// thread `tid`.
pub fn link_replies(tid: i64, x: &str, spans: &Vec<Span>) -> (out: String)
    requires
        spans_ok(x.spec_bytes(), spans@),
    ensures
        out@ == rewritten(x.spec_bytes(), spans@, reply_anchor(tid)),
{
    rewrite(x, spans, &ReplyAnchor { tid })
}

/// The text of a post in thread `tid` as shown: first web addresses become
/// links, then reply markers in the result become links to posts.
pub open spec fn post_markup(tid: i64, x: Seq<char>) -> Seq<char> {
    let linked = rewritten(vstd::utf8::encode_utf8(x), link_matches(x), link_anchor());
    rewritten(vstd::utf8::encode_utf8(linked), reply_matches(linked), reply_anchor(tid))
}

/// Renders the (escaped) text of a post in thread `tid` with its links.
pub fn posts(tid: i64, x: &str) -> (r: Result<String, Error>)
    ensures
        r matches Ok(s) && s@ == post_markup(tid, x@),
{
    let spans = find_link_spans(x).unwrap();
    let linked = link_urls(x, &spans);
    let replies = find_reply_spans(linked.as_str()).unwrap();
    Ok(link_replies(tid, linked.as_str(), &replies))
}

} // verus!
