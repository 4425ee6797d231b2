//! Small string and character helpers on top of `std`.

use vstd::prelude::*;

verus! {

/// Appends one character to a string (`String::push`).
///
/// Trusted: the contract says the string grows by exactly that character.
#[verifier::external_body]
pub(crate) fn push_char(s: &mut String, c: char)
    ensures
        final(s)@ == old(s)@.push(c),
{
    s.push(c);
}

/// The characters of a string slice, in order.
pub fn chars_of(s: &str) -> (r: Vec<char>)
    ensures
        r@ == s@,
{
    let mut out: Vec<char> = Vec::new();
    for c in iter: s.chars()
        invariant
            iter.seq() == s@,
            out@ == iter.seq().take(iter.index() as int),
    {
        out.push(c);
    }
    out
}

/// Appends the characters of `cs[from..to]` to `out`.
pub fn push_chars(out: &mut String, cs: &Vec<char>, from: usize, to: usize)
    requires
        from <= to <= cs@.len(),
    ensures
        final(out)@ == old(out)@ + cs@.subrange(from as int, to as int),
{
    let mut i = from;
    while i < to
        invariant
            from <= i <= to <= cs@.len(),
            out@ == old(out)@ + cs@.subrange(from as int, i as int),
        decreases to - i,
    {
        push_char(out, cs[i]);
        assert(cs@.subrange(from as int, i + 1) =~= cs@.subrange(from as int, i as int).push(cs@[i as int]));
        i = i + 1;
    }
}

/// Appends a string slice to `out`.
pub fn push_str(out: &mut String, s: &str)
    ensures
        final(out)@ == old(out)@ + s@,
{
    out.append(s);
}

/// The decimal digits of a natural number, most significant first.
pub open spec fn digits(n: nat) -> Seq<char>
    decreases n,
{
    if n < 10 {
        seq![(48 + n) as char]
    } else {
        digits(n / 10).push((48 + n % 10) as char)
    }
}

/// How Rust's `Display` writes an integer: an optional minus sign, then the
/// decimal digits of its magnitude.
pub open spec fn decimal(n: int) -> Seq<char> {
    if n < 0 {
        seq!['-'] + digits((-n) as nat)
    } else {
        digits(n as nat)
    }
}

fn push_digits(out: &mut String, n: u64)
    ensures
        final(out)@ == old(out)@ + digits(n as nat),
    decreases n,
{
    if n < 10 {
        let c = (48u8 + n as u8) as char;
        push_char(out, c);
        assert(old(out)@ + digits(n as nat) =~= old(out)@.push(c));
    } else {
        push_digits(out, n / 10);
        let c = (48u8 + (n % 10) as u8) as char;
        push_char(out, c);
        assert(old(out)@ + digits(n as nat) =~= old(out)@ + digits((n / 10) as nat) + seq![c]);
    }
}

/// Appends the decimal form of `n` to `out`.
pub fn push_decimal(out: &mut String, n: i64)
    ensures
        final(out)@ == old(out)@ + decimal(n as int),
{
    if n < 0 {
        push_char(out, '-');
        let m: u64 = ((-(n + 1)) as u64) + 1;
        push_digits(out, m);
        assert(old(out)@ + decimal(n as int) =~= old(out)@.push('-') + digits(m as nat));
    } else {
        push_digits(out, n as u64);
    }
}

/// The decimal form of `n`, as `n.to_string()` writes it.
pub fn decimal_string(n: i64) -> (r: String)
    ensures
        r@ == decimal(n as int),
{
    let mut s = String::new();
    push_decimal(&mut s, n);
    assert(s@ =~= decimal(n as int));
    s
}

/// Whether two string slices hold the same characters.
pub fn str_eq(a: &str, b: &str) -> (r: bool)
    ensures
        r == (a@ == b@),
{
    let x = a.to_owned();
    let y = b.to_owned();
    x == y
}

/// Whether `p` is a prefix of `s`.
pub open spec fn has_prefix(s: Seq<char>, p: Seq<char>) -> bool {
    p.len() <= s.len() && s.subrange(0, p.len() as int) =~= p
}

/// Whether `p` occurs in `cs` at position `i`.
pub fn starts_with_at(cs: &Vec<char>, i: usize, p: &Vec<char>) -> (r: bool)
    requires
        i <= cs@.len(),
    ensures
        r == has_prefix(cs@.skip(i as int), p@),
{
    if p.len() > cs.len() - i {
        return false;
    }
    let mut k: usize = 0;
    while k < p.len()
        invariant
            i <= cs@.len(),
            i + p@.len() <= cs@.len(),
            cs@.len() == cs.len(),
            k <= p@.len(),
            forall|j: int| 0 <= j < k ==> cs@[i + j] == p@[j],
        decreases p@.len() - k,
    {
        if cs[i + k] != p[k] {
            assert(cs@.skip(i as int).subrange(0, p@.len() as int)[k as int] != p@[k as int]);
            return false;
        }
        k = k + 1;
    }
    assert(cs@.skip(i as int).subrange(0, p@.len() as int) =~= p@);
    true
}

/// Whether `needle` occurs somewhere in `hay`.
pub fn text_contains(hay: &Vec<char>, needle: &Vec<char>) -> (r: bool)
    ensures
        r == (exists|i: int| 0 <= i && i + needle@.len() <= hay@.len()
            && #[trigger] hay@.subrange(i, i + needle@.len()) == needle@),
{
    if needle.len() > hay.len() {
        return false;
    }
    let mut i: usize = 0;
    while i <= hay.len() - needle.len()
        invariant
            needle@.len() <= hay@.len(),
            forall|j: int| 0 <= j < i ==> #[trigger] hay@.subrange(j, j + needle@.len()) != needle@,
        decreases hay@.len() - needle@.len() + 1 - i,
    {
        if starts_with_at(hay, i, needle) {
            assert(hay@.skip(i as int).subrange(0, needle@.len() as int) =~= hay@.subrange(i as int, i + needle@.len()));
            return true;
        }
        assert(hay@.skip(i as int).subrange(0, needle@.len() as int) =~= hay@.subrange(i as int, i + needle@.len()));
        i = i + 1;
    }
    false
}

} // verus!
