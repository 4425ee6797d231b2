//! Random tokens.

use vstd::prelude::*;
use crate::model::Error;
use crate::strings::push_char;

verus! {

/// Draws a byte uniformly from `97..122` (`rand::random_range`).
///
/// Trusted: only that the byte lies in that range is claimed; which byte
/// comes is chance.
#[verifier::external_body]
fn random_letter_code() -> (r: u8)
    ensures
        97 <= r < 122,
{
    ::rand::random_range(97u8..122u8)
}

/// The characters a token is made of: `a` to `y`.
pub open spec fn is_token_char(c: char) -> bool {
    'a' <= c && c <= 'y'
}

/// Whether `s` is a token of length `len`.
pub open spec fn is_token(s: Seq<char>, len: nat) -> bool {
    s.len() == len && forall|i: int| 0 <= i < s.len() ==> is_token_char(#[trigger] s[i])
}

/// Make a random string `L` long, of the letters `a` to `y`.
pub fn rand_str<const L: usize>() -> (r: Result<String, Error>)
    ensures
        r matches Ok(s) && is_token(s@, L as nat),
{
    let mut s = String::new();
    let mut i: usize = 0;
    while i < L
        invariant
            i <= L,
            is_token(s@, i as nat),
        decreases L - i,
    {
        let b = random_letter_code();
        let c = b as char;
        push_char(&mut s, c);
        i = i + 1;
    }
    Ok(s)
}

} // verus!
