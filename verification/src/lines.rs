//! Records written out on one line, fields separated by `|`, as the admin
//! panel and the command line tools show them.

use vstd::prelude::*;
use crate::records::{User, UserV, Board, BoardV, Thread, ThreadV, Post, PostV, is_locked};
use crate::strings::{push_str, push_decimal, decimal};

verus! {

/// What `{:?}` writes for a text: the text in double quotes, each character
/// escaped as `char::escape_debug` does. A function of the text alone.
pub uninterp spec fn debug_quoted(s: Seq<char>) -> Seq<char>;

/// Writes a text as `{:?}` does (std's `Debug` for `str`).
///
/// Trusted: the result is `debug_quoted` of the text.
#[verifier::external_body]
fn quote_debug(s: &str) -> (r: String)
    ensures
        r@ == debug_quoted(s@),
{
    format!("{:?}", s)
}

/// A flag as text.
pub open spec fn flag_text(b: bool) -> Seq<char> {
    if b { "true"@ } else { "false"@ }
}

/// Writes `flag_text`.
pub fn write_flag(out: &mut String, b: bool)
    ensures
        final(out)@ == old(out)@ + flag_text(b),
{
    if b {
        push_str(out, "true");
    } else {
        push_str(out, "false");
    }
}

/// An optional id as `{:?}` writes it.
pub open spec fn opt_id_text(o: Option<i64>) -> Seq<char> {
    match o {
        None => "None"@,
        Some(x) => "Some("@ + decimal(x as int) + ")"@,
    }
}

fn write_opt_id(out: &mut String, o: Option<i64>)
    ensures
        final(out)@ == old(out)@ + opt_id_text(o),
{
    match o {
        None => push_str(out, "None"),
        Some(x) => {
            push_str(out, "Some(");
            push_decimal(out, x);
            push_str(out, ")");
            assert(out@ =~= old(out)@ + opt_id_text(o));
        },
    }
}

/// An optional text as `{:?}` writes it.
pub open spec fn opt_text_debug(o: Option<Seq<char>>) -> Seq<char> {
    match o {
        None => "None"@,
        Some(s) => "Some("@ + debug_quoted(s) + ")"@,
    }
}

/// The line of a user.
pub open spec fn user_line(u: UserV) -> Seq<char> {
    decimal(u.id as int) + "|"@ + u.name + "|"@ + u.hash + "|"@ + u.bio + "|"@ + flag_text(u.admin) + "|"@
        + opt_text_debug(u.theme)
}

/// The line of a board.
pub open spec fn board_line(b: BoardV) -> Seq<char> {
    decimal(b.id as int) + "|"@ + b.name + "|"@ + b.desc + "|"@ + flag_text(b.hidden)
}

/// The line of a thread.
pub open spec fn thread_line(t: ThreadV) -> Seq<char> {
    decimal(t.id as int) + "|"@ + debug_quoted(t.name) + "|"@ + debug_quoted(t.cont) + "|"@ + flag_text(t.hidden)
        + "|"@ + opt_id_text(t.file) + "|"@ + decimal(t.board as int) + "|"@ + decimal(t.time as int) + "|"@
        + decimal(t.author as int) + "|"@ + flag_text(is_locked(t.locked))
}

/// The line of a post.
pub open spec fn post_line(p: PostV) -> Seq<char> {
    decimal(p.id as int) + "|"@ + debug_quoted(p.cont) + "|"@ + flag_text(p.hidden) + "|"@ + opt_id_text(p.file)
        + "|"@ + decimal(p.board as int) + "|"@ + decimal(p.thread as int) + "|"@ + decimal(p.time as int) + "|"@
        + decimal(p.author as int)
}

impl User {
    /// The user on one line.
    pub fn line(&self) -> (r: String)
        ensures
            r@ == user_line(self@),
    {
        let mut out = String::new();
        push_decimal(&mut out, self.id);
        push_str(&mut out, "|");
        push_str(&mut out, self.name.as_str());
        push_str(&mut out, "|");
        push_str(&mut out, self.hash.as_str());
        push_str(&mut out, "|");
        push_str(&mut out, self.bio.as_str());
        push_str(&mut out, "|");
        write_flag(&mut out, self.admin);
        push_str(&mut out, "|");
        match &self.theme {
            None => push_str(&mut out, "None"),
            Some(t) => {
                push_str(&mut out, "Some(");
                let q = quote_debug(t.as_str());
                push_str(&mut out, q.as_str());
                push_str(&mut out, ")");
            },
        }
        assert(out@ =~= user_line(self@));
        out
    }
}

impl Board {
    /// The board on one line.
    pub fn line(&self) -> (r: String)
        ensures
            r@ == board_line(self@),
    {
        let mut out = String::new();
        push_decimal(&mut out, self.id);
        push_str(&mut out, "|");
        push_str(&mut out, self.name.as_str());
        push_str(&mut out, "|");
        push_str(&mut out, self.desc.as_str());
        push_str(&mut out, "|");
        write_flag(&mut out, self.hidden);
        assert(out@ =~= board_line(self@));
        out
    }
}

impl Thread {
    /// The thread on one line.
    pub fn line(&self) -> (r: String)
        ensures
            r@ == thread_line(self@),
    {
        let mut out = String::new();
        push_decimal(&mut out, self.id);
        push_str(&mut out, "|");
        let q = quote_debug(self.name.as_str());
        push_str(&mut out, q.as_str());
        push_str(&mut out, "|");
        let q = quote_debug(self.cont.as_str());
        push_str(&mut out, q.as_str());
        push_str(&mut out, "|");
        write_flag(&mut out, self.hidden);
        push_str(&mut out, "|");
        write_opt_id(&mut out, self.file);
        push_str(&mut out, "|");
        push_decimal(&mut out, self.board);
        push_str(&mut out, "|");
        push_decimal(&mut out, self.time);
        push_str(&mut out, "|");
        push_decimal(&mut out, self.author);
        push_str(&mut out, "|");
        write_flag(&mut out, self.locked());
        assert(out@ =~= thread_line(self@));
        out
    }
}

impl Post {
    /// The post on one line.
    pub fn line(&self) -> (r: String)
        ensures
            r@ == post_line(self@),
    {
        let mut out = String::new();
        push_decimal(&mut out, self.id);
        push_str(&mut out, "|");
        let q = quote_debug(self.cont.as_str());
        push_str(&mut out, q.as_str());
        push_str(&mut out, "|");
        write_flag(&mut out, self.hidden);
        push_str(&mut out, "|");
        write_opt_id(&mut out, self.file);
        push_str(&mut out, "|");
        push_decimal(&mut out, self.board);
        push_str(&mut out, "|");
        push_decimal(&mut out, self.thread);
        push_str(&mut out, "|");
        push_decimal(&mut out, self.time);
        push_str(&mut out, "|");
        push_decimal(&mut out, self.author);
        assert(out@ =~= post_line(self@));
        out
    }
}

} // verus!
