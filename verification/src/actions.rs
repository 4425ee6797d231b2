//! What the forms of the forum do: check the request, change the database,
//! and answer with the address to go to next, or a fault.
//!
//! Reading the form is the caller's part; each action here takes its fields
//! as values.

use vstd::prelude::*;
use vstd::utf8::encode_utf8;
use crate::clock::now;
use crate::css::{Themes, lookup};
use crate::db::Db;
use crate::model::{
    ErrorV, DbV, opt_str, opt_bytes, set_user_bio, set_user_hash, set_thread_hidden, set_thread_locked,
    set_post_hidden, set_board_hidden, res_views, unit_of,
};
use crate::pages::{Fault, FaultV, shown};
use crate::passwd::{argon2_verifies, hash, verify};
use crate::records::{User, UserV, Thread, ThreadV, Board, BoardV, Post, PostV};
use crate::strings::{push_str, push_char, push_decimal, decimal};

verus! {

broadcast use vstd::utf8::group_utf8_lib;

/// A form field that is empty or longer than `limit` bytes.
pub open spec fn invalid_text(s: Seq<char>, limit: nat) -> bool {
    s.len() == 0 || encode_utf8(s).len() > limit
}

/// Checks `invalid_text`.
pub fn invalid_str(s: &str, limit: usize) -> (r: bool)
    ensures
        r == invalid_text(s@, limit as nat),
{
    s.is_empty() || s.as_bytes().len() > limit
}

/// The byte length of a field.
pub open spec fn byte_len(s: Seq<char>) -> nat {
    encode_utf8(s).len()
}

/// An uploaded file: none where the field is missing or empty.
pub open spec fn upload(file: Option<Seq<u8>>) -> Option<Seq<u8>> {
    match file {
        Some(b) => if b.len() > 0 { Some(b) } else { None },
        None => None,
    }
}

fn nonempty(file: Option<&[u8]>) -> (r: Option<&[u8]>)
    ensures
        opt_bytes(r) == upload(opt_bytes(file)),
{
    match file {
        Some(b) => if b.len() > 0 { Some(b) } else { None },
        None => None,
    }
}

/// The page of thread `id`.
pub open spec fn thread_addr(id: i64) -> Seq<char> {
    "/t/"@ + decimal(id as int)
}

/// Post `p` on the page of thread `t`.
pub open spec fn post_addr(t: i64, p: i64) -> Seq<char> {
    "/t/"@ + decimal(t as int) + "#"@ + decimal(p as int)
}

/// The page of the user named `n`.
pub open spec fn user_addr(n: Seq<char>) -> Seq<char> {
    "/u/~"@ + n
}

/// The page of the board named `n`.
pub open spec fn board_name_addr(n: Seq<char>) -> Seq<char> {
    "/b/"@ + n
}

/// Thread `t` on the page of the board named `n`.
pub open spec fn board_thread_addr(n: Seq<char>, t: i64) -> Seq<char> {
    "/b/"@ + n + "#"@ + decimal(t as int)
}

fn make_thread_addr(id: i64) -> (r: String)
    ensures
        r@ == thread_addr(id),
{
    let mut s = String::new();
    push_str(&mut s, "/t/");
    push_decimal(&mut s, id);
    s
}

fn make_user_addr(n: &str) -> (r: String)
    ensures
        r@ == user_addr(n@),
{
    let mut s = String::new();
    push_str(&mut s, "/u/~");
    push_str(&mut s, n);
    s
}

fn make_board_name_addr(n: &str) -> (r: String)
    ensures
        r@ == board_name_addr(n@),
{
    let mut s = String::new();
    push_str(&mut s, "/b/");
    push_str(&mut s, n);
    s
}

/// A refusal, by its texts.
pub open spec fn refused(msg: Seq<char>, goto: Seq<char>) -> FaultV {
    FaultV::Refused(msg, goto)
}

fn refuse(msg: &str, goto: &str) -> (r: Fault)
    ensures
        r@ == refused(msg@, goto@),
{
    Fault::Refused(msg.to_owned(), goto.to_owned())
}

// ---------------------------------------------------------------- login

/// Whom a login form signs in: the fields are checked, then the password.
pub open spec fn login_check(db: DbV, user: Seq<char>, pass: Seq<char>) -> Result<UserV, FaultV> {
    if invalid_text(user, 64) || invalid_text(pass, 64) {
        Err(refused("invalid form parameters"@, "/login"@))
    } else {
        match db.user_by_name(user) {
            None => Err(FaultV::Bare(ErrorV::UserNameNotFound(user))),
            Some(u) => if !argon2_verifies(pass, u.hash) {
                Err(refused("invalid password for user "@ + u.name, "/login"@))
            } else {
                Ok(u)
            },
        }
    }
}

/// Signing in with a new session whose token is `token`: the database
/// after, and the token the browser keeps, that of the new session.
pub open spec fn login_view(db: DbV, user: Seq<char>, pass: Seq<char>, token: Seq<char>) -> (DbV, Result<Seq<char>, FaultV>) {
    match login_check(db, user, pass) {
        Err(f) => (db, Err(f)),
        Ok(u) => {
            let (d, s) = db.add_session(u.id, token);
            (d, match s {
                Err(e) => Err(FaultV::Bare(e)),
                Ok(s) => Ok(s.hash),
            })
        },
    }
}

fn check_login(db: &Db, user: &str, pass: &str) -> (r: Result<User, Fault>)
    requires
        db@.wf(),
    ensures
        match login_check(db@, user@, pass@) {
            Ok(u) => r matches Ok(u2) && u2@ == u,
            Err(f) => r matches Err(g) && g@ == f,
        },
{
    if invalid_str(user, 64) || invalid_str(pass, 64) {
        return Err(refuse("invalid form parameters", "/login"));
    }
    let u = match db.get_user_by_name(user) {
        Ok(u) => u,
        Err(e) => return Err(Fault::Bare(e)),
    };
    match verify(pass, u.hash.as_str()) {
        Ok(_) => Ok(u),
        Err(_) => {
            let mut msg = String::new();
            push_str(&mut msg, "invalid password for user ");
            push_str(&mut msg, u.name.as_str());
            Err(refuse(msg.as_str(), "/login"))
        },
    }
}

/// Signs in with a new session of token `token` (see `login_view`).
pub fn login_with_token(db: &mut Db, user: &str, pass: &str, token: &str) -> (r: Result<String, Fault>)
    requires
        old(db)@.wf(),
    ensures
        final(db)@.wf(),
        final(db)@ == login_view(old(db)@, user@, pass@, token@).0,
        shown(r) == login_view(old(db)@, user@, pass@, token@).1,
{
    let u = match check_login(db, user, pass) {
        Ok(u) => u,
        Err(f) => return Err(f),
    };
    match db.new_session_with_hash(u.id, token) {
        Ok(s) => Ok(s.hash),
        Err(e) => Err(Fault::Bare(e)),
    }
}

/// Signs in with a new session of a fresh random token of 512 letters.
pub fn login(db: &mut Db, user: &str, pass: &str) -> (r: Result<String, Fault>)
    requires
        old(db)@.wf(),
    ensures
        final(db)@.wf(),
        exists|token: Seq<char>| #[trigger] crate::rand::is_token(token, 512)
            && final(db)@ == login_view(old(db)@, user@, pass@, token).0
            && shown(r) == login_view(old(db)@, user@, pass@, token).1,
{
    let token = match crate::rand::rand_str::<512>() {
        Ok(t) => t,
        Err(e) => return Err(Fault::Bare(e)),
    };
    let r = login_with_token(db, user, pass, token.as_str());
    assert(crate::rand::is_token(token@, 512));
    r
}

// ---------------------------------------------------------------- new post

/// Who posts in which thread; or why the post is refused before anything
/// is stored.
pub open spec fn new_post_check(db: DbV, session: Option<Seq<char>>, thread: i64, cont: Seq<char>, file: Option<Seq<u8>>) -> Result<(UserV, ThreadV), FaultV> {
    match db.signed_in(session) {
        Err(e) => Err(FaultV::Bare(e)),
        Ok(me) => match db.thread(thread) {
            None => Err(FaultV::Back(ErrorV::ThreadNotFound(thread), thread_addr(thread))),
            Some(t) => if byte_len(cont) > 2048 {
                Err(refused("invalid content: post content must not exceed 2048 chars"@, thread_addr(thread)))
            } else if upload(file).is_none() && cont.len() == 0 {
                Err(refused("you cannot make empty posts!"@, thread_addr(thread)))
            } else {
                Ok((me, t))
            },
        },
    }
}

/// A new post at time `time`: the database after, and the address of the
/// post.
pub open spec fn new_post_view(db: DbV, session: Option<Seq<char>>, thread: i64, cont: Seq<char>, file: Option<Seq<u8>>, time: i64) -> (DbV, Result<Seq<char>, FaultV>) {
    match new_post_check(db, session, thread, cont, file) {
        Err(f) => (db, Err(f)),
        Ok((me, t)) => {
            let (d, r) = db.add_post(t.id, me.id, cont, upload(file), time);
            (d, match r {
                Err(e) => Err(FaultV::Back(e, thread_addr(thread))),
                Ok(p) => Ok(post_addr(t.id, p.id)),
            })
        },
    }
}

fn check_new_post(db: &Db, session: Option<&str>, thread: i64, cont: &str, file: Option<&[u8]>) -> (r: Result<(User, Thread), Fault>)
    requires
        db@.wf(),
    ensures
        match new_post_check(db@, opt_str(session), thread, cont@, opt_bytes(file)) {
            Ok((me, t)) => r matches Ok((u2, t2)) && u2@ == me && t2@ == t,
            Err(f) => r matches Err(g) && g@ == f,
        },
{
    let me = match db.me(session) {
        Ok(u) => u,
        Err(e) => return Err(Fault::Bare(e)),
    };
    let t = match db.get_thread(thread) {
        Ok(t) => t,
        Err(e) => return Err(Fault::Back(e, make_thread_addr(thread))),
    };
    if cont.as_bytes().len() > 2048 {
        let goto = make_thread_addr(thread);
        return Err(refuse("invalid content: post content must not exceed 2048 chars", goto.as_str()));
    }
    if nonempty(file).is_none() && cont.is_empty() {
        let goto = make_thread_addr(thread);
        return Err(refuse("you cannot make empty posts!", goto.as_str()));
    }
    Ok((me, t))
}

fn finish_new_post(db: &mut Db, me: &User, t: &Thread, thread: i64, cont: &str, file: Option<&[u8]>, time: i64) -> (r: Result<String, Fault>)
    requires
        old(db)@.wf(),
    ensures
        final(db)@.wf(),
        final(db)@ == old(db)@.add_post(t.id, me.id, cont@, upload(opt_bytes(file)), time).0,
        shown(r) == match old(db)@.add_post(t.id, me.id, cont@, upload(opt_bytes(file)), time).1 {
            Err(e) => Err(FaultV::Back(e, thread_addr(thread))),
            Ok(p) => Ok::<Seq<char>, FaultV>(post_addr(t.id, p.id)),
        },
{
    match db.new_post_at(t.id, me.id, cont, nonempty(file), time) {
        Ok(p) => {
            let mut s = make_thread_addr(t.id);
            push_str(&mut s, "#");
            push_decimal(&mut s, p.id);
            Ok(s)
        },
        Err(e) => Err(Fault::Back(e, make_thread_addr(thread))),
    }
}

/// Posts in thread `thread` at time `time` (see `new_post_view`).
pub fn new_post_at(db: &mut Db, session: Option<&str>, thread: i64, cont: &str, file: Option<&[u8]>, time: i64) -> (r: Result<String, Fault>)
    requires
        old(db)@.wf(),
    ensures
        final(db)@.wf(),
        final(db)@ == new_post_view(old(db)@, opt_str(session), thread, cont@, opt_bytes(file), time).0,
        shown(r) == new_post_view(old(db)@, opt_str(session), thread, cont@, opt_bytes(file), time).1,
{
    let (me, t) = match check_new_post(db, session, thread, cont, file) {
        Ok(x) => x,
        Err(f) => return Err(f),
    };
    finish_new_post(db, &me, &t, thread, cont, file, time)
}

/// Posts in thread `thread`, stamped with the current time. Where the
/// clock cannot be read, nothing changes and the error page links back to
/// the thread.
pub fn new_post(db: &mut Db, session: Option<&str>, thread: i64, cont: &str, file: Option<&[u8]>) -> (r: Result<String, Fault>)
    requires
        old(db)@.wf(),
    ensures
        final(db)@.wf(),
        match new_post_check(old(db)@, opt_str(session), thread, cont@, opt_bytes(file)) {
            Err(f) => final(db)@ == old(db)@ && shown(r) == Err::<Seq<char>, FaultV>(f),
            Ok(_) => {
                ||| final(db)@ == old(db)@ && shown(r) == Err::<Seq<char>, FaultV>(FaultV::Back(ErrorV::Clock, thread_addr(thread)))
                ||| exists|time: i64|
                    final(db)@ == #[trigger] new_post_view(old(db)@, opt_str(session), thread, cont@, opt_bytes(file), time).0
                    && shown(r) == new_post_view(old(db)@, opt_str(session), thread, cont@, opt_bytes(file), time).1
            },
        },
{
    let (me, t) = match check_new_post(db, session, thread, cont, file) {
        Ok(x) => x,
        Err(f) => return Err(f),
    };
    let time = match now() {
        Ok(x) => x,
        Err(e) => return Err(Fault::Back(e, make_thread_addr(thread))),
    };
    let r = finish_new_post(db, &me, &t, thread, cont, file, time);
    assert(final(db)@ == new_post_view(old(db)@, opt_str(session), thread, cont@, opt_bytes(file), time).0);
    r
}

// ---------------------------------------------------------------- new thread

/// Who starts a thread on which board; or why it is refused before
/// anything is stored.
pub open spec fn new_thread_check(db: DbV, session: Option<Seq<char>>, board: Seq<char>, name: Seq<char>, cont: Seq<char>) -> Result<(UserV, BoardV), FaultV> {
    match db.signed_in(session) {
        Err(e) => Err(FaultV::Bare(e)),
        Ok(me) => if invalid_text(board, 32) {
            Err(refused("board "@ + board + " is invalid"@, "/"@))
        } else {
            match db.board_by_name(board) {
                None => Err(FaultV::Back(ErrorV::BoardNameNotFound(board), board_name_addr(board))),
                Some(b) => if invalid_text(name, 64) || invalid_text(cont, 2048) {
                    Err(refused("invalid thread form parameters"@, board_name_addr(board)))
                } else {
                    Ok((me, b))
                },
            }
        },
    }
}

/// A new thread at time `time`: the database after, and the address of the
/// thread.
pub open spec fn new_thread_view(db: DbV, session: Option<Seq<char>>, board: Seq<char>, name: Seq<char>, cont: Seq<char>, file: Option<Seq<u8>>, time: i64) -> (DbV, Result<Seq<char>, FaultV>) {
    match new_thread_check(db, session, board, name, cont) {
        Err(f) => (db, Err(f)),
        Ok((me, b)) => {
            let (d, r) = db.add_thread(b.id, me.id, name, cont, upload(file), time);
            (d, match r {
                Err(e) => Err(FaultV::Back(e, board_name_addr(board))),
                Ok(t) => Ok(thread_addr(t.id)),
            })
        },
    }
}

fn check_new_thread(db: &Db, session: Option<&str>, board: &str, name: &str, cont: &str) -> (r: Result<(User, Board), Fault>)
    requires
        db@.wf(),
    ensures
        match new_thread_check(db@, opt_str(session), board@, name@, cont@) {
            Ok((me, b)) => r matches Ok((u2, b2)) && u2@ == me && b2@ == b,
            Err(f) => r matches Err(g) && g@ == f,
        },
{
    let me = match db.me(session) {
        Ok(u) => u,
        Err(e) => return Err(Fault::Bare(e)),
    };
    if invalid_str(board, 32) {
        let mut msg = String::new();
        push_str(&mut msg, "board ");
        push_str(&mut msg, board);
        push_str(&mut msg, " is invalid");
        return Err(refuse(msg.as_str(), "/"));
    }
    let b = match db.get_board_by_name(board) {
        Ok(b) => b,
        Err(e) => return Err(Fault::Back(e, make_board_name_addr(board))),
    };
    if invalid_str(name, 64) || invalid_str(cont, 2048) {
        let goto = make_board_name_addr(board);
        return Err(refuse("invalid thread form parameters", goto.as_str()));
    }
    Ok((me, b))
}

fn finish_new_thread(db: &mut Db, me: &User, b: &Board, board: &str, name: &str, cont: &str, file: Option<&[u8]>, time: i64) -> (r: Result<String, Fault>)
    requires
        old(db)@.wf(),
    ensures
        final(db)@.wf(),
        final(db)@ == old(db)@.add_thread(b.id, me.id, name@, cont@, upload(opt_bytes(file)), time).0,
        shown(r) == match old(db)@.add_thread(b.id, me.id, name@, cont@, upload(opt_bytes(file)), time).1 {
            Err(e) => Err(FaultV::Back(e, board_name_addr(board@))),
            Ok(t) => Ok::<Seq<char>, FaultV>(thread_addr(t.id)),
        },
{
    match db.new_thread_at(b.id, me.id, name, cont, nonempty(file), time) {
        Ok(t) => Ok(make_thread_addr(t.id)),
        Err(e) => Err(Fault::Back(e, make_board_name_addr(board))),
    }
}

/// Starts a thread on the board named `board` at time `time` (see
/// `new_thread_view`).
pub fn new_thread_at(db: &mut Db, session: Option<&str>, board: &str, name: &str, cont: &str, file: Option<&[u8]>, time: i64) -> (r: Result<String, Fault>)
    requires
        old(db)@.wf(),
    ensures
        final(db)@.wf(),
        final(db)@ == new_thread_view(old(db)@, opt_str(session), board@, name@, cont@, opt_bytes(file), time).0,
        shown(r) == new_thread_view(old(db)@, opt_str(session), board@, name@, cont@, opt_bytes(file), time).1,
{
    let (me, b) = match check_new_thread(db, session, board, name, cont) {
        Ok(x) => x,
        Err(f) => return Err(f),
    };
    finish_new_thread(db, &me, &b, board, name, cont, file, time)
}

/// Starts a thread on the board named `board`, stamped with the current
/// time. Where the clock cannot be read, nothing changes and the error page
/// links back to the board.
pub fn new_thread(db: &mut Db, session: Option<&str>, board: &str, name: &str, cont: &str, file: Option<&[u8]>) -> (r: Result<String, Fault>)
    requires
        old(db)@.wf(),
    ensures
        final(db)@.wf(),
        match new_thread_check(old(db)@, opt_str(session), board@, name@, cont@) {
            Err(f) => final(db)@ == old(db)@ && shown(r) == Err::<Seq<char>, FaultV>(f),
            Ok(_) => {
                ||| final(db)@ == old(db)@ && shown(r) == Err::<Seq<char>, FaultV>(FaultV::Back(ErrorV::Clock, board_name_addr(board@)))
                ||| exists|time: i64|
                    final(db)@ == #[trigger] new_thread_view(old(db)@, opt_str(session), board@, name@, cont@, opt_bytes(file), time).0
                    && shown(r) == new_thread_view(old(db)@, opt_str(session), board@, name@, cont@, opt_bytes(file), time).1
            },
        },
{
    let (me, b) = match check_new_thread(db, session, board, name, cont) {
        Ok(x) => x,
        Err(f) => return Err(f),
    };
    let time = match now() {
        Ok(x) => x,
        Err(e) => return Err(Fault::Back(e, make_board_name_addr(board))),
    };
    let r = finish_new_thread(db, &me, &b, board, name, cont, file, time);
    assert(final(db)@ == new_thread_view(old(db)@, opt_str(session), board@, name@, cont@, opt_bytes(file), time).0);
    r
}

// ---------------------------------------------------------------- the user's own settings

/// Changing the signed-in user's bio, password and theme, each only where
/// its field is filled in; `hashed` is what hashing the new password gave
/// (nothing where hashing failed). The database after, and where to go.
pub open spec fn update_user_view(
    db: DbV,
    themes: Seq<crate::css::ThemeV>,
    session: Option<Seq<char>>,
    bio: Seq<char>,
    pass: Seq<char>,
    theme: Seq<char>,
    hashed: Option<Seq<char>>,
) -> (DbV, Result<Seq<char>, FaultV>) {
    match db.signed_in(session) {
        Err(e) => (db, Err(FaultV::Bare(e))),
        Ok(me) => {
            let goto = user_addr(me.name);
            if byte_len(bio) > 1024 || byte_len(pass) > 64 || byte_len(theme) > 64 {
                (db, Err(refused("invalid user fields"@, goto)))
            } else {
                let (d1, r1) = if bio.len() > 0 { db.user_updated(me.id, set_user_bio(bio)) } else { (db, Ok(())) };
                match r1 {
                    Err(e) => (d1, Err(FaultV::Bare(e))),
                    Ok(_) => {
                        let (d2, r2) = if pass.len() > 0 {
                            match hashed {
                                None => (d1, Err(ErrorV::HashFailed)),
                                Some(h) => d1.user_updated(me.id, set_user_hash(h)),
                            }
                        } else {
                            (d1, Ok(()))
                        };
                        match r2 {
                            Err(e) => (d2, Err(FaultV::Bare(e))),
                            Ok(_) => {
                                let (d3, r3) = if theme.len() > 0 {
                                    d2.theme_set(me.id, theme, lookup(themes, theme).is_some())
                                } else {
                                    (d2, Ok(()))
                                };
                                (d3, match r3 {
                                    Err(e) => Err(FaultV::Bare(e)),
                                    Ok(_) => Ok(goto),
                                })
                            },
                        }
                    },
                }
            }
        },
    }
}

/// Changes the signed-in user (see `update_user_view`), hashing a new
/// password with a fresh salt.
pub fn update_user(db: &mut Db, themes: &Themes, session: Option<&str>, bio: &str, pass: &str, theme: &str) -> (r: Result<String, Fault>)
    requires
        old(db)@.wf(),
    ensures
        final(db)@.wf(),
        exists|hashed: Option<Seq<char>>|
            (hashed matches Some(h) ==> argon2_verifies(pass@, h))
            && final(db)@ == #[trigger] update_user_view(old(db)@, themes@, opt_str(session), bio@, pass@, theme@, hashed).0
            && shown(r) == update_user_view(old(db)@, themes@, opt_str(session), bio@, pass@, theme@, hashed).1,
{
    let me = match db.me(session) {
        Ok(u) => u,
        Err(e) => {
            assert(update_user_view(old(db)@, themes@, opt_str(session), bio@, pass@, theme@, None).0 == db@);
            return Err(Fault::Bare(e));
        },
    };
    let goto = make_user_addr(me.name.as_str());
    if bio.as_bytes().len() > 1024 || pass.as_bytes().len() > 64 || theme.as_bytes().len() > 64 {
        let f = refuse("invalid user fields", goto.as_str());
        assert(update_user_view(old(db)@, themes@, opt_str(session), bio@, pass@, theme@, None).1
            == Err::<Seq<char>, FaultV>(f@));
        assert(update_user_view(old(db)@, themes@, opt_str(session), bio@, pass@, theme@, None).0 == db@);
        return Err(f);
    }
    let ghost d0 = db@;
    if !bio.is_empty() {
        match db.update_bio(me.id, bio) {
            Ok(()) => {},
            Err(e) => {
                assert(update_user_view(d0, themes@, opt_str(session), bio@, pass@, theme@, None).0 == db@);
                return Err(Fault::Bare(e));
            },
        }
    }
    let ghost d1 = db@;
    let ghost mut hashed: Option<Seq<char>> = None;
    if !pass.is_empty() {
        match hash(pass) {
            Ok(h) => {
                proof { hashed = Some(h@); }
                match db.update_pass_with_hash(me.id, h.as_str()) {
                    Ok(()) => {},
                    Err(e) => {
                        assert(update_user_view(d0, themes@, opt_str(session), bio@, pass@, theme@, hashed).0 == db@);
                        return Err(Fault::Bare(e));
                    },
                }
            },
            Err(e) => {
                assert(update_user_view(d0, themes@, opt_str(session), bio@, pass@, theme@, None).0 == db@);
                return Err(Fault::Bare(e));
            },
        }
    }
    if !theme.is_empty() {
        match db.set_theme(me.id, theme, themes) {
            Ok(()) => {},
            Err(e) => {
                assert(update_user_view(d0, themes@, opt_str(session), bio@, pass@, theme@, hashed).0 == db@);
                return Err(Fault::Bare(e));
            },
        }
    }
    assert(update_user_view(d0, themes@, opt_str(session), bio@, pass@, theme@, hashed).0 == db@);
    Ok(goto)
}

/// Setting the signed-in user's theme: the database after, and where to go.
pub open spec fn set_theme_view(db: DbV, themes: Seq<crate::css::ThemeV>, session: Option<Seq<char>>, theme: Seq<char>) -> (DbV, Result<Seq<char>, FaultV>) {
    match db.signed_in(session) {
        Err(e) => (db, Err(FaultV::Bare(e))),
        Ok(me) => {
            let (d, r) = db.theme_set(me.id, theme, lookup(themes, theme).is_some());
            (d, match r {
                Err(e) => Err(FaultV::Back(e, user_addr(me.name))),
                Ok(_) => Ok(user_addr(me.name)),
            })
        },
    }
}

/// Sets the signed-in user's theme (see `set_theme_view`).
pub fn set_theme(db: &mut Db, themes: &Themes, session: Option<&str>, theme: &str) -> (r: Result<String, Fault>)
    requires
        old(db)@.wf(),
    ensures
        final(db)@.wf(),
        final(db)@ == set_theme_view(old(db)@, themes@, opt_str(session), theme@).0,
        shown(r) == set_theme_view(old(db)@, themes@, opt_str(session), theme@).1,
{
    let me = match db.me(session) {
        Ok(u) => u,
        Err(e) => return Err(Fault::Bare(e)),
    };
    let goto = make_user_addr(me.name.as_str());
    match db.set_theme(me.id, theme, themes) {
        Ok(()) => Ok(goto),
        Err(e) => Err(Fault::Back(e, goto)),
    }
}

// ---------------------------------------------------------------- moderation

/// Hiding thread `id` (admins only): the database after, and where to go:
/// `goto` if given, else the thread's board.
pub open spec fn hide_thread_view(db: DbV, session: Option<Seq<char>>, id: i64, goto: Option<Seq<char>>) -> (DbV, Result<Seq<char>, FaultV>) {
    match db.signed_in(session) {
        Err(e) => (db, Err(FaultV::Bare(e))),
        Ok(me) => if !me.admin {
            (db, Err(refused("you aren't an admin"@, "/"@)))
        } else {
            match db.thread(id) {
                None => (db, Err(FaultV::Bare(ErrorV::ThreadNotFound(id)))),
                Some(t) => match db.board(t.board) {
                    None => (db, Err(FaultV::Bare(ErrorV::BoardNotFound(t.board)))),
                    Some(b) => {
                        let (d, r) = db.thread_updated(t.id, set_thread_hidden(true));
                        (d, match r {
                            Err(e) => Err(FaultV::Back(e, board_name_addr(b.name))),
                            Ok(_) => Ok(match goto {
                                Some(g) => g,
                                None => board_name_addr(b.name),
                            }),
                        })
                    },
                },
            }
        },
    }
}

/// Hides thread `id` (see `hide_thread_view`).
pub fn hide_thread(db: &mut Db, session: Option<&str>, id: i64, goto: Option<&str>) -> (r: Result<String, Fault>)
    requires
        old(db)@.wf(),
    ensures
        final(db)@.wf(),
        final(db)@ == hide_thread_view(old(db)@, opt_str(session), id, opt_str(goto)).0,
        shown(r) == hide_thread_view(old(db)@, opt_str(session), id, opt_str(goto)).1,
{
    let me = match db.me(session) {
        Ok(u) => u,
        Err(e) => return Err(Fault::Bare(e)),
    };
    if !me.admin {
        return Err(refuse("you aren't an admin", "/"));
    }
    let t = match db.get_thread(id) {
        Ok(t) => t,
        Err(e) => return Err(Fault::Bare(e)),
    };
    let b = match db.get_board(t.board) {
        Ok(b) => b,
        Err(e) => return Err(Fault::Bare(e)),
    };
    let back = make_board_name_addr(b.name.as_str());
    match db.hide_thread(t.id) {
        Ok(()) => {},
        Err(e) => return Err(Fault::Back(e, back)),
    }
    match goto {
        Some(g) => Ok(g.to_owned()),
        None => Ok(back),
    }
}

/// Hiding post `id` (admins only): the database after, and the page of the
/// post's thread.
pub open spec fn hide_post_view(db: DbV, session: Option<Seq<char>>, id: i64) -> (DbV, Result<Seq<char>, FaultV>) {
    match db.signed_in(session) {
        Err(e) => (db, Err(FaultV::Bare(e))),
        Ok(me) => match db.post(id) {
            None => (db, Err(FaultV::Bare(ErrorV::PostNotFound(id)))),
            Some(p) => match db.thread(p.thread) {
                None => (db, Err(FaultV::Bare(ErrorV::ThreadNotFound(p.thread)))),
                Some(t) => if !me.admin {
                    (db, Err(refused("you aren't an admin"@, thread_addr(t.id))))
                } else {
                    let (d, r) = db.post_updated(p.id, set_post_hidden(true));
                    (d, match r {
                        Err(e) => Err(FaultV::Back(e, thread_addr(t.id))),
                        Ok(_) => Ok(thread_addr(t.id)),
                    })
                },
            },
        },
    }
}

/// Hides post `id` (see `hide_post_view`).
pub fn hide_post(db: &mut Db, session: Option<&str>, id: i64) -> (r: Result<String, Fault>)
    requires
        old(db)@.wf(),
    ensures
        final(db)@.wf(),
        final(db)@ == hide_post_view(old(db)@, opt_str(session), id).0,
        shown(r) == hide_post_view(old(db)@, opt_str(session), id).1,
{
    let me = match db.me(session) {
        Ok(u) => u,
        Err(e) => return Err(Fault::Bare(e)),
    };
    let p = match db.get_post(id) {
        Ok(p) => p,
        Err(e) => return Err(Fault::Bare(e)),
    };
    let t = match db.get_thread(p.thread) {
        Ok(t) => t,
        Err(e) => return Err(Fault::Bare(e)),
    };
    let goto = make_thread_addr(t.id);
    if !me.admin {
        return Err(refuse("you aren't an admin", goto.as_str()));
    }
    match db.hide_post(p.id) {
        Ok(()) => Ok(goto),
        Err(e) => Err(Fault::Back(e, goto)),
    }
}

/// Hiding board `id` (admins only): the database after, and the board's
/// page.
pub open spec fn hide_board_view(db: DbV, session: Option<Seq<char>>, id: i64) -> (DbV, Result<Seq<char>, FaultV>) {
    match db.signed_in(session) {
        Err(e) => (db, Err(FaultV::Bare(e))),
        Ok(me) => match db.board(id) {
            None => (db, Err(FaultV::Bare(ErrorV::BoardNotFound(id)))),
            Some(b) => if !me.admin {
                (db, Err(refused("you aren't an admin"@, board_name_addr(b.name))))
            } else {
                let (d, r) = db.board_updated(b.id, set_board_hidden(true));
                (d, match r {
                    Err(e) => Err(FaultV::Back(e, board_name_addr(b.name))),
                    Ok(_) => Ok(board_name_addr(b.name)),
                })
            },
        },
    }
}

/// Hides board `id` (see `hide_board_view`).
pub fn hide_board(db: &mut Db, session: Option<&str>, id: i64) -> (r: Result<String, Fault>)
    requires
        old(db)@.wf(),
    ensures
        final(db)@.wf(),
        final(db)@ == hide_board_view(old(db)@, opt_str(session), id).0,
        shown(r) == hide_board_view(old(db)@, opt_str(session), id).1,
{
    let me = match db.me(session) {
        Ok(u) => u,
        Err(e) => return Err(Fault::Bare(e)),
    };
    let b = match db.get_board(id) {
        Ok(b) => b,
        Err(e) => return Err(Fault::Bare(e)),
    };
    let goto = make_board_name_addr(b.name.as_str());
    if !me.admin {
        return Err(refuse("you aren't an admin", goto.as_str()));
    }
    match db.hide_board(b.id) {
        Ok(_) => Ok(goto),
        Err(e) => Err(Fault::Back(e, goto)),
    }
}

/// Locking or unlocking thread `id` (admins only): the form says whether
/// the thread is locked now, and the action turns that around. The database
/// after, and the thread on its board's page.
pub open spec fn lock_thread_view(db: DbV, session: Option<Seq<char>>, id: i64, locked: bool) -> (DbV, Result<Seq<char>, FaultV>) {
    match db.signed_in(session) {
        Err(e) => (db, Err(FaultV::Bare(e))),
        Ok(me) => if !me.admin {
            (db, Err(refused("you aren't an admin"@, "/"@)))
        } else {
            match db.thread(id) {
                None => (db, Err(FaultV::Bare(ErrorV::ThreadNotFound(id)))),
                Some(t) => match db.board(t.board) {
                    None => (db, Err(FaultV::Bare(ErrorV::BoardNotFound(t.board)))),
                    Some(b) => {
                        let (d, r) = db.thread_updated(t.id, set_thread_locked(!locked));
                        let goto = board_thread_addr(b.name, t.id);
                        (d, match r {
                            Err(e) => Err(FaultV::Back(e, goto)),
                            Ok(_) => Ok(goto),
                        })
                    },
                },
            }
        },
    }
}

/// Locks or unlocks thread `id` (see `lock_thread_view`).
pub fn lock_thread(db: &mut Db, session: Option<&str>, id: i64, locked: bool) -> (r: Result<String, Fault>)
    requires
        old(db)@.wf(),
    ensures
        final(db)@.wf(),
        final(db)@ == lock_thread_view(old(db)@, opt_str(session), id, locked).0,
        shown(r) == lock_thread_view(old(db)@, opt_str(session), id, locked).1,
{
    let me = match db.me(session) {
        Ok(u) => u,
        Err(e) => return Err(Fault::Bare(e)),
    };
    if !me.admin {
        return Err(refuse("you aren't an admin", "/"));
    }
    let t = match db.get_thread(id) {
        Ok(t) => t,
        Err(e) => return Err(Fault::Bare(e)),
    };
    let b = match db.get_board(t.board) {
        Ok(b) => b,
        Err(e) => return Err(Fault::Bare(e)),
    };
    let mut goto = make_board_name_addr(b.name.as_str());
    push_str(&mut goto, "#");
    push_decimal(&mut goto, t.id);
    let r = if locked { db.unlock_thread(t.id) } else { db.lock_thread(t.id) };
    match r {
        Ok(()) => Ok(goto),
        Err(e) => Err(Fault::Back(e, goto)),
    }
}

/// Showing a hidden board (`b`), thread (`t`) or post (`p`) again (admins
/// only): the database after, and where to go: `goto` if given, else the
/// admin panel.
pub open spec fn unhide_view(db: DbV, session: Option<Seq<char>>, id: i64, ty: char, goto: Option<Seq<char>>) -> (DbV, Result<Seq<char>, FaultV>) {
    match db.signed_in(session) {
        Err(e) => (db, Err(FaultV::Bare(e))),
        Ok(me) => if !me.admin {
            (db, Err(refused("not an admin"@, "/"@)))
        } else {
            let (d, r) = if ty == 'b' {
                let (d, r) = db.board_updated(id, set_board_hidden(false));
                (d, unit_of(r))
            } else if ty == 't' {
                let (d, r) = db.thread_updated(id, set_thread_hidden(false));
                (d, unit_of(r))
            } else if ty == 'p' {
                let (d, r) = db.post_updated(id, set_post_hidden(false));
                (d, unit_of(r))
            } else {
                (db, Ok(()))
            };
            if ty != 'b' && ty != 't' && ty != 'p' {
                (db, Err(refused("invalid form type: "@ + seq![ty], "/admin"@)))
            } else {
                (d, match r {
                    Err(e) => Err(FaultV::Bare(e)),
                    Ok(_) => Ok(match goto {
                        Some(g) => g,
                        None => "/admin"@,
                    }),
                })
            }
        },
    }
}

/// Shows a hidden board, thread or post again (see `unhide_view`).
pub fn unhide(db: &mut Db, session: Option<&str>, id: i64, ty: char, goto: Option<&str>) -> (r: Result<String, Fault>)
    requires
        old(db)@.wf(),
    ensures
        final(db)@.wf(),
        final(db)@ == unhide_view(old(db)@, opt_str(session), id, ty, opt_str(goto)).0,
        shown(r) == unhide_view(old(db)@, opt_str(session), id, ty, opt_str(goto)).1,
{
    let me = match db.me(session) {
        Ok(u) => u,
        Err(e) => return Err(Fault::Bare(e)),
    };
    if !me.admin {
        return Err(refuse("not an admin", "/"));
    }
    if ty == 'b' {
        match db.visible_board(id) {
            Ok(_) => {},
            Err(e) => return Err(Fault::Bare(e)),
        }
    } else if ty == 't' {
        match db.visible_thread(id) {
            Ok(_) => {},
            Err(e) => return Err(Fault::Bare(e)),
        }
    } else if ty == 'p' {
        match db.visible_post(id) {
            Ok(_) => {},
            Err(e) => return Err(Fault::Bare(e)),
        }
    } else {
        let mut msg = String::new();
        push_str(&mut msg, "invalid form type: ");
        push_char(&mut msg, ty);
        assert(msg@ =~= "invalid form type: "@ + seq![ty]);
        return Err(refuse(msg.as_str(), "/admin"));
    }
    match goto {
        Some(g) => Ok(g.to_owned()),
        None => Ok("/admin".to_owned()),
    }
}

} // verus!
