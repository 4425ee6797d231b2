//! The page of a board: its description, the admin's button, the form for
//! a new thread, and its visible threads in board-page order.

use vstd::prelude::*;
use vstd::string::StringSliceAdditionalSpecFns;
use vstd::utf8::{encode_utf8, decode_utf8, is_char_boundary};
use crate::Cfg;
use crate::db::Db;
use crate::html::{escape, escaped};
use crate::model::{Error, ErrorV, DbV, opt_str, thread_visible, thread_on_board, views};
use crate::page::{Frame, page, page_text};
use crate::pages::{Fault, FaultV, shown, user_tag, make_user_tag, board_addr, make_board_addr};
use crate::records::{User, UserV, Thread, ThreadV, Board, BoardV, is_locked};
use crate::strings::{push_str, push_decimal, decimal};
use crate::lines::flag_text;

verus! {

broadcast use vstd::utf8::group_utf8_lib;

/// The body of a board's page.
pub open spec fn board_main(n: Seq<char>, desc: Seq<char>, hide_board: Seq<char>, threads: Seq<char>) -> Seq<char> {
    "\n        <h1>/"@ + n + "/</h1>\n        <p><span class=\"italic\">"@ + desc + "</span></p>\n        "@ + hide_board + "\n \n        <div class=\"new-thread\">\n            <h3>new thread</h3>\n            <form\n                action=\"/act/new-thread\"\n                method=\"post\"\n                enctype=\"multipart/form-data\"\n            >\n                <table>\n                    <tr>\n                        <td>name</td>\n                        <td><input type=\"text\" name=\"name\"></td>\n                    </tr>\n                    <tr>\n                        <td>content</td>\n                        <td>\n                            <textarea\n                                name=\"content\"\n                                rows=\"3\"\n                                cols=\"30\"\n                            ></textarea>\n                        </td>\n                    </tr>\n                    <tr>\n                        <td>image</td>\n                        <td><input type=\"file\" name=\"file\"></td>\n                    </tr>\n                </table>\n                <input type=\"hidden\" name=\"board\" value=\""@ + n + "\">\n                <input type=\"submit\" value=\"go\">\n            </form>\n        </div>\n\n        <div class=\"threads\">\n            "@ + threads + "\n        </div>\n        "@
}

/// Writes `board_main`.
pub fn write_board_main(out: &mut String, n: &str, desc: &str, hide_board: &str, threads: &str)
    ensures
        final(out)@ == old(out)@ + board_main(n@, desc@, hide_board@, threads@),
{
    push_str(out, "\n        <h1>/");
    push_str(out, n);
    push_str(out, "/</h1>\n        <p><span class=\"italic\">");
    push_str(out, desc);
    push_str(out, "</span></p>\n        ");
    push_str(out, hide_board);
    push_str(out, "\n \n        <div class=\"new-thread\">\n            <h3>new thread</h3>\n            <form\n                action=\"/act/new-thread\"\n                method=\"post\"\n                enctype=\"multipart/form-data\"\n            >\n                <table>\n                    <tr>\n                        <td>name</td>\n                        <td><input type=\"text\" name=\"name\"></td>\n                    </tr>\n                    <tr>\n                        <td>content</td>\n                        <td>\n                            <textarea\n                                name=\"content\"\n                                rows=\"3\"\n                                cols=\"30\"\n                            ></textarea>\n                        </td>\n                    </tr>\n                    <tr>\n                        <td>image</td>\n                        <td><input type=\"file\" name=\"file\"></td>\n                    </tr>\n                </table>\n                <input type=\"hidden\" name=\"board\" value=\"");
    push_str(out, n);
    push_str(out, "\">\n                <input type=\"submit\" value=\"go\">\n            </form>\n        </div>\n\n        <div class=\"threads\">\n            ");
    push_str(out, threads);
    push_str(out, "\n        </div>\n        ");
    assert(out@ =~= old(out)@ + board_main(n@, desc@, hide_board@, threads@));
}

/// The button that shows a hidden board again.
pub open spec fn unhide_board_form(id: i64, name: Seq<char>) -> Seq<char> {
    "\n                    <form action=\"/admin/unhide\" method=\"post\">\n                        <input type=\"submit\" value=\"unhide board\">\n                        <input type=\"hidden\" name=\"id\" value=\""@ + decimal(id as int) + "\">\n                        <input type=\"hidden\" name=\"ty\" value=\"b\">\n                        <input type=\"hidden\" name=\"goto\" value=\"/b/"@ + name + "\">\n                    </form>\n                    "@
}

/// Writes `unhide_board_form`.
pub fn write_unhide_board_form(out: &mut String, id: i64, name: &str)
    ensures
        final(out)@ == old(out)@ + unhide_board_form(id, name@),
{
    push_str(out, "\n                    <form action=\"/admin/unhide\" method=\"post\">\n                        <input type=\"submit\" value=\"unhide board\">\n                        <input type=\"hidden\" name=\"id\" value=\"");
    push_decimal(out, id);
    push_str(out, "\">\n                        <input type=\"hidden\" name=\"ty\" value=\"b\">\n                        <input type=\"hidden\" name=\"goto\" value=\"/b/");
    push_str(out, name);
    push_str(out, "\">\n                    </form>\n                    ");
    assert(out@ =~= old(out)@ + unhide_board_form(id, name@));
}

/// The button that hides a board.
pub open spec fn hide_board_form(id: i64) -> Seq<char> {
    "\n                    <form action=\"/act/hide-board\" method=\"post\">\n                        <input type=\"submit\" value=\"hide board\">\n                        <input type=\"hidden\" name=\"id\" value=\""@ + decimal(id as int) + "\">\n                    </form>\n                    "@
}

/// Writes `hide_board_form`.
pub fn write_hide_board_form(out: &mut String, id: i64)
    ensures
        final(out)@ == old(out)@ + hide_board_form(id),
{
    push_str(out, "\n                    <form action=\"/act/hide-board\" method=\"post\">\n                        <input type=\"submit\" value=\"hide board\">\n                        <input type=\"hidden\" name=\"id\" value=\"");
    push_decimal(out, id);
    push_str(out, "\">\n                    </form>\n                    ");
    assert(out@ =~= old(out)@ + hide_board_form(id));
}

/// A thread in the list of a board.
pub open spec fn thread_box(id: i64, bname: Seq<char>, name: Seq<char>, uname: Seq<char>, time: i64, unread: Seq<char>, cont: Seq<char>, admin_panel: Seq<char>) -> Seq<char> {
    "\n                <div class=\"thread-box\">\n                    <h3 id=\""@ + decimal(id as int) + "\">\n                        <a href=\"/b/"@ + bname + "#"@ + decimal(id as int) + "\">#"@ + decimal(id as int) + "</a>::<a href=\"/t/"@ + decimal(id as int) + "\">"@ + name + "</a>::<a href=\"/u/"@ + uname + "\">"@ + uname + "</a>@<span class=\"unix-time\">"@ + decimal(time as int) + "</span> "@ + unread + "\n                    </h3>\n                    <p>"@ + cont + "</p>\n                    <div class=\"admin-panel-box\">"@ + admin_panel + "</div>\n                </div>\n                "@
}

/// Writes `thread_box`.
pub fn write_thread_box(out: &mut String, id: i64, bname: &str, name: &str, uname: &str, time: i64, unread: &str, cont: &str, admin_panel: &str)
    ensures
        final(out)@ == old(out)@ + thread_box(id, bname@, name@, uname@, time, unread@, cont@, admin_panel@),
{
    push_str(out, "\n                <div class=\"thread-box\">\n                    <h3 id=\"");
    push_decimal(out, id);
    push_str(out, "\">\n                        <a href=\"/b/");
    push_str(out, bname);
    push_str(out, "#");
    push_decimal(out, id);
    push_str(out, "\">#");
    push_decimal(out, id);
    push_str(out, "</a>::<a href=\"/t/");
    push_decimal(out, id);
    push_str(out, "\">");
    push_str(out, name);
    push_str(out, "</a>::<a href=\"/u/");
    push_str(out, uname);
    push_str(out, "\">");
    push_str(out, uname);
    push_str(out, "</a>@<span class=\"unix-time\">");
    push_decimal(out, time);
    push_str(out, "</span> ");
    push_str(out, unread);
    push_str(out, "\n                    </h3>\n                    <p>");
    push_str(out, cont);
    push_str(out, "</p>\n                    <div class=\"admin-panel-box\">");
    push_str(out, admin_panel);
    push_str(out, "</div>\n                </div>\n                ");
    assert(out@ =~= old(out)@ + thread_box(id, bname@, name@, uname@, time, unread@, cont@, admin_panel@));
}

/// The admin's buttons on a thread: hide it, lock or unlock it.
pub open spec fn thread_admin_panel(id: i64, lock_unlock: Seq<char>, locked: Seq<char>) -> Seq<char> {
    "\n                        <form action=\"/act/hide-thread\" method=\"post\">\n                            <div class=\"admin-button\">\n                                <input type=\"submit\" value=\"hide\">\n                                <input type=\"hidden\" name=\"id\" value=\""@ + decimal(id as int) + "\">\n                            </div>\n                        </form>\n\n                        <form action=\"/act/lock-thread\" method=\"post\">\n                            <div class=\"admin-button\">\n                                <input type=\"submit\" value=\""@ + lock_unlock + "\">\n                                <input type=\"hidden\" name=\"id\" value=\""@ + decimal(id as int) + "\">\n                                <input type=\"hidden\" name=\"locked\" value=\""@ + locked + "\">\n                            </div>\n                        </form>\n                        "@
}

/// Writes `thread_admin_panel`.
pub fn write_thread_admin_panel(out: &mut String, id: i64, lock_unlock: &str, locked: &str)
    ensures
        final(out)@ == old(out)@ + thread_admin_panel(id, lock_unlock@, locked@),
{
    push_str(out, "\n                        <form action=\"/act/hide-thread\" method=\"post\">\n                            <div class=\"admin-button\">\n                                <input type=\"submit\" value=\"hide\">\n                                <input type=\"hidden\" name=\"id\" value=\"");
    push_decimal(out, id);
    push_str(out, "\">\n                            </div>\n                        </form>\n\n                        <form action=\"/act/lock-thread\" method=\"post\">\n                            <div class=\"admin-button\">\n                                <input type=\"submit\" value=\"");
    push_str(out, lock_unlock);
    push_str(out, "\">\n                                <input type=\"hidden\" name=\"id\" value=\"");
    push_decimal(out, id);
    push_str(out, "\">\n                                <input type=\"hidden\" name=\"locked\" value=\"");
    push_str(out, locked);
    push_str(out, "\">\n                            </div>\n                        </form>\n                        ");
    assert(out@ =~= old(out)@ + thread_admin_panel(id, lock_unlock@, locked@));
}

/// A thread's opening text can be cut after its first 32 bytes: it is no
/// longer than that, or a character starts there.
pub open spec fn cut_ok(cont: Seq<char>) -> bool {
    encode_utf8(cont).len() <= 32 || is_char_boundary(encode_utf8(cont), 32)
}

/// The first 32 bytes of a thread's opening text, escaped, with `...` when
/// the cut falls at 32.
pub open spec fn preview(cont: Seq<char>) -> Seq<char> {
    let b = encode_utf8(cont);
    let z = if b.len() > 32 { 32 } else { b.len() as int };
    escaped(decode_utf8(b.subrange(0, z))) + if z == 32 { "..."@ } else { Seq::empty() }
}

/// Writes `preview`.
pub fn write_preview(out: &mut String, cont: &str)
    requires
        cut_ok(cont@),
    ensures
        final(out)@ == old(out)@ + preview(cont@),
{
    let l = cont.as_bytes().len();
    let z: usize = if l > 32 { 32 } else { l };
    proof {
        if l > 32 {
            assert(encode_utf8(cont@).len() > 32);
            assert(is_char_boundary(encode_utf8(cont@), 32));
            assert(cont.spec_bytes() == encode_utf8(cont@));
            assert(is_char_boundary(cont.spec_bytes(), z as int));
        } else {
            assert(is_char_boundary(cont.spec_bytes(), cont.spec_bytes().len() as int));
            assert(z as int == cont.spec_bytes().len());
            assert(is_char_boundary(cont.spec_bytes(), z as int));
        }
        assert(is_char_boundary(cont.spec_bytes(), z as int));
    }
    let (head, _) = cont.split_at(z);
    assert(decode_utf8(encode_utf8(head@)) == head@);
    assert(head.spec_bytes() == encode_utf8(cont@).subrange(0, z as int));
    let e = escape(head);
    push_str(out, e.as_str());
    if z == 32 {
        push_str(out, "...");
    }
    assert(out@ =~= old(out)@ + preview(cont@));
}

/// The word on a thread's lock button.
pub open spec fn lock_word(locked: bool) -> Seq<char> {
    if locked { "unlock"@ } else { "lock"@ }
}

/// Thread `t` in the list of board `b`, as user `me` sees it.
pub open spec fn thread_entry(db: DbV, b: BoardV, me: UserV, t: ThreadV) -> Result<Seq<char>, ErrorV> {
    match user_tag(db, t.author) {
        Err(e) => Err(e),
        Ok(uname) => Ok(thread_box(
            t.id,
            b.name,
            escaped(t.name),
            uname,
            t.time,
            if db.read_state(me.id, t.id) { Seq::empty() } else { "(unread)"@ },
            preview(t.cont),
            if me.admin {
                thread_admin_panel(t.id, lock_word(is_locked(t.locked)), flag_text(is_locked(t.locked)))
            } else {
                Seq::empty()
            },
        )),
    }
}

/// The given threads one after another; the first that fails fails all.
pub open spec fn thread_entries(db: DbV, b: BoardV, me: UserV, ts: Seq<ThreadV>) -> Result<Seq<char>, ErrorV>
    decreases ts.len(),
{
    if ts.len() == 0 {
        Ok(Seq::empty())
    } else {
        match thread_entries(db, b, me, ts.drop_last()) {
            Err(e) => Err(e),
            Ok(s) => match thread_entry(db, b, me, ts.last()) {
                Err(e) => Err(e),
                Ok(h) => Ok(s + h),
            },
        }
    }
}

proof fn lemma_thread_entries_fail(db: DbV, b: BoardV, me: UserV, ts: Seq<ThreadV>, k: int, e: ErrorV)
    requires
        0 <= k <= ts.len(),
        thread_entries(db, b, me, ts.take(k)) == Err::<Seq<char>, ErrorV>(e),
    ensures
        thread_entries(db, b, me, ts) == Err::<Seq<char>, ErrorV>(e),
    decreases ts.len() - k,
{
    if k == ts.len() {
        assert(ts.take(k) =~= ts);
    } else {
        assert(ts.take(k + 1).drop_last() =~= ts.take(k));
        lemma_thread_entries_fail(db, b, me, ts, k + 1, e);
    }
}

fn make_thread_entry(db: &Db, b: &Board, me: &User, t: &Thread) -> (r: Result<String, Error>)
    requires
        db@.wf(),
        cut_ok(t.cont@),
    ensures
        match r {
            Ok(s) => thread_entry(db@, b@, me@, t@) == Ok::<Seq<char>, ErrorV>(s@),
            Err(e) => thread_entry(db@, b@, me@, t@) == Err::<Seq<char>, ErrorV>(e@),
        },
{
    let uname = match make_user_tag(db, t.author) {
        Ok(u) => u,
        Err(e) => return Err(e),
    };
    let name = escape(t.name.as_str());
    let read = match db.is_read(me.id, t.id) {
        Ok(x) => x,
        Err(e) => return Err(e),
    };
    let unread = if read { "" } else { "(unread)" };
    proof {
        reveal_strlit("");
    }
    let mut cont = String::new();
    write_preview(&mut cont, t.cont.as_str());
    let mut panel = String::new();
    if me.admin {
        let locked = t.locked();
        let word = if locked { "unlock" } else { "lock" };
        let flag = if locked { "true" } else { "false" };
        write_thread_admin_panel(&mut panel, t.id, word, flag);
    }
    assert(panel@ =~= if me.admin {
        thread_admin_panel(t.id, lock_word(is_locked(t.locked)), flag_text(is_locked(t.locked)))
    } else {
        Seq::<char>::empty()
    });
    let mut out = String::new();
    write_thread_box(&mut out, t.id, b.name.as_str(), name.as_str(), uname.as_str(), t.time, unread, cont.as_str(), panel.as_str());
    Ok(out)
}

/// The threads of `ts` can all be previewed.
pub open spec fn all_cut_ok(ts: Seq<ThreadV>) -> bool {
    forall|i: int| 0 <= i < ts.len() ==> cut_ok(#[trigger] ts[i].cont)
}

#[verifier::spinoff_prover]
fn make_thread_entries(db: &Db, b: &Board, me: &User, ts: &Vec<Thread>) -> (r: Result<String, Error>)
    requires
        db@.wf(),
        all_cut_ok(views(ts@)),
    ensures
        match r {
            Ok(s) => thread_entries(db@, b@, me@, views(ts@)) == Ok::<Seq<char>, ErrorV>(s@),
            Err(e) => thread_entries(db@, b@, me@, views(ts@)) == Err::<Seq<char>, ErrorV>(e@),
        },
{
    let ghost v = views(ts@);
    let mut out = String::new();
    let mut i: usize = 0;
    while i < ts.len()
        invariant
            db@.wf(),
            i <= ts@.len(),
            v == views(ts@),
            all_cut_ok(v),
            thread_entries(db@, b@, me@, v.take(i as int)) == Ok::<Seq<char>, ErrorV>(out@),
        decreases ts@.len() - i,
    {
        assert(v.take(i + 1).drop_last() =~= v.take(i as int));
        assert(v.take(i + 1).last() == v[i as int]);
        assert(cut_ok(v[i as int].cont));
        match make_thread_entry(db, b, me, &ts[i]) {
            Ok(h) => push_str(&mut out, h.as_str()),
            Err(e) => {
                proof { lemma_thread_entries_fail(db@, b@, me@, v, i + 1, e@); }
                return Err(e);
            },
        }
        i = i + 1;
    }
    assert(v.take(v.len() as int) =~= v);
    Ok(out)
}

/// The admin's button on a board: hide it, or show it again.
pub open spec fn board_admin_part(admin: bool, b: BoardV) -> Seq<char> {
    if admin {
        if b.hidden {
            unhide_board_form(b.id, b.name)
        } else {
            hide_board_form(b.id)
        }
    } else {
        Seq::empty()
    }
}

/// The body of the page of board `b`, named `n`, for user `me`, whose
/// visible threads in board-page order are `ts`.
pub open spec fn board_body(db: DbV, n: Seq<char>, b: BoardV, me: UserV, ts: Seq<ThreadV>) -> Result<Seq<char>, FaultV> {
    match thread_entries(db, b, me, ts) {
        Err(e) => Err(FaultV::Bare(e)),
        Ok(s) => Ok(board_main(n, b.desc, board_admin_part(me.admin, b), s)),
    }
}

/// The title of the page of board `n`.
pub open spec fn board_title(n: Seq<char>) -> Seq<char> {
    "/"@ + n + "/ :: view board"@
}

/// The board named `n` and who asks for it; or why not.
pub open spec fn board_lookup(db: DbV, session: Option<Seq<char>>, n: Seq<char>) -> Result<(BoardV, UserV), FaultV> {
    match db.board_by_name(n) {
        None => Err(FaultV::Back(ErrorV::BoardNameNotFound(n), "/"@)),
        Some(b) => match db.signed_in(session) {
            Err(e) => Err(FaultV::Back(e, board_addr(b.id))),
            Ok(me) => Ok((b, me)),
        },
    }
}

/// The page of board `n` for the visitor with token `session`, whose
/// visible threads in board-page order are `ts`.
pub open spec fn board_view(
    db: DbV,
    frame: Frame,
    site_title: Seq<char>,
    session: Option<Seq<char>>,
    n: Seq<char>,
    ts: Seq<ThreadV>,
) -> Result<Seq<char>, FaultV> {
    match board_lookup(db, session, n) {
        Err(f) => Err(f),
        Ok((b, me)) => match board_body(db, n, b, me, ts) {
            Err(f) => Err(f),
            Ok(body) => match page_text(db, frame.themes@, frame.base_css@, frame.script@, site_title, Some(me.id), board_title(n), body) {
                Err(e) => Err(FaultV::Bare(e)),
                Ok(p) => Ok(p),
            },
        },
    }
}

/// Every visible thread of the board named `n` can be previewed.
pub open spec fn previews_ok(db: DbV, n: Seq<char>) -> bool {
    match db.board_by_name(n) {
        None => true,
        Some(b) => forall|i: int|
            0 <= i < db.threads.rows.len() && (#[trigger] db.threads.rows[i]).board == b.id
                && !db.threads.rows[i].hidden ==> cut_ok(db.threads.rows[i].cont),
    }
}

/// Checks `previews_ok`.
pub fn board_previews_ok(db: &Db, n: &str) -> (r: bool)
    requires
        db@.wf(),
    ensures
        r == previews_ok(db@, n@),
{
    let b = match db.get_board_by_name(n) {
        Ok(b) => b,
        Err(_) => return true,
    };
    let ts = db.threads_table();
    let mut i: usize = 0;
    while i < ts.len()
        invariant
            i <= ts@.rows.len(),
            ts@ == db@.threads,
            db@.board_by_name(n@) == Some(b@),
            forall|k: int| 0 <= k < i && (#[trigger] db@.threads.rows[k]).board == b.id
                && !db@.threads.rows[k].hidden ==> cut_ok(db@.threads.rows[k].cont),
        decreases ts@.rows.len() - i,
    {
        let t = ts.row(i);
        if t.board == b.id && !t.hidden {
            let c = t.cont.as_str();
            if c.as_bytes().len() > 32 && !c.is_char_boundary(32) {
                return false;
            }
        }
        i = i + 1;
    }
    true
}

/// The page of board `n` for the visitor with token `session` (see
/// `board_view`), with the board's visible threads in board-page order.
pub fn by_name(db: &Db, frame: &Frame, cfg: &Cfg, session: Option<&str>, n: &str) -> (r: Result<String, Fault>)
    requires
        db@.wf(),
        previews_ok(db@, n@),
    ensures
        shown(r) == match board_lookup(db@, opt_str(session), n@) {
            Err(f) => Err(f),
            Ok((b, me)) => board_view(db@, *frame, cfg.site_title(), opt_str(session), n@,
                db@.board_order(b.id).filter(thread_visible())),
        },
{
    let b = match db.get_board_by_name(n) {
        Ok(b) => b,
        Err(e) => return Err(Fault::Back(e, "/".to_owned())),
    };
    proof { reveal_strlit("/"); }
    let me = match db.me(session) {
        Ok(u) => u,
        Err(e) => return Err(Fault::Back(e, make_board_addr(b.id))),
    };
    let ts = match db.get_visible_threads(b.id) {
        Ok(ts) => ts,
        Err(e) => return Err(Fault::Bare(e)),
    };
    let ghost all = db@.board_order(b.id);
    proof {
        assert forall|i: int| 0 <= i < views(ts@).len() implies cut_ok(#[trigger] views(ts@)[i].cont) by {
            let t = views(ts@)[i];
            assert(all.filter(thread_visible()).contains(t));
            crate::seqs::lemma_filter_subset(all, thread_visible(), t);
            let j = choose|j: int| 0 <= j < all.len() && all[j] == t;
            let on = db@.threads.rows.filter(thread_on_board(b.id));
            assert(on.contains(all[j]));
            crate::seqs::lemma_filter_subset(db@.threads.rows, thread_on_board(b.id), t);
            let k = choose|k: int| 0 <= k < db@.threads.rows.len() && db@.threads.rows[k] == t;
            assert(db@.threads.rows[k].board == b.id);
        }
    }
    let r = by_name_with(db, frame, cfg, n, &b, &me, &ts);
    assert(board_lookup(db@, opt_str(session), n@) == Ok::<(BoardV, UserV), FaultV>((b@, me@)));
    r
}

/// The rest of the board page, once the board, the visitor and the visible
/// threads `ts` are known.
fn by_name_with(db: &Db, frame: &Frame, cfg: &Cfg, n: &str, b: &Board, me: &User, ts: &Vec<Thread>) -> (r: Result<String, Fault>)
    requires
        db@.wf(),
        all_cut_ok(views(ts@)),
    ensures
        shown(r) == match board_body(db@, n@, b@, me@, views(ts@)) {
            Err(f) => Err(f),
            Ok(body) => match page_text(db@, frame.themes@, frame.base_css@, frame.script@, cfg.site_title(), Some(me.id), board_title(n@), body) {
                Err(e) => Err(FaultV::Bare(e)),
                Ok(p) => Ok(p),
            },
        },
{
    let entries = match make_thread_entries(db, b, me, ts) {
        Ok(s) => s,
        Err(e) => return Err(Fault::Bare(e)),
    };
    let mut admin_part = String::new();
    if me.admin {
        if b.hidden {
            write_unhide_board_form(&mut admin_part, b.id, b.name.as_str());
        } else {
            write_hide_board_form(&mut admin_part, b.id);
        }
    }
    assert(admin_part@ =~= board_admin_part(me.admin, b@));
    let mut body = String::new();
    write_board_main(&mut body, n, b.desc.as_str(), admin_part.as_str(), entries.as_str());
    let mut title = String::new();
    push_str(&mut title, "/");
    push_str(&mut title, n);
    push_str(&mut title, "/ :: view board");
    match page(db, frame, cfg, Some(me.id), title.as_str(), body.as_str()) {
        Ok(p) => Ok(p),
        Err(e) => Err(Fault::Bare(e)),
    }
}

} // verus!
