//! The admin panel: the hidden boards, threads and posts, each with a
//! button that shows it again.

use vstd::prelude::*;
use crate::Cfg;
use crate::db::Db;
use crate::lines::{board_line, thread_line, post_line};
use crate::model::{DbV, opt_str, board_hidden, thread_hidden, post_hidden, views};
use crate::page::{Frame, page, page_text};
use crate::pages::{Fault, FaultV, shown};
use crate::records::{Board, BoardV, Thread, ThreadV, Post, PostV};
use crate::strings::{push_str, push_decimal, decimal};

verus! {

/// A hidden record, shown by its line, with the button that shows it again; `ty` says whether it is a board, thread or post.
pub open spec fn hidden_row(q: Seq<char>, id: i64, ty: Seq<char>) -> Seq<char> {
    "\n                    <tr>\n                        <td>"@ + q + "</td>\n                        <td>\n                            <div class=\"unhide-form\">\n                                <form method=\"post\" action=\"/admin/unhide\">\n                                    <input type=\"submit\" value=\"make visible\">\n                                    <input type=\"hidden\" name=\"id\" value=\""@ + decimal(id as int) + "\">\n                                    <input type=\"hidden\" name=\"ty\" value=\""@ + ty + "\">\n                                </form>\n                            </div>\n                        </td>\n                    </tr>\n                    "@
}

/// Writes `hidden_row`.
pub fn write_hidden_row(out: &mut String, q: &str, id: i64, ty: &str)
    ensures
        final(out)@ == old(out)@ + hidden_row(q@, id, ty@),
{
    push_str(out, "\n                    <tr>\n                        <td>");
    push_str(out, q);
    push_str(out, "</td>\n                        <td>\n                            <div class=\"unhide-form\">\n                                <form method=\"post\" action=\"/admin/unhide\">\n                                    <input type=\"submit\" value=\"make visible\">\n                                    <input type=\"hidden\" name=\"id\" value=\"");
    push_decimal(out, id);
    push_str(out, "\">\n                                    <input type=\"hidden\" name=\"ty\" value=\"");
    push_str(out, ty);
    push_str(out, "\">\n                                </form>\n                            </div>\n                        </td>\n                    </tr>\n                    ");
    assert(out@ =~= old(out)@ + hidden_row(q@, id, ty@));
}

/// The body of the admin panel.
pub open spec fn admin_main(hidden_boards: Seq<char>, hidden_threads: Seq<char>, hidden_posts: Seq<char>) -> Seq<char> {
    "\n        <h1>admin panel</h1>\n        <div class=\"admin-panel\">\n            <h3>hidden boards</h3>\n            <table class=\"hidden-table\">"@ + hidden_boards + "</table>\n\n            <h3>hidden threads</h3>\n            <table class=\"hidden-table\">"@ + hidden_threads + "</table>\n\n            <h3>hidden posts</h3>\n            <table class=\"hidden-table\">"@ + hidden_posts + "</table>\n        </div>\n        "@
}

/// Writes `admin_main`.
pub fn write_admin_main(out: &mut String, hidden_boards: &str, hidden_threads: &str, hidden_posts: &str)
    ensures
        final(out)@ == old(out)@ + admin_main(hidden_boards@, hidden_threads@, hidden_posts@),
{
    push_str(out, "\n        <h1>admin panel</h1>\n        <div class=\"admin-panel\">\n            <h3>hidden boards</h3>\n            <table class=\"hidden-table\">");
    push_str(out, hidden_boards);
    push_str(out, "</table>\n\n            <h3>hidden threads</h3>\n            <table class=\"hidden-table\">");
    push_str(out, hidden_threads);
    push_str(out, "</table>\n\n            <h3>hidden posts</h3>\n            <table class=\"hidden-table\">");
    push_str(out, hidden_posts);
    push_str(out, "</table>\n        </div>\n        ");
    assert(out@ =~= old(out)@ + admin_main(hidden_boards@, hidden_threads@, hidden_posts@));
}

/// The rows of the given hidden boards.
pub open spec fn board_rows(bs: Seq<BoardV>) -> Seq<char>
    decreases bs.len(),
{
    if bs.len() == 0 {
        Seq::empty()
    } else {
        board_rows(bs.drop_last()) + hidden_row(board_line(bs.last()), bs.last().id, "b"@)
    }
}

/// The rows of the given hidden threads.
pub open spec fn thread_rows(ts: Seq<ThreadV>) -> Seq<char>
    decreases ts.len(),
{
    if ts.len() == 0 {
        Seq::empty()
    } else {
        thread_rows(ts.drop_last()) + hidden_row(thread_line(ts.last()), ts.last().id, "t"@)
    }
}

/// The rows of the given hidden posts.
pub open spec fn post_rows(ps: Seq<PostV>) -> Seq<char>
    decreases ps.len(),
{
    if ps.len() == 0 {
        Seq::empty()
    } else {
        post_rows(ps.drop_last()) + hidden_row(post_line(ps.last()), ps.last().id, "p"@)
    }
}

fn write_board_rows(out: &mut String, bs: &Vec<Board>)
    ensures
        final(out)@ == old(out)@ + board_rows(views(bs@)),
{
    let ghost v = views(bs@);
    let ghost start = out@;
    let mut i: usize = 0;
    while i < bs.len()
        invariant
            i <= bs@.len(),
            v == views(bs@),
            out@ == start + board_rows(v.take(i as int)),
        decreases bs@.len() - i,
    {
        let q = bs[i].line();
        write_hidden_row(out, q.as_str(), bs[i].id, "b");
        assert(v.take(i + 1).drop_last() =~= v.take(i as int));
        assert(out@ =~= start + board_rows(v.take(i + 1)));
        i = i + 1;
    }
    assert(v.take(v.len() as int) =~= v);
}

fn write_thread_rows(out: &mut String, ts: &Vec<Thread>)
    ensures
        final(out)@ == old(out)@ + thread_rows(views(ts@)),
{
    let ghost v = views(ts@);
    let ghost start = out@;
    let mut i: usize = 0;
    while i < ts.len()
        invariant
            i <= ts@.len(),
            v == views(ts@),
            out@ == start + thread_rows(v.take(i as int)),
        decreases ts@.len() - i,
    {
        let q = ts[i].line();
        write_hidden_row(out, q.as_str(), ts[i].id, "t");
        assert(v.take(i + 1).drop_last() =~= v.take(i as int));
        assert(out@ =~= start + thread_rows(v.take(i + 1)));
        i = i + 1;
    }
    assert(v.take(v.len() as int) =~= v);
}

fn write_post_rows(out: &mut String, ps: &Vec<Post>)
    ensures
        final(out)@ == old(out)@ + post_rows(views(ps@)),
{
    let ghost v = views(ps@);
    let ghost start = out@;
    let mut i: usize = 0;
    while i < ps.len()
        invariant
            i <= ps@.len(),
            v == views(ps@),
            out@ == start + post_rows(v.take(i as int)),
        decreases ps@.len() - i,
    {
        let q = ps[i].line();
        write_hidden_row(out, q.as_str(), ps[i].id, "p");
        assert(v.take(i + 1).drop_last() =~= v.take(i as int));
        assert(out@ =~= start + post_rows(v.take(i + 1)));
        i = i + 1;
    }
    assert(v.take(v.len() as int) =~= v);
}

/// The body of the admin panel.
pub open spec fn admin_body(db: DbV) -> Seq<char> {
    admin_main(
        board_rows(db.boards.rows.filter(board_hidden())),
        thread_rows(db.threads.rows.filter(thread_hidden())),
        post_rows(db.posts.rows.filter(post_hidden())),
    )
}

/// The admin panel for the visitor with token `session`; refused to anyone
/// but an admin.
pub open spec fn admin_view(db: DbV, frame: Frame, site_title: Seq<char>, session: Option<Seq<char>>) -> Result<Seq<char>, FaultV> {
    match db.signed_in(session) {
        Err(e) => Err(FaultV::Bare(e)),
        Ok(me) => if !me.admin {
            Err(FaultV::Refused("not an admin"@, "/"@))
        } else {
            match page_text(db, frame.themes@, frame.base_css@, frame.script@, site_title, Some(me.id), "admin panel"@, admin_body(db)) {
                Err(e) => Err(FaultV::Bare(e)),
                Ok(p) => Ok(p),
            }
        },
    }
}

/// Makes the page of `admin_view`.
pub fn admin(db: &Db, frame: &Frame, cfg: &Cfg, session: Option<&str>) -> (r: Result<String, Fault>)
    requires
        db@.wf(),
    ensures
        shown(r) == admin_view(db@, *frame, cfg.site_title(), opt_str(session)),
{
    let me = match db.me(session) {
        Ok(u) => u,
        Err(e) => return Err(Fault::Bare(e)),
    };
    if !me.admin {
        return Err(Fault::Refused("not an admin".to_owned(), "/".to_owned()));
    }
    let bs = match db.get_all_hidden_boards() {
        Ok(v) => v,
        Err(e) => return Err(Fault::Bare(e)),
    };
    let ts = match db.get_all_hidden_threads() {
        Ok(v) => v,
        Err(e) => return Err(Fault::Bare(e)),
    };
    let ps = match db.get_all_hidden_posts() {
        Ok(v) => v,
        Err(e) => return Err(Fault::Bare(e)),
    };
    let mut hb = String::new();
    write_board_rows(&mut hb, &bs);
    let mut ht = String::new();
    write_thread_rows(&mut ht, &ts);
    let mut hp = String::new();
    write_post_rows(&mut hp, &ps);
    let mut body = String::new();
    write_admin_main(&mut body, hb.as_str(), ht.as_str(), hp.as_str());
    match page(db, frame, cfg, Some(me.id), "admin panel", body.as_str()) {
        Ok(p) => Ok(p),
        Err(e) => Err(Fault::Bare(e)),
    }
}

} // verus!
