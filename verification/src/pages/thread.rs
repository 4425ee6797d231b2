//! The page of a thread: its opening post, its visible posts with their
//! replies, and the form for a new post.

use vstd::prelude::*;
use crate::Cfg;
use crate::db::Db;
use crate::html::{escape, escaped};
use crate::model::{Error, ErrorV, DbV, opt_str, post_visible_in_thread, res_views, views};
use crate::page::{Frame, page, page_text};
use crate::pages::{
    Fault, FaultV, shown, user_tag, make_user_tag, image_tag, write_image_tag,
    time_span, write_time_span, board_addr, make_board_addr,
};
use crate::records::{User, UserV, Thread, ThreadV, Board, BoardV, Post, PostV, is_locked};
use crate::strings::{push_str, push_decimal, decimal};
use crate::x::{posts, post_markup};
use crate::clock::now;

verus! {

/// The body of a thread's page.
pub open spec fn thread_main(bname: Seq<char>, name: Seq<char>, hide_unhide: Seq<char>, back: Seq<char>, id: i64, uname: Seq<char>, time: Seq<char>, img: Seq<char>, cont: Seq<char>, posts: Seq<char>, new_post: Seq<char>) -> Seq<char> {
    "\n        <h1><a href=\"/b/"@ + bname + "\">/"@ + bname + "/</a></h1>\n        <h2>"@ + name + "</h2>\n        "@ + hide_unhide + "\n        "@ + back + "\n        <div class=\"post-box\">\n            <p class=\"bold\">#"@ + decimal(id as int) + "::<a href=\"/u/"@ + uname + "\">"@ + uname + "</a>@"@ + time + "</p>\n            <div class=\"base-post\">\n                "@ + img + "\n                <p class=\"post-content\">"@ + cont + "</p>\n            </div>\n        </div>\n\n        <div class=\"posts\">\n            "@ + posts + "\n        </div>\n        "@ + new_post + "\n        "@ + back + "\n        "@
}

/// Writes `thread_main`.
#[verifier::spinoff_prover]
pub fn write_thread_main(out: &mut String, bname: &str, name: &str, hide_unhide: &str, back: &str, id: i64, uname: &str, time: &str, img: &str, cont: &str, posts: &str, new_post: &str)
    ensures
        final(out)@ == old(out)@ + thread_main(bname@, name@, hide_unhide@, back@, id, uname@, time@, img@, cont@, posts@, new_post@),
{
    push_str(out, "\n        <h1><a href=\"/b/");
    push_str(out, bname);
    push_str(out, "\">/");
    push_str(out, bname);
    push_str(out, "/</a></h1>\n        <h2>");
    push_str(out, name);
    push_str(out, "</h2>\n        ");
    push_str(out, hide_unhide);
    push_str(out, "\n        ");
    push_str(out, back);
    push_str(out, "\n        <div class=\"post-box\">\n            <p class=\"bold\">#");
    push_decimal(out, id);
    push_str(out, "::<a href=\"/u/");
    push_str(out, uname);
    push_str(out, "\">");
    push_str(out, uname);
    push_str(out, "</a>@");
    push_str(out, time);
    push_str(out, "</p>\n            <div class=\"base-post\">\n                ");
    push_str(out, img);
    push_str(out, "\n                <p class=\"post-content\">");
    push_str(out, cont);
    push_str(out, "</p>\n            </div>\n        </div>\n\n        <div class=\"posts\">\n            ");
    push_str(out, posts);
    push_str(out, "\n        </div>\n        ");
    push_str(out, new_post);
    push_str(out, "\n        ");
    push_str(out, back);
    push_str(out, "\n        ");
    assert(out@ =~= old(out)@ + thread_main(bname@, name@, hide_unhide@, back@, id, uname@, time@, img@, cont@, posts@, new_post@));
}

/// The time stamp of a thread's opening post.
pub open spec fn thread_time(time: i64) -> Seq<char> {
    "<span class=\"unix-time\">"@ + decimal(time as int) + "</a>"@
}

/// Writes `thread_time`.
pub fn write_thread_time(out: &mut String, time: i64)
    ensures
        final(out)@ == old(out)@ + thread_time(time),
{
    push_str(out, "<span class=\"unix-time\">");
    push_decimal(out, time);
    push_str(out, "</a>");
    assert(out@ =~= old(out)@ + thread_time(time));
}

/// The link back to the thread on its board.
pub open spec fn back_link(bname: Seq<char>, id: i64) -> Seq<char> {
    "<p><a href=\"/b/"@ + bname + "#"@ + decimal(id as int) + "\">go back</a></p>"@
}

/// Writes `back_link`.
pub fn write_back_link(out: &mut String, bname: &str, id: i64)
    ensures
        final(out)@ == old(out)@ + back_link(bname@, id),
{
    push_str(out, "<p><a href=\"/b/");
    push_str(out, bname);
    push_str(out, "#");
    push_decimal(out, id);
    push_str(out, "\">go back</a></p>");
    assert(out@ =~= old(out)@ + back_link(bname@, id));
}

/// The button that shows a hidden thread again.
pub open spec fn unhide_thread_form(id: i64) -> Seq<char> {
    "\n                    <form action=\"/admin/unhide\" method=\"post\">\n                        <input type=\"submit\" value=\"unhide thread\">\n                        <input type=\"hidden\" name=\"id\" value=\""@ + decimal(id as int) + "\">\n                        <input type=\"hidden\" name=\"ty\" value=\"t\">\n                        <input type=\"hidden\" name=\"goto\" value=\"/t/"@ + decimal(id as int) + "\">\n                    </form>\n                    "@
}

/// Writes `unhide_thread_form`.
pub fn write_unhide_thread_form(out: &mut String, id: i64)
    ensures
        final(out)@ == old(out)@ + unhide_thread_form(id),
{
    push_str(out, "\n                    <form action=\"/admin/unhide\" method=\"post\">\n                        <input type=\"submit\" value=\"unhide thread\">\n                        <input type=\"hidden\" name=\"id\" value=\"");
    push_decimal(out, id);
    push_str(out, "\">\n                        <input type=\"hidden\" name=\"ty\" value=\"t\">\n                        <input type=\"hidden\" name=\"goto\" value=\"/t/");
    push_decimal(out, id);
    push_str(out, "\">\n                    </form>\n                    ");
    assert(out@ =~= old(out)@ + unhide_thread_form(id));
}

/// The button that hides a thread.
pub open spec fn hide_thread_form(id: i64) -> Seq<char> {
    "\n                     <form action=\"/act/hide-thread\" method=\"post\">\n                        <input type=\"submit\" value=\"hide thread\">\n                        <input type=\"hidden\" name=\"id\" value=\""@ + decimal(id as int) + "\">\n                        <input type=\"hidden\" name=\"goto\" value=\"/t/"@ + decimal(id as int) + "\">\n                    </form>\n                    "@
}

/// Writes `hide_thread_form`.
pub fn write_hide_thread_form(out: &mut String, id: i64)
    ensures
        final(out)@ == old(out)@ + hide_thread_form(id),
{
    push_str(out, "\n                     <form action=\"/act/hide-thread\" method=\"post\">\n                        <input type=\"submit\" value=\"hide thread\">\n                        <input type=\"hidden\" name=\"id\" value=\"");
    push_decimal(out, id);
    push_str(out, "\">\n                        <input type=\"hidden\" name=\"goto\" value=\"/t/");
    push_decimal(out, id);
    push_str(out, "\">\n                    </form>\n                    ");
    assert(out@ =~= old(out)@ + hide_thread_form(id));
}

/// What stands in place of the form of a locked thread.
pub open spec fn locked_notice() -> Seq<char> {
    "<h3>this thread is locked. you cannot post in it."@
}

/// Writes `locked_notice`.
pub fn write_locked_notice(out: &mut String)
    ensures
        final(out)@ == old(out)@ + locked_notice(),
{
    push_str(out, "<h3>this thread is locked. you cannot post in it.");
    assert(out@ =~= old(out)@ + locked_notice());
}

/// The form for a new post in thread `id`.
pub open spec fn new_post_form(id: i64) -> Seq<char> {
    "\n                <div class=\"new-post\">\n                    <h3>new post</h3>\n                    <form\n                        action=\"/act/new-post\"\n                        method=\"post\"\n                        enctype=\"multipart/form-data\"\n                    >\n                        <table>\n                            <tr>\n                                <td>post content</td>\n                                <td>\n                                    <textarea\n                                        name=\"content\"\n                                        rows=\"3\"\n                                        cols=\"30\"\n                                    ></textarea>\n                                </td>\n                            </tr>\n                            <tr>\n                                <td>image</td>\n                                <td><input type=\"file\" name=\"file\"></td>\n                            </tr>\n                        </table>\n                        <input type=\"hidden\" name=\"thread\" value=\""@ + decimal(id as int) + "\">\n                        <input type=\"submit\" value=\"go\">\n                    </form>\n                </div>\n                "@
}

/// Writes `new_post_form`.
pub fn write_new_post_form(out: &mut String, id: i64)
    ensures
        final(out)@ == old(out)@ + new_post_form(id),
{
    push_str(out, "\n                <div class=\"new-post\">\n                    <h3>new post</h3>\n                    <form\n                        action=\"/act/new-post\"\n                        method=\"post\"\n                        enctype=\"multipart/form-data\"\n                    >\n                        <table>\n                            <tr>\n                                <td>post content</td>\n                                <td>\n                                    <textarea\n                                        name=\"content\"\n                                        rows=\"3\"\n                                        cols=\"30\"\n                                    ></textarea>\n                                </td>\n                            </tr>\n                            <tr>\n                                <td>image</td>\n                                <td><input type=\"file\" name=\"file\"></td>\n                            </tr>\n                        </table>\n                        <input type=\"hidden\" name=\"thread\" value=\"");
    push_decimal(out, id);
    push_str(out, "\">\n                        <input type=\"submit\" value=\"go\">\n                    </form>\n                </div>\n                ");
    assert(out@ =~= old(out)@ + new_post_form(id));
}

/// One post.
pub open spec fn post_box(id: i64, tid: i64, uname: Seq<char>, time: Seq<char>, replies: Seq<char>, img: Seq<char>, cont: Seq<char>, hide: Seq<char>) -> Seq<char> {
    "\n                <div class=\"post-box\" id=\""@ + decimal(id as int) + "\">\n                    <p class=\"bold\"><a href=\"/t/"@ + decimal(tid as int) + "#"@ + decimal(id as int) + "\">#"@ + decimal(id as int) + "</a>::<a href=\"/u/"@ + uname + "\">"@ + uname + "</a>@"@ + time + "<span class=\"replies\">"@ + replies + "</span></p>\n                    "@ + img + "\n                    <p class=\"post-content\">"@ + cont + "</p>\n                    <form action=\"/act/hide-post\" method=\"post\">\n                        "@ + hide + "\n                    </form>\n                </div>\n                "@
}

/// Writes `post_box`.
pub fn write_post_box(out: &mut String, id: i64, tid: i64, uname: &str, time: &str, replies: &str, img: &str, cont: &str, hide: &str)
    ensures
        final(out)@ == old(out)@ + post_box(id, tid, uname@, time@, replies@, img@, cont@, hide@),
{
    push_str(out, "\n                <div class=\"post-box\" id=\"");
    push_decimal(out, id);
    push_str(out, "\">\n                    <p class=\"bold\"><a href=\"/t/");
    push_decimal(out, tid);
    push_str(out, "#");
    push_decimal(out, id);
    push_str(out, "\">#");
    push_decimal(out, id);
    push_str(out, "</a>::<a href=\"/u/");
    push_str(out, uname);
    push_str(out, "\">");
    push_str(out, uname);
    push_str(out, "</a>@");
    push_str(out, time);
    push_str(out, "<span class=\"replies\">");
    push_str(out, replies);
    push_str(out, "</span></p>\n                    ");
    push_str(out, img);
    push_str(out, "\n                    <p class=\"post-content\">");
    push_str(out, cont);
    push_str(out, "</p>\n                    <form action=\"/act/hide-post\" method=\"post\">\n                        ");
    push_str(out, hide);
    push_str(out, "\n                    </form>\n                </div>\n                ");
    assert(out@ =~= old(out)@ + post_box(id, tid, uname@, time@, replies@, img@, cont@, hide@));
}

/// A link to post `id`, which replies, in thread `tid`.
pub open spec fn reply_link(tid: i64, id: i64) -> Seq<char> {
    "<a href=\"/t/"@ + decimal(tid as int) + "#"@ + decimal(id as int) + "\">&gt;&gt;"@ + decimal(id as int) + "</a>"@
}

/// Writes `reply_link`.
pub fn write_reply_link(out: &mut String, tid: i64, id: i64)
    ensures
        final(out)@ == old(out)@ + reply_link(tid, id),
{
    push_str(out, "<a href=\"/t/");
    push_decimal(out, tid);
    push_str(out, "#");
    push_decimal(out, id);
    push_str(out, "\">&gt;&gt;");
    push_decimal(out, id);
    push_str(out, "</a>");
    assert(out@ =~= old(out)@ + reply_link(tid, id));
}

/// The button that hides post `id`.
pub open spec fn hide_post_button(id: i64) -> Seq<char> {
    "\n                         <div class=\"admin-button\">\n                            <input type=\"submit\" value=\"hide\">\n                            <input type=\"hidden\" name=\"id\" value=\""@ + decimal(id as int) + "\">\n                        </div>\n                        "@
}

/// Writes `hide_post_button`.
pub fn write_hide_post_button(out: &mut String, id: i64)
    ensures
        final(out)@ == old(out)@ + hide_post_button(id),
{
    push_str(out, "\n                         <div class=\"admin-button\">\n                            <input type=\"submit\" value=\"hide\">\n                            <input type=\"hidden\" name=\"id\" value=\"");
    push_decimal(out, id);
    push_str(out, "\">\n                        </div>\n                        ");
    assert(out@ =~= old(out)@ + hide_post_button(id));
}

/// Links to the given replies, separated by semicolons.
pub open spec fn reply_links(tid: i64, ids: Seq<i64>) -> Seq<char>
    decreases ids.len(),
{
    if ids.len() == 0 {
        Seq::empty()
    } else if ids.len() == 1 {
        reply_link(tid, ids[0])
    } else {
        reply_links(tid, ids.drop_last()) + ";"@ + reply_link(tid, ids.last())
    }
}

/// The replies after a post's header: a bar and the links, if there are any.
pub open spec fn replies_part(tid: i64, ids: Seq<i64>) -> Seq<char> {
    if ids.len() > 0 {
        "|"@ + reply_links(tid, ids)
    } else {
        Seq::empty()
    }
}

/// Writes `replies_part`.
pub fn write_replies_part(out: &mut String, tid: i64, ids: &Vec<i64>)
    ensures
        final(out)@ == old(out)@ + replies_part(tid, ids@),
{
    if ids.len() == 0 {
        assert(old(out)@ + replies_part(tid, ids@) =~= old(out)@);
        return;
    }
    push_str(out, "|");
    let ghost start = out@;
    let mut i: usize = 0;
    while i < ids.len()
        invariant
            i <= ids@.len(),
            out@ == start + reply_links(tid, ids@.take(i as int)),
        decreases ids@.len() - i,
    {
        if i > 0 {
            push_str(out, ";");
        }
        write_reply_link(out, tid, ids[i]);
        assert(ids@.take(i + 1).drop_last() =~= ids@.take(i as int));
        assert(out@ =~= start + reply_links(tid, ids@.take(i + 1)));
        i = i + 1;
    }
    assert(ids@.take(ids@.len() as int) =~= ids@);
    assert(out@ =~= old(out)@ + replies_part(tid, ids@));
}

/// A post of thread `tid` as shown to a visitor who is (or is not) an
/// admin. A post whose image is missing shows as nothing.
pub open spec fn post_html(db: DbV, tid: i64, admin: bool, p: PostV) -> Result<Seq<char>, ErrorV> {
    match user_tag(db, p.author) {
        Err(e) => Err(e),
        Ok(uname) => {
            let img = match p.file {
                None => Some(Seq::<char>::empty()),
                Some(fid) => match db.file(fid) {
                    None => None,
                    Some(f) => Some(image_tag(f.id)),
                },
            };
            match img {
                None => Ok(Seq::empty()),
                Some(img) => Ok(post_box(
                    p.id,
                    tid,
                    uname,
                    time_span(p.time),
                    replies_part(tid, db.replies_to(p.id)),
                    img,
                    post_markup(tid, escaped(p.cont)),
                    if admin { hide_post_button(p.id) } else { Seq::empty() },
                )),
            }
        },
    }
}

/// The given posts one after another; the first post that fails fails all.
pub open spec fn posts_html(db: DbV, tid: i64, admin: bool, ps: Seq<PostV>) -> Result<Seq<char>, ErrorV>
    decreases ps.len(),
{
    if ps.len() == 0 {
        Ok(Seq::empty())
    } else {
        match posts_html(db, tid, admin, ps.drop_last()) {
            Err(e) => Err(e),
            Ok(s) => match post_html(db, tid, admin, ps.last()) {
                Err(e) => Err(e),
                Ok(h) => Ok(s + h),
            },
        }
    }
}

/// Once a prefix of the posts fails, the whole list fails the same way.
proof fn lemma_posts_html_fails(db: DbV, tid: i64, admin: bool, ps: Seq<PostV>, k: int, e: ErrorV)
    requires
        0 <= k <= ps.len(),
        posts_html(db, tid, admin, ps.take(k)) == Err::<Seq<char>, ErrorV>(e),
    ensures
        posts_html(db, tid, admin, ps) == Err::<Seq<char>, ErrorV>(e),
    decreases ps.len() - k,
{
    if k == ps.len() {
        assert(ps.take(k) =~= ps);
    } else {
        assert(ps.take(k + 1).drop_last() =~= ps.take(k));
        lemma_posts_html_fails(db, tid, admin, ps, k + 1, e);
    }
}

/// Makes one post of `post_html`.
fn make_post(db: &Db, tid: i64, admin: bool, p: &Post) -> (r: Result<String, Error>)
    requires
        db@.wf(),
    ensures
        match r {
            Ok(s) => post_html(db@, tid, admin, p@) == Ok::<Seq<char>, ErrorV>(s@),
            Err(e) => post_html(db@, tid, admin, p@) == Err::<Seq<char>, ErrorV>(e@),
        },
{
    let uname = match make_user_tag(db, p.author) {
        Ok(u) => u,
        Err(e) => return Err(e),
    };
    let esc = escape(p.cont.as_str());
    let cont = match posts(tid, esc.as_str()) {
        Ok(c) => c,
        Err(e) => return Err(e),
    };
    let mut img = String::new();
    match p.file {
        Some(fid) => match db.get_file(fid) {
            Ok(f) => write_image_tag(&mut img, f.id),
            Err(_) => return Ok(String::new()),
        },
        None => {},
    }
    let replies = match db.get_post_replies(p.id) {
        Ok(v) => v,
        Err(e) => return Err(e),
    };
    let mut rp = String::new();
    write_replies_part(&mut rp, tid, &replies);
    let mut hide = String::new();
    if admin {
        write_hide_post_button(&mut hide, p.id);
    }
    let mut time = String::new();
    write_time_span(&mut time, p.time);
    let mut out = String::new();
    write_post_box(&mut out, p.id, tid, uname.as_str(), time.as_str(), rp.as_str(), img.as_str(), cont.as_str(), hide.as_str());
    proof {
        assert(img@ =~= match p@.file {
            None => Seq::<char>::empty(),
            Some(fid) => image_tag(fid),
        });
        assert(hide@ =~= if admin { hide_post_button(p.id) } else { Seq::<char>::empty() });
    }
    Ok(out)
}

/// Makes the posts of `posts_html`.
fn make_posts(db: &Db, tid: i64, admin: bool, ps: &Vec<Post>) -> (r: Result<String, Error>)
    requires
        db@.wf(),
    ensures
        match r {
            Ok(s) => posts_html(db@, tid, admin, views(ps@)) == Ok::<Seq<char>, ErrorV>(s@),
            Err(e) => posts_html(db@, tid, admin, views(ps@)) == Err::<Seq<char>, ErrorV>(e@),
        },
{
    let ghost v = views(ps@);
    let mut out = String::new();
    let mut i: usize = 0;
    assert(v.take(0).len() == 0);
    while i < ps.len()
        invariant
            db@.wf(),
            i <= ps@.len(),
            v == views(ps@),
            posts_html(db@, tid, admin, v.take(i as int)) == Ok::<Seq<char>, ErrorV>(out@),
        decreases ps@.len() - i,
    {
        assert(v.take(i + 1).drop_last() =~= v.take(i as int));
        assert(v.take(i + 1).last() == v[i as int]);
        match make_post(db, tid, admin, &ps[i]) {
            Ok(h) => push_str(&mut out, h.as_str()),
            Err(e) => {
                proof {
                    lemma_posts_html_fails(db@, tid, admin, v, i + 1, e@);
                }
                return Err(e);
            },
        }
        i = i + 1;
    }
    assert(v.take(v.len() as int) =~= v);
    Ok(out)
}

/// The image of a thread's opening post, if it has one.
pub open spec fn thread_image(db: DbV, t: ThreadV) -> Result<Seq<char>, ErrorV> {
    match t.file {
        None => Ok(Seq::empty()),
        Some(fid) => match db.file(fid) {
            None => Err(ErrorV::FileNotFound(fid)),
            Some(f) => Ok(image_tag(f.id)),
        },
    }
}

/// The admin's button on a thread: hide it, or show it again.
pub open spec fn thread_admin_part(admin: bool, t: ThreadV) -> Seq<char> {
    if admin {
        if t.hidden {
            unhide_thread_form(t.id)
        } else {
            hide_thread_form(t.id)
        }
    } else {
        Seq::empty()
    }
}

/// The body of thread `t` on board `b` for user `me`.
pub open spec fn thread_body(db: DbV, me: UserV, t: ThreadV, b: BoardV) -> Result<Seq<char>, FaultV> {
    match user_tag(db, t.author) {
        Err(e) => Err(FaultV::Bare(e)),
        Ok(uname) => match thread_image(db, t) {
            Err(e) => Err(FaultV::Back(e, board_addr(t.board))),
            Ok(img) => match posts_html(db, t.id, me.admin, db.posts.rows.filter(post_visible_in_thread(t.id))) {
                Err(e) => Err(FaultV::Bare(e)),
                Ok(ps) => Ok(thread_main(
                    b.name,
                    t.name,
                    thread_admin_part(me.admin, t),
                    back_link(b.name, t.id),
                    t.id,
                    uname,
                    thread_time(t.time),
                    img,
                    post_markup(t.id, escaped(t.cont)),
                    ps,
                    if is_locked(t.locked) { locked_notice() } else { new_post_form(t.id) },
                )),
            },
        },
    }
}

/// Who asks for thread `id`, the thread and its board; or why not.
pub open spec fn thread_lookup(db: DbV, session: Option<Seq<char>>, id: i64) -> Result<(UserV, ThreadV, BoardV), FaultV> {
    match db.signed_in(session) {
        Err(e) => Err(FaultV::Bare(e)),
        Ok(me) => match db.thread(id) {
            None => Err(FaultV::Bare(ErrorV::ThreadNotFound(id))),
            Some(t) => match db.board(t.board) {
                None => Err(FaultV::Back(ErrorV::BoardNotFound(t.board), board_addr(t.board))),
                Some(b) => Ok((me, t, b)),
            },
        },
    }
}

/// The page of thread `id` for the visitor with token `session`, at time
/// `time`: the thread is first marked as read by the visitor; the database
/// after that, and the page or its fault.
pub open spec fn thread_view(
    db: DbV,
    frame: Frame,
    site_title: Seq<char>,
    session: Option<Seq<char>>,
    id: i64,
    time: i64,
) -> (DbV, Result<Seq<char>, FaultV>) {
    match thread_lookup(db, session, id) {
        Err(f) => (db, Err(f)),
        Ok((me, t, b)) => {
            let (db2, m) = db.add_read(me.id, t.id, time);
            match m {
                Err(e) => (db2, Err(FaultV::Back(e, board_addr(t.board)))),
                Ok(_) => (db2, match thread_body(db2, me, t, b) {
                    Err(f) => Err(f),
                    Ok(body) => match page_text(db2, frame.themes@, frame.base_css@, frame.script@, site_title, Some(me.id), t.name, body) {
                        Err(e) => Err(FaultV::Bare(e)),
                        Ok(p) => Ok(p),
                    },
                }),
            }
        },
    }
}

fn lookup_thread(db: &Db, session: Option<&str>, id: i64) -> (r: Result<(User, Thread, Board), Fault>)
    requires
        db@.wf(),
    ensures
        match thread_lookup(db@, opt_str(session), id) {
            Ok((me, t, b)) => r matches Ok((u2, t2, b2)) && u2@ == me && t2@ == t && b2@ == b,
            Err(f) => r matches Err(g) && g@ == f,
        },
{
    let me = match db.me(session) {
        Ok(u) => u,
        Err(e) => return Err(Fault::Bare(e)),
    };
    let t = match db.get_thread(id) {
        Ok(t) => t,
        Err(e) => return Err(Fault::Bare(e)),
    };
    let b = match db.get_board(t.board) {
        Ok(b) => b,
        Err(e) => return Err(Fault::Back(e, make_board_addr(t.board))),
    };
    Ok((me, t, b))
}

/// Makes the body of `thread_body`.
fn make_thread_body(db: &Db, me: &User, t: &Thread, b: &Board) -> (r: Result<String, Fault>)
    requires
        db@.wf(),
    ensures
        shown(r) == thread_body(db@, me@, t@, b@),
{
    let uname = match make_user_tag(db, t.author) {
        Ok(u) => u,
        Err(e) => return Err(Fault::Bare(e)),
    };
    let mut img = String::new();
    match t.file {
        Some(fid) => match db.get_file(fid) {
            Ok(f) => write_image_tag(&mut img, f.id),
            Err(e) => return Err(Fault::Back(e, make_board_addr(t.board))),
        },
        None => {},
    }
    assert(thread_image(db@, t@) == Ok::<Seq<char>, ErrorV>(img@));
    let esc = escape(t.cont.as_str());
    let cont = match posts(t.id, esc.as_str()) {
        Ok(c) => c,
        Err(e) => return Err(Fault::Bare(e)),
    };
    let mut back = String::new();
    write_back_link(&mut back, b.name.as_str(), t.id);
    let mut admin_part = String::new();
    if me.admin {
        if t.hidden {
            write_unhide_thread_form(&mut admin_part, t.id);
        } else {
            write_hide_thread_form(&mut admin_part, t.id);
        }
    }
    assert(admin_part@ =~= thread_admin_part(me.admin, t@));
    let mut new_post = String::new();
    if t.locked() {
        write_locked_notice(&mut new_post);
    } else {
        write_new_post_form(&mut new_post, t.id);
    }
    assert(new_post@ =~= if is_locked(t.locked) { locked_notice() } else { new_post_form(t.id) });
    let ps = match db.get_visible_posts(t.id) {
        Ok(ps) => ps,
        Err(e) => return Err(Fault::Bare(e)),
    };
    let psh = match make_posts(db, t.id, me.admin, &ps) {
        Ok(s) => s,
        Err(e) => return Err(Fault::Bare(e)),
    };
    let mut time = String::new();
    write_thread_time(&mut time, t.time);
    let mut out = String::new();
    write_thread_main(
        &mut out,
        b.name.as_str(),
        t.name.as_str(),
        admin_part.as_str(),
        back.as_str(),
        t.id,
        uname.as_str(),
        time.as_str(),
        img.as_str(),
        cont.as_str(),
        psh.as_str(),
        new_post.as_str(),
    );
    Ok(out)
}

/// Marks the thread read at `time`, then makes its page.
fn finish_thread_page(db: &mut Db, frame: &Frame, cfg: &Cfg, me: &User, t: &Thread, b: &Board, time: i64) -> (r: Result<String, Fault>)
    requires
        old(db)@.wf(),
    ensures
        final(db)@.wf(),
        final(db)@ == old(db)@.add_read(me.id, t.id, time).0,
        shown(r) == match old(db)@.add_read(me.id, t.id, time).1 {
            Err(e) => Err(FaultV::Back(e, board_addr(t.board))),
            Ok(_) => match thread_body(final(db)@, me@, t@, b@) {
                Err(f) => Err(f),
                Ok(body) => match page_text(final(db)@, frame.themes@, frame.base_css@, frame.script@, cfg.site_title(), Some(me.id), t.name@, body) {
                    Err(e) => Err(FaultV::Bare(e)),
                    Ok(p) => Ok(p),
                },
            },
        },
{
    match db.mark_as_read_at(me.id, t.id, time) {
        Ok(()) => {},
        Err(e) => return Err(Fault::Back(e, make_board_addr(t.board))),
    }
    let body = match make_thread_body(db, me, t, b) {
        Ok(s) => s,
        Err(f) => return Err(f),
    };
    match page(db, frame, cfg, Some(me.id), t.name.as_str(), body.as_str()) {
        Ok(p) => Ok(p),
        Err(e) => Err(Fault::Bare(e)),
    }
}

/// The page of thread `id` at time `time` (see `thread_view`).
pub fn by_id_at(db: &mut Db, frame: &Frame, cfg: &Cfg, session: Option<&str>, id: i64, time: i64) -> (r: Result<String, Fault>)
    requires
        old(db)@.wf(),
    ensures
        final(db)@.wf(),
        final(db)@ == thread_view(old(db)@, *frame, cfg.site_title(), opt_str(session), id, time).0,
        shown(r) == thread_view(old(db)@, *frame, cfg.site_title(), opt_str(session), id, time).1,
{
    let (me, t, b) = match lookup_thread(db, session, id) {
        Ok(x) => x,
        Err(f) => return Err(f),
    };
    finish_thread_page(db, frame, cfg, &me, &t, &b, time)
}

/// The page of thread `id` for the visitor with token `session`, marked
/// read at the current time. Where the clock cannot be read, the error page
/// links back to the thread's board and nothing changes.
pub fn by_id(db: &mut Db, frame: &Frame, cfg: &Cfg, session: Option<&str>, id: i64) -> (r: Result<String, Fault>)
    requires
        old(db)@.wf(),
    ensures
        final(db)@.wf(),
        match thread_lookup(old(db)@, opt_str(session), id) {
            Err(f) => final(db)@ == old(db)@ && shown(r) == Err::<Seq<char>, FaultV>(f),
            Ok((me, t, b)) => {
                ||| final(db)@ == old(db)@ && shown(r) == Err::<Seq<char>, FaultV>(FaultV::Back(ErrorV::Clock, board_addr(t.board)))
                ||| exists|time: i64|
                    final(db)@ == #[trigger] thread_view(old(db)@, *frame, cfg.site_title(), opt_str(session), id, time).0
                    && shown(r) == thread_view(old(db)@, *frame, cfg.site_title(), opt_str(session), id, time).1
            },
        },
{
    let (me, t, b) = match lookup_thread(db, session, id) {
        Ok(x) => x,
        Err(f) => return Err(f),
    };
    let time = match now() {
        Ok(x) => x,
        Err(e) => return Err(Fault::Back(e, make_board_addr(t.board))),
    };
    let r = finish_thread_page(db, frame, cfg, &me, &t, &b, time);
    assert(final(db)@ == thread_view(old(db)@, *frame, cfg.site_title(), opt_str(session), id, time).0);
    r
}

} // verus!
