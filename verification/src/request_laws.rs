//! What the requests of the forum promise together: a refused request
//! changes nothing, signing in lets the visitor in, reading a thread marks
//! it read, the lock button turns the lock around, and text without links
//! is shown as it is.

use vstd::prelude::*;
use vstd::utf8::{encode_utf8, decode_utf8};
use crate::actions::{
    login_view, new_post_view, new_thread_view, update_user_view, hide_thread_view, hide_post_view,
    hide_board_view, lock_thread_view, unhide_view, login_check, new_post_check, byte_len,
};
use crate::html::escaped;
use crate::pages::user::{user_body, update_part, css_part};
use crate::records::{UserV, ThreadV};
use crate::css::ThemeV;
use crate::laws::{law_new_session, law_new_session_signs_in, law_marked_thread_is_read, law_thread_flags, lemma_find_by_position};
use crate::model::{DbV, has_room, first, keyed, session_hash_is, user_named, contains_text, set_user_bio, set_thread_hidden, set_post_hidden, set_board_hidden};
use crate::page::Frame;
use crate::pages::FaultV;
use crate::pages::thread::{thread_lookup, thread_view};
use crate::records::{User, Session, is_locked};
use crate::seqs::{lemma_filter_members, lemma_filter_subset, lemma_all_fail_filter_empty};
use crate::x::{post_markup, rewritten, rewritten_prefix, link_matches, reply_matches, span_end, text_between};

verus! {

broadcast use {vstd::seq_lib::group_seq_lib_default, vstd::utf8::group_utf8_lib};

/// A request answered with a refusal page leaves the database as it was:
/// the forms are checked before anything is written.
pub proof fn law_refusals_change_nothing(
    d: DbV,
    themes: Seq<ThemeV>,
    session: Option<Seq<char>>,
    id: i64,
    ty: char,
    flag: bool,
    a: Seq<char>,
    b: Seq<char>,
    c: Seq<char>,
    file: Option<Seq<u8>>,
    hashed: Option<Seq<char>>,
    goto: Option<Seq<char>>,
    time: i64,
)
    ensures
        login_view(d, a, b, c).1 matches Err(FaultV::Refused(_, _)) ==> login_view(d, a, b, c).0 == d,
        new_post_view(d, session, id, a, file, time).1 matches Err(FaultV::Refused(_, _))
            ==> new_post_view(d, session, id, a, file, time).0 == d,
        new_thread_view(d, session, a, b, c, file, time).1 matches Err(FaultV::Refused(_, _))
            ==> new_thread_view(d, session, a, b, c, file, time).0 == d,
        update_user_view(d, themes, session, a, b, c, hashed).1 matches Err(FaultV::Refused(_, _))
            ==> update_user_view(d, themes, session, a, b, c, hashed).0 == d,
        hide_thread_view(d, session, id, goto).1 matches Err(FaultV::Refused(_, _))
            ==> hide_thread_view(d, session, id, goto).0 == d,
        hide_post_view(d, session, id).1 matches Err(FaultV::Refused(_, _)) ==> hide_post_view(d, session, id).0 == d,
        hide_board_view(d, session, id).1 matches Err(FaultV::Refused(_, _)) ==> hide_board_view(d, session, id).0 == d,
        lock_thread_view(d, session, id, flag).1 matches Err(FaultV::Refused(_, _))
            ==> lock_thread_view(d, session, id, flag).0 == d,
        unhide_view(d, session, id, ty, goto).1 matches Err(FaultV::Refused(_, _))
            ==> unhide_view(d, session, id, ty, goto).0 == d,
{
}

/// The lock button turns the lock around: where an admin asks and the
/// thread and its board exist, the thread is afterwards locked exactly when
/// the form said it was not.
pub proof fn law_lock_button_toggles(d: DbV, session: Option<Seq<char>>, id: i64, locked: bool)
    requires
        d.wf(),
        d.signed_in(session) matches Ok(me) && me.admin,
        d.thread(id) matches Some(t) && d.board(t.board).is_some(),
    ensures
        ({
            let (d2, r) = lock_thread_view(d, session, id, locked);
            &&& r is Ok
            &&& d2.thread(id) matches Some(t) && is_locked(t.locked) == !locked
        }),
{
    law_thread_flags(d, id, !locked);
    let t = d.thread(id).unwrap();
    lemma_filter_members(d.threads.rows, keyed::<crate::records::Thread>(id));
    assert(t.id == id);
}

/// Looking at a thread marks it read for the visitor, when the marker's time
/// is no earlier than the thread's other markers.
pub proof fn law_viewed_thread_is_read(
    d: DbV,
    frame: Frame,
    site_title: Seq<char>,
    session: Option<Seq<char>>,
    id: i64,
    time: i64,
)
    requires
        d.wf(),
        has_room(d.reads),
        thread_lookup(d, session, id) is Ok,
        forall|i: int| 0 <= i < d.reads.rows.len() && (#[trigger] d.reads.rows[i]).thread == id
            ==> d.reads.rows[i].time <= time,
    ensures
        ({
            let (me, t, b) = thread_lookup(d, session, id)->Ok_0;
            thread_view(d, frame, site_title, session, id, time).0.read_state(me.id, id)
        }),
{
    let (me, t, b) = thread_lookup(d, session, id)->Ok_0;
    lemma_filter_members(d.threads.rows, keyed::<crate::records::Thread>(id));
    assert(t.id == id);
    law_marked_thread_is_read(d, me.id, id, time);
}

/// Signing in lets the visitor in: the token that signing in answers is the
/// new session's, and where no earlier session holds that token, it signs in
/// the user who was named.
pub proof fn law_login_lets_in(d: DbV, user: Seq<char>, pass: Seq<char>, token: Seq<char>)
    requires
        d.wf(),
        forall|i: int| 0 <= i < d.sessions.rows.len() ==> (#[trigger] d.sessions.rows[i]).hash != token,
        login_view(d, user, pass, token).1 is Ok,
    ensures
        ({
            let (d2, r) = login_view(d, user, pass, token);
            &&& r->Ok_0 == token
            &&& d2.signed_in(Some(r->Ok_0)) == Ok::<crate::records::UserV, crate::model::ErrorV>(d.user_by_name(user).unwrap())
        }),
{
    let u = login_check(d, user, pass)->Ok_0;
    law_new_session_signs_in(d, u.id, token, token);
    // the user found by id is the user found by name
    let pn = user_named(user);
    lemma_filter_members(d.users.rows, pn);
    assert(d.users.rows.filter(pn).contains(u));
    lemma_filter_subset(d.users.rows, pn, u);
    let m = choose|m: int| 0 <= m < d.users.rows.len() && d.users.rows[m] == u;
    lemma_find_by_position::<User>(d.users, m);
    assert(d.add_session(u.id, token).0.users == d.users);
}

/// Text in which the patterns find no link and no reply marker is shown as
/// it is.
pub proof fn law_plain_text_unchanged(tid: i64, x: Seq<char>)
    requires
        link_matches(x).len() == 0,
        reply_matches(x).len() == 0,
    ensures
        post_markup(tid, x) == x,
{
    let b = encode_utf8(x);
    assert(b.subrange(0, b.len() as int) =~= b);
    assert(rewritten_prefix(b, link_matches(x), crate::x::link_anchor(), 0) == Seq::<char>::empty());
    assert(rewritten(b, link_matches(x), crate::x::link_anchor()) =~= x);
    assert(rewritten(b, reply_matches(x), crate::x::reply_anchor(tid)) =~= x);
}

/// A post with an image passes the form check whatever its text: the check
/// lets a post through exactly when the visitor is signed in, the thread
/// exists, the text has at most 2048 bytes, and the post has text or a
/// non-empty image; it then answers the visitor and the thread.
pub proof fn law_post_form_needs_text_or_image(
    db: DbV,
    session: Option<Seq<char>>,
    thread: i64,
    cont: Seq<char>,
    file: Option<Seq<u8>>,
)
    ensures
        new_post_check(db, session, thread, cont, file) is Ok <==> {
            &&& db.signed_in(session) is Ok
            &&& db.thread(thread) is Some
            &&& byte_len(cont) <= 2048
            &&& (cont.len() > 0 || (file matches Some(b) && b.len() > 0))
        },
        new_post_check(db, session, thread, cont, file) matches Ok((me, t))
            ==> me == db.signed_in(session)->Ok_0 && t == db.thread(thread)->Some_0,
        ({
            &&& db.signed_in(session) is Ok
            &&& db.thread(thread) is Some
            &&& byte_len(cont) <= 2048
            &&& file matches Some(b) && b.len() > 0
        }) ==> new_post_check(db, session, thread, cont, file)
            == Ok::<(UserV, ThreadV), FaultV>((db.signed_in(session)->Ok_0, db.thread(thread)->Some_0)),
{
}

/// The page of a user shows that user's bio, whoever looks at it: the bio
/// stands escaped in a paragraph, and the visitor's own bio plays no part.
pub proof fn law_user_page_shows_their_bio(db: DbV, themes: Seq<ThemeV>, me: UserV, u: UserV, other: Seq<char>)
    ensures
        user_body(db, themes, me, u) == user_body(db, themes, set_user_bio(other)(me), u),
        contains_text(user_body(db, themes, me, u), "<p>"@ + escaped(u.bio) + "</p>"@),
{
    let admin = if u.admin { "(admin)"@ } else { Seq::<char>::empty() };
    let name = escaped(u.name);
    let bio = escaped(u.bio);
    let upd = update_part(themes, me, u);
    let cp = css_part(db, me, u);
    reveal_strlit("\n        <h1>~");
    reveal_strlit(" ");
    reveal_strlit("</h1>\n        <p>");
    reveal_strlit("</h1>\n        ");
    reveal_strlit("<p>");
    reveal_strlit("</p>");
    reveal_strlit("</p>\n\n        <h3>update user info</h3>\n        <form method=\"post\" action=\"/act/update-user\">\n            ");
    reveal_strlit("\n\n        <h3>update user info</h3>\n        <form method=\"post\" action=\"/act/update-user\">\n            ");
    assert("</h1>\n        <p>"@ =~= "</h1>\n        "@ + "<p>"@);
    assert("</p>\n\n        <h3>update user info</h3>\n        <form method=\"post\" action=\"/act/update-user\">\n            "@
        =~= "</p>"@ + "\n\n        <h3>update user info</h3>\n        <form method=\"post\" action=\"/act/update-user\">\n            "@);
    let pre = "\n        <h1>~"@ + name + " "@ + admin + "</h1>\n        "@;
    let mid = "<p>"@ + bio + "</p>"@;
    let body = user_body(db, themes, me, u);
    let rest = body.skip((pre.len() + mid.len()) as int);
    assert(body =~= pre + mid + rest);
    assert(body.subrange(pre.len() as int, (pre.len() + mid.len()) as int) =~= mid);
}

/// Unhiding shows the record of the kind asked for and leaves the other
/// kinds alone: with `t` the thread of that id is visible again and no post
/// or board changes; with `p` the post is visible and no thread or board
/// changes; with `b` the board is visible and no thread or post changes.
pub proof fn law_unhide_shows_the_named_record(
    d: DbV,
    session: Option<Seq<char>>,
    id: i64,
    ty: char,
    goto: Option<Seq<char>>,
)
    requires
        d.wf(),
        unhide_view(d, session, id, ty, goto).1 is Ok,
    ensures
        ({
            let d2 = unhide_view(d, session, id, ty, goto).0;
            &&& ty == 't' ==> (d2.thread(id) matches Some(t) && !t.hidden) && d2.posts == d.posts && d2.boards == d.boards
            &&& ty == 'p' ==> (d2.post(id) matches Some(p) && !p.hidden) && d2.threads == d.threads && d2.boards == d.boards
            &&& ty == 'b' ==> (d2.board(id) matches Some(b) && !b.hidden) && d2.threads == d.threads && d2.posts == d.posts
        }),
{
    let d2 = unhide_view(d, session, id, ty, goto).0;
    if ty == 't' {
        let (d3, r) = d.thread_updated(id, set_thread_hidden(false));
        assert(r is Ok);
        law_thread_flags(d, id, false);
        assert(d2 == d3);
    } else if ty == 'p' {
        let (d3, r) = d.post_updated(id, set_post_hidden(false));
        assert(r is Ok);
        crate::laws::law_post_hidden_flag(d, id, false);
        assert(d2 == d3);
    } else if ty == 'b' {
        let (d3, r) = d.board_updated(id, set_board_hidden(false));
        assert(r is Ok);
        crate::laws::lemma_updated_found::<crate::records::Board>(d.boards, id, set_board_hidden(false));
        assert(d2 == d3);
    }
}

/// An admin who unhides an existing thread gets it back visible, and the
/// answer is the admin panel (or the address asked for).
pub proof fn law_unhide_thread_succeeds(d: DbV, session: Option<Seq<char>>, id: i64, goto: Option<Seq<char>>)
    requires
        d.wf(),
        d.signed_in(session) matches Ok(me) && me.admin,
        d.thread(id) is Some,
    ensures
        ({
            let (d2, r) = unhide_view(d, session, id, 't', goto);
            &&& r == Ok::<Seq<char>, FaultV>(match goto { Some(g) => g, None => "/admin"@ })
            &&& d2.thread(id) matches Some(t) && !t.hidden
        }),
{
    law_thread_flags(d, id, false);
}

} // verus!
