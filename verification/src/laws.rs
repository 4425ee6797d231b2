//! What the forum's operations promise together: a row that was written can
//! be read back, a flag that was set is seen set, a locked thread refuses
//! posts, a marked thread reads as read, and so on.

use vstd::prelude::*;
use crate::records::{Record, User, UserV, Session, SessionV, Board, BoardV, Thread, ThreadV, Post, PostV, Css, CssV, ReadV, is_locked};
use crate::model::{
    thread_on_board,
    ErrorV, TableV, DbV, table_wf, appended, next_id, has_room, first, last_of, keyed, updated, deleted,
    not_keyed, user_named, board_named, board_visible, thread_visible, post_visible_in_thread,
    session_of_user, css_of_user, post_in_thread, read_in_thread, latest_post_in, latest_read_in,
    set_user_admin, set_user_bio, set_user_hash, set_user_theme, set_board_hidden, set_thread_hidden,
    set_thread_locked, set_post_hidden, theme_text, max_post_time,
};
use crate::seqs::{lemma_filter_members, lemma_all_fail_filter_empty, lemma_filter_subset};

verus! {

broadcast use vstd::seq_lib::group_seq_lib_default;

/// A row appended under the next id is the one row of that id.
pub proof fn lemma_appended_found<T: Record>(t: TableV<T::V>, row: T::V)
    requires
        table_wf::<T>(t),
        has_room(t),
        T::key(row) == next_id(t),
    ensures
        first(appended(t, row).rows.filter(keyed::<T>(T::key(row)))) == Some(row),
        table_wf::<T>(appended(t, row)),
{
    let p = keyed::<T>(T::key(row));
    assert forall|j: int| 0 <= j < t.rows.len() implies !p(#[trigger] t.rows[j]) by {
        assert(T::key(t.rows[j]) <= t.last);
    }
    lemma_all_fail_filter_empty(t.rows, p);
    t.rows.lemma_filter_push(row, p);
    assert(t.rows.filter(p).push(row) =~= seq![row]);
}

/// The row that a changed row of id `id` is found as.
pub proof fn lemma_updated_found<T: Record>(t: TableV<T::V>, id: i64, f: spec_fn(T::V) -> T::V)
    requires
        table_wf::<T>(t),
        first(t.rows.filter(keyed::<T>(id))).is_some(),
        forall|v: T::V| #[trigger] T::key(f(v)) == T::key(v),
    ensures
        first(updated::<T>(t, id, f).rows.filter(keyed::<T>(id)))
            == Some(f(first(t.rows.filter(keyed::<T>(id))).unwrap())),
{
    let p = keyed::<T>(id);
    let s = t.rows;
    let u = updated::<T>(t, id, f).rows;
    lemma_filter_members(s, p);
    let x = s.filter(p)[0];
    assert(s.filter(p).contains(x));
    lemma_filter_subset(s, p, x);
    let i = choose|i: int| 0 <= i < s.len() && s[i] == x;
    assert forall|j: int| 0 <= j < i implies !p(#[trigger] s[j]) by {
        assert(T::key(s[j]) < T::key(s[i]));
    }
    assert forall|j: int| 0 <= j < i implies !p(#[trigger] u.take(i)[j]) by {
        assert(u[j] == s[j]);
    }
    lemma_all_fail_filter_empty(u.take(i), p);
    assert(u[i] == f(s[i]));
    crate::seqs::lemma_first_match(u, p, i);
}

/// A new user is found by its id and by its name.
pub proof fn law_new_user_found(d: DbV, n: Seq<char>, h: Seq<char>)
    requires
        d.wf(),
        d.add_user(n, h).1 is Ok,
    ensures
        ({
            let (d2, r) = d.add_user(n, h);
            let u = r->Ok_0;
            &&& d2.wf()
            &&& u.name == n && u.hash == h && !u.admin
            &&& d2.user(u.id) == Some(u)
            &&& d2.user_by_name(n) == Some(u)
        }),
{
    let u = d.add_user(n, h).1->Ok_0;
    lemma_appended_found::<User>(d.users, u);
    let p = user_named(n);
    d.users.rows.lemma_filter_push(u, p);
    assert(d.users.rows.filter(p).len() == 0);
    assert(d.users.rows.filter(p).push(u) =~= seq![u]);
}

/// Making a user admin, or taking it back, is seen on the user.
pub proof fn law_admin_flag(d: DbV, id: i64, b: bool)
    requires
        d.wf(),
        d.user(id).is_some(),
    ensures
        ({
            let d2 = d.with_users(updated::<User>(d.users, id, set_user_admin(b)));
            &&& d2.wf()
            &&& d2.user(id) matches Some(u) && u.admin == b
        }),
{
    lemma_updated_found::<User>(d.users, id, set_user_admin(b));
    lemma_updated_wf::<User>(d.users, id, set_user_admin(b));
}

/// A changed table keeps its ids, so stays well formed.
pub proof fn lemma_updated_wf<T: Record>(t: TableV<T::V>, id: i64, f: spec_fn(T::V) -> T::V)
    requires
        table_wf::<T>(t),
        forall|v: T::V| #[trigger] T::key(f(v)) == T::key(v),
    ensures
        table_wf::<T>(updated::<T>(t, id, f)),
{
    let u = updated::<T>(t, id, f);
    assert forall|i: int| 0 <= i < u.rows.len() implies T::key(#[trigger] u.rows[i]) == T::key(t.rows[i]) by {}
    assert forall|i: int, j: int| 0 <= i < j < u.rows.len() implies T::key(u.rows[i]) < T::key(u.rows[j]) by {
        assert(T::key(u.rows[i]) == T::key(t.rows[i]));
        assert(T::key(u.rows[j]) == T::key(t.rows[j]));
    }
}

/// A removed user is no longer found.
pub proof fn law_removed_user_gone(d: DbV, id: i64)
    requires
        d.wf(),
    ensures
        d.with_users(deleted::<User>(d.users, id)).user(id).is_none(),
{
    let s = d.users.rows.filter(not_keyed::<User>(id));
    assert forall|j: int| 0 <= j < s.len() implies !keyed::<User>(id)(#[trigger] s[j]) by {
        lemma_filter_members(d.users.rows, not_keyed::<User>(id));
    }
    lemma_all_fail_filter_empty(s, keyed::<User>(id));
}

/// A new session is the row just added: it belongs to its user, carries
/// the token it was made with, has an id above every earlier session's, and
/// is found by that id; the earlier sessions stay as they were.
pub proof fn law_new_session(d: DbV, user: i64, h: Seq<char>)
    requires
        d.wf(),
        d.add_session(user, h).1 is Ok,
    ensures
        ({
            let (d2, r) = d.add_session(user, h);
            let s = r->Ok_0;
            &&& d2.wf()
            &&& s.user == user && s.hash == h && s.id == next_id(d.sessions)
            &&& forall|i: int| 0 <= i < d.sessions.rows.len() ==> (#[trigger] d.sessions.rows[i]).id < s.id
            &&& d2.sessions.rows == d.sessions.rows.push(s)
            &&& first(d2.sessions.rows.filter(keyed::<Session>(s.id))) == Some(s)
        }),
{
    let s = SessionV { id: next_id(d.sessions), hash: h, user: user };
    lemma_appended_found::<Session>(d.sessions, s);
}

/// A new session signs its user in: where no earlier session holds its
/// token, that token answers the user the session was made for. Without a
/// token nobody is signed in, and a token that no session holds is refused.
pub proof fn law_new_session_signs_in(d: DbV, user: i64, h: Seq<char>, other: Seq<char>)
    requires
        d.wf(),
        d.add_session(user, h).1 is Ok,
        forall|i: int| 0 <= i < d.sessions.rows.len() ==> (#[trigger] d.sessions.rows[i]).hash != h,
    ensures
        ({
            let d2 = d.add_session(user, h).0;
            &&& d2.signed_in(Some(h)) == Ok::<UserV, ErrorV>(d.user(user).unwrap())
            &&& d2.signed_in(None) == Err::<UserV, ErrorV>(ErrorV::NotLoggedIn)
            &&& (forall|j: int| 0 <= j < d2.sessions.rows.len() ==> (#[trigger] d2.sessions.rows[j]).hash != other)
                ==> d2.signed_in(Some(other)) == Err::<UserV, ErrorV>(ErrorV::NoSession)
        }),
{
    law_new_session(d, user, h);
    let (d2, r) = d.add_session(user, h);
    let s = r->Ok_0;
    let rows2 = d2.sessions.rows;
    let k = d.sessions.rows.len() as int;
    assert(rows2[k] == s);
    let ph = crate::model::session_hash_is(h);
    assert forall|j: int| 0 <= j < k implies !ph(#[trigger] rows2.take(k)[j]) by {
        assert(rows2.take(k)[j] == d.sessions.rows[j]);
    }
    lemma_all_fail_filter_empty(rows2.take(k), ph);
    crate::seqs::lemma_first_match(rows2, ph, k);
    assert(d2.session_with_hash(h) == Some(s));
    assert(d2.users == d.users);
    if forall|j: int| 0 <= j < rows2.len() ==> (#[trigger] rows2[j]).hash != other {
        let po = crate::model::session_hash_is(other);
        assert forall|j: int| 0 <= j < rows2.len() implies !po(#[trigger] rows2[j]) by {}
        lemma_all_fail_filter_empty(rows2, po);
    }
}

/// A new board is found by its id and its name; asking again for a board of
/// an existing name changes nothing and answers that board.
pub proof fn law_new_board(d: DbV, n: Seq<char>, desc: Seq<char>)
    requires
        d.wf(),
        d.add_board(n, desc).1 is Ok,
    ensures
        ({
            let (d2, r) = d.add_board(n, desc);
            let b = r->Ok_0;
            &&& d2.wf()
            &&& b.name == n
            &&& d2.board(b.id) == Some(b)
            &&& d2.board_by_name(n) == Some(b)
            &&& d2.add_board(n, desc) == (d2, Ok::<BoardV, ErrorV>(b))
        }),
{
    let p = board_named(n);
    match d.board_by_name(n) {
        Some(b) => {
            lemma_filter_members(d.boards.rows, p);
            let x = d.boards.rows.filter(p)[0];
            assert(d.boards.rows.filter(p).contains(x));
            lemma_filter_subset(d.boards.rows, p, x);
            let i = choose|i: int| 0 <= i < d.boards.rows.len() && d.boards.rows[i] == x;
            lemma_find_by_position::<Board>(d.boards, i);
        },
        None => {
            let b = d.add_board(n, desc).1->Ok_0;
            lemma_appended_found::<Board>(d.boards, b);
            d.boards.rows.lemma_filter_push(b, p);
            assert(d.boards.rows.filter(p).push(b) =~= seq![b]);
        },
    }
}

/// The row at a position is the row found by its id.
pub proof fn lemma_find_by_position<T: Record>(t: TableV<T::V>, i: int)
    requires
        table_wf::<T>(t),
        0 <= i < t.rows.len(),
    ensures
        first(t.rows.filter(keyed::<T>(T::key(t.rows[i])))) == Some(t.rows[i]),
{
    let p = keyed::<T>(T::key(t.rows[i]));
    assert forall|j: int| 0 <= j < i implies !p(#[trigger] t.rows.take(i)[j]) by {
        assert(T::key(t.rows[j]) < T::key(t.rows[i]));
    }
    lemma_all_fail_filter_empty(t.rows.take(i), p);
    crate::seqs::lemma_first_match(t.rows, p, i);
}

/// Hiding or showing a board is seen on the board that is answered.
pub proof fn law_board_hidden_flag(d: DbV, id: i64, h: bool)
    requires
        d.wf(),
        d.board(id).is_some(),
    ensures
        ({
            let (d2, r) = d.board_updated(id, set_board_hidden(h));
            &&& d2.wf()
            &&& r matches Ok(b) && b.hidden == h && b.id == id
        }),
{
    lemma_updated_found::<Board>(d.boards, id, set_board_hidden(h));
    lemma_updated_wf::<Board>(d.boards, id, set_board_hidden(h));
    lemma_filter_members(d.boards.rows, keyed::<Board>(id));
}

/// A new thread is found by its id: visible, unlocked, on its board, with
/// no image when none was given.
pub proof fn law_new_thread(
    d: DbV,
    board: i64,
    author: i64,
    name: Seq<char>,
    cont: Seq<char>,
    time: i64,
)
    requires
        d.wf(),
        d.add_thread(board, author, name, cont, None, time).1 is Ok,
    ensures
        ({
            let (d2, r) = d.add_thread(board, author, name, cont, None, time);
            let t = r->Ok_0;
            &&& d2.wf()
            &&& t.name == name && t.cont == cont && !t.hidden && t.file.is_none()
            &&& !is_locked(t.locked) && t.board == board
            &&& d2.thread(t.id) == Some(t)
        }),
{
    let t = d.add_thread(board, author, name, cont, None, time).1->Ok_0;
    lemma_appended_found::<Thread>(d.threads, t);
}

/// Hiding, showing, locking or unlocking a thread is seen on the thread.
pub proof fn law_thread_flags(d: DbV, id: i64, b: bool)
    requires
        d.wf(),
        d.thread(id).is_some(),
    ensures
        ({
            let (d2, r) = d.thread_updated(id, set_thread_hidden(b));
            &&& d2.wf()
            &&& r matches Ok(t) && t.hidden == b && t.id == id
        }),
        ({
            let (d2, r) = d.thread_updated(id, set_thread_locked(b));
            &&& d2.wf()
            &&& r matches Ok(t) && is_locked(t.locked) == b && t.id == id && d2.thread(id) == Some(t)
        }),
{
    lemma_updated_found::<Thread>(d.threads, id, set_thread_hidden(b));
    lemma_updated_wf::<Thread>(d.threads, id, set_thread_hidden(b));
    lemma_updated_found::<Thread>(d.threads, id, set_thread_locked(b));
    lemma_updated_wf::<Thread>(d.threads, id, set_thread_locked(b));
    lemma_filter_members(d.threads.rows, keyed::<Thread>(id));
}

/// Hiding or showing a post is seen on the post.
pub proof fn law_post_hidden_flag(d: DbV, id: i64, h: bool)
    requires
        d.wf(),
        d.post(id).is_some(),
    ensures
        ({
            let (d2, r) = d.post_updated(id, set_post_hidden(h));
            &&& d2.wf()
            &&& r matches Ok(p) && p.hidden == h && p.id == id
        }),
{
    lemma_updated_found::<Post>(d.posts, id, set_post_hidden(h));
    lemma_updated_wf::<Post>(d.posts, id, set_post_hidden(h));
    lemma_filter_members(d.posts.rows, keyed::<Post>(id));
}

/// A locked thread refuses a post without image and nothing changes; once
/// unlocked, the thread reads as unlocked.
pub proof fn law_locked_thread_refuses_posts(d: DbV, thread: i64, author: i64, cont: Seq<char>, time: i64)
    requires
        d.wf(),
        d.thread(thread).is_some(),
        d.board(d.thread(thread).unwrap().board).is_some(),
    ensures
        ({
            let d2 = d.thread_updated(thread, set_thread_locked(true)).0;
            d2.add_post(thread, author, cont, None, time)
                == (d2, Err::<PostV, ErrorV>(ErrorV::ThreadLocked(d.thread(thread).unwrap().name)))
        }),
        ({
            let d3 = d.thread_updated(thread, set_thread_locked(false)).0;
            d3.thread(thread) matches Some(t) && !is_locked(t.locked)
        }),
{
    law_thread_flags(d, thread, true);
    law_thread_flags(d, thread, false);
    let d2 = d.thread_updated(thread, set_thread_locked(true)).0;
    lemma_updated_found::<Thread>(d.threads, thread, set_thread_locked(true));
    assert(d2.boards == d.boards);
}

/// A new post is found by its id, and ends the list of its thread's posts.
pub proof fn law_new_post(d: DbV, thread: i64, author: i64, cont: Seq<char>, time: i64)
    requires
        d.wf(),
        d.add_post(thread, author, cont, None, time).1 is Ok,
    ensures
        ({
            let (d2, r) = d.add_post(thread, author, cont, None, time);
            let p = r->Ok_0;
            &&& d2.wf()
            &&& p.cont == cont && !p.hidden && p.file.is_none() && p.thread == thread
            &&& d2.post(p.id) == Some(p)
            &&& d2.posts_of(thread) == d.posts_of(thread).push(p)
        }),
{
    let p = d.add_post(thread, author, cont, None, time).1->Ok_0;
    lemma_appended_found::<Post>(d.posts, p);
    d.posts.rows.lemma_filter_push(p, post_in_thread(thread));
    lemma_filter_members(d.threads.rows, keyed::<Thread>(thread));
}

/// A changed bio is seen on the user.
pub proof fn law_bio_updated(d: DbV, id: i64, bio: Seq<char>)
    requires
        d.wf(),
        d.user(id).is_some(),
    ensures
        ({
            let (d2, r) = d.user_updated(id, set_user_bio(bio));
            &&& d2.wf() && r is Ok
            &&& d2.user(id) matches Some(u) && u.bio == bio
        }),
{
    lemma_updated_found::<User>(d.users, id, set_user_bio(bio));
    lemma_updated_wf::<User>(d.users, id, set_user_bio(bio));
}

/// A changed password hash is seen on the user.
pub proof fn law_hash_updated(d: DbV, id: i64, h: Seq<char>)
    requires
        d.wf(),
        d.user(id).is_some(),
    ensures
        ({
            let (d2, r) = d.user_updated(id, set_user_hash(h));
            &&& d2.wf() && r is Ok
            &&& d2.user(id) matches Some(u) && u.hash == h
        }),
{
    lemma_updated_found::<User>(d.users, id, set_user_hash(h));
    lemma_updated_wf::<User>(d.users, id, set_user_hash(h));
}

/// A theme that was set is the user's theme.
pub proof fn law_theme_set(d: DbV, id: i64, t: Seq<char>)
    requires
        d.wf(),
        d.user(id).is_some(),
    ensures
        ({
            let (d2, r) = d.theme_set(id, t, true);
            &&& d2.wf() && r is Ok
            &&& d2.user(id) matches Some(u) && theme_text(u) == t
        }),
        d.theme_set(id, t, false) == (d, Err::<(), ErrorV>(ErrorV::ThemeNotFound(t))),
{
    lemma_updated_found::<User>(d.users, id, set_user_theme(t));
    lemma_updated_wf::<User>(d.users, id, set_user_theme(t));
}

/// A new stylesheet is the user's newest.
pub proof fn law_new_css(d: DbV, user: i64, vars: Seq<char>, css: Seq<char>)
    requires
        d.wf(),
        d.add_css(user, vars, css).1 is Ok,
    ensures
        ({
            let (d2, r) = d.add_css(user, vars, css);
            &&& d2.wf()
            &&& r matches Ok(Some(c)) && c.vars == vars && c.css == css && c.user == user
            &&& d2.css_of(user) == r->Ok_0
        }),
{
    let c = CssV { id: next_id(d.css), user: user, css: css, vars: vars };
    lemma_appended_found::<Css>(d.css, c);
    d.css.rows.lemma_filter_push(c, css_of_user(user));
}

/// The post that `order by time` puts last, after a post is added with a
/// time no earlier than any other of the thread, is that post.
proof fn lemma_latest_post_push(ps: Seq<PostV>, p: PostV)
    requires
        forall|i: int| 0 <= i < ps.len() ==> (#[trigger] ps[i]).time <= p.time,
    ensures
        latest_post_in(ps.push(p)) == Some(p),
{
    assert(ps.push(p).drop_last() =~= ps);
    match latest_post_in(ps) {
        None => {},
        Some(q) => {
            lemma_latest_post_member(ps);
            let k = choose|k: int| 0 <= k < ps.len() && ps[k] == q;
            assert(ps[k].time <= p.time);
        },
    }
}

proof fn lemma_latest_post_member(ps: Seq<PostV>)
    ensures
        latest_post_in(ps) matches Some(q) ==> exists|k: int| 0 <= k < ps.len() && ps[k] == q,
    decreases ps.len(),
{
    if ps.len() > 0 {
        lemma_latest_post_member(ps.drop_last());
        match latest_post_in(ps.drop_last()) {
            None => {
                assert(ps[ps.len() - 1] == ps.last());
            },
            Some(q) => {
                if ps.last().time >= q.time {
                    assert(ps[ps.len() - 1] == ps.last());
                } else {
                    let k = choose|k: int| 0 <= k < ps.drop_last().len() && ps.drop_last()[k] == q;
                    assert(ps[k] == q);
                }
            },
        }
    }
}

proof fn lemma_latest_read_push(rs: Seq<ReadV>, r: ReadV)
    requires
        forall|i: int| 0 <= i < rs.len() ==> (#[trigger] rs[i]).time <= r.time,
    ensures
        latest_read_in(rs.push(r)) == Some(r),
{
    assert(rs.push(r).drop_last() =~= rs);
    match latest_read_in(rs) {
        None => {},
        Some(q) => {
            lemma_latest_read_member(rs);
            let k = choose|k: int| 0 <= k < rs.len() && rs[k] == q;
            assert(rs[k].time <= r.time);
        },
    }
}

proof fn lemma_latest_read_member(rs: Seq<ReadV>)
    ensures
        latest_read_in(rs) matches Some(q) ==> exists|k: int| 0 <= k < rs.len() && rs[k] == q,
    decreases rs.len(),
{
    if rs.len() > 0 {
        lemma_latest_read_member(rs.drop_last());
        match latest_read_in(rs.drop_last()) {
            None => {
                assert(rs[rs.len() - 1] == rs.last());
            },
            Some(q) => {
                if rs.last().time >= q.time {
                    assert(rs[rs.len() - 1] == rs.last());
                } else {
                    let k = choose|k: int| 0 <= k < rs.drop_last().len() && rs.drop_last()[k] == q;
                    assert(rs[k] == q);
                }
            },
        }
    }
}

/// Marking a thread read, at a time no earlier than the thread's other read
/// markers, makes it read for that user.
pub proof fn law_marked_thread_is_read(d: DbV, u: i64, t: i64, time: i64)
    requires
        d.wf(),
        has_room(d.reads),
        forall|i: int| 0 <= i < d.reads.rows.len() && (#[trigger] d.reads.rows[i]).thread == t
            ==> d.reads.rows[i].time <= time,
    ensures
        ({
            let (d2, r) = d.add_read(u, t, time);
            r is Ok && d2.read_state(u, t)
        }),
{
    let d2 = d.add_read(u, t, time).0;
    let rd = d2.reads.rows.last();
    let p = read_in_thread(t);
    let rs = d.reads.rows.filter(p);
    lemma_filter_members(d.reads.rows, p);
    assert forall|i: int| 0 <= i < rs.len() implies (#[trigger] rs[i]).time <= time by {
        assert(rs.contains(rs[i]));
        lemma_filter_subset(d.reads.rows, p, rs[i]);
        let k = choose|k: int| 0 <= k < d.reads.rows.len() && d.reads.rows[k] == rs[i];
    }
    d.reads.rows.lemma_filter_push(rd, p);
    assert(d2.reads.rows == d.reads.rows.push(rd));
    lemma_latest_read_push(rs, rd);
    assert(d2.posts == d.posts);
}

/// A post added at a time no earlier than the thread's other posts becomes
/// the thread's newest post; the thread then counts as read by a user only
/// if its newest read marker is that user's and marks this very post.
pub proof fn law_new_post_is_newest(d: DbV, u: i64, thread: i64, author: i64, cont: Seq<char>, time: i64)
    requires
        d.wf(),
        d.add_post(thread, author, cont, None, time).1 is Ok,
        forall|i: int| 0 <= i < d.posts.rows.len() && (#[trigger] d.posts.rows[i]).thread == thread
            ==> d.posts.rows[i].time <= time,
    ensures
        ({
            let (d2, r) = d.add_post(thread, author, cont, None, time);
            let p = r->Ok_0;
            &&& d2.latest_post(thread) == Some(p)
            &&& d2.read_state(u, thread) == (d.latest_read(thread) matches Some(rd) && rd.user == u && rd.marked == p.id)
        }),
{
    let (d2, r) = d.add_post(thread, author, cont, None, time);
    let p = r->Ok_0;
    law_new_post(d, thread, author, cont, time);
    let pp = post_in_thread(thread);
    let ps = d.posts_of(thread);
    lemma_filter_members(d.posts.rows, pp);
    assert forall|i: int| 0 <= i < ps.len() implies (#[trigger] ps[i]).time <= time by {
        assert(ps.contains(ps[i]));
        lemma_filter_subset(d.posts.rows, pp, ps[i]);
        let k = choose|k: int| 0 <= k < d.posts.rows.len() && d.posts.rows[k] == ps[i];
    }
    lemma_latest_post_push(ps, p);
    assert(d2.reads == d.reads);
}

/// Boards, threads and posts listed as visible are not hidden.
pub proof fn law_visible_listings(d: DbV, thread: i64, threads: Seq<ThreadV>)
    ensures
        forall|i: int| 0 <= i < d.boards.rows.filter(board_visible()).len()
            ==> !(#[trigger] d.boards.rows.filter(board_visible())[i]).hidden,
        forall|i: int| 0 <= i < threads.filter(thread_visible()).len()
            ==> !(#[trigger] threads.filter(thread_visible())[i]).hidden,
        forall|i: int| 0 <= i < d.posts.rows.filter(post_visible_in_thread(thread)).len()
            ==> !(#[trigger] d.posts.rows.filter(post_visible_in_thread(thread))[i]).hidden,
{
    lemma_filter_members(d.boards.rows, board_visible());
    lemma_filter_members(threads, thread_visible());
    lemma_filter_members(d.posts.rows, post_visible_in_thread(thread));
}

/// Two lists of threads, each ordered strictly by `thread_before`, that
/// hold the same threads are the same list.
proof fn lemma_ordered_lists_equal(d: DbV, s1: Seq<ThreadV>, s2: Seq<ThreadV>)
    requires
        s1.len() == s2.len(),
        forall|i: int, j: int| 0 <= i < j < s1.len() ==> d.thread_before(s1[i], s1[j]),
        forall|i: int, j: int| 0 <= i < j < s2.len() ==> d.thread_before(s2[i], s2[j]),
        forall|x: ThreadV| s1.contains(x) <==> s2.contains(x),
    ensures
        s1 == s2,
    decreases s1.len(),
{
    if s1.len() > 0 {
        let a = s1[0];
        let b = s2[0];
        assert(s1.contains(a));
        assert(s2.contains(b));
        if a != b {
            let j = choose|j: int| 0 <= j < s2.len() && s2[j] == a;
            let i = choose|i: int| 0 <= i < s1.len() && s1[i] == b;
            assert(j > 0 && i > 0);
            assert(d.thread_before(b, a));
            assert(d.thread_before(a, b));
        }
        let t1 = s1.drop_first();
        let t2 = s2.drop_first();
        assert forall|x: ThreadV| t1.contains(x) <==> t2.contains(x) by {
            if t1.contains(x) {
                let k = choose|k: int| 0 <= k < t1.len() && t1[k] == x;
                assert(s1[k + 1] == x);
                assert(d.thread_before(s1[0], s1[k + 1]));
                assert(s2.contains(x));
                let m = choose|m: int| 0 <= m < s2.len() && s2[m] == x;
                assert(m != 0);
                assert(t2[m - 1] == x);
            }
            if t2.contains(x) {
                let k = choose|k: int| 0 <= k < t2.len() && t2[k] == x;
                assert(s2[k + 1] == x);
                assert(d.thread_before(s2[0], s2[k + 1]));
                assert(s1.contains(x));
                let m = choose|m: int| 0 <= m < s1.len() && s1[m] == x;
                assert(m != 0);
                assert(t1[m - 1] == x);
            }
        }
        lemma_ordered_lists_equal(d, t1, t2);
        assert(s1 =~= seq![a] + t1);
        assert(s2 =~= seq![b] + t2);
    }
}

/// A listing holds exactly the threads of the board.
proof fn lemma_listing_members(d: DbV, board: i64, s: Seq<ThreadV>)
    requires
        d.wf(),
        d.board_listing(board, s),
    ensures
        forall|x: ThreadV| s.contains(x) <==> d.threads.rows.filter(thread_on_board(board)).contains(x),
{
    let on = d.threads.rows.filter(thread_on_board(board));
    assert forall|a: int, b: int| 0 <= a < b < on.len() implies on[a] != on[b] by {
        crate::db::lemma_filter_order::<Thread>(d.threads.rows, thread_on_board(board), a, b);
    }
    assert(on.no_duplicates());
    assert forall|a: int, b: int| 0 <= a < b < s.len() implies s[a] != s[b] by {
        assert(d.thread_before(s[a], s[b]));
    }
    assert(s.no_duplicates());
    s.unique_seq_to_set();
    on.unique_seq_to_set();
    assert forall|x: ThreadV| s.to_set().contains(x) implies on.to_set().contains(x) by {
        let k = choose|k: int| 0 <= k < s.len() && s[k] == x;
        assert(on.contains(s[k]));
    }
    vstd::set_lib::lemma_subset_equality(s.to_set(), on.to_set());
    assert forall|x: ThreadV| s.contains(x) <==> on.contains(x) by {
        assert(s.contains(x) <==> s.to_set().contains(x));
        assert(on.contains(x) <==> on.to_set().contains(x));
    }
}

/// A board has one listing: two lists that each hold the board's threads
/// in board-page order are the same list.
pub proof fn law_board_listing_unique(d: DbV, board: i64, s1: Seq<ThreadV>, s2: Seq<ThreadV>)
    requires
        d.wf(),
        d.board_listing(board, s1),
        d.board_listing(board, s2),
    ensures
        s1 == s2,
{
    lemma_listing_members(d, board, s1);
    lemma_listing_members(d, board, s2);
    lemma_ordered_lists_equal(d, s1, s2);
}

/// The largest time among some posts is the time of one of them, and none
/// of them is later.
proof fn lemma_max_post_time(ps: Seq<PostV>)
    requires
        ps.len() > 0,
    ensures
        forall|j: int| 0 <= j < ps.len() ==> (#[trigger] ps[j]).time <= max_post_time(ps),
        exists|j: int| 0 <= j < ps.len() && (#[trigger] ps[j]).time == max_post_time(ps),
    decreases ps.len(),
{
    if ps.len() == 1 {
        assert(ps[0].time == max_post_time(ps));
    } else {
        let q = ps.drop_last();
        lemma_max_post_time(q);
        assert forall|j: int| 0 <= j < ps.len() implies (#[trigger] ps[j]).time <= max_post_time(ps) by {
            if j < q.len() {
                assert(q[j] == ps[j]);
            }
        }
        if ps.last().time > max_post_time(q) {
            assert(ps[ps.len() - 1].time == max_post_time(ps));
        } else {
            let j = choose|j: int| 0 <= j < q.len() && (#[trigger] q[j]).time == max_post_time(q);
            assert(ps[j] == q[j]);
        }
    }
}

/// When a thread last saw activity: no post of the thread is later, and a
/// thread with posts counts from the time of one of them (its latest); only
/// a thread without posts counts from its own time.
pub proof fn law_activity_is_latest_post(d: DbV, t: ThreadV)
    ensures
        forall|i: int| 0 <= i < d.posts.rows.len() && (#[trigger] d.posts.rows[i]).thread == t.id
            ==> d.posts.rows[i].time <= d.activity(t),
        (exists|i: int| 0 <= i < d.posts.rows.len() && (#[trigger] d.posts.rows[i]).thread == t.id)
            ==> exists|i: int| 0 <= i < d.posts.rows.len() && (#[trigger] d.posts.rows[i]).thread == t.id
                && d.posts.rows[i].time == d.activity(t),
        (forall|i: int| 0 <= i < d.posts.rows.len() ==> (#[trigger] d.posts.rows[i]).thread != t.id)
            ==> d.activity(t) == t.time,
{
    let rows = d.posts.rows;
    let p = post_in_thread(t.id);
    let ps = rows.filter(p);
    lemma_filter_members(rows, p);
    assert forall|i: int| 0 <= i < rows.len() && (#[trigger] rows[i]).thread == t.id
        implies rows[i].time <= d.activity(t) by {
        assert(p(rows[i]));
        assert(ps.contains(rows[i]));
        let j = choose|j: int| 0 <= j < ps.len() && ps[j] == rows[i];
        lemma_max_post_time(ps);
        assert(ps[j].time <= max_post_time(ps));
    }
    if exists|i: int| 0 <= i < rows.len() && (#[trigger] rows[i]).thread == t.id {
        let i0 = choose|i: int| 0 <= i < rows.len() && (#[trigger] rows[i]).thread == t.id;
        assert(p(rows[i0]));
        assert(ps.contains(rows[i0]));
        lemma_max_post_time(ps);
        let j = choose|j: int| 0 <= j < ps.len() && (#[trigger] ps[j]).time == max_post_time(ps);
        assert(ps.contains(ps[j]));
        lemma_filter_subset(rows, p, ps[j]);
        let k = choose|k: int| 0 <= k < rows.len() && rows[k] == ps[j];
        assert(rows[k].thread == t.id && rows[k].time == d.activity(t));
    }
    if forall|i: int| 0 <= i < rows.len() ==> (#[trigger] rows[i]).thread != t.id {
        assert forall|i: int| 0 <= i < rows.len() implies !p(#[trigger] rows[i]) by {}
        lemma_all_fail_filter_empty(rows, p);
    }
}

/// A thread bumped by a post later than anything of another thread is
/// listed above that thread on the board page.
pub proof fn law_bumped_thread_listed_first(d: DbV, board: i64, s: Seq<ThreadV>, i: int, j: int, k: int)
    requires
        d.board_listing(board, s),
        0 <= i < s.len(),
        0 <= j < s.len(),
        0 <= k < d.posts.rows.len(),
        d.posts.rows[k].thread == s[i].id,
        s[j].time < d.posts.rows[k].time,
        forall|m: int| 0 <= m < d.posts.rows.len() && (#[trigger] d.posts.rows[m]).thread == s[j].id
            ==> d.posts.rows[m].time < d.posts.rows[k].time,
    ensures
        i < j,
{
    law_activity_is_latest_post(d, s[i]);
    law_activity_is_latest_post(d, s[j]);
    let rows = d.posts.rows;
    assert(rows[k].time <= d.activity(s[i]));
    if exists|m: int| 0 <= m < rows.len() && (#[trigger] rows[m]).thread == s[j].id {
        let m = choose|m: int| 0 <= m < rows.len() && (#[trigger] rows[m]).thread == s[j].id
            && rows[m].time == d.activity(s[j]);
        assert(d.activity(s[j]) < rows[k].time);
    } else {
        assert(d.activity(s[j]) == s[j].time);
    }
    assert(d.activity(s[j]) < d.activity(s[i]));
    if j < i {
        assert(d.thread_before(s[j], s[i]));
    }
}

/// The board page lists later activity first; of two threads last active
/// at the same time, the newer (larger id) comes first.
pub proof fn law_board_listing_order(d: DbV, board: i64, s: Seq<ThreadV>, i: int, j: int)
    requires
        d.board_listing(board, s),
        0 <= i < j < s.len(),
    ensures
        d.activity(s[i]) >= d.activity(s[j]),
        d.activity(s[i]) == d.activity(s[j]) ==> s[i].id > s[j].id,
{
    assert(d.thread_before(s[i], s[j]));
}

/// The visible posts of a thread are exactly its posts that are not hidden,
/// in table order: each one belongs to the thread and is not hidden, and
/// every such post is among them.
pub proof fn law_visible_posts_of_thread(d: DbV, thread: i64)
    ensures
        ({
            let vs = d.posts.rows.filter(post_visible_in_thread(thread));
            &&& forall|j: int| 0 <= j < vs.len() ==> (#[trigger] vs[j]).thread == thread && !vs[j].hidden
            &&& forall|j: int| 0 <= j < vs.len() ==> d.posts.rows.contains(#[trigger] vs[j])
            &&& forall|i: int| 0 <= i < d.posts.rows.len() && (#[trigger] d.posts.rows[i]).thread == thread
                && !d.posts.rows[i].hidden ==> vs.contains(d.posts.rows[i])
        }),
{
    let p = post_visible_in_thread(thread);
    let vs = d.posts.rows.filter(p);
    lemma_filter_members(d.posts.rows, p);
    assert forall|j: int| 0 <= j < vs.len() implies d.posts.rows.contains(#[trigger] vs[j]) by {
        assert(vs.contains(vs[j]));
        lemma_filter_subset(d.posts.rows, p, vs[j]);
    }
    assert forall|i: int| 0 <= i < d.posts.rows.len() && (#[trigger] d.posts.rows[i]).thread == thread
        && !d.posts.rows[i].hidden implies vs.contains(d.posts.rows[i]) by {
        assert(p(d.posts.rows[i]));
    }
}

} // verus!
