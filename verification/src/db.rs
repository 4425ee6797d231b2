//! The forum's database: users, sessions, boards, threads, files, posts,
//! read markers and user stylesheets.
//!
//! Each table keeps its rows in id order, and new rows get the next id
//! after the largest one the table has ever handed out, as an SQL table with
//! an autoincrement key does. Every operation is stated over the model in
//! `crate::model`.

use vstd::prelude::*;
use crate::records::{Record, User, UserV, Session, SessionV, Board, BoardV, Thread, ThreadV, File, FileV, Post, PostV, Read, ReadV, Css, CssV, is_locked};
use crate::model::{
    Error, ErrorV, TableV, opt_str, DbV, table_wf, appended, next_id, has_room, first, last_of, views, opt_views,
    keyed, not_keyed, updated, deleted, ok_or, res_views, res_opt_views, res_seq_views,
    user_named, user_admin, any_user, session_hash_is, session_of_user, board_named, board_visible,
    board_hidden, any_board, thread_on_board, thread_visible, thread_hidden, post_in_thread,
    post_visible_in_thread, post_hidden, post_mentions, read_in_thread, css_of_user,
    set_user_admin, set_user_bio, set_user_hash, set_user_theme, set_board_hidden, set_board_name,
    set_thread_hidden, set_thread_locked, set_post_hidden, latest_post_in, latest_read_in, max_post_time, unit_of, opt_bytes, theme_text,
};
use crate::strings::{str_eq, chars_of, text_contains, decimal_string, decimal};
use crate::image::decodes_as_image;
use crate::passwd::{argon2_verifies, hash as hash_password};
use crate::rand::{rand_str, is_token};
use crate::clock::now;
use crate::css::{Themes, lookup};
use crate::laws::law_board_listing_unique;
use crate::seqs::{lemma_take_filter_step, lemma_take_all, lemma_first_match, lemma_no_match, lemma_filter_members};

verus! {

/// The length of a session token.
pub const SESSION_HASH_LEN: usize = 512;

broadcast use vstd::seq_lib::group_seq_lib_default;

/// A result of the database, with `Error` for failures.
pub type R<T> = Result<T, Error>;

/// One table of the database.
pub struct Table<T> {
    rows: Vec<T>,
    last: i64,
}

impl<T: Record> View for Table<T> {
    type V = TableV<T::V>;

    closed spec fn view(&self) -> TableV<T::V> {
        TableV { rows: views(self.rows@), last: self.last }
    }
}

impl<T: Record> Table<T> {
    /// An empty table that has handed out no id yet.
    pub fn new() -> (r: Self)
        ensures
            r@.rows == Seq::<T::V>::empty(),
            r@.last == 0,
            table_wf::<T>(r@),
    {
        let r = Table { rows: Vec::new(), last: 0 };
        assert(r@.rows =~= Seq::<T::V>::empty());
        r
    }

    /// A table of the given rows, if their ids strictly increase and none
    /// exceeds `last`.
    pub fn from_rows(rows: Vec<T>, last: i64) -> (r: Option<Self>)
        ensures
            match r {
                Some(t) => t@ == (TableV { rows: views(rows@), last }) && table_wf::<T>(t@),
                None => !table_wf::<T>(TableV { rows: views(rows@), last }),
            },
    {
        let ghost v = views(rows@);
        let mut i: usize = 0;
        while i < rows.len()
            invariant
                i <= rows@.len(),
                v == views(rows@),
                forall|a: int, b: int| 0 <= a < b < i ==> T::key(v[a]) < T::key(v[b]),
                forall|a: int| 0 <= a < i ==> T::key(#[trigger] v[a]) <= last,
            decreases rows@.len() - i,
        {
            let k = rows[i].id();
            assert(v[i as int] == rows@[i as int]@);
            if k > last {
                assert(T::key(TableV { rows: v, last }.rows[i as int]) > last);
                return None;
            }
            if i > 0 && rows[i - 1].id() >= k {
                assert(v[i - 1] == rows@[i - 1]@);
                let ghost t = TableV { rows: v, last };
                assert(T::key(t.rows[i - 1]) >= T::key(t.rows[i as int]));
                assert(!(forall|a: int, b: int| 0 <= a < b < t.rows.len() ==> T::key(t.rows[a]) < T::key(t.rows[b])));
                return None;
            }
            if i > 0 {
                assert(v[i - 1] == rows@[i - 1]@);
                assert forall|a: int| 0 <= a < i implies T::key(v[a]) < T::key(v[i as int]) by {
                    if a < i - 1 {
                        assert(T::key(v[a]) < T::key(v[i - 1]));
                    }
                }
            }
            i = i + 1;
        }
        let t = Table { rows, last };
        assert(t@ =~= TableV { rows: v, last });
        Some(t)
    }

    pub fn len(&self) -> (r: usize)
        ensures
            r == self@.rows.len(),
    {
        self.rows.len()
    }

    /// The largest id the table has handed out.
    pub fn last_id(&self) -> (r: i64)
        ensures
            r == self@.last,
    {
        self.last
    }

    /// The rows, in id order.
    pub fn rows(&self) -> (r: &Vec<T>)
        ensures
            views(r@) == self@.rows,
    {
        &self.rows
    }

    /// A copy of the row at position `i`.
    pub fn row(&self, i: usize) -> (r: T)
        requires
            i < self@.rows.len(),
        ensures
            r@ == self@.rows[i as int],
    {
        self.rows[i].duplicate()
    }

    /// The id of the row at position `i`.
    fn key_at(&self, i: usize) -> (r: i64)
        requires
            i < self@.rows.len(),
        ensures
            r == T::key(self@.rows[i as int]),
    {
        self.rows[i].id()
    }

    /// Where the row with id `id` stands, if there is one.
    fn position(&self, id: i64) -> (r: Option<usize>)
        requires
            table_wf::<T>(self@),
        ensures
            match r {
                Some(i) => i < self@.rows.len() && T::key(self@.rows[i as int]) == id
                    && self@.rows.filter(keyed::<T>(id)).len() > 0
                    && self@.rows.filter(keyed::<T>(id))[0] == self@.rows[i as int],
                None => self@.rows.filter(keyed::<T>(id)).len() == 0
                    && forall|j: int| 0 <= j < self@.rows.len() ==> T::key(#[trigger] self@.rows[j]) != id,
            },
    {
        let ghost s = self@.rows;
        let ghost p = keyed::<T>(id);
        let mut i: usize = 0;
        while i < self.rows.len()
            invariant
                i <= s.len(),
                s == self@.rows,
                s.len() == self.rows@.len(),
                p == keyed::<T>(id),
                s.take(i as int).filter(p).len() == 0,
            decreases s.len() - i,
        {
            proof { lemma_take_filter_step(s, p, i as int); }
            if self.rows[i].id() == id {
                proof { lemma_first_match(s, p, i as int); }
                return Some(i);
            }
            i = i + 1;
        }
        proof { lemma_no_match(s, p); }
        None
    }

    /// A copy of the row with id `id`, if there is one.
    pub fn find(&self, id: i64) -> (r: Option<T>)
        requires
            table_wf::<T>(self@),
        ensures
            opt_views(r) == first(self@.rows.filter(keyed::<T>(id))),
    {
        match self.position(id) {
            Some(i) => Some(self.rows[i].duplicate()),
            None => None,
        }
    }

    /// Adds a row under the next id.
    fn push_next(&mut self, row: T)
        requires
            table_wf::<T>(old(self)@),
            has_room(old(self)@),
            T::key(row@) == next_id(old(self)@),
        ensures
            final(self)@ == appended(old(self)@, row@),
            table_wf::<T>(final(self)@),
    {
        let ghost old_rows = self@.rows;
        self.rows.push(row);
        self.last = self.last + 1;
        assert(self@.rows =~= old_rows.push(row@));
    }

    /// Replaces the row at position `i` by one with the same id.
    fn replace_at(&mut self, i: usize, row: T)
        requires
            table_wf::<T>(old(self)@),
            i < old(self)@.rows.len(),
            T::key(row@) == T::key(old(self)@.rows[i as int]),
        ensures
            final(self)@.rows == old(self)@.rows.update(i as int, row@),
            final(self)@.last == old(self)@.last,
            table_wf::<T>(final(self)@),
    {
        let ghost old_rows = self@.rows;
        self.rows.set(i, row);
        assert(self@.rows =~= old_rows.update(i as int, row@));
    }

    /// Replaces the row of id `key(row)`, at position `i`, by `row`, which is
    /// that row changed by `f`.
    fn replace_by(&mut self, i: usize, row: T, Ghost(f): Ghost<spec_fn(T::V) -> T::V>)
        requires
            table_wf::<T>(old(self)@),
            i < old(self)@.rows.len(),
            T::key(row@) == T::key(old(self)@.rows[i as int]),
            row@ == f(old(self)@.rows[i as int]),
        ensures
            final(self)@ == updated::<T>(old(self)@, T::key(row@), f),
            table_wf::<T>(final(self)@),
    {
        proof { lemma_updated_at::<T>(self@, T::key(row@), f, i as int); }
        let ghost k = T::key(row@);
        self.replace_at(i, row);
        assert(self@ =~= updated::<T>(old(self)@, k, f));
    }

    /// Removes the rows with id `id`.
    fn remove_id(&mut self, id: i64)
        requires
            table_wf::<T>(old(self)@),
        ensures
            final(self)@ == deleted::<T>(old(self)@, id),
            table_wf::<T>(final(self)@),
    {
        let ghost s = self@.rows;
        let ghost p = not_keyed::<T>(id);
        let mut kept: Vec<T> = Vec::new();
        let mut i: usize = 0;
        while i < self.rows.len()
            invariant
                i <= s.len(),
                s == self@.rows,
                s.len() == self.rows@.len(),
                p == not_keyed::<T>(id),
                views(kept@) == s.take(i as int).filter(p),
            decreases s.len() - i,
        {
            proof { lemma_take_filter_step(s, p, i as int); }
            if self.rows[i].id() != id {
                let ghost before = kept@;
                kept.push(self.rows[i].duplicate());
                assert(views(kept@) =~= views(before).push(s[i as int]));
            }
            i = i + 1;
        }
        proof { lemma_take_all(s); lemma_filter_members(s, p); }
        let ghost last = self.last;
        self.rows = kept;
        assert(self@ =~= deleted::<T>(TableV { rows: s, last }, id));
        proof {
            let f = s.filter(p);
            assert forall|a: int, b: int| 0 <= a < b < f.len() implies T::key(f[a]) < T::key(f[b]) by {
                lemma_filter_order::<T>(s, p, a, b);
            }
            assert forall|a: int| 0 <= a < f.len() implies T::key(#[trigger] f[a]) <= last by {
                crate::seqs::lemma_filter_subset(s, p, f[a]);
            }
        }
    }
}

/// A condition on rows that can be tested on a row.
pub trait Filter<T: Record> {
    spec fn pred(&self) -> spec_fn(T::V) -> bool;

    fn test(&self, row: &T) -> (r: bool)
        ensures
            r == self.pred()(row@),
    ;
}

impl<T: Record> Table<T> {
    /// Copies of the rows that pass `f`, in id order.
    pub fn select<F: Filter<T>>(&self, f: &F) -> (r: Vec<T>)
        ensures
            views(r@) == self@.rows.filter(f.pred()),
    {
        let ghost s = self@.rows;
        let ghost p = f.pred();
        let mut out: Vec<T> = Vec::new();
        let mut i: usize = 0;
        assert(views(out@) =~= s.take(0).filter(p)) by {
            assert(s.take(0) =~= Seq::<T::V>::empty());
            reveal(Seq::filter);
        }
        while i < self.rows.len()
            invariant
                i <= s.len(),
                s == self@.rows,
                s.len() == self.rows@.len(),
                p == f.pred(),
                views(out@) == s.take(i as int).filter(p),
            decreases s.len() - i,
        {
            proof { lemma_take_filter_step(s, p, i as int); }
            if f.test(&self.rows[i]) {
                let ghost before = out@;
                out.push(self.rows[i].duplicate());
                assert(views(out@) =~= views(before).push(s[i as int]));
            }
            i = i + 1;
        }
        proof { lemma_take_all(s); }
        out
    }

    /// A copy of the first row that passes `f`.
    pub fn select_first<F: Filter<T>>(&self, f: &F) -> (r: Option<T>)
        ensures
            opt_views(r) == first(self@.rows.filter(f.pred())),
    {
        let ghost s = self@.rows;
        let ghost p = f.pred();
        let mut i: usize = 0;
        assert(s.take(0).filter(p).len() == 0) by {
            assert(s.take(0) =~= Seq::<T::V>::empty());
            reveal(Seq::filter);
        }
        while i < self.rows.len()
            invariant
                i <= s.len(),
                s == self@.rows,
                s.len() == self.rows@.len(),
                p == f.pred(),
                s.take(i as int).filter(p).len() == 0,
            decreases s.len() - i,
        {
            proof { lemma_take_filter_step(s, p, i as int); }
            if f.test(&self.rows[i]) {
                proof { lemma_first_match(s, p, i as int); }
                return Some(self.rows[i].duplicate());
            }
            i = i + 1;
        }
        proof { lemma_no_match(s, p); }
        None
    }

    /// A copy of the last row that passes `f`.
    pub fn select_last<F: Filter<T>>(&self, f: &F) -> (r: Option<T>)
        ensures
            opt_views(r) == last_of(self@.rows.filter(f.pred())),
    {
        let ghost s = self@.rows;
        let ghost p = f.pred();
        let mut found: Option<usize> = None;
        let mut i: usize = 0;
        assert(s.take(0).filter(p).len() == 0) by {
            assert(s.take(0) =~= Seq::<T::V>::empty());
            reveal(Seq::filter);
        }
        while i < self.rows.len()
            invariant
                i <= s.len(),
                s == self@.rows,
                s.len() == self.rows@.len(),
                p == f.pred(),
                match found {
                    None => s.take(i as int).filter(p).len() == 0,
                    Some(k) => k < i && s.take(i as int).filter(p).len() > 0
                        && s.take(i as int).filter(p).last() == s[k as int],
                },
            decreases s.len() - i,
        {
            proof { lemma_take_filter_step(s, p, i as int); }
            if f.test(&self.rows[i]) {
                found = Some(i);
            }
            i = i + 1;
        }
        proof { lemma_take_all(s); }
        match found {
            Some(k) => Some(self.rows[k].duplicate()),
            None => None,
        }
    }
}


struct UserNamed<'a>(&'a str);

impl<'a> Filter<User> for UserNamed<'a> {
    closed spec fn pred(&self) -> spec_fn(UserV) -> bool {
        user_named(self.0@)
    }

    fn test(&self, row: &User) -> bool {
        str_eq(row.name.as_str(), self.0)
    }
}

struct AdminUser;

impl Filter<User> for AdminUser {
    closed spec fn pred(&self) -> spec_fn(UserV) -> bool {
        user_admin()
    }

    fn test(&self, row: &User) -> bool {
        row.admin
    }
}

struct AnyUser;

impl Filter<User> for AnyUser {
    closed spec fn pred(&self) -> spec_fn(UserV) -> bool {
        any_user()
    }

    fn test(&self, row: &User) -> bool {
        true
    }
}

struct SessionHash<'a>(&'a str);

impl<'a> Filter<Session> for SessionHash<'a> {
    closed spec fn pred(&self) -> spec_fn(SessionV) -> bool {
        session_hash_is(self.0@)
    }

    fn test(&self, row: &Session) -> bool {
        str_eq(row.hash.as_str(), self.0)
    }
}

struct SessionOfUser(i64);

impl Filter<Session> for SessionOfUser {
    closed spec fn pred(&self) -> spec_fn(SessionV) -> bool {
        session_of_user(self.0)
    }

    fn test(&self, row: &Session) -> bool {
        row.user == self.0
    }
}

struct BoardNamed<'a>(&'a str);

impl<'a> Filter<Board> for BoardNamed<'a> {
    closed spec fn pred(&self) -> spec_fn(BoardV) -> bool {
        board_named(self.0@)
    }

    fn test(&self, row: &Board) -> bool {
        str_eq(row.name.as_str(), self.0)
    }
}

struct VisibleBoard;

impl Filter<Board> for VisibleBoard {
    closed spec fn pred(&self) -> spec_fn(BoardV) -> bool {
        board_visible()
    }

    fn test(&self, row: &Board) -> bool {
        !row.hidden
    }
}

struct HiddenBoard;

impl Filter<Board> for HiddenBoard {
    closed spec fn pred(&self) -> spec_fn(BoardV) -> bool {
        board_hidden()
    }

    fn test(&self, row: &Board) -> bool {
        row.hidden
    }
}

struct AnyBoard;

impl Filter<Board> for AnyBoard {
    closed spec fn pred(&self) -> spec_fn(BoardV) -> bool {
        any_board()
    }

    fn test(&self, row: &Board) -> bool {
        true
    }
}

struct ThreadOnBoard(i64);

impl Filter<Thread> for ThreadOnBoard {
    closed spec fn pred(&self) -> spec_fn(ThreadV) -> bool {
        thread_on_board(self.0)
    }

    fn test(&self, row: &Thread) -> bool {
        row.board == self.0
    }
}

struct HiddenThread;

impl Filter<Thread> for HiddenThread {
    closed spec fn pred(&self) -> spec_fn(ThreadV) -> bool {
        thread_hidden()
    }

    fn test(&self, row: &Thread) -> bool {
        row.hidden
    }
}

struct PostInThread(i64);

impl Filter<Post> for PostInThread {
    closed spec fn pred(&self) -> spec_fn(PostV) -> bool {
        post_in_thread(self.0)
    }

    fn test(&self, row: &Post) -> bool {
        row.thread == self.0
    }
}

struct VisiblePostInThread(i64);

impl Filter<Post> for VisiblePostInThread {
    closed spec fn pred(&self) -> spec_fn(PostV) -> bool {
        post_visible_in_thread(self.0)
    }

    fn test(&self, row: &Post) -> bool {
        row.thread == self.0 && !row.hidden
    }
}

struct HiddenPost;

impl Filter<Post> for HiddenPost {
    closed spec fn pred(&self) -> spec_fn(PostV) -> bool {
        post_hidden()
    }

    fn test(&self, row: &Post) -> bool {
        row.hidden
    }
}

struct PostMentions {
    needle: Vec<char>,
}

impl Filter<Post> for PostMentions {
    closed spec fn pred(&self) -> spec_fn(PostV) -> bool {
        post_mentions(self.needle@)
    }

    fn test(&self, row: &Post) -> bool {
        let cs = chars_of(row.cont.as_str());
        text_contains(&cs, &self.needle)
    }
}

struct ReadInThread(i64);

impl Filter<Read> for ReadInThread {
    closed spec fn pred(&self) -> spec_fn(ReadV) -> bool {
        read_in_thread(self.0)
    }

    fn test(&self, row: &Read) -> bool {
        row.thread == self.0
    }
}

struct CssOfUser(i64);

impl Filter<Css> for CssOfUser {
    closed spec fn pred(&self) -> spec_fn(CssV) -> bool {
        css_of_user(self.0)
    }

    fn test(&self, row: &Css) -> bool {
        row.user == self.0
    }
}

/// A filter keeps the order of what it keeps.
pub(crate) proof fn lemma_filter_order<T: Record>(s: Seq<T::V>, p: spec_fn(T::V) -> bool, a: int, b: int)
    requires
        forall|x: int, y: int| 0 <= x < y < s.len() ==> T::key(s[x]) < T::key(s[y]),
        0 <= a < b < s.filter(p).len(),
    ensures
        T::key(s.filter(p)[a]) < T::key(s.filter(p)[b]),
    decreases s.len(),
{
    reveal(Seq::filter);
    if s.len() > 0 {
        let rest = s.drop_last().filter(p);
        assert forall|x: int, y: int| 0 <= x < y < s.drop_last().len() implies
            T::key(s.drop_last()[x]) < T::key(s.drop_last()[y]) by {}
        if b < rest.len() {
            assert(s.filter(p)[a] == rest[a]);
            assert(s.filter(p)[b] == rest[b]);
            lemma_filter_order::<T>(s.drop_last(), p, a, b);
        } else {
            assert(p(s.last()));
            assert(s.filter(p)[b] == s.last());
            assert(s.filter(p)[a] == rest[a]);
            crate::seqs::lemma_filter_subset(s.drop_last(), p, rest[a]);
            let k = choose|k: int| 0 <= k < s.drop_last().len() && s.drop_last()[k] == rest[a];
            assert(s[k] == rest[a]);
        }
    }
}

/// Changing the row of id `id` is changing it at its position.
proof fn lemma_updated_at<T: Record>(t: TableV<T::V>, id: i64, f: spec_fn(T::V) -> T::V, i: int)
    requires
        table_wf::<T>(t),
        0 <= i < t.rows.len(),
        T::key(t.rows[i]) == id,
    ensures
        updated::<T>(t, id, f) == (TableV { rows: t.rows.update(i, f(t.rows[i])), last: t.last }),
{
    assert forall|j: int| 0 <= j < t.rows.len() && j != i implies T::key(t.rows[j]) != id by {
        if j < i {
            assert(T::key(t.rows[j]) < T::key(t.rows[i]));
        } else {
            assert(T::key(t.rows[i]) < T::key(t.rows[j]));
        }
    }
    assert(updated::<T>(t, id, f).rows =~= t.rows.update(i, f(t.rows[i])));
}

/// Changing the rows of an id that no row has changes nothing.
proof fn lemma_updated_none<T: Record>(t: TableV<T::V>, id: i64, f: spec_fn(T::V) -> T::V)
    requires
        forall|j: int| 0 <= j < t.rows.len() ==> T::key(#[trigger] t.rows[j]) != id,
    ensures
        updated::<T>(t, id, f) == t,
{
    assert(updated::<T>(t, id, f).rows =~= t.rows);
}

/// The forum's database.
pub struct Db {
    users: Table<User>,
    sessions: Table<Session>,
    boards: Table<Board>,
    threads: Table<Thread>,
    files: Table<File>,
    posts: Table<Post>,
    reads: Table<Read>,
    css: Table<Css>,
}

impl View for Db {
    type V = DbV;

    closed spec fn view(&self) -> DbV {
        DbV {
            users: self.users@,
            sessions: self.sessions@,
            boards: self.boards@,
            threads: self.threads@,
            files: self.files@,
            posts: self.posts@,
            reads: self.reads@,
            css: self.css@,
        }
    }
}

impl Db {
    /// A database with empty tables.
    pub fn empty() -> (r: Db)
        ensures
            r@.wf(),
            r@.users.rows.len() == 0,
            r@.sessions.rows.len() == 0,
            r@.boards.rows.len() == 0,
            r@.threads.rows.len() == 0,
            r@.files.rows.len() == 0,
            r@.posts.rows.len() == 0,
            r@.reads.rows.len() == 0,
            r@.css.rows.len() == 0,
            r@.users.last == 0 && r@.sessions.last == 0 && r@.boards.last == 0 && r@.threads.last == 0,
            r@.files.last == 0 && r@.posts.last == 0 && r@.reads.last == 0 && r@.css.last == 0,
    {
        Db {
            users: Table::new(),
            sessions: Table::new(),
            boards: Table::new(),
            threads: Table::new(),
            files: Table::new(),
            posts: Table::new(),
            reads: Table::new(),
            css: Table::new(),
        }
    }

    /// A database of the given tables.
    pub fn from_tables(
        users: Table<User>,
        sessions: Table<Session>,
        boards: Table<Board>,
        threads: Table<Thread>,
        files: Table<File>,
        posts: Table<Post>,
        reads: Table<Read>,
        css: Table<Css>,
    ) -> (r: Db)
        ensures
            r@ == (DbV {
                users: users@,
                sessions: sessions@,
                boards: boards@,
                threads: threads@,
                files: files@,
                posts: posts@,
                reads: reads@,
                css: css@,
            }),
    {
        Db { users, sessions, boards, threads, files, posts, reads, css }
    }

    pub fn users_table(&self) -> (r: &Table<User>)
        ensures
            r@ == self@.users,
    {
        &self.users
    }

    pub fn sessions_table(&self) -> (r: &Table<Session>)
        ensures
            r@ == self@.sessions,
    {
        &self.sessions
    }

    pub fn boards_table(&self) -> (r: &Table<Board>)
        ensures
            r@ == self@.boards,
    {
        &self.boards
    }

    pub fn threads_table(&self) -> (r: &Table<Thread>)
        ensures
            r@ == self@.threads,
    {
        &self.threads
    }

    pub fn files_table(&self) -> (r: &Table<File>)
        ensures
            r@ == self@.files,
    {
        &self.files
    }

    pub fn posts_table(&self) -> (r: &Table<Post>)
        ensures
            r@ == self@.posts,
    {
        &self.posts
    }

    pub fn reads_table(&self) -> (r: &Table<Read>)
        ensures
            r@ == self@.reads,
    {
        &self.reads
    }

    pub fn css_table(&self) -> (r: &Table<Css>)
        ensures
            r@ == self@.css,
    {
        &self.css
    }

    /// Get a user by id.
    pub fn get_user(&self, id: i64) -> (r: R<User>)
        requires
            self@.wf(),
        ensures
            res_views(r) == ok_or(self@.user(id), ErrorV::UserNotFound(id)),
    {
        match self.users.find(id) {
            Some(u) => Ok(u),
            None => Err(Error::UserNotFound(id)),
        }
    }

    /// Get a user by name.
    pub fn get_user_by_name(&self, n: &str) -> (r: R<User>)
        requires
            self@.wf(),
        ensures
            res_views(r) == ok_or(self@.user_by_name(n@), ErrorV::UserNameNotFound(n@)),
    {
        match self.users.select_first(&UserNamed(n)) {
            Some(u) => Ok(u),
            None => Err(Error::UserNameNotFound(n.to_owned())),
        }
    }

    /// The user whose session token the browser sent.
    pub fn me(&self, session: Option<&str>) -> (r: R<User>)
        requires
            self@.wf(),
        ensures
            res_views(r) == self@.signed_in(opt_str(session)),
    {
        let h = match session {
            Some(h) => h,
            None => return Err(Error::NotLoggedIn),
        };
        match self.sessions.select_first(&SessionHash(h)) {
            Some(s) => self.get_user(s.user),
            None => Err(Error::NoSession),
        }
    }

    /// Make a new user with name `n` and the password hash `h`.
    pub fn new_user_with_hash(&mut self, n: &str, h: &str) -> (r: R<User>)
        requires
            old(self)@.wf(),
        ensures
            final(self)@ == old(self)@.add_user(n@, h@).0,
            res_views(r) == old(self)@.add_user(n@, h@).1,
            final(self)@.wf(),
    {
        if let Ok(_) = self.get_user_by_name(n) {
            return Err(Error::UserExists(n.to_owned()));
        }
        if self.users.last == i64::MAX {
            return Err(Error::Full);
        }
        let u = User {
            id: self.users.last + 1,
            name: n.to_owned(),
            hash: h.to_owned(),
            bio: String::new(),
            admin: false,
            theme: None,
        };
        assert(u@.bio =~= Seq::<char>::empty());
        self.users.push_next(u.duplicate());
        assert(self@ =~= old(self)@.add_user(n@, h@).0);
        Ok(u)
    }

    /// Get all admin users.
    pub fn get_all_admins(&self) -> (r: R<Vec<User>>)
        requires
            self@.wf(),
        ensures
            res_seq_views(r) == Ok::<Seq<UserV>, ErrorV>(self@.users.rows.filter(user_admin())),
    {
        Ok(self.users.select(&AdminUser))
    }

    /// Get all users.
    pub fn get_all_users(&self) -> (r: R<Vec<User>>)
        requires
            self@.wf(),
        ensures
            res_seq_views(r) == Ok::<Seq<UserV>, ErrorV>(self@.users.rows.filter(any_user())),
    {
        Ok(self.users.select(&AnyUser))
    }

    /// Changes the row of user `id` by `f`, given that row's new value.
    fn replace_user(&mut self, i: usize, u: User, Ghost(f): Ghost<spec_fn(UserV) -> UserV>)
        requires
            old(self)@.wf(),
            i < old(self)@.users.rows.len(),
            u@ == f(old(self)@.users.rows[i as int]),
            u.id == old(self)@.users.rows[i as int].id,
        ensures
            final(self)@ == old(self)@.with_users(updated::<User>(old(self)@.users, u.id, f)),
            final(self)@.wf(),
    {
        proof { lemma_updated_at::<User>(self@.users, u.id, f, i as int); }
        self.users.replace_at(i, u);
        assert(self@ =~= old(self)@.with_users(updated::<User>(old(self)@.users, u.id, f)));
    }

    /// Make a user admin by id.
    pub fn new_admin(&mut self, id: i64) -> (r: R<()>)
        requires
            old(self)@.wf(),
        ensures
            final(self)@ == old(self)@.with_users(updated::<User>(old(self)@.users, id, set_user_admin(true))),
            final(self)@.wf(),
            r == Ok::<(), Error>(()),
    {
        match self.users.position(id) {
            Some(i) => {
                let mut u = self.users.row(i);
                u.admin = true;
                self.replace_user(i, u, Ghost(set_user_admin(true)));
            },
            None => {
                proof { lemma_updated_none::<User>(self@.users, id, set_user_admin(true)); }
                assert(self@ =~= old(self)@.with_users(updated::<User>(old(self)@.users, id, set_user_admin(true))));
            },
        }
        Ok(())
    }

    /// Take admin rights away from a user by id.
    pub fn rm_admin(&mut self, id: i64) -> (r: R<()>)
        requires
            old(self)@.wf(),
        ensures
            final(self)@ == old(self)@.with_users(updated::<User>(old(self)@.users, id, set_user_admin(false))),
            final(self)@.wf(),
            r == Ok::<(), Error>(()),
    {
        match self.users.position(id) {
            Some(i) => {
                let mut u = self.users.row(i);
                u.admin = false;
                self.replace_user(i, u, Ghost(set_user_admin(false)));
            },
            None => {
                proof { lemma_updated_none::<User>(self@.users, id, set_user_admin(false)); }
                assert(self@ =~= old(self)@.with_users(updated::<User>(old(self)@.users, id, set_user_admin(false))));
            },
        }
        Ok(())
    }

    /// Remove a user by id.
    pub fn rm_user(&mut self, id: i64) -> (r: R<()>)
        requires
            old(self)@.wf(),
        ensures
            final(self)@ == old(self)@.with_users(deleted::<User>(old(self)@.users, id)),
            final(self)@.wf(),
            r == Ok::<(), Error>(()),
    {
        self.users.remove_id(id);
        assert(self@ =~= old(self)@.with_users(deleted::<User>(old(self)@.users, id)));
        Ok(())
    }

    /// Set the bio of user `id`.
    pub fn update_bio(&mut self, id: i64, bio: &str) -> (r: R<()>)
        requires
            old(self)@.wf(),
        ensures
            final(self)@ == old(self)@.user_updated(id, set_user_bio(bio@)).0,
            res_views(r) == old(self)@.user_updated(id, set_user_bio(bio@)).1,
            final(self)@.wf(),
    {
        match self.users.position(id) {
            Some(i) => {
                let mut u = self.users.row(i);
                u.bio = bio.to_owned();
                self.replace_user(i, u, Ghost(set_user_bio(bio@)));
                Ok(())
            },
            None => Err(Error::UserNotFound(id)),
        }
    }

    /// Set the password hash of user `id` to `h`.
    pub fn update_pass_with_hash(&mut self, id: i64, h: &str) -> (r: R<()>)
        requires
            old(self)@.wf(),
        ensures
            final(self)@ == old(self)@.user_updated(id, set_user_hash(h@)).0,
            res_views(r) == old(self)@.user_updated(id, set_user_hash(h@)).1,
            final(self)@.wf(),
    {
        match self.users.position(id) {
            Some(i) => {
                let mut u = self.users.row(i);
                u.hash = h.to_owned();
                self.replace_user(i, u, Ghost(set_user_hash(h@)));
                Ok(())
            },
            None => Err(Error::UserNotFound(id)),
        }
    }

    /// Make a new session with token `hash` for user `id`; the answer is
    /// the session just made.
    pub fn new_session_with_hash(&mut self, id: i64, hash: &str) -> (r: R<Session>)
        requires
            old(self)@.wf(),
        ensures
            final(self)@ == old(self)@.add_session(id, hash@).0,
            res_views(r) == old(self)@.add_session(id, hash@).1,
            final(self)@.wf(),
    {
        if let Err(e) = self.get_user(id) {
            return Err(e);
        }
        if self.sessions.last == i64::MAX {
            return Err(Error::Full);
        }
        let s = Session { id: self.sessions.last + 1, hash: hash.to_owned(), user: id };
        self.sessions.push_next(s.duplicate());
        assert(self@ =~= old(self)@.add_session(id, hash@).0);
        Ok(s)
    }

    /// Get the first session of user `id`.
    pub fn get_session(&self, id: i64) -> (r: R<Session>)
        requires
            self@.wf(),
        ensures
            res_views(r) == ok_or(self@.session_of(id), ErrorV::SessionNotFound(id)),
    {
        match self.sessions.select_first(&SessionOfUser(id)) {
            Some(s) => Ok(s),
            None => Err(Error::SessionNotFound(id)),
        }
    }

    /// Get a board by name.
    pub fn get_board_by_name(&self, n: &str) -> (r: R<Board>)
        requires
            self@.wf(),
        ensures
            res_views(r) == ok_or(self@.board_by_name(n@), ErrorV::BoardNameNotFound(n@)),
    {
        match self.boards.select_first(&BoardNamed(n)) {
            Some(b) => Ok(b),
            None => Err(Error::BoardNameNotFound(n.to_owned())),
        }
    }

    /// Get a board by id.
    pub fn get_board(&self, id: i64) -> (r: R<Board>)
        requires
            self@.wf(),
        ensures
            res_views(r) == ok_or(self@.board(id), ErrorV::BoardNotFound(id)),
    {
        match self.boards.find(id) {
            Some(b) => Ok(b),
            None => Err(Error::BoardNotFound(id)),
        }
    }

    /// Get all boards.
    pub fn get_boards(&self) -> (r: R<Vec<Board>>)
        requires
            self@.wf(),
        ensures
            res_seq_views(r) == Ok::<Seq<BoardV>, ErrorV>(self@.boards.rows.filter(any_board())),
    {
        Ok(self.boards.select(&AnyBoard))
    }

    /// Get the boards that are not hidden.
    pub fn get_visible_boards(&self) -> (r: R<Vec<Board>>)
        requires
            self@.wf(),
        ensures
            res_seq_views(r) == Ok::<Seq<BoardV>, ErrorV>(self@.boards.rows.filter(board_visible())),
    {
        Ok(self.boards.select(&VisibleBoard))
    }

    /// Get the hidden boards.
    pub fn get_all_hidden_boards(&self) -> (r: R<Vec<Board>>)
        requires
            self@.wf(),
        ensures
            res_seq_views(r) == Ok::<Seq<BoardV>, ErrorV>(self@.boards.rows.filter(board_hidden())),
    {
        Ok(self.boards.select(&HiddenBoard))
    }

    /// Create a new board named `n`; if a board of that name exists, that
    /// board is the answer and nothing changes.
    pub fn new_board(&mut self, n: &str, d: &str) -> (r: R<Board>)
        requires
            old(self)@.wf(),
        ensures
            final(self)@ == old(self)@.add_board(n@, d@).0,
            res_views(r) == old(self)@.add_board(n@, d@).1,
            final(self)@.wf(),
    {
        if let Ok(b) = self.get_board_by_name(n) {
            return Ok(b);
        }
        if self.boards.last == i64::MAX {
            return Err(Error::Full);
        }
        let b = Board { id: self.boards.last + 1, name: n.to_owned(), desc: d.to_owned(), hidden: false };
        self.boards.push_next(b.duplicate());
        assert(self@ =~= old(self)@.add_board(n@, d@).0);
        Ok(b)
    }

    fn set_board_hidden_flag(&mut self, id: i64, h: bool) -> (r: R<Board>)
        requires
            old(self)@.wf(),
        ensures
            final(self)@ == old(self)@.board_updated(id, set_board_hidden(h)).0,
            res_views(r) == old(self)@.board_updated(id, set_board_hidden(h)).1,
            final(self)@.wf(),
    {
        match self.boards.position(id) {
            Some(i) => {
                let mut b = self.boards.row(i);
                b.hidden = h;
                self.boards.replace_by(i, b, Ghost(set_board_hidden(h)));
                assert(self@ =~= old(self)@.board_updated(id, set_board_hidden(h)).0);
                self.get_board(id)
            },
            None => Err(Error::BoardNotFound(id)),
        }
    }

    /// Hide a board from view; the answer is the hidden board.
    pub fn hide_board(&mut self, id: i64) -> (r: R<Board>)
        requires
            old(self)@.wf(),
        ensures
            final(self)@ == old(self)@.board_updated(id, set_board_hidden(true)).0,
            res_views(r) == old(self)@.board_updated(id, set_board_hidden(true)).1,
            final(self)@.wf(),
    {
        self.set_board_hidden_flag(id, true)
    }

    /// Make a board visible; the answer is the visible board.
    pub fn visible_board(&mut self, id: i64) -> (r: R<Board>)
        requires
            old(self)@.wf(),
        ensures
            final(self)@ == old(self)@.board_updated(id, set_board_hidden(false)).0,
            res_views(r) == old(self)@.board_updated(id, set_board_hidden(false)).1,
            final(self)@.wf(),
    {
        self.set_board_hidden_flag(id, false)
    }

    /// Rename board `id` to `n`.
    pub fn update_board_name(&mut self, id: i64, n: &str) -> (r: R<()>)
        requires
            old(self)@.wf(),
        ensures
            final(self)@ == old(self)@.with_boards(updated::<Board>(old(self)@.boards, id, set_board_name(n@))),
            r == Ok::<(), Error>(()),
            final(self)@.wf(),
    {
        match self.boards.position(id) {
            Some(i) => {
                let mut b = self.boards.row(i);
                b.name = n.to_owned();
                self.boards.replace_by(i, b, Ghost(set_board_name(n@)));
                assert(self@ =~= old(self)@.with_boards(updated::<Board>(old(self)@.boards, id, set_board_name(n@))));
            },
            None => {
                proof { lemma_updated_none::<Board>(self@.boards, id, set_board_name(n@)); }
                assert(self@ =~= old(self)@.with_boards(updated::<Board>(old(self)@.boards, id, set_board_name(n@))));
            },
        }
        Ok(())
    }

    /// Get a thread by id.
    pub fn get_thread(&self, id: i64) -> (r: R<Thread>)
        requires
            self@.wf(),
        ensures
            res_views(r) == ok_or(self@.thread(id), ErrorV::ThreadNotFound(id)),
    {
        match self.threads.find(id) {
            Some(t) => Ok(t),
            None => Err(Error::ThreadNotFound(id)),
        }
    }

    /// Get a post by id.
    pub fn get_post(&self, id: i64) -> (r: R<Post>)
        requires
            self@.wf(),
        ensures
            res_views(r) == ok_or(self@.post(id), ErrorV::PostNotFound(id)),
    {
        match self.posts.find(id) {
            Some(p) => Ok(p),
            None => Err(Error::PostNotFound(id)),
        }
    }

    /// Get a file by id.
    pub fn get_file(&self, id: i64) -> (r: R<File>)
        requires
            self@.wf(),
        ensures
            res_views(r) == ok_or(self@.file(id), ErrorV::FileNotFound(id)),
    {
        match self.files.find(id) {
            Some(f) => Ok(f),
            None => Err(Error::FileNotFound(id)),
        }
    }

    /// Get the hidden threads.
    pub fn get_all_hidden_threads(&self) -> (r: R<Vec<Thread>>)
        requires
            self@.wf(),
        ensures
            res_seq_views(r) == Ok::<Seq<ThreadV>, ErrorV>(self@.threads.rows.filter(thread_hidden())),
    {
        Ok(self.threads.select(&HiddenThread))
    }

    /// Get the hidden posts.
    pub fn get_all_hidden_posts(&self) -> (r: R<Vec<Post>>)
        requires
            self@.wf(),
        ensures
            res_seq_views(r) == Ok::<Seq<PostV>, ErrorV>(self@.posts.rows.filter(post_hidden())),
    {
        Ok(self.posts.select(&HiddenPost))
    }

    /// Get the posts of a thread, oldest first.
    pub fn get_posts(&self, thread: i64) -> (r: R<Vec<Post>>)
        requires
            self@.wf(),
        ensures
            res_seq_views(r) == Ok::<Seq<PostV>, ErrorV>(self@.posts_of(thread)),
    {
        Ok(self.posts.select(&PostInThread(thread)))
    }

    /// Get the posts of a thread that are not hidden, oldest first.
    pub fn get_visible_posts(&self, thread: i64) -> (r: R<Vec<Post>>)
        requires
            self@.wf(),
        ensures
            res_seq_views(r) == Ok::<Seq<PostV>, ErrorV>(self@.posts.rows.filter(post_visible_in_thread(thread))),
    {
        Ok(self.posts.select(&VisiblePostInThread(thread)))
    }

    /// Ids of the posts whose content holds the number of post `id`.
    pub fn get_post_replies(&self, id: i64) -> (r: R<Vec<i64>>)
        requires
            self@.wf(),
        ensures
            r matches Ok(v) && v@ == self@.replies_to(id),
    {
        let d = decimal_string(id);
        let needle = chars_of(d.as_str());
        let f = PostMentions { needle };
        let ps = self.posts.select(&f);
        let ghost pv = views(ps@);
        let mut ids: Vec<i64> = Vec::new();
        let mut i: usize = 0;
        while i < ps.len()
            invariant
                i <= ps@.len(),
                pv == views(ps@),
                pv == self@.posts.rows.filter(post_mentions(decimal(id as int))),
                ids@ == pv.take(i as int).map_values(|p: PostV| p.id),
            decreases ps@.len() - i,
        {
            ids.push(ps[i].id);
            assert(pv.take(i + 1).map_values(|p: PostV| p.id) =~= pv.take(i as int).map_values(|p: PostV| p.id).push(pv[i as int].id));
            i = i + 1;
        }
        assert(pv.take(ps@.len() as int) =~= pv);
        Ok(ids)
    }

    fn set_thread_hidden_flag(&mut self, id: i64, h: bool) -> (r: R<Thread>)
        requires
            old(self)@.wf(),
        ensures
            final(self)@ == old(self)@.thread_updated(id, set_thread_hidden(h)).0,
            res_views(r) == old(self)@.thread_updated(id, set_thread_hidden(h)).1,
            final(self)@.wf(),
    {
        match self.threads.position(id) {
            Some(i) => {
                let mut t = self.threads.row(i);
                t.hidden = h;
                self.threads.replace_by(i, t, Ghost(set_thread_hidden(h)));
                assert(self@ =~= old(self)@.thread_updated(id, set_thread_hidden(h)).0);
                self.get_thread(id)
            },
            None => Err(Error::ThreadNotFound(id)),
        }
    }

    fn set_thread_locked_flag(&mut self, id: i64, l: bool) -> (r: R<Thread>)
        requires
            old(self)@.wf(),
        ensures
            final(self)@ == old(self)@.thread_updated(id, set_thread_locked(l)).0,
            res_views(r) == old(self)@.thread_updated(id, set_thread_locked(l)).1,
            final(self)@.wf(),
    {
        match self.threads.position(id) {
            Some(i) => {
                let mut t = self.threads.row(i);
                t.locked = Some(l);
                self.threads.replace_by(i, t, Ghost(set_thread_locked(l)));
                assert(self@ =~= old(self)@.thread_updated(id, set_thread_locked(l)).0);
                self.get_thread(id)
            },
            None => Err(Error::ThreadNotFound(id)),
        }
    }

    fn set_post_hidden_flag(&mut self, id: i64, h: bool) -> (r: R<Post>)
        requires
            old(self)@.wf(),
        ensures
            final(self)@ == old(self)@.post_updated(id, set_post_hidden(h)).0,
            res_views(r) == old(self)@.post_updated(id, set_post_hidden(h)).1,
            final(self)@.wf(),
    {
        match self.posts.position(id) {
            Some(i) => {
                let mut p = self.posts.row(i);
                p.hidden = h;
                self.posts.replace_by(i, p, Ghost(set_post_hidden(h)));
                assert(self@ =~= old(self)@.post_updated(id, set_post_hidden(h)).0);
                self.get_post(id)
            },
            None => Err(Error::PostNotFound(id)),
        }
    }

    /// Hide a thread.
    pub fn hide_thread(&mut self, id: i64) -> (r: R<()>)
        requires
            old(self)@.wf(),
        ensures
            final(self)@ == old(self)@.thread_updated(id, set_thread_hidden(true)).0,
            res_views(r) == unit_of(old(self)@.thread_updated(id, set_thread_hidden(true)).1),
            final(self)@.wf(),
    {
        match self.set_thread_hidden_flag(id, true) {
            Ok(_) => Ok(()),
            Err(e) => Err(e),
        }
    }

    /// Make a thread visible; the answer is the visible thread.
    pub fn visible_thread(&mut self, id: i64) -> (r: R<Thread>)
        requires
            old(self)@.wf(),
        ensures
            final(self)@ == old(self)@.thread_updated(id, set_thread_hidden(false)).0,
            res_views(r) == old(self)@.thread_updated(id, set_thread_hidden(false)).1,
            final(self)@.wf(),
    {
        self.set_thread_hidden_flag(id, false)
    }

    /// Lock a thread: no more posts can be made in it.
    pub fn lock_thread(&mut self, id: i64) -> (r: R<()>)
        requires
            old(self)@.wf(),
        ensures
            final(self)@ == old(self)@.thread_updated(id, set_thread_locked(true)).0,
            res_views(r) == unit_of(old(self)@.thread_updated(id, set_thread_locked(true)).1),
            final(self)@.wf(),
    {
        match self.set_thread_locked_flag(id, true) {
            Ok(_) => Ok(()),
            Err(e) => Err(e),
        }
    }

    /// Unlock a thread.
    pub fn unlock_thread(&mut self, id: i64) -> (r: R<()>)
        requires
            old(self)@.wf(),
        ensures
            final(self)@ == old(self)@.thread_updated(id, set_thread_locked(false)).0,
            res_views(r) == unit_of(old(self)@.thread_updated(id, set_thread_locked(false)).1),
            final(self)@.wf(),
    {
        match self.set_thread_locked_flag(id, false) {
            Ok(_) => Ok(()),
            Err(e) => Err(e),
        }
    }

    /// Hide a post.
    pub fn hide_post(&mut self, id: i64) -> (r: R<()>)
        requires
            old(self)@.wf(),
        ensures
            final(self)@ == old(self)@.post_updated(id, set_post_hidden(true)).0,
            res_views(r) == unit_of(old(self)@.post_updated(id, set_post_hidden(true)).1),
            final(self)@.wf(),
    {
        match self.set_post_hidden_flag(id, true) {
            Ok(_) => Ok(()),
            Err(e) => Err(e),
        }
    }

    /// Make a post visible; the answer is the visible post.
    pub fn visible_post(&mut self, id: i64) -> (r: R<Post>)
        requires
            old(self)@.wf(),
        ensures
            final(self)@ == old(self)@.post_updated(id, set_post_hidden(false)).0,
            res_views(r) == old(self)@.post_updated(id, set_post_hidden(false)).1,
            final(self)@.wf(),
    {
        self.set_post_hidden_flag(id, false)
    }

    /// Add a new file, if the bytes decode as an image.
    pub fn new_file(&mut self, file: &[u8]) -> (r: R<File>)
        requires
            old(self)@.wf(),
        ensures
            final(self)@ == old(self)@.add_file(file@).0,
            res_views(r) == old(self)@.add_file(file@).1,
            final(self)@.wf(),
    {
        let is_image = decodes_as_image(file);
        self.store_file(file, is_image)
    }

    /// Store `file` as a new file, where `is_image` says whether it decodes
    /// as an image.
    pub fn store_file(&mut self, file: &[u8], is_image: bool) -> (r: R<File>)
        requires
            old(self)@.wf(),
        ensures
            final(self)@ == old(self)@.add_checked_file(file@, is_image).0,
            res_views(r) == old(self)@.add_checked_file(file@, is_image).1,
            final(self)@.wf(),
    {
        if !is_image {
            return Err(Error::NotAnImage);
        }
        if self.files.last == i64::MAX {
            return Err(Error::Full);
        }
        let f = File { id: self.files.last + 1, bytes: crate::records::copy_bytes(file) };
        self.files.push_next(f.duplicate());
        assert(self@ =~= old(self)@.add_checked_file(file@, is_image).0);
        Ok(f)
    }

    fn store_attachment(&mut self, file: Option<&[u8]>) -> (r: R<Option<i64>>)
        requires
            old(self)@.wf(),
        ensures
            final(self)@ == old(self)@.add_attachment(opt_bytes(file)).0,
            res_views(r) == old(self)@.add_attachment(opt_bytes(file)).1,
            final(self)@.wf(),
    {
        match file {
            None => Ok(None),
            Some(b) => match self.new_file(b) {
                Ok(f) => Ok(Some(f.id)),
                Err(e) => Err(e),
            },
        }
    }

    /// Add a stylesheet for user `uid`; the answer is the user's newest
    /// stylesheet.
    pub fn new_css(&mut self, uid: i64, vars: &str, css: &str) -> (r: R<Option<Css>>)
        requires
            old(self)@.wf(),
        ensures
            final(self)@ == old(self)@.add_css(uid, vars@, css@).0,
            res_opt_views(r) == old(self)@.add_css(uid, vars@, css@).1,
            final(self)@.wf(),
    {
        if let Err(e) = self.get_user(uid) {
            return Err(e);
        }
        if self.css.last == i64::MAX {
            return Err(Error::Full);
        }
        let c = Css { id: self.css.last + 1, user: uid, css: css.to_owned(), vars: vars.to_owned() };
        self.css.push_next(c);
        assert(self@ =~= old(self)@.add_css(uid, vars@, css@).0);
        self.get_css(uid)
    }

    /// The newest stylesheet of user `uid`, if any.
    pub fn get_css(&self, uid: i64) -> (r: R<Option<Css>>)
        requires
            self@.wf(),
        ensures
            res_opt_views(r) == Ok::<Option<CssV>, ErrorV>(self@.css_of(uid)),
    {
        Ok(self.css.select_last(&CssOfUser(uid)))
    }

    /// The theme of user `id`: its name, or empty when unset.
    pub fn get_theme(&self, id: i64) -> (r: R<String>)
        requires
            self@.wf(),
        ensures
            match r {
                Ok(t) => self@.user(id) matches Some(u) && t@ == theme_text(u),
                Err(e) => self@.user(id).is_none() && e@ == ErrorV::NoTheme(id),
            },
    {
        match self.users.find(id) {
            Some(u) => match u.theme {
                Some(t) => Ok(t),
                None => {
                    let t = String::new();
                    assert(t@ =~= theme_text(u@));
                    Ok(t)
                },
            },
            None => Err(Error::NoTheme(id)),
        }
    }

    /// The post of thread `t` that `order by time` puts last.
    pub fn last_post(&self, t: i64) -> (r: R<Option<Post>>)
        requires
            self@.wf(),
        ensures
            res_opt_views(r) == Ok::<Option<PostV>, ErrorV>(self@.latest_post(t)),
    {
        let ps = self.posts.select(&PostInThread(t));
        let ghost pv = views(ps@);
        let mut best: Option<usize> = None;
        let mut i: usize = 0;
        while i < ps.len()
            invariant
                i <= ps@.len(),
                pv == views(ps@),
                pv == self@.posts_of(t),
                match best {
                    None => latest_post_in(pv.take(i as int)).is_none(),
                    Some(k) => k < i && latest_post_in(pv.take(i as int)) == Some(pv[k as int]),
                },
            decreases ps@.len() - i,
        {
            assert(pv.take(i + 1).drop_last() =~= pv.take(i as int));
            match best {
                None => { best = Some(i); },
                Some(k) => {
                    if ps[i].time >= ps[k].time {
                        best = Some(i);
                    }
                },
            }
            i = i + 1;
        }
        assert(pv.take(ps@.len() as int) =~= pv);
        match best {
            Some(k) => Ok(Some(ps[k].duplicate())),
            None => Ok(None),
        }
    }

    /// The read marker of thread `t` that `order by time` puts last.
    pub fn last_read(&self, t: i64) -> (r: R<Option<Read>>)
        requires
            self@.wf(),
        ensures
            res_opt_views(r) == Ok::<Option<ReadV>, ErrorV>(self@.latest_read(t)),
    {
        let rs = self.reads.select(&ReadInThread(t));
        let ghost rv = views(rs@);
        let mut best: Option<usize> = None;
        let mut i: usize = 0;
        while i < rs.len()
            invariant
                i <= rs@.len(),
                rv == views(rs@),
                rv == self@.reads.rows.filter(read_in_thread(t)),
                match best {
                    None => latest_read_in(rv.take(i as int)).is_none(),
                    Some(k) => k < i && latest_read_in(rv.take(i as int)) == Some(rv[k as int]),
                },
            decreases rs@.len() - i,
        {
            assert(rv.take(i + 1).drop_last() =~= rv.take(i as int));
            match best {
                None => { best = Some(i); },
                Some(k) => {
                    if rs[i].time >= rs[k].time {
                        best = Some(i);
                    }
                },
            }
            i = i + 1;
        }
        assert(rv.take(rs@.len() as int) =~= rv);
        match best {
            Some(k) => Ok(Some(rs[k].duplicate())),
            None => Ok(None),
        }
    }

    /// Is thread `t` read by user `u`?
    pub fn is_read(&self, u: i64, t: i64) -> (r: R<bool>)
        requires
            self@.wf(),
        ensures
            r == Ok::<bool, Error>(self@.read_state(u, t)),
    {
        let last = self.last_post(t);
        let read = self.last_read(t);
        let marked = match last {
            Ok(Some(p)) => p.id,
            _ => t,
        };
        match read {
            Ok(Some(rd)) => Ok(rd.user == u && rd.marked == marked),
            _ => Ok(false),
        }
    }

    /// Add a read marker of user `u` on thread `t` at `time`.
    pub fn mark_as_read_at(&mut self, u: i64, t: i64, time: i64) -> (r: R<()>)
        requires
            old(self)@.wf(),
        ensures
            final(self)@ == old(self)@.add_read(u, t, time).0,
            res_views(r) == old(self)@.add_read(u, t, time).1,
            final(self)@.wf(),
    {
        let last = self.last_post(t);
        if self.reads.last == i64::MAX {
            return Err(Error::Full);
        }
        let rd = match last {
            Ok(Some(p)) => Read { id: self.reads.last + 1, marked: p.id, thread: t, time, is_post: true, user: u },
            _ => Read { id: self.reads.last + 1, marked: t, thread: t, time, is_post: false, user: u },
        };
        self.reads.push_next(rd);
        assert(self@ =~= old(self)@.add_read(u, t, time).0);
        Ok(())
    }

    /// Make a new thread at time `time`, with an optional image.
    pub fn new_thread_at(
        &mut self,
        board: i64,
        author: i64,
        name: &str,
        cont: &str,
        file: Option<&[u8]>,
        time: i64,
    ) -> (r: R<Thread>)
        requires
            old(self)@.wf(),
        ensures
            final(self)@ == old(self)@.add_thread(board, author, name@, cont@, opt_bytes(file), time).0,
            res_views(r) == old(self)@.add_thread(board, author, name@, cont@, opt_bytes(file), time).1,
            final(self)@.wf(),
    {
        let fid = match self.store_attachment(file) {
            Ok(f) => f,
            Err(e) => return Err(e),
        };
        let ghost d = self@;
        if let Err(e) = self.get_user(author) {
            return Err(e);
        }
        if self.threads.last == i64::MAX {
            return Err(Error::Full);
        }
        let t = Thread {
            id: self.threads.last + 1,
            name: name.to_owned(),
            cont: cont.to_owned(),
            hidden: false,
            file: fid,
            board,
            time,
            author,
            locked: Some(false),
        };
        self.threads.push_next(t.duplicate());
        assert(self@ =~= d.with_threads(appended(d.threads, t@)));
        Ok(t)
    }

    /// Make a new post in thread `thread` at time `time`, with an optional
    /// image; refused in a locked thread.
    pub fn new_post_at(
        &mut self,
        thread: i64,
        author: i64,
        cont: &str,
        file: Option<&[u8]>,
        time: i64,
    ) -> (r: R<Post>)
        requires
            old(self)@.wf(),
        ensures
            final(self)@ == old(self)@.add_post(thread, author, cont@, opt_bytes(file), time).0,
            res_views(r) == old(self)@.add_post(thread, author, cont@, opt_bytes(file), time).1,
            final(self)@.wf(),
    {
        let fid = match self.store_attachment(file) {
            Ok(f) => f,
            Err(e) => return Err(e),
        };
        let ghost d = self@;
        let t = match self.get_thread(thread) {
            Ok(t) => t,
            Err(e) => return Err(e),
        };
        let b = match self.get_board(t.board) {
            Ok(b) => b,
            Err(e) => return Err(e),
        };
        if t.locked() {
            return Err(Error::ThreadLocked(t.name));
        }
        if let Err(e) = self.get_user(author) {
            return Err(e);
        }
        if self.posts.last == i64::MAX {
            return Err(Error::Full);
        }
        let p = Post {
            id: self.posts.last + 1,
            cont: cont.to_owned(),
            hidden: false,
            file: fid,
            board: b.id,
            thread: t.id,
            time,
            author,
        };
        self.posts.push_next(p.duplicate());
        assert(self@ =~= d.with_posts(appended(d.posts, p@)));
        Ok(p)
    }

    /// When thread `t` last saw activity.
    fn activity_of(&self, t: &Thread) -> (r: i64)
        requires
            self@.wf(),
        ensures
            r == self@.activity(t@),
    {
        let ps = self.posts.select(&PostInThread(t.id));
        let ghost pv = views(ps@);
        if ps.len() == 0 {
            return t.time;
        }
        let mut m = ps[0].time;
        let mut i: usize = 1;
        assert(pv.take(1) =~= seq![pv[0]]);
        while i < ps.len()
            invariant
                1 <= i <= ps@.len(),
                pv == views(ps@),
                pv == self@.posts_of(t.id),
                m == max_post_time(pv.take(i as int)),
            decreases ps@.len() - i,
        {
            assert(pv.take(i + 1).drop_last() =~= pv.take(i as int));
            if ps[i].time > m {
                m = ps[i].time;
            }
            i = i + 1;
        }
        assert(pv.take(ps@.len() as int) =~= pv);
        m
    }

    /// The threads of a board, in board-page order: the thread with the
    /// most recent post first (a thread without posts counts from its own
    /// time), and among equals the newer thread first.
    pub fn get_threads(&self, board: i64) -> (r: R<Vec<Thread>>)
        requires
            self@.wf(),
        ensures
            r matches Ok(v) && self@.board_listing(board, views(v@)) && views(v@) == self@.board_order(board),
    {
        let on_vec = self.threads.select(&ThreadOnBoard(board));
        let ghost on = views(on_vec@);
        let ghost db = self@;
        proof {
            assert forall|a: int, b: int| 0 <= a < b < on.len() implies on[a].id < on[b].id by {
                lemma_filter_order::<Thread>(db.threads.rows, thread_on_board(board), a, b);
            }
        }
        let mut out: Vec<Thread> = Vec::new();
        let mut keys: Vec<i64> = Vec::new();
        let ghost mut src: Seq<int> = Seq::empty();
        let mut i: usize = 0;
        while i < on_vec.len()
            invariant
                db == self@,
                db.wf(),
                on == views(on_vec@),
                on == db.threads.rows.filter(thread_on_board(board)),
                forall|a: int, b: int| 0 <= a < b < on.len() ==> on[a].id < on[b].id,
                i <= on.len(),
                out@.len() == i,
                keys@.len() == i,
                forall|k: int| 0 <= k < i ==> keys@[k] == db.activity(#[trigger] out@[k]@),
                src.len() == i,
                forall|k: int| 0 <= k < i ==> 0 <= #[trigger] src[k] < i && out@[k]@ == on[src[k]],
                forall|a: int, b: int| 0 <= a < b < i ==> db.thread_before(out@[a]@, out@[b]@),
            decreases on.len() - i,
        {
            let t = on_vec[i].duplicate();
            let key = self.activity_of(&t);
            let mut j: usize = 0;
            while j < out.len() && !(key > keys[j] || (key == keys[j] && t.id > out[j].id))
                invariant
                    db == self@,
                    i < on.len(),
                    t@ == on[i as int],
                    key == db.activity(t@),
                    out@.len() == i,
                    keys@.len() == i,
                    j <= i,
                    forall|k: int| 0 <= k < i ==> keys@[k] == db.activity(#[trigger] out@[k]@),
                    src.len() == i,
                    forall|k: int| 0 <= k < i ==> 0 <= #[trigger] src[k] < i && out@[k]@ == on[src[k]],
                    forall|a: int, b: int| 0 <= a < b < on.len() ==> on[a].id < on[b].id,
                    forall|m: int| 0 <= m < j ==> db.thread_before(#[trigger] out@[m]@, t@),
                decreases i - j,
            {
                proof {
                    let q = src[j as int];
                    assert(on[q].id < on[i as int].id);
                }
                j = j + 1;
            }
            let ghost old_out = out@;
            proof {
                assert forall|m: int| j <= m < i implies db.thread_before(t@, #[trigger] old_out[m]@) by {
                    if m > j {
                        assert(db.thread_before(old_out[j as int]@, old_out[m]@));
                    }
                }
            }
            out.insert(j, t);
            keys.insert(j, key);
            proof {
                assert forall|k: int| 0 <= k < i + 1 implies keys@[k] == db.activity(#[trigger] out@[k]@) by {
                    if k < j {
                        assert(out@[k] == old_out[k]);
                    } else if k > j {
                        assert(out@[k] == old_out[k - 1]);
                    }
                }
                let old_src = src;
                src = src.insert(j as int, i as int);
                assert forall|k: int| 0 <= k < i + 1 implies 0 <= #[trigger] src[k] < i + 1 && out@[k]@ == on[src[k]] by {
                    if k < j {
                        assert(out@[k] == old_out[k]);
                        assert(src[k] == old_src[k]);
                    } else if k > j {
                        assert(out@[k] == old_out[k - 1]);
                        assert(src[k] == old_src[k - 1]);
                    } else {
                        assert(out@[k]@ == on[i as int]);
                    }
                }
                assert forall|a: int, b: int| 0 <= a < b < i + 1 implies db.thread_before(out@[a]@, out@[b]@) by {
                    if b < j {
                        assert(out@[a] == old_out[a] && out@[b] == old_out[b]);
                    } else if b == j {
                        assert(out@[a] == old_out[a]);
                    } else if a < j {
                        assert(out@[a] == old_out[a] && out@[b] == old_out[b - 1]);
                        assert(db.thread_before(old_out[a]@, t@));
                        assert(db.thread_before(t@, old_out[b - 1]@));
                    } else if a == j {
                        assert(out@[b] == old_out[b - 1]);
                    } else {
                        assert(out@[a] == old_out[a - 1] && out@[b] == old_out[b - 1]);
                    }
                }
            }
            i = i + 1;
        }
        proof {
            assert forall|k: int| 0 <= k < out@.len() implies on.contains(#[trigger] views(out@)[k]) by {
                let q = src[k];
                assert(on[q] == views(out@)[k]);
            }
            assert(db.board_listing(board, views(out@)));
            law_board_listing_unique(db, board, views(out@), db.board_order(board));
        }
        Ok(out)
    }

    /// The threads of a board that are not hidden, in board-page order.
    pub fn get_visible_threads(&self, board: i64) -> (r: R<Vec<Thread>>)
        requires
            self@.wf(),
        ensures
            self@.board_listing(board, self@.board_order(board)),
            r matches Ok(v) && views(v@) == self@.board_order(board).filter(thread_visible()),
    {
        let all = match self.get_threads(board) {
            Ok(v) => v,
            Err(e) => return Err(e),
        };
        let ghost av = views(all@);
        let mut out: Vec<Thread> = Vec::new();
        let mut i: usize = 0;
        assert(av.take(0) =~= Seq::<ThreadV>::empty());
        assert(views(out@) =~= av.take(0).filter(thread_visible())) by {
            reveal(Seq::filter);
        }
        while i < all.len()
            invariant
                i <= all@.len(),
                av == views(all@),
                views(out@) == av.take(i as int).filter(thread_visible()),
            decreases all@.len() - i,
        {
            proof { lemma_take_filter_step(av, thread_visible(), i as int); }
            if !all[i].hidden {
                let ghost before = out@;
                out.push(all[i].duplicate());
                assert(views(out@) =~= views(before).push(av[i as int]));
            }
            i = i + 1;
        }
        proof { lemma_take_all(av); }
        Ok(out)
    }

    /// Make a new user with name `n` and password `p` (stored hashed).
    pub fn new_user(&mut self, n: &str, p: &str) -> (r: R<User>)
        requires
            old(self)@.wf(),
        ensures
            final(self)@.wf(),
            match r {
                Ok(u) => argon2_verifies(p@, u@.hash)
                    && final(self)@ == old(self)@.add_user(n@, u@.hash).0
                    && old(self)@.add_user(n@, u@.hash).1 == Ok::<UserV, ErrorV>(u@),
                Err(e) => final(self)@ == old(self)@ && match e {
                    Error::UserExists(x) => x@ == n@ && old(self)@.user_by_name(n@).is_some(),
                    Error::HashFailed => old(self)@.user_by_name(n@).is_none(),
                    Error::Full => old(self)@.user_by_name(n@).is_none() && !has_room(old(self)@.users),
                    _ => false,
                },
            },
    {
        if let Ok(_) = self.get_user_by_name(n) {
            return Err(Error::UserExists(n.to_owned()));
        }
        let h = match hash_password(p) {
            Ok(h) => h,
            Err(e) => return Err(e),
        };
        self.new_user_with_hash(n, h.as_str())
    }

    /// Make a new session for user `id`, with a fresh random token of 512
    /// letters; the answer is the session just made.
    pub fn new_session(&mut self, id: i64) -> (r: R<Session>)
        requires
            old(self)@.wf(),
        ensures
            final(self)@.wf(),
            exists|h: Seq<char>| #[trigger] is_token(h, SESSION_HASH_LEN as nat)
                && final(self)@ == old(self)@.add_session(id, h).0
                && res_views(r) == old(self)@.add_session(id, h).1,
    {
        let hash = match rand_str::<SESSION_HASH_LEN>() {
            Ok(h) => h,
            Err(e) => return Err(e),
        };
        let r = self.new_session_with_hash(id, hash.as_str());
        assert(is_token(hash@, SESSION_HASH_LEN as nat));
        r
    }

    /// Set the password of user `id` to `pass` (stored hashed).
    pub fn update_pass(&mut self, id: i64, pass: &str) -> (r: R<()>)
        requires
            old(self)@.wf(),
        ensures
            final(self)@.wf(),
            r == Err::<(), Error>(Error::HashFailed) && final(self)@ == old(self)@
            || exists|h: Seq<char>| #[trigger] argon2_verifies(pass@, h)
                && final(self)@ == old(self)@.user_updated(id, set_user_hash(h)).0
                && res_views(r) == old(self)@.user_updated(id, set_user_hash(h)).1,
    {
        let h = match hash_password(pass) {
            Ok(h) => h,
            Err(e) => return Err(e),
        };
        let r = self.update_pass_with_hash(id, h.as_str());
        assert(argon2_verifies(pass@, h@));
        r
    }

    /// Add a read marker of user `u` on thread `t`, stamped with the current
    /// time.
    pub fn mark_as_read(&mut self, u: i64, t: i64) -> (r: R<()>)
        requires
            old(self)@.wf(),
        ensures
            final(self)@.wf(),
            r == Err::<(), Error>(Error::Clock) && final(self)@ == old(self)@
            || exists|time: i64| final(self)@ == #[trigger] old(self)@.add_read(u, t, time).0
                && res_views(r) == old(self)@.add_read(u, t, time).1,
    {
        let time = match now() {
            Ok(x) => x,
            Err(e) => return Err(e),
        };
        self.mark_as_read_at(u, t, time)
    }

    /// Make a new thread, stamped with the current time.
    pub fn new_thread(
        &mut self,
        board: i64,
        author: i64,
        name: &str,
        cont: &str,
        file: Option<&[u8]>,
    ) -> (r: R<Thread>)
        requires
            old(self)@.wf(),
        ensures
            final(self)@.wf(),
            r matches Err(Error::Clock) && final(self)@ == old(self)@
            || exists|time: i64|
                final(self)@ == #[trigger] old(self)@.add_thread(board, author, name@, cont@, opt_bytes(file), time).0
                && res_views(r) == old(self)@.add_thread(board, author, name@, cont@, opt_bytes(file), time).1,
    {
        let time = match now() {
            Ok(x) => x,
            Err(e) => return Err(e),
        };
        self.new_thread_at(board, author, name, cont, file, time)
    }

    /// Make a new post in thread `thread`, stamped with the current time;
    /// refused in a locked thread.
    pub fn new_post(
        &mut self,
        thread: i64,
        author: i64,
        cont: &str,
        file: Option<&[u8]>,
    ) -> (r: R<Post>)
        requires
            old(self)@.wf(),
        ensures
            final(self)@.wf(),
            r matches Err(Error::Clock) && final(self)@ == old(self)@
            || exists|time: i64|
                final(self)@ == #[trigger] old(self)@.add_post(thread, author, cont@, opt_bytes(file), time).0
                && res_views(r) == old(self)@.add_post(thread, author, cont@, opt_bytes(file), time).1,
    {
        let time = match now() {
            Ok(x) => x,
            Err(e) => return Err(e),
        };
        self.new_post_at(thread, author, cont, file, time)
    }

    /// Set the theme of user `id` to `t`, which must be one of `themes`.
    pub fn set_theme(&mut self, id: i64, t: &str, themes: &Themes) -> (r: R<()>)
        requires
            old(self)@.wf(),
        ensures
            final(self)@ == old(self)@.theme_set(id, t@, lookup(themes@, t@).is_some()).0,
            res_views(r) == old(self)@.theme_set(id, t@, lookup(themes@, t@).is_some()).1,
            final(self)@.wf(),
    {
        let i = match self.users.position(id) {
            Some(i) => i,
            None => return Err(Error::UserNotFound(id)),
        };
        if !themes.contains(t) {
            return Err(Error::ThemeNotFound(t.to_owned()));
        }
        let mut u = self.users.row(i);
        u.theme = Some(t.to_owned());
        self.replace_user(i, u, Ghost(set_user_theme(t@)));
        Ok(())
    }
}

} // verus!
