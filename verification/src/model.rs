//! The mathematical model of the forum's database: each table is a sequence
//! of rows in id order, with the largest id it has ever handed out.

use vstd::prelude::*;
use crate::records::{is_locked, Record, User, UserV, Session, SessionV, Board, BoardV, Thread, ThreadV, File, FileV, Post, PostV, Read, ReadV, Css, CssV};
use crate::strings::{decimal, push_str, push_decimal};
use crate::image::image_decodes;

verus! {

/// Why an operation on the forum failed.
#[derive(Debug, Clone, PartialEq, Eq)]
pub enum Error {
    /// No session cookie was sent.
    NotLoggedIn,
    /// The session cookie names no session.
    NoSession,
    /// A user of this name already exists.
    UserExists(String),
    /// No user has this id.
    UserNotFound(i64),
    /// No user has this name.
    UserNameNotFound(String),
    /// The user of this id has no session.
    SessionNotFound(i64),
    /// No board has this id.
    BoardNotFound(i64),
    /// No board has this name.
    BoardNameNotFound(String),
    /// No thread has this id.
    ThreadNotFound(i64),
    /// No post has this id.
    PostNotFound(i64),
    /// No file has this id.
    FileNotFound(i64),
    /// The uploaded bytes are not an image.
    NotAnImage,
    /// Posting in the locked thread of this name.
    ThreadLocked(String),
    /// No theme has this name.
    ThemeNotFound(String),
    /// No user of this id has a theme column to read.
    NoTheme(i64),
    /// The password could not be hashed.
    HashFailed,
    /// The password does not match the stored hash.
    BadPassword,
    /// A table has handed out its largest possible id.
    Full,
    /// The system clock reads a time before 1970.
    Clock,
}

/// An error, with its names as text.
pub enum ErrorV {
    NotLoggedIn,
    NoSession,
    UserExists(Seq<char>),
    UserNotFound(i64),
    UserNameNotFound(Seq<char>),
    SessionNotFound(i64),
    BoardNotFound(i64),
    BoardNameNotFound(Seq<char>),
    ThreadNotFound(i64),
    PostNotFound(i64),
    FileNotFound(i64),
    NotAnImage,
    ThreadLocked(Seq<char>),
    ThemeNotFound(Seq<char>),
    NoTheme(i64),
    HashFailed,
    BadPassword,
    Full,
    Clock,
}

impl View for Error {
    type V = ErrorV;

    open spec fn view(&self) -> ErrorV {
        match self {
            Error::NotLoggedIn => ErrorV::NotLoggedIn,
            Error::NoSession => ErrorV::NoSession,
            Error::UserExists(n) => ErrorV::UserExists(n@),
            Error::UserNotFound(id) => ErrorV::UserNotFound(*id),
            Error::UserNameNotFound(n) => ErrorV::UserNameNotFound(n@),
            Error::SessionNotFound(id) => ErrorV::SessionNotFound(*id),
            Error::BoardNotFound(id) => ErrorV::BoardNotFound(*id),
            Error::BoardNameNotFound(n) => ErrorV::BoardNameNotFound(n@),
            Error::ThreadNotFound(id) => ErrorV::ThreadNotFound(*id),
            Error::PostNotFound(id) => ErrorV::PostNotFound(*id),
            Error::FileNotFound(id) => ErrorV::FileNotFound(*id),
            Error::NotAnImage => ErrorV::NotAnImage,
            Error::ThreadLocked(n) => ErrorV::ThreadLocked(n@),
            Error::ThemeNotFound(n) => ErrorV::ThemeNotFound(n@),
            Error::NoTheme(id) => ErrorV::NoTheme(*id),
            Error::HashFailed => ErrorV::HashFailed,
            Error::BadPassword => ErrorV::BadPassword,
            Error::Full => ErrorV::Full,
            Error::Clock => ErrorV::Clock,
        }
    }
}

impl ErrorV {
    /// What the error says to a visitor.
    pub open spec fn text(self) -> Seq<char> {
        match self {
            ErrorV::NotLoggedIn => "Db::me(): not logged in"@,
            ErrorV::NoSession => "Db::me(): no sessions found for user"@,
            ErrorV::UserExists(n) => "Db::new_user("@ + n + "): user already exists!"@,
            ErrorV::UserNotFound(id) => "Db::get_user("@ + decimal(id as int) + "): user not found"@,
            ErrorV::UserNameNotFound(n) => "Db::get_user_by_name("@ + n + "): user not found"@,
            ErrorV::SessionNotFound(id) => "Db::get_session("@ + decimal(id as int) + "): session not found"@,
            ErrorV::BoardNotFound(id) => "Db::get_board("@ + decimal(id as int) + "): board not found"@,
            ErrorV::BoardNameNotFound(n) => "Db::get_board_by_name("@ + n + "): board not found"@,
            ErrorV::ThreadNotFound(id) => "Db::get_thread("@ + decimal(id as int) + "): thread not found"@,
            ErrorV::PostNotFound(id) => "Db::get_post("@ + decimal(id as int) + "): post not found"@,
            ErrorV::FileNotFound(id) => "Db::get_file("@ + decimal(id as int) + "): file not found"@,
            ErrorV::NotAnImage => "file is not an image"@,
            ErrorV::ThreadLocked(n) => "attempting to post in locked thread \""@ + n + "\""@,
            ErrorV::ThemeNotFound(n) => "failed to get theme \""@ + n + "\""@,
            ErrorV::NoTheme(id) => "Db::get_theme("@ + decimal(id as int) + "): theme not found"@,
            ErrorV::HashFailed => "failed to hash password"@,
            ErrorV::BadPassword => "invalid password"@,
            ErrorV::Full => "no ids are left"@,
            ErrorV::Clock => "the clock is set before 1970"@,
        }
    }
}

impl Error {
    /// The error as text (see `ErrorV::text`).
    pub fn message(&self) -> (r: String)
        ensures
            r@ == self@.text(),
    {
        let mut out = String::new();
        match self {
            Error::NotLoggedIn => push_str(&mut out, "Db::me(): not logged in"),
            Error::NoSession => push_str(&mut out, "Db::me(): no sessions found for user"),
            Error::UserExists(n) => {
                push_str(&mut out, "Db::new_user(");
                push_str(&mut out, n.as_str());
                push_str(&mut out, "): user already exists!");
            },
            Error::UserNotFound(id) => {
                push_str(&mut out, "Db::get_user(");
                push_decimal(&mut out, *id);
                push_str(&mut out, "): user not found");
            },
            Error::UserNameNotFound(n) => {
                push_str(&mut out, "Db::get_user_by_name(");
                push_str(&mut out, n.as_str());
                push_str(&mut out, "): user not found");
            },
            Error::SessionNotFound(id) => {
                push_str(&mut out, "Db::get_session(");
                push_decimal(&mut out, *id);
                push_str(&mut out, "): session not found");
            },
            Error::BoardNotFound(id) => {
                push_str(&mut out, "Db::get_board(");
                push_decimal(&mut out, *id);
                push_str(&mut out, "): board not found");
            },
            Error::BoardNameNotFound(n) => {
                push_str(&mut out, "Db::get_board_by_name(");
                push_str(&mut out, n.as_str());
                push_str(&mut out, "): board not found");
            },
            Error::ThreadNotFound(id) => {
                push_str(&mut out, "Db::get_thread(");
                push_decimal(&mut out, *id);
                push_str(&mut out, "): thread not found");
            },
            Error::PostNotFound(id) => {
                push_str(&mut out, "Db::get_post(");
                push_decimal(&mut out, *id);
                push_str(&mut out, "): post not found");
            },
            Error::FileNotFound(id) => {
                push_str(&mut out, "Db::get_file(");
                push_decimal(&mut out, *id);
                push_str(&mut out, "): file not found");
            },
            Error::NotAnImage => push_str(&mut out, "file is not an image"),
            Error::ThreadLocked(n) => {
                push_str(&mut out, "attempting to post in locked thread \"");
                push_str(&mut out, n.as_str());
                push_str(&mut out, "\"");
            },
            Error::ThemeNotFound(n) => {
                push_str(&mut out, "failed to get theme \"");
                push_str(&mut out, n.as_str());
                push_str(&mut out, "\"");
            },
            Error::NoTheme(id) => {
                push_str(&mut out, "Db::get_theme(");
                push_decimal(&mut out, *id);
                push_str(&mut out, "): theme not found");
            },
            Error::HashFailed => push_str(&mut out, "failed to hash password"),
            Error::BadPassword => push_str(&mut out, "invalid password"),
            Error::Full => push_str(&mut out, "no ids are left"),
            Error::Clock => push_str(&mut out, "the clock is set before 1970"),
        }
        assert(out@ =~= self@.text());
        out
    }
}

/// A table: its rows in id order, and the largest id it has handed out.
#[verifier::ext_equal]
pub struct TableV<V> {
    pub rows: Seq<V>,
    pub last: i64,
}

/// Ids strictly increase along the rows and none exceeds `last`.
pub open spec fn table_wf<T: Record>(t: TableV<T::V>) -> bool {
    &&& forall|i: int, j: int| 0 <= i < j < t.rows.len() ==> T::key(t.rows[i]) < T::key(t.rows[j])
    &&& forall|i: int| 0 <= i < t.rows.len() ==> T::key(#[trigger] t.rows[i]) <= t.last
}

/// The table with one more row, under the next id.
pub open spec fn appended<V>(t: TableV<V>, row: V) -> TableV<V> {
    TableV { rows: t.rows.push(row), last: (t.last + 1) as i64 }
}

/// The id the next row of `t` gets.
pub open spec fn next_id<V>(t: TableV<V>) -> i64 {
    (t.last + 1) as i64
}

/// Whether `t` can take one more row.
pub open spec fn has_room<V>(t: TableV<V>) -> bool {
    t.last < i64::MAX
}

pub open spec fn first<V>(s: Seq<V>) -> Option<V> {
    if s.len() > 0 {
        Some(s[0])
    } else {
        None
    }
}

pub open spec fn last_of<V>(s: Seq<V>) -> Option<V> {
    if s.len() > 0 {
        Some(s.last())
    } else {
        None
    }
}

pub open spec fn views<T: View>(s: Seq<T>) -> Seq<T::V> {
    s.map_values(|x: T| x@)
}

pub open spec fn opt_views<T: View>(o: Option<T>) -> Option<T::V> {
    match o {
        Some(x) => Some(x@),
        None => None,
    }
}

/// Rows whose id is `id`.
pub open spec fn keyed<T: Record>(id: i64) -> spec_fn(T::V) -> bool {
    |v: T::V| T::key(v) == id
}

pub open spec fn user_named(n: Seq<char>) -> spec_fn(UserV) -> bool {
    |u: UserV| u.name == n
}

pub open spec fn user_admin() -> spec_fn(UserV) -> bool {
    |u: UserV| u.admin
}

pub open spec fn any_user() -> spec_fn(UserV) -> bool {
    |u: UserV| true
}

pub open spec fn session_hash_is(h: Seq<char>) -> spec_fn(SessionV) -> bool {
    |s: SessionV| s.hash == h
}

pub open spec fn session_of_user(u: i64) -> spec_fn(SessionV) -> bool {
    |s: SessionV| s.user == u
}

pub open spec fn board_named(n: Seq<char>) -> spec_fn(BoardV) -> bool {
    |b: BoardV| b.name == n
}

pub open spec fn board_visible() -> spec_fn(BoardV) -> bool {
    |b: BoardV| !b.hidden
}

pub open spec fn board_hidden() -> spec_fn(BoardV) -> bool {
    |b: BoardV| b.hidden
}

pub open spec fn any_board() -> spec_fn(BoardV) -> bool {
    |b: BoardV| true
}

pub open spec fn thread_on_board(board: i64) -> spec_fn(ThreadV) -> bool {
    |t: ThreadV| t.board == board
}

pub open spec fn thread_visible() -> spec_fn(ThreadV) -> bool {
    |t: ThreadV| !t.hidden
}

pub open spec fn thread_hidden() -> spec_fn(ThreadV) -> bool {
    |t: ThreadV| t.hidden
}

pub open spec fn post_in_thread(thread: i64) -> spec_fn(PostV) -> bool {
    |p: PostV| p.thread == thread
}

pub open spec fn post_visible_in_thread(thread: i64) -> spec_fn(PostV) -> bool {
    |p: PostV| p.thread == thread && !p.hidden
}

pub open spec fn post_hidden() -> spec_fn(PostV) -> bool {
    |p: PostV| p.hidden
}

/// Whether `needle` occurs in `hay`.
pub open spec fn contains_text(hay: Seq<char>, needle: Seq<char>) -> bool {
    exists|i: int| 0 <= i && i + needle.len() <= hay.len() && #[trigger] hay.subrange(i, i + needle.len()) == needle
}

/// Posts whose content mentions `needle` (SQL `like '%needle%'`).
pub open spec fn post_mentions(needle: Seq<char>) -> spec_fn(PostV) -> bool {
    |p: PostV| contains_text(p.cont, needle)
}

pub open spec fn read_in_thread(thread: i64) -> spec_fn(ReadV) -> bool {
    |r: ReadV| r.thread == thread
}

pub open spec fn css_of_user(user: i64) -> spec_fn(CssV) -> bool {
    |c: CssV| c.user == user
}

/// The post that `order by time` puts last: the latest time, and among
/// equal times the one inserted last.
pub open spec fn latest_post_in(ps: Seq<PostV>) -> Option<PostV>
    decreases ps.len(),
{
    if ps.len() == 0 {
        None
    } else {
        match latest_post_in(ps.drop_last()) {
            None => Some(ps.last()),
            Some(q) => if ps.last().time >= q.time {
                Some(ps.last())
            } else {
                Some(q)
            },
        }
    }
}

/// The read marker that `order by time` puts last.
pub open spec fn latest_read_in(rs: Seq<ReadV>) -> Option<ReadV>
    decreases rs.len(),
{
    if rs.len() == 0 {
        None
    } else {
        match latest_read_in(rs.drop_last()) {
            None => Some(rs.last()),
            Some(q) => if rs.last().time >= q.time {
                Some(rs.last())
            } else {
                Some(q)
            },
        }
    }
}

/// The latest time of a nonempty list of posts.
pub open spec fn max_post_time(ps: Seq<PostV>) -> i64
    decreases ps.len(),
{
    if ps.len() <= 1 {
        if ps.len() == 1 { ps[0].time } else { i64::MIN }
    } else {
        let m = max_post_time(ps.drop_last());
        if ps.last().time > m {
            ps.last().time
        } else {
            m
        }
    }
}

/// The whole database.
#[verifier::ext_equal]
pub struct DbV {
    pub users: TableV<UserV>,
    pub sessions: TableV<SessionV>,
    pub boards: TableV<BoardV>,
    pub threads: TableV<ThreadV>,
    pub files: TableV<FileV>,
    pub posts: TableV<PostV>,
    pub reads: TableV<ReadV>,
    pub css: TableV<CssV>,
}

impl DbV {
    pub open spec fn wf(self) -> bool {
        &&& table_wf::<User>(self.users)
        &&& table_wf::<Session>(self.sessions)
        &&& table_wf::<Board>(self.boards)
        &&& table_wf::<Thread>(self.threads)
        &&& table_wf::<File>(self.files)
        &&& table_wf::<Post>(self.posts)
        &&& table_wf::<Read>(self.reads)
        &&& table_wf::<Css>(self.css)
    }

    pub open spec fn user(self, id: i64) -> Option<UserV> {
        first(self.users.rows.filter(keyed::<User>(id)))
    }

    pub open spec fn user_by_name(self, n: Seq<char>) -> Option<UserV> {
        first(self.users.rows.filter(user_named(n)))
    }

    /// The first session of a user.
    pub open spec fn session_of(self, user: i64) -> Option<SessionV> {
        first(self.sessions.rows.filter(session_of_user(user)))
    }

    pub open spec fn session_with_hash(self, h: Seq<char>) -> Option<SessionV> {
        first(self.sessions.rows.filter(session_hash_is(h)))
    }

    /// The user signed in with session token `session`, if one was sent.
    pub open spec fn signed_in(self, session: Option<Seq<char>>) -> Result<UserV, ErrorV> {
        match session {
            None => Err(ErrorV::NotLoggedIn),
            Some(h) => match self.session_with_hash(h) {
                None => Err(ErrorV::NoSession),
                Some(s) => ok_or(self.user(s.user), ErrorV::UserNotFound(s.user)),
            },
        }
    }

    pub open spec fn board(self, id: i64) -> Option<BoardV> {
        first(self.boards.rows.filter(keyed::<Board>(id)))
    }

    pub open spec fn board_by_name(self, n: Seq<char>) -> Option<BoardV> {
        first(self.boards.rows.filter(board_named(n)))
    }

    pub open spec fn thread(self, id: i64) -> Option<ThreadV> {
        first(self.threads.rows.filter(keyed::<Thread>(id)))
    }

    pub open spec fn post(self, id: i64) -> Option<PostV> {
        first(self.posts.rows.filter(keyed::<Post>(id)))
    }

    pub open spec fn file(self, id: i64) -> Option<FileV> {
        first(self.files.rows.filter(keyed::<File>(id)))
    }

    /// The newest stylesheet of a user.
    pub open spec fn css_of(self, user: i64) -> Option<CssV> {
        last_of(self.css.rows.filter(css_of_user(user)))
    }

    pub open spec fn posts_of(self, thread: i64) -> Seq<PostV> {
        self.posts.rows.filter(post_in_thread(thread))
    }

    pub open spec fn latest_post(self, thread: i64) -> Option<PostV> {
        latest_post_in(self.posts_of(thread))
    }

    pub open spec fn latest_read(self, thread: i64) -> Option<ReadV> {
        latest_read_in(self.reads.rows.filter(read_in_thread(thread)))
    }

    /// Whether thread `t` counts as read by user `u`: the newest read marker
    /// of the thread is `u`'s and marks the thread's newest post (or the
    /// thread itself, while it has no posts).
    pub open spec fn read_state(self, u: i64, t: i64) -> bool {
        match self.latest_read(t) {
            None => false,
            Some(r) => r.user == u && r.marked == match self.latest_post(t) {
                Some(p) => p.id,
                None => t,
            },
        }
    }

    /// When a thread last saw activity: its newest post's time, or its own.
    pub open spec fn activity(self, t: ThreadV) -> i64 {
        let ps = self.posts_of(t.id);
        if ps.len() == 0 {
            t.time
        } else {
            max_post_time(ps)
        }
    }

    /// Whether thread `a` comes before thread `b` on a board page: more
    /// recent activity first, and among equals the newer thread first.
    pub open spec fn thread_before(self, a: ThreadV, b: ThreadV) -> bool {
        self.activity(a) > self.activity(b) || (self.activity(a) == self.activity(b) && a.id > b.id)
    }

    /// `s` lists exactly the threads of `board`, in board-page order.
    pub open spec fn board_listing(self, board: i64, s: Seq<ThreadV>) -> bool {
        let on = self.threads.rows.filter(thread_on_board(board));
        &&& s.len() == on.len()
        &&& forall|i: int| 0 <= i < s.len() ==> on.contains(#[trigger] s[i])
        &&& forall|i: int, j: int| 0 <= i < j < s.len() ==> self.thread_before(s[i], s[j])
    }

    /// The threads of a board in board-page order (there is one such list:
    /// see `law_board_listing_unique`).
    pub open spec fn board_order(self, board: i64) -> Seq<ThreadV> {
        choose|s: Seq<ThreadV>| self.board_listing(board, s)
    }

    /// Ids of the posts that mention post `id` (contain its number).
    pub open spec fn replies_to(self, id: i64) -> Seq<i64> {
        self.posts.rows.filter(post_mentions(decimal(id as int))).map_values(|p: PostV| p.id)
    }

    pub open spec fn with_users(self, t: TableV<UserV>) -> DbV {
        DbV { users: t, ..self }
    }

    pub open spec fn with_sessions(self, t: TableV<SessionV>) -> DbV {
        DbV { sessions: t, ..self }
    }

    pub open spec fn with_boards(self, t: TableV<BoardV>) -> DbV {
        DbV { boards: t, ..self }
    }

    pub open spec fn with_threads(self, t: TableV<ThreadV>) -> DbV {
        DbV { threads: t, ..self }
    }

    pub open spec fn with_files(self, t: TableV<FileV>) -> DbV {
        DbV { files: t, ..self }
    }

    pub open spec fn with_posts(self, t: TableV<PostV>) -> DbV {
        DbV { posts: t, ..self }
    }

    pub open spec fn with_reads(self, t: TableV<ReadV>) -> DbV {
        DbV { reads: t, ..self }
    }

    pub open spec fn with_css(self, t: TableV<CssV>) -> DbV {
        DbV { css: t, ..self }
    }
}

/// The text of an optional borrowed string.
pub open spec fn opt_str(s: Option<&str>) -> Option<Seq<char>> {
    match s {
        Some(x) => Some(x@),
        None => None,
    }
}

/// Every row of `t` with id `id` changed by `f`; the rest unchanged
/// (SQL `update ... where id = ?`).
pub open spec fn updated<T: Record>(t: TableV<T::V>, id: i64, f: spec_fn(T::V) -> T::V) -> TableV<T::V> {
    TableV { rows: t.rows.map_values(|v: T::V| if T::key(v) == id { f(v) } else { v }), last: t.last }
}

/// The table without its rows of id `id` (SQL `delete ... where id = ?`).
pub open spec fn deleted<T: Record>(t: TableV<T::V>, id: i64) -> TableV<T::V> {
    TableV { rows: t.rows.filter(not_keyed::<T>(id)), last: t.last }
}

/// Rows whose id is not `id`.
pub open spec fn not_keyed<T: Record>(id: i64) -> spec_fn(T::V) -> bool {
    |v: T::V| T::key(v) != id
}

pub open spec fn set_user_admin(b: bool) -> spec_fn(UserV) -> UserV {
    |u: UserV| UserV { admin: b, ..u }
}

pub open spec fn set_user_bio(bio: Seq<char>) -> spec_fn(UserV) -> UserV {
    |u: UserV| UserV { bio: bio, ..u }
}

pub open spec fn set_user_hash(h: Seq<char>) -> spec_fn(UserV) -> UserV {
    |u: UserV| UserV { hash: h, ..u }
}

pub open spec fn set_user_theme(t: Seq<char>) -> spec_fn(UserV) -> UserV {
    |u: UserV| UserV { theme: Some(t), ..u }
}

pub open spec fn set_board_hidden(h: bool) -> spec_fn(BoardV) -> BoardV {
    |b: BoardV| BoardV { hidden: h, ..b }
}

pub open spec fn set_board_name(n: Seq<char>) -> spec_fn(BoardV) -> BoardV {
    |b: BoardV| BoardV { name: n, ..b }
}

pub open spec fn set_thread_hidden(h: bool) -> spec_fn(ThreadV) -> ThreadV {
    |t: ThreadV| ThreadV { hidden: h, ..t }
}

pub open spec fn set_thread_locked(l: bool) -> spec_fn(ThreadV) -> ThreadV {
    |t: ThreadV| ThreadV { locked: Some(l), ..t }
}

pub open spec fn set_post_hidden(h: bool) -> spec_fn(PostV) -> PostV {
    |p: PostV| PostV { hidden: h, ..p }
}


/// `Some(v)` as `Ok(v)`, `None` as the error `e`.
pub open spec fn ok_or<V>(o: Option<V>, e: ErrorV) -> Result<V, ErrorV> {
    match o {
        Some(v) => Ok(v),
        None => Err(e),
    }
}

/// A result, with its success seen through its view.
pub open spec fn res_views<T: View>(r: Result<T, Error>) -> Result<T::V, ErrorV> {
    match r {
        Ok(x) => Ok(x@),
        Err(e) => Err(e@),
    }
}

/// A result holding an optional row, seen through the row's view.
pub open spec fn res_opt_views<T: View>(r: Result<Option<T>, Error>) -> Result<Option<T::V>, ErrorV> {
    match r {
        Ok(x) => Ok(opt_views(x)),
        Err(e) => Err(e@),
    }
}

/// A result holding rows, seen through their views.
pub open spec fn res_seq_views<T: View>(r: Result<Vec<T>, Error>) -> Result<Seq<T::V>, ErrorV> {
    match r {
        Ok(x) => Ok(views(x@)),
        Err(e) => Err(e@),
    }
}

impl DbV {
    /// A new user `n` with password hash `h`, unless the name is taken.
    pub open spec fn add_user(self, n: Seq<char>, h: Seq<char>) -> (DbV, Result<UserV, ErrorV>) {
        if self.user_by_name(n).is_some() {
            (self, Err(ErrorV::UserExists(n)))
        } else if !has_room(self.users) {
            (self, Err(ErrorV::Full))
        } else {
            let u = UserV {
                id: next_id(self.users),
                name: n,
                hash: h,
                bio: Seq::empty(),
                admin: false,
                theme: None,
            };
            (self.with_users(appended(self.users, u)), Ok(u))
        }
    }

    /// Changes user `id` by `f`, if that user exists.
    pub open spec fn user_updated(self, id: i64, f: spec_fn(UserV) -> UserV) -> (DbV, Result<(), ErrorV>) {
        if self.user(id).is_none() {
            (self, Err(ErrorV::UserNotFound(id)))
        } else {
            (self.with_users(updated::<User>(self.users, id, f)), Ok(()))
        }
    }

    /// A new session with token `hash` for user `user`; the answer is the
    /// session just made.
    pub open spec fn add_session(self, user: i64, hash: Seq<char>) -> (DbV, Result<SessionV, ErrorV>) {
        if self.user(user).is_none() {
            (self, Err(ErrorV::UserNotFound(user)))
        } else if !has_room(self.sessions) {
            (self, Err(ErrorV::Full))
        } else {
            let s = SessionV { id: next_id(self.sessions), hash: hash, user: user };
            (self.with_sessions(appended(self.sessions, s)), Ok(s))
        }
    }

    /// A new visible board, unless one of that name exists, which is then
    /// the answer.
    pub open spec fn add_board(self, n: Seq<char>, desc: Seq<char>) -> (DbV, Result<BoardV, ErrorV>) {
        match self.board_by_name(n) {
            Some(b) => (self, Ok(b)),
            None => if !has_room(self.boards) {
                (self, Err(ErrorV::Full))
            } else {
                let b = BoardV { id: next_id(self.boards), name: n, desc: desc, hidden: false };
                (self.with_boards(appended(self.boards, b)), Ok(b))
            },
        }
    }

    /// Changes board `id` by `f`; the answer is the changed board.
    pub open spec fn board_updated(self, id: i64, f: spec_fn(BoardV) -> BoardV) -> (DbV, Result<BoardV, ErrorV>) {
        if self.board(id).is_none() {
            (self, Err(ErrorV::BoardNotFound(id)))
        } else {
            let d = self.with_boards(updated::<Board>(self.boards, id, f));
            (d, ok_or(d.board(id), ErrorV::BoardNotFound(id)))
        }
    }

    /// Changes thread `id` by `f`; the answer is the changed thread.
    pub open spec fn thread_updated(self, id: i64, f: spec_fn(ThreadV) -> ThreadV) -> (DbV, Result<ThreadV, ErrorV>) {
        if self.thread(id).is_none() {
            (self, Err(ErrorV::ThreadNotFound(id)))
        } else {
            let d = self.with_threads(updated::<Thread>(self.threads, id, f));
            (d, ok_or(d.thread(id), ErrorV::ThreadNotFound(id)))
        }
    }

    /// Changes post `id` by `f`; the answer is the changed post.
    pub open spec fn post_updated(self, id: i64, f: spec_fn(PostV) -> PostV) -> (DbV, Result<PostV, ErrorV>) {
        if self.post(id).is_none() {
            (self, Err(ErrorV::PostNotFound(id)))
        } else {
            let d = self.with_posts(updated::<Post>(self.posts, id, f));
            (d, ok_or(d.post(id), ErrorV::PostNotFound(id)))
        }
    }

    /// A read marker of user `u` on thread `t` at `time`: it marks the
    /// thread's newest post, or the thread itself while it has none.
    pub open spec fn add_read(self, u: i64, t: i64, time: i64) -> (DbV, Result<(), ErrorV>) {
        if !has_room(self.reads) {
            (self, Err(ErrorV::Full))
        } else {
            let r = ReadV {
                id: next_id(self.reads),
                marked: match self.latest_post(t) {
                    Some(p) => p.id,
                    None => t,
                },
                thread: t,
                time: time,
                is_post: self.latest_post(t).is_some(),
                user: u,
            };
            (self.with_reads(appended(self.reads, r)), Ok(()))
        }
    }

    /// A new file of the given bytes, if they decode as an image.
    pub open spec fn add_file(self, bytes: Seq<u8>) -> (DbV, Result<FileV, ErrorV>) {
        self.add_checked_file(bytes, image_decodes(bytes))
    }

    /// A new file of the given bytes, where `is_image` says whether they
    /// decode as an image.
    pub open spec fn add_checked_file(self, bytes: Seq<u8>, is_image: bool) -> (DbV, Result<FileV, ErrorV>) {
        if !is_image {
            (self, Err(ErrorV::NotAnImage))
        } else if !has_room(self.files) {
            (self, Err(ErrorV::Full))
        } else {
            let f = FileV { id: next_id(self.files), bytes: bytes };
            (self.with_files(appended(self.files, f)), Ok(f))
        }
    }

    /// Stores an optional attachment; the answer is its id.
    pub open spec fn add_attachment(self, file: Option<Seq<u8>>) -> (DbV, Result<Option<i64>, ErrorV>) {
        match file {
            None => (self, Ok(None)),
            Some(b) => {
                let (d, r) = self.add_file(b);
                match r {
                    Ok(f) => (d, Ok(Some(f.id))),
                    Err(e) => (d, Err(e)),
                }
            },
        }
    }

    /// A new stylesheet of user `user`; the answer is the user's newest.
    pub open spec fn add_css(self, user: i64, vars: Seq<char>, css: Seq<char>) -> (DbV, Result<Option<CssV>, ErrorV>) {
        if self.user(user).is_none() {
            (self, Err(ErrorV::UserNotFound(user)))
        } else if !has_room(self.css) {
            (self, Err(ErrorV::Full))
        } else {
            let c = CssV { id: next_id(self.css), user: user, css: css, vars: vars };
            let d = self.with_css(appended(self.css, c));
            (d, Ok(d.css_of(user)))
        }
    }

    /// A new unlocked, visible thread. An attachment is stored first, and
    /// stays stored if the author then turns out not to exist.
    pub open spec fn add_thread(
        self,
        board: i64,
        author: i64,
        name: Seq<char>,
        cont: Seq<char>,
        file: Option<Seq<u8>>,
        time: i64,
    ) -> (DbV, Result<ThreadV, ErrorV>) {
        let (d, fr) = self.add_attachment(file);
        match fr {
            Err(e) => (d, Err(e)),
            Ok(fid) => if d.user(author).is_none() {
                (d, Err(ErrorV::UserNotFound(author)))
            } else if !has_room(d.threads) {
                (d, Err(ErrorV::Full))
            } else {
                let t = ThreadV {
                    id: next_id(d.threads),
                    name: name,
                    cont: cont,
                    hidden: false,
                    file: fid,
                    board: board,
                    time: time,
                    author: author,
                    locked: Some(false),
                };
                (d.with_threads(appended(d.threads, t)), Ok(t))
            },
        }
    }

    /// A new visible post in thread `thread`, refused if the thread is
    /// locked. An attachment is stored first, and stays stored whatever
    /// follows.
    pub open spec fn add_post(
        self,
        thread: i64,
        author: i64,
        cont: Seq<char>,
        file: Option<Seq<u8>>,
        time: i64,
    ) -> (DbV, Result<PostV, ErrorV>) {
        let (d, fr) = self.add_attachment(file);
        match fr {
            Err(e) => (d, Err(e)),
            Ok(fid) => match d.thread(thread) {
                None => (d, Err(ErrorV::ThreadNotFound(thread))),
                Some(t) => match d.board(t.board) {
                    None => (d, Err(ErrorV::BoardNotFound(t.board))),
                    Some(b) => if is_locked(t.locked) {
                        (d, Err(ErrorV::ThreadLocked(t.name)))
                    } else if d.user(author).is_none() {
                        (d, Err(ErrorV::UserNotFound(author)))
                    } else if !has_room(d.posts) {
                        (d, Err(ErrorV::Full))
                    } else {
                        let p = PostV {
                            id: next_id(d.posts),
                            cont: cont,
                            hidden: false,
                            file: fid,
                            board: b.id,
                            thread: t.id,
                            time: time,
                            author: author,
                        };
                        (d.with_posts(appended(d.posts, p)), Ok(p))
                    },
                },
            },
        }
    }

    /// Sets the theme of user `id` to `t`, if the user exists and the theme
    /// is known.
    pub open spec fn theme_set(self, id: i64, t: Seq<char>, known: bool) -> (DbV, Result<(), ErrorV>) {
        if self.user(id).is_none() {
            (self, Err(ErrorV::UserNotFound(id)))
        } else if !known {
            (self, Err(ErrorV::ThemeNotFound(t)))
        } else {
            (self.with_users(updated::<User>(self.users, id, set_user_theme(t))), Ok(()))
        }
    }
}

/// A result with its success forgotten.
pub open spec fn unit_of<V>(r: Result<V, ErrorV>) -> Result<(), ErrorV> {
    match r {
        Ok(_) => Ok(()),
        Err(e) => Err(e),
    }
}

/// Optional bytes, seen as a sequence.
pub open spec fn opt_bytes(file: Option<&[u8]>) -> Option<Seq<u8>> {
    match file {
        Some(b) => Some(b@),
        None => None,
    }
}

/// The theme column of a user: its text, or empty when unset.
pub open spec fn theme_text(u: UserV) -> Seq<char> {
    match u.theme {
        Some(t) => t,
        None => Seq::empty(),
    }
}

} // verus!
