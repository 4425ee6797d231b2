//! The rows of the forum's tables, and their mathematical views.

use vstd::prelude::*;

verus! {

/// A row that a table holds: it has an id, and it can be copied exactly.
pub trait Record: View + Sized {
    /// The id of a row, read from its view.
    spec fn key(v: Self::V) -> i64;

    fn id(&self) -> (r: i64)
        ensures
            r == Self::key(self@),
    ;

    fn duplicate(&self) -> (r: Self)
        ensures
            r@ == self@,
    ;
}

/// An optional text, seen through its characters.
pub open spec fn opt_view(o: Option<String>) -> Option<Seq<char>> {
    match o {
        Some(s) => Some(s@),
        None => None,
    }
}

fn copy_opt_string(o: &Option<String>) -> (r: Option<String>)
    ensures
        opt_view(r) == opt_view(*o),
{
    match o {
        Some(s) => Some(s.clone()),
        None => None,
    }
}

/// A user entry in the database.
#[derive(Clone, Debug, PartialEq)]
pub struct User {
    pub id: i64,
    pub name: String,
    pub hash: String,
    pub bio: String,
    pub admin: bool,
    pub theme: Option<String>,
}

#[verifier::ext_equal]
pub struct UserV {
    pub id: i64,
    pub name: Seq<char>,
    pub hash: Seq<char>,
    pub bio: Seq<char>,
    pub admin: bool,
    pub theme: Option<Seq<char>>,
}

impl View for User {
    type V = UserV;

    open spec fn view(&self) -> UserV {
        UserV {
            id: self.id,
            name: self.name@,
            hash: self.hash@,
            bio: self.bio@,
            admin: self.admin,
            theme: opt_view(self.theme),
        }
    }
}

impl Record for User {
    open spec fn key(v: UserV) -> i64 {
        v.id
    }

    fn id(&self) -> i64 {
        self.id
    }

    fn duplicate(&self) -> Self {
        User {
            id: self.id,
            name: self.name.clone(),
            hash: self.hash.clone(),
            bio: self.bio.clone(),
            admin: self.admin,
            theme: copy_opt_string(&self.theme),
        }
    }
}

impl User {
    /// The column names, in the order the row is printed.
    pub fn fields() -> (r: &'static str)
        ensures
            r@ == "id|name|hash|bio|admin|theme"@,
    {
        "id|name|hash|bio|admin|theme"
    }
}

/// A login session: a random token that stands for a user.
#[derive(Clone, Debug, PartialEq)]
pub struct Session {
    pub id: i64,
    pub hash: String,
    pub user: i64,
}

#[verifier::ext_equal]
pub struct SessionV {
    pub id: i64,
    pub hash: Seq<char>,
    pub user: i64,
}

impl View for Session {
    type V = SessionV;

    open spec fn view(&self) -> SessionV {
        SessionV { id: self.id, hash: self.hash@, user: self.user }
    }
}

impl Record for Session {
    open spec fn key(v: SessionV) -> i64 {
        v.id
    }

    fn id(&self) -> i64 {
        self.id
    }

    fn duplicate(&self) -> Self {
        Session { id: self.id, hash: self.hash.clone(), user: self.user }
    }
}

/// A board: a named collection of threads.
#[derive(Clone, Debug, PartialEq)]
pub struct Board {
    pub id: i64,
    pub name: String,
    pub desc: String,
    pub hidden: bool,
}

#[verifier::ext_equal]
pub struct BoardV {
    pub id: i64,
    pub name: Seq<char>,
    pub desc: Seq<char>,
    pub hidden: bool,
}

impl View for Board {
    type V = BoardV;

    open spec fn view(&self) -> BoardV {
        BoardV { id: self.id, name: self.name@, desc: self.desc@, hidden: self.hidden }
    }
}

impl Record for Board {
    open spec fn key(v: BoardV) -> i64 {
        v.id
    }

    fn id(&self) -> i64 {
        self.id
    }

    fn duplicate(&self) -> Self {
        Board { id: self.id, name: self.name.clone(), desc: self.desc.clone(), hidden: self.hidden }
    }
}

impl Board {
    /// The column names, in the order the row is printed.
    pub fn fields() -> (r: &'static str)
        ensures
            r@ == "id|name|desc|hidden"@,
    {
        "id|name|desc|hidden"
    }
}

/// An uploaded image.
#[derive(Clone, Debug, PartialEq)]
pub struct File {
    pub id: i64,
    pub bytes: Vec<u8>,
}

#[verifier::ext_equal]
pub struct FileV {
    pub id: i64,
    pub bytes: Seq<u8>,
}

impl View for File {
    type V = FileV;

    open spec fn view(&self) -> FileV {
        FileV { id: self.id, bytes: self.bytes@ }
    }
}

/// An exact copy of a byte vector.
pub fn copy_bytes(b: &[u8]) -> (r: Vec<u8>)
    ensures
        r@ == b@,
{
    let mut r: Vec<u8> = Vec::new();
    let mut i: usize = 0;
    while i < b.len()
        invariant
            i <= b@.len(),
            r@ == b@.take(i as int),
        decreases b@.len() - i,
    {
        r.push(b[i]);
        assert(b@.take(i + 1) =~= b@.take(i as int).push(b@[i as int]));
        i = i + 1;
    }
    assert(b@.take(b@.len() as int) =~= b@);
    r
}

impl Record for File {
    open spec fn key(v: FileV) -> i64 {
        v.id
    }

    fn id(&self) -> i64 {
        self.id
    }

    fn duplicate(&self) -> Self {
        File { id: self.id, bytes: copy_bytes(self.bytes.as_slice()) }
    }
}

/// A thread: the opening post of a discussion on a board.
#[derive(Clone, Debug, PartialEq)]
pub struct Thread {
    pub id: i64,
    pub name: String,
    pub cont: String,
    pub hidden: bool,
    pub file: Option<i64>,
    pub board: i64,
    pub time: i64,
    pub author: i64,
    pub locked: Option<bool>,
}

#[verifier::ext_equal]
pub struct ThreadV {
    pub id: i64,
    pub name: Seq<char>,
    pub cont: Seq<char>,
    pub hidden: bool,
    pub file: Option<i64>,
    pub board: i64,
    pub time: i64,
    pub author: i64,
    pub locked: Option<bool>,
}

impl View for Thread {
    type V = ThreadV;

    open spec fn view(&self) -> ThreadV {
        ThreadV {
            id: self.id,
            name: self.name@,
            cont: self.cont@,
            hidden: self.hidden,
            file: self.file,
            board: self.board,
            time: self.time,
            author: self.author,
            locked: self.locked,
        }
    }
}

impl Record for Thread {
    open spec fn key(v: ThreadV) -> i64 {
        v.id
    }

    fn id(&self) -> i64 {
        self.id
    }

    fn duplicate(&self) -> Self {
        Thread {
            id: self.id,
            name: self.name.clone(),
            cont: self.cont.clone(),
            hidden: self.hidden,
            file: self.file,
            board: self.board,
            time: self.time,
            author: self.author,
            locked: self.locked,
        }
    }
}

/// Whether a thread is locked; a missing flag (rows of older databases)
/// counts as unlocked.
pub open spec fn is_locked(locked: Option<bool>) -> bool {
    match locked {
        Some(b) => b,
        None => false,
    }
}

impl Thread {
    /// Is this thread locked?
    pub fn locked(&self) -> (r: bool)
        ensures
            r == is_locked(self.locked),
    {
        if let Some(b) = self.locked {
            b
        } else {
            false
        }
    }

    /// The column names, in the order the row is printed.
    pub fn fields() -> (r: &'static str)
        ensures
            r@ == "id|name|content|hidden|file|board|time|author|locked"@,
    {
        "id|name|content|hidden|file|board|time|author|locked"
    }
}

/// A read marker: user `user` has read thread `thread` up to `marked`
/// (the id of the last post, or the thread's own id if it had no posts).
#[derive(Clone, Debug, PartialEq)]
pub struct Read {
    pub id: i64,
    pub marked: i64,
    pub thread: i64,
    pub time: i64,
    pub is_post: bool,
    pub user: i64,
}

#[verifier::ext_equal]
pub struct ReadV {
    pub id: i64,
    pub marked: i64,
    pub thread: i64,
    pub time: i64,
    pub is_post: bool,
    pub user: i64,
}

impl View for Read {
    type V = ReadV;

    open spec fn view(&self) -> ReadV {
        ReadV {
            id: self.id,
            marked: self.marked,
            thread: self.thread,
            time: self.time,
            is_post: self.is_post,
            user: self.user,
        }
    }
}

impl Record for Read {
    open spec fn key(v: ReadV) -> i64 {
        v.id
    }

    fn id(&self) -> i64 {
        self.id
    }

    fn duplicate(&self) -> Self {
        Read {
            id: self.id,
            marked: self.marked,
            thread: self.thread,
            time: self.time,
            is_post: self.is_post,
            user: self.user,
        }
    }
}

/// A user's own stylesheet: css variables and a css body.
#[derive(Clone, Debug, PartialEq)]
pub struct Css {
    pub id: i64,
    pub user: i64,
    pub css: String,
    pub vars: String,
}

#[verifier::ext_equal]
pub struct CssV {
    pub id: i64,
    pub user: i64,
    pub css: Seq<char>,
    pub vars: Seq<char>,
}

impl View for Css {
    type V = CssV;

    open spec fn view(&self) -> CssV {
        CssV { id: self.id, user: self.user, css: self.css@, vars: self.vars@ }
    }
}

impl Record for Css {
    open spec fn key(v: CssV) -> i64 {
        v.id
    }

    fn id(&self) -> i64 {
        self.id
    }

    fn duplicate(&self) -> Self {
        Css { id: self.id, user: self.user, css: self.css.clone(), vars: self.vars.clone() }
    }
}

/// A reply in a thread.
#[derive(Clone, Debug, PartialEq)]
pub struct Post {
    pub id: i64,
    pub cont: String,
    pub hidden: bool,
    pub file: Option<i64>,
    pub board: i64,
    pub thread: i64,
    pub time: i64,
    pub author: i64,
}

#[verifier::ext_equal]
pub struct PostV {
    pub id: i64,
    pub cont: Seq<char>,
    pub hidden: bool,
    pub file: Option<i64>,
    pub board: i64,
    pub thread: i64,
    pub time: i64,
    pub author: i64,
}

impl View for Post {
    type V = PostV;

    open spec fn view(&self) -> PostV {
        PostV {
            id: self.id,
            cont: self.cont@,
            hidden: self.hidden,
            file: self.file,
            board: self.board,
            thread: self.thread,
            time: self.time,
            author: self.author,
        }
    }
}

impl Record for Post {
    open spec fn key(v: PostV) -> i64 {
        v.id
    }

    fn id(&self) -> i64 {
        self.id
    }

    fn duplicate(&self) -> Self {
        Post {
            id: self.id,
            cont: self.cont.clone(),
            hidden: self.hidden,
            file: self.file,
            board: self.board,
            thread: self.thread,
            time: self.time,
            author: self.author,
        }
    }
}

impl Post {
    /// The column names, in the order the row is printed.
    pub fn fields() -> (r: &'static str)
        ensures
            r@ == "id|cont|hidden|file|board|thread|time|author"@,
    {
        "id|cont|hidden|file|board|thread|time|author"
    }
}

} // verus!
