//! Themes and the stylesheet of a page.

use vstd::prelude::*;
use crate::model::{Error, ErrorV, DbV, theme_text, res_views};
use crate::db::Db;
use crate::strings::{push_str, str_eq};

verus! {

broadcast use vstd::seq_lib::group_seq_lib_default;

/// A theme: its name and its css.
pub type ThemeV = (Seq<char>, Seq<char>);

/// The themes a user can pick, by name.
pub struct Themes {
    entries: Vec<(String, String)>,
}

pub open spec fn theme_named(n: Seq<char>) -> spec_fn(ThemeV) -> bool {
    |e: ThemeV| e.0 == n
}

/// The css of the theme named `n`, if there is one.
pub open spec fn lookup(entries: Seq<ThemeV>, n: Seq<char>) -> Option<Seq<char>> {
    if entries.filter(theme_named(n)).len() > 0 {
        Some(entries.filter(theme_named(n))[0].1)
    } else {
        None
    }
}

/// No two themes share a name.
pub open spec fn names_unique(entries: Seq<ThemeV>) -> bool {
    forall|i: int, j: int| 0 <= i < j < entries.len() ==> entries[i].0 != entries[j].0
}

/// The themes after setting theme `n` to `css`: replaced where it was, or
/// added at the end.
pub open spec fn with_theme(entries: Seq<ThemeV>, n: Seq<char>, css: Seq<char>) -> Seq<ThemeV> {
    if exists|i: int| 0 <= i < entries.len() && #[trigger] entries[i].0 == n {
        entries.map_values(|e: ThemeV| if e.0 == n { (n, css) } else { e })
    } else {
        entries.push((n, css))
    }
}

impl View for Themes {
    type V = Seq<ThemeV>;

    closed spec fn view(&self) -> Seq<ThemeV> {
        self.entries@.map_values(|e: (String, String)| (e.0@, e.1@))
    }
}

impl Themes {
    /// No themes.
    pub fn new() -> (r: Themes)
        ensures
            r@ == Seq::<ThemeV>::empty(),
    {
        let r = Themes { entries: Vec::new() };
        assert(r@ =~= Seq::<ThemeV>::empty());
        r
    }

    fn position(&self, n: &str) -> (r: Option<usize>)
        ensures
            match r {
                Some(i) => i < self@.len() && self@[i as int].0 == n@
                    && forall|j: int| 0 <= j < i ==> self@[j].0 != n@,
                None => forall|j: int| 0 <= j < self@.len() ==> self@[j].0 != n@,
            },
    {
        let mut i: usize = 0;
        while i < self.entries.len()
            invariant
                i <= self@.len(),
                self@.len() == self.entries@.len(),
                forall|j: int| 0 <= j < i ==> self@[j].0 != n@,
            decreases self@.len() - i,
        {
            if str_eq(self.entries[i].0.as_str(), n) {
                return Some(i);
            }
            i = i + 1;
        }
        None
    }

    /// No two themes share a name.
    #[verifier::type_invariant]
    spec fn unique(self) -> bool {
        names_unique(self@)
    }

    /// Sets the css of theme `n`, adding the theme if it is new.
    pub fn insert(&mut self, n: &str, css: &str)
        ensures
            final(self)@ == with_theme(old(self)@, n@, css@),
            names_unique(final(self)@),
    {
        proof { use_type_invariant(&*self); }
        let ghost before = self@;
        let p = self.position(n);
        let mut entries: Vec<(String, String)> = Vec::new();
        std::mem::swap(&mut entries, &mut self.entries);
        assert(entries@.map_values(|e: (String, String)| (e.0@, e.1@)) == before);
        match p {
            Some(i) => {
                entries.set(i, (n.to_owned(), css.to_owned()));
                assert forall|j: int| 0 <= j < before.len() && j != i implies before[j].0 != n@ by {
                    if j > i {
                        assert(before[i as int].0 != before[j].0);
                    }
                }
            },
            None => {
                entries.push((n.to_owned(), css.to_owned()));
            },
        }
        assert(entries@.map_values(|e: (String, String)| (e.0@, e.1@)) =~= with_theme(before, n@, css@));
        self.entries = entries;
    }

    /// Whether there is a theme named `n`.
    pub fn contains(&self, n: &str) -> (r: bool)
        ensures
            r == lookup(self@, n@).is_some(),
    {
        let r = self.position(n);
        proof { lemma_lookup(self@, n@, r); }
        r.is_some()
    }
}

proof fn lemma_lookup(e: Seq<ThemeV>, n: Seq<char>, r: Option<usize>)
    requires
        match r {
            Some(i) => i < e.len() && e[i as int].0 == n && forall|j: int| 0 <= j < i ==> e[j].0 != n,
            None => forall|j: int| 0 <= j < e.len() ==> e[j].0 != n,
        },
    ensures
        match r {
            Some(i) => lookup(e, n) == Some(e[i as int].1),
            None => lookup(e, n).is_none(),
        },
{
    let p = theme_named(n);
    match r {
        Some(i) => {
            assert(e.take(i as int).filter(p).len() == 0) by {
                assert forall|j: int| 0 <= j < e.take(i as int).len() implies !p(#[trigger] e.take(i as int)[j]) by {}
                crate::seqs::lemma_all_fail_filter_empty(e.take(i as int), p);
            }
            crate::seqs::lemma_first_match(e, p, i as int);
        },
        None => {
            crate::seqs::lemma_all_fail_filter_empty(e, p);
        },
    }
}

/// The css of the theme named `n`, if there is one.
pub fn get_theme<'a>(themes: &'a Themes, n: &str) -> (r: Option<&'a str>)
    ensures
        match r {
            Some(c) => lookup(themes@, n@) == Some(c@),
            None => lookup(themes@, n@).is_none(),
        },
{
    let p = themes.position(n);
    proof { lemma_lookup(themes@, n@, p); }
    match p {
        Some(i) => Some(themes.entries[i].1.as_str()),
        None => None,
    }
}

/// There is a theme named `n` exactly when some theme has that name.
proof fn lemma_lookup_some(e: Seq<ThemeV>, n: Seq<char>)
    ensures
        lookup(e, n).is_some() <==> exists|j: int| 0 <= j < e.len() && #[trigger] e[j].0 == n,
{
    let p = theme_named(n);
    crate::seqs::lemma_filter_members(e, p);
    if e.filter(p).len() > 0 {
        assert(e.filter(p).contains(e.filter(p)[0]));
        crate::seqs::lemma_filter_subset(e, p, e.filter(p)[0]);
        let j = choose|j: int| 0 <= j < e.len() && e[j] == e.filter(p)[0];
        assert(e[j].0 == n);
    }
    if exists|j: int| 0 <= j < e.len() && #[trigger] e[j].0 == n {
        let j = choose|j: int| 0 <= j < e.len() && #[trigger] e[j].0 == n;
        assert(e.filter(p).contains(e[j]));
    }
}

/// The names of all themes, in order: no two alike, and each name is one
/// that `get_theme` finds.
pub fn get_theme_names(themes: &Themes) -> (r: Vec<String>)
    ensures
        r@.map_values(|s: String| s@) == themes@.map_values(|e: ThemeV| e.0),
        forall|i: int, j: int| 0 <= i < j < r@.len() ==> r@[i]@ != r@[j]@,
        forall|n: Seq<char>|
            (exists|i: int| 0 <= i < r@.len() && #[trigger] r@[i]@ == n) <==> lookup(themes@, n).is_some(),
{
    proof { use_type_invariant(themes); }
    let mut r: Vec<String> = Vec::new();
    let mut i: usize = 0;
    while i < themes.entries.len()
        invariant
            i <= themes@.len(),
            themes@.len() == themes.entries@.len(),
            r@.map_values(|s: String| s@) == themes@.take(i as int).map_values(|e: ThemeV| e.0),
        decreases themes@.len() - i,
    {
        r.push(themes.entries[i].0.clone());
        assert(themes@.take(i + 1).map_values(|e: ThemeV| e.0) =~= themes@.take(i as int).map_values(|e: ThemeV| e.0).push(themes@[i as int].0));
        assert(r@.map_values(|s: String| s@) =~= themes@.take(i + 1).map_values(|e: ThemeV| e.0));
        i = i + 1;
    }
    assert(themes@.take(themes@.len() as int) =~= themes@);
    proof {
        assert forall|k: int| 0 <= k < r@.len() implies #[trigger] r@[k]@ == themes@[k].0 by {
            assert(r@.map_values(|s: String| s@)[k] == themes@.map_values(|e: ThemeV| e.0)[k]);
        }
        assert forall|n: Seq<char>|
            (exists|i: int| 0 <= i < r@.len() && #[trigger] r@[i]@ == n) <==> lookup(themes@, n).is_some() by {
            lemma_lookup_some(themes@, n);
            if exists|i: int| 0 <= i < r@.len() && #[trigger] r@[i]@ == n {
                let i = choose|i: int| 0 <= i < r@.len() && #[trigger] r@[i]@ == n;
                assert(themes@[i].0 == n);
            }
            if lookup(themes@, n).is_some() {
                let j = choose|j: int| 0 <= j < themes@.len() && #[trigger] themes@[j].0 == n;
                assert(r@[j]@ == n);
            }
        }
    }
    r
}

/// A page's stylesheet: the theme's variables and the user's variables in
/// `:root`, then the base stylesheet and the user's own css.
pub open spec fn sheet(theme: Seq<char>, vars: Seq<char>, base: Seq<char>, body: Seq<char>) -> Seq<char> {
    "\n        :root {\n            "@ + theme + "\n            "@ + vars + "\n        }\n\n        "@ + base + "\n        "@ + body + "\n        "@
}

/// Writes the stylesheet of `sheet`.
pub fn render_sheet(theme: &str, vars: &str, base: &str, body: &str) -> (r: String)
    ensures
        r@ == sheet(theme@, vars@, base@, body@),
{
    let mut out = String::new();
    push_str(&mut out, "\n        :root {\n            ");
    push_str(&mut out, theme);
    push_str(&mut out, "\n            ");
    push_str(&mut out, vars);
    push_str(&mut out, "\n        }\n\n        ");
    push_str(&mut out, base);
    push_str(&mut out, "\n        ");
    push_str(&mut out, body);
    push_str(&mut out, "\n        ");
    assert(out@ =~= sheet(theme@, vars@, base@, body@));
    out
}

/// The css of the theme that user `id` picked, or empty.
pub open spec fn user_theme_css(db: DbV, themes: Seq<ThemeV>, id: i64) -> Seq<char> {
    match db.user(id) {
        Some(u) => match lookup(themes, theme_text(u)) {
            Some(c) => c,
            None => Seq::empty(),
        },
        None => Seq::empty(),
    }
}

/// The stylesheet of a page for the signed-in user `me` (if any): the
/// user's theme and newest own css over the base stylesheet `base`.
pub open spec fn page_css(db: DbV, themes: Seq<ThemeV>, me: Option<i64>, base: Seq<char>) -> Result<Seq<char>, ErrorV> {
    match me {
        None => Ok(sheet(Seq::empty(), Seq::empty(), base, Seq::empty())),
        Some(id) => match db.user(id) {
            None => Err(ErrorV::NoTheme(id)),
            Some(u) => Ok(match db.css_of(id) {
                Some(c) => sheet(user_theme_css(db, themes, id), c.vars, base, c.css),
                None => sheet(user_theme_css(db, themes, id), Seq::empty(), base, Seq::empty()),
            }),
        },
    }
}

/// Makes the stylesheet of `page_css`.
pub fn css(db: &Db, themes: &Themes, me: Option<i64>, base: &str) -> (r: Result<String, Error>)
    requires
        db@.wf(),
    ensures
        res_views(r) == page_css(db@, themes@, me, base@),
{
    let empty = String::new();
    match me {
        None => Ok(render_sheet(empty.as_str(), empty.as_str(), base, empty.as_str())),
        Some(id) => {
            let tname = match db.get_theme(id) {
                Ok(t) => t,
                Err(e) => return Err(e),
            };
            let t: &str = match get_theme(themes, tname.as_str()) {
                Some(c) => c,
                None => empty.as_str(),
            };
            match db.get_css(id) {
                Ok(Some(c)) => Ok(render_sheet(t, c.vars.as_str(), base, c.css.as_str())),
                _ => Ok(render_sheet(t, empty.as_str(), base, empty.as_str())),
            }
        },
    }
}

} // verus!
