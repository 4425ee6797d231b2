//! A small imageboard: boards, threads, posts, users and sessions, with the
//! text processing and page layout that go with them.

pub mod strings;
pub mod html;
pub mod records;
pub mod image;
pub mod model;
pub mod seqs;
pub mod db;
pub mod rand;
pub mod passwd;
pub mod clock;
pub mod css;
pub mod laws;
pub mod x;
pub mod js;
pub mod page;
pub mod pages;
pub mod lines;
pub mod actions;
pub mod request_laws;

use vstd::prelude::*;

verus! {

/// Where the server listens and where its database lives.
#[derive(Clone, Debug, PartialEq)]
pub struct Server {
    pub ip: String,
    pub port: u16,
    pub db: String,
}

/// Settings of the site as shown to visitors.
#[derive(Clone, Debug, PartialEq)]
pub struct Site {
    pub title: String,
}

/// The title of a site that names none.
pub open spec fn default_title() -> Seq<char> {
    "badboy hospital"@
}

impl Default for Site {
    fn default() -> (r: Self)
        ensures
            r.title@ == default_title(),
    {
        Site { title: "badboy hospital".to_owned() }
    }
}

/// The configuration file.
#[derive(Clone, Debug, PartialEq)]
pub struct Cfg {
    pub site: Option<Site>,
    pub server: Server,
}

impl Cfg {
    /// The site's title as configured, or the default title.
    pub open spec fn site_title(&self) -> Seq<char> {
        match self.site {
            Some(s) => s.title@,
            None => default_title(),
        }
    }

    /// The site's title: the configured one, else the default.
    pub fn title(&self) -> (r: String)
        ensures
            r@ == self.site_title(),
    {
        match &self.site {
            Some(s) => s.title.clone(),
            None => Site::default().title,
        }
    }
}

} // verus!
