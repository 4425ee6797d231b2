//! The pages of the forum, each from the database state and the request.
//!
//! A page is either shown or answered by a fault: a bare error, or an error
//! page that links back to where the visitor came from.

pub mod thread;
pub mod board;
pub mod user;
pub mod admin;
pub mod misc;

use vstd::prelude::*;
use crate::db::Db;
use crate::html::{escape, escaped};
use crate::model::{Error, ErrorV, DbV, res_views};
use crate::strings::{push_str, push_decimal, decimal};
use crate::Cfg;
use crate::page::{Frame, page_text, layout, board_links, refusal_page, failure_page, error_title, refusal_body, failure_body};
use crate::css::sheet;
use crate::model::board_visible;

verus! {

/// How a request for a page fails.
#[derive(Debug)]
pub enum Fault {
    /// Answered with the error alone.
    Bare(Error),
    /// Answered with an error page that links back to the given address.
    Back(Error, String),
    /// Refused: a page with the reason, linking back to the given address.
    Refused(String, String),
}

/// A fault, with its address as text.
pub enum FaultV {
    Bare(ErrorV),
    Back(ErrorV, Seq<char>),
    Refused(Seq<char>, Seq<char>),
}

impl View for Fault {
    type V = FaultV;

    open spec fn view(&self) -> FaultV {
        match self {
            Fault::Bare(e) => FaultV::Bare(e@),
            Fault::Back(e, g) => FaultV::Back(e@, g@),
            Fault::Refused(m, g) => FaultV::Refused(m@, g@),
        }
    }
}

/// A page or its fault, by their views.
pub open spec fn shown<T: View>(r: Result<T, Fault>) -> Result<T::V, FaultV> {
    match r {
        Ok(x) => Ok(x@),
        Err(f) => Err(f@),
    }
}

/// A user as shown next to what they wrote: `~` and the name, escaped.
pub open spec fn user_tag(db: DbV, id: i64) -> Result<Seq<char>, ErrorV> {
    match db.user(id) {
        None => Err(ErrorV::UserNotFound(id)),
        Some(u) => Ok(escaped("~"@ + u.name)),
    }
}

/// Makes the tag of `user_tag`.
pub fn make_user_tag(db: &Db, id: i64) -> (r: Result<String, Error>)
    requires
        db@.wf(),
    ensures
        res_views(r) == user_tag(db@, id),
{
    let u = match db.get_user(id) {
        Ok(u) => u,
        Err(e) => return Err(e),
    };
    let mut s = String::new();
    push_str(&mut s, "~");
    push_str(&mut s, u.name.as_str());
    assert(s@ =~= "~"@ + u@.name);
    Ok(escape(s.as_str()))
}

/// Where the page of board `id` is.
pub open spec fn board_addr(id: i64) -> Seq<char> {
    "/b/"@ + decimal(id as int)
}

pub fn make_board_addr(id: i64) -> (r: String)
    ensures
        r@ == board_addr(id),
{
    let mut s = String::new();
    push_str(&mut s, "/b/");
    push_decimal(&mut s, id);
    s
}



/// The page of a visitor who is not signed in.
pub open spec fn plain_page(db: DbV, frame: Frame, site_title: Seq<char>, title: Seq<char>, body: Seq<char>) -> Seq<char> {
    layout(title, site_title, sheet(Seq::empty(), Seq::empty(), frame.base_css@, Seq::empty()),
        board_links(db.boards.rows.filter(board_visible())), body, frame.script@)
}

/// What a fault is answered with: the error's text, or an error page.
pub open spec fn fault_text(db: DbV, frame: Frame, site_title: Seq<char>, f: FaultV) -> Seq<char> {
    match f {
        FaultV::Bare(e) => e.text(),
        FaultV::Back(e, goto) => plain_page(db, frame, site_title, error_title(e.text()), failure_body(e.text(), goto)),
        FaultV::Refused(m, goto) => plain_page(db, frame, site_title, error_title(m), refusal_body(m, goto)),
    }
}

/// Answers a fault (see `fault_text`).
pub fn answer_fault(db: &Db, frame: &Frame, cfg: &Cfg, f: &Fault) -> (r: String)
    requires
        db@.wf(),
    ensures
        r@ == fault_text(db@, *frame, cfg.site_title(), f@),
{
    match f {
        Fault::Bare(e) => e.message(),
        Fault::Back(e, goto) => match failure_page(db, frame, cfg, e.message().as_str(), goto.as_str()) {
            Ok(p) => p,
            Err(_) => String::new(),
        },
        Fault::Refused(m, goto) => match refusal_page(db, frame, cfg, m.as_str(), goto.as_str()) {
            Ok(p) => p,
            Err(_) => String::new(),
        },
    }
}

/// An uploaded image, by its id.
pub open spec fn image_tag(id: i64) -> Seq<char> {
    "<img src=\"/i/"@ + decimal(id as int) + "\" class=\"post-img\"><br>"@
}

/// Writes `image_tag`.
pub fn write_image_tag(out: &mut String, id: i64)
    ensures
        final(out)@ == old(out)@ + image_tag(id),
{
    push_str(out, "<img src=\"/i/");
    push_decimal(out, id);
    push_str(out, "\" class=\"post-img\"><br>");
    assert(out@ =~= old(out)@ + image_tag(id));
}

/// A time stamp, marked for the page script.
pub open spec fn time_span(time: i64) -> Seq<char> {
    "<span class=\"unix-time\">"@ + decimal(time as int) + "</span>"@
}

/// Writes `time_span`.
pub fn write_time_span(out: &mut String, time: i64)
    ensures
        final(out)@ == old(out)@ + time_span(time),
{
    push_str(out, "<span class=\"unix-time\">");
    push_decimal(out, time);
    push_str(out, "</span>");
    assert(out@ =~= old(out)@ + time_span(time));
}

} // verus!
