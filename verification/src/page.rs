//! The frame of every page: head, stylesheet, the bar of boards, the body
//! and the footer; and the error page.

use vstd::prelude::*;
use crate::Cfg;
use crate::css::{Themes, ThemeV, css, page_css};
use crate::db::Db;
use crate::model::{Error, ErrorV, DbV, board_visible, res_views, views};
use crate::records::{Board, BoardV};
use crate::strings::push_str;

verus! {

/// What a page carries besides its body: the themes users pick from, the
/// base stylesheet and the page script.
pub struct Frame {
    pub themes: Themes,
    pub base_css: String,
    pub script: String,
}

/// The whole page around `body`.
pub open spec fn layout(title: Seq<char>, site_title: Seq<char>, css: Seq<char>, boards: Seq<char>, body: Seq<char>, js: Seq<char>) -> Seq<char> {
    "\n            <!DOCTYPE html>\n            <html>\n                <head>\n                    <title>"@ + title + " :: "@ + site_title + "</title>\n                    <meta charset=\"utf-8\">\n                    <style>"@ + css + "</style>\n                </head>\n                <body>\n                    <div class=\"top\">\n                        <span class=\"bold\">\n                            <a href=\"/\">"@ + site_title + "</a>\n                        </span>\n                        ::\n                        <a href=\"/login\">login</a>\n                        ::\n                        "@ + boards + "\n                    </div>\n                    <hr>\n                    "@ + body + "\n                    <div class=\"bottom\">\n                        (c)<a href=\"http://badboy.institute/~skye\" target=\"_blank\">skylar bleed</a> 2026|<a href=\"https://raw.githubusercontent.com/bleedsa/hospital/refs/heads/master/LICENSE\" target=\"_blank\">Mozilla Public License/2.0</a>|<a href=\"https://github.com/bleedsa/hospital\" target=\"_blank\">view source</a>\n                    </div>\n                </body>\n                <script>"@ + js + "</script>\n            </html>\n            "@
}

/// Writes the page of `layout`.
pub fn render_layout(title: &str, site_title: &str, css: &str, boards: &str, body: &str, js: &str) -> (r: String)
    ensures
        r@ == layout(title@, site_title@, css@, boards@, body@, js@),
{
    let mut out = String::new();
    push_str(&mut out, "\n            <!DOCTYPE html>\n            <html>\n                <head>\n                    <title>");
    push_str(&mut out, title);
    push_str(&mut out, " :: ");
    push_str(&mut out, site_title);
    push_str(&mut out, "</title>\n                    <meta charset=\"utf-8\">\n                    <style>");
    push_str(&mut out, css);
    push_str(&mut out, "</style>\n                </head>\n                <body>\n                    <div class=\"top\">\n                        <span class=\"bold\">\n                            <a href=\"/\">");
    push_str(&mut out, site_title);
    push_str(&mut out, "</a>\n                        </span>\n                        ::\n                        <a href=\"/login\">login</a>\n                        ::\n                        ");
    push_str(&mut out, boards);
    push_str(&mut out, "\n                    </div>\n                    <hr>\n                    ");
    push_str(&mut out, body);
    push_str(&mut out, "\n                    <div class=\"bottom\">\n                        (c)<a href=\"http://badboy.institute/~skye\" target=\"_blank\">skylar bleed</a> 2026|<a href=\"https://raw.githubusercontent.com/bleedsa/hospital/refs/heads/master/LICENSE\" target=\"_blank\">Mozilla Public License/2.0</a>|<a href=\"https://github.com/bleedsa/hospital\" target=\"_blank\">view source</a>\n                    </div>\n                </body>\n                <script>");
    push_str(&mut out, js);
    push_str(&mut out, "</script>\n            </html>\n            ");
    assert(out@ =~= layout(title@, site_title@, css@, boards@, body@, js@));
    out
}

/// The link to a board in the bar at the top.
pub open spec fn board_link(name: Seq<char>) -> Seq<char> {
    "\n                    <span class=\"board-a\">\n                        <a href=\"/b/"@ + name + "\">/"@ + name + "/</a>\n                    </span>\n                    "@
}

/// The links to the given boards, separated by backslashes.
pub open spec fn board_links(bs: Seq<BoardV>) -> Seq<char>
    decreases bs.len(),
{
    if bs.len() == 0 {
        Seq::empty()
    } else if bs.len() == 1 {
        board_link(bs[0].name)
    } else {
        board_links(bs.drop_last()) + "\\"@ + board_link(bs.last().name)
    }
}

fn push_board_link(out: &mut String, name: &str)
    ensures
        final(out)@ == old(out)@ + board_link(name@),
{
    push_str(out, "\n                    <span class=\"board-a\">\n                        <a href=\"/b/");
    push_str(out, name);
    push_str(out, "\">/");
    push_str(out, name);
    push_str(out, "/</a>\n                    </span>\n                    ");
    assert(out@ =~= old(out)@ + board_link(name@));
}

/// Writes the links of `board_links`.
pub fn render_board_links(bs: &Vec<Board>) -> (r: String)
    ensures
        r@ == board_links(views(bs@)),
{
    let ghost v = views(bs@);
    let mut out = String::new();
    let mut i: usize = 0;
    while i < bs.len()
        invariant
            i <= bs@.len(),
            v == views(bs@),
            out@ == board_links(v.take(i as int)),
        decreases bs@.len() - i,
    {
        if i > 0 {
            push_str(&mut out, "\\");
        }
        push_board_link(&mut out, bs[i].name.as_str());
        assert(v.take(i + 1).drop_last() =~= v.take(i as int));
        i = i + 1;
    }
    assert(v.take(v.len() as int) =~= v);
    out
}

/// The page with title `title` and body `body` for the signed-in user `me`
/// (if any): its stylesheet first, then the bar of visible boards.
pub open spec fn page_text(db: DbV, themes: Seq<ThemeV>, base_css: Seq<char>, js: Seq<char>, site_title: Seq<char>, me: Option<i64>, title: Seq<char>, body: Seq<char>) -> Result<Seq<char>, ErrorV> {
    match page_css(db, themes, me, base_css) {
        Err(e) => Err(e),
        Ok(c) => Ok(layout(title, site_title, c, board_links(db.boards.rows.filter(board_visible())), body, js)),
    }
}

/// Makes a page.
pub fn page(db: &Db, frame: &Frame, cfg: &Cfg, me: Option<i64>, title: &str, body: &str) -> (r: Result<String, Error>)
    requires
        db@.wf(),
    ensures
        res_views(r) == page_text(db@, frame.themes@, frame.base_css@, frame.script@, cfg.site_title(), me, title@, body@),
{
    let site_title = cfg.title();
    let c = match css(db, &frame.themes, me, frame.base_css.as_str()) {
        Ok(c) => c,
        Err(e) => return Err(e),
    };
    let boards = match db.get_visible_boards() {
        Ok(bs) => bs,
        Err(e) => return Err(e),
    };
    let links = render_board_links(&boards);
    Ok(render_layout(title, site_title.as_str(), c.as_str(), links.as_str(), body, frame.script.as_str()))
}

/// The body of the page that refuses a request: the reason and a link back.
pub open spec fn refusal_body(e: Seq<char>, goto: Seq<char>) -> Seq<char> {
    "\n            <h1>error: "@ + e + "</h1>\n            <p><a href=\""@ + goto + "\">go back</a></p>\n            "@
}

/// The body of the page that reports a failed step: the error and a link
/// back.
pub open spec fn failure_body(e: Seq<char>, goto: Seq<char>) -> Seq<char> {
    "\n                <h1>error: "@ + e + "</h1>\n                <p><a href=\""@ + goto + "\">go back</a></p>\n                "@
}

/// The title of an error page.
pub open spec fn error_title(e: Seq<char>) -> Seq<char> {
    "error: "@ + e
}

/// Writes the body of `refusal_body`.
pub fn render_refusal_body(e: &str, goto: &str) -> (r: String)
    ensures
        r@ == refusal_body(e@, goto@),
{
    let mut out = String::new();
    push_str(&mut out, "\n            <h1>error: ");
    push_str(&mut out, e);
    push_str(&mut out, "</h1>\n            <p><a href=\"");
    push_str(&mut out, goto);
    push_str(&mut out, "\">go back</a></p>\n            ");
    assert(out@ =~= refusal_body(e@, goto@));
    out
}

/// Writes the body of `failure_body`.
pub fn render_failure_body(e: &str, goto: &str) -> (r: String)
    ensures
        r@ == failure_body(e@, goto@),
{
    let mut out = String::new();
    push_str(&mut out, "\n                <h1>error: ");
    push_str(&mut out, e);
    push_str(&mut out, "</h1>\n                <p><a href=\"");
    push_str(&mut out, goto);
    push_str(&mut out, "\">go back</a></p>\n                ");
    assert(out@ =~= failure_body(e@, goto@));
    out
}

/// Writes the title of `error_title`.
pub fn render_error_title(e: &str) -> (r: String)
    ensures
        r@ == error_title(e@),
{
    let mut out = String::new();
    push_str(&mut out, "error: ");
    push_str(&mut out, e);
    out
}

/// The page that refuses a request with reason `e`, linking back to `goto`;
/// shown to nobody in particular.
pub fn refusal_page(db: &Db, frame: &Frame, cfg: &Cfg, e: &str, goto: &str) -> (r: Result<String, Error>)
    requires
        db@.wf(),
    ensures
        res_views(r) == page_text(db@, frame.themes@, frame.base_css@, frame.script@, cfg.site_title(), None, error_title(e@), refusal_body(e@, goto@)),
{
    let title = render_error_title(e);
    let body = render_refusal_body(e, goto);
    page(db, frame, cfg, None, title.as_str(), body.as_str())
}

/// The page that reports that a step failed with `e`, linking back to
/// `goto`; shown to nobody in particular.
pub fn failure_page(db: &Db, frame: &Frame, cfg: &Cfg, e: &str, goto: &str) -> (r: Result<String, Error>)
    requires
        db@.wf(),
    ensures
        res_views(r) == page_text(db@, frame.themes@, frame.base_css@, frame.script@, cfg.site_title(), None, error_title(e@), failure_body(e@, goto@)),
{
    let title = render_error_title(e);
    let body = render_failure_body(e, goto);
    page(db, frame, cfg, None, title.as_str(), body.as_str())
}

} // verus!
