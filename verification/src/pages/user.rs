//! The page of a user: name, bio, and for the user's own page the forms to
//! change them and the user's css.

use vstd::prelude::*;
use crate::Cfg;
use crate::css::{ThemeV, get_theme_names};
use crate::db::Db;
use crate::html::{escape, escaped};
use crate::model::{ErrorV, DbV, opt_str};
use crate::page::{Frame, page, page_text};
use crate::pages::{Fault, FaultV, shown};
use crate::records::{User, UserV};
use crate::strings::{push_str, push_decimal, decimal};

verus! {

/// The body of a user's page.
pub open spec fn user_main(name: Seq<char>, admin: Seq<char>, bio: Seq<char>, update: Seq<char>, css: Seq<char>) -> Seq<char> {
    "\n        <h1>~"@ + name + " "@ + admin + "</h1>\n        <p>"@ + bio + "</p>\n\n        <h3>update user info</h3>\n        <form method=\"post\" action=\"/act/update-user\">\n            "@ + update + "\n        </form>\n\n        <h3>update user css</h3>\n        <form method=\"post\" action=\"/act/update-css\">\n            "@ + css + "\n        </form>\n        "@
}

/// Writes `user_main`.
pub fn write_user_main(out: &mut String, name: &str, admin: &str, bio: &str, update: &str, css: &str)
    ensures
        final(out)@ == old(out)@ + user_main(name@, admin@, bio@, update@, css@),
{
    push_str(out, "\n        <h1>~");
    push_str(out, name);
    push_str(out, " ");
    push_str(out, admin);
    push_str(out, "</h1>\n        <p>");
    push_str(out, bio);
    push_str(out, "</p>\n\n        <h3>update user info</h3>\n        <form method=\"post\" action=\"/act/update-user\">\n            ");
    push_str(out, update);
    push_str(out, "\n        </form>\n\n        <h3>update user css</h3>\n        <form method=\"post\" action=\"/act/update-css\">\n            ");
    push_str(out, css);
    push_str(out, "\n        </form>\n        ");
    assert(out@ =~= old(out)@ + user_main(name@, admin@, bio@, update@, css@));
}

/// The form that changes a user's bio, password and theme.
pub open spec fn update_form(themes: Seq<char>, id: i64) -> Seq<char> {
    "\n                <table>\n                    <tr>\n                        <td>bio</td>\n                        <td><textarea name=\"bio\" rows=\"3\" cols=\"30\"></textarea></td>\n                    </tr>\n                    <tr>\n                        <td>password</td>\n                        <td><input type=\"password\" name=\"pass\"></td>\n                    </tr>\n                    <tr>\n                        <td>theme</td>\n                        <td>\n                            <select name=\"theme\">"@ + themes + "</select>\n                        </td>\n                    </tr>\n                </table>\n                <input type=\"hidden\" name=\"user\" value=\""@ + decimal(id as int) + "\">\n                <input type=\"submit\" value=\"go\">\n                "@
}

/// Writes `update_form`.
pub fn write_update_form(out: &mut String, themes: &str, id: i64)
    ensures
        final(out)@ == old(out)@ + update_form(themes@, id),
{
    push_str(out, "\n                <table>\n                    <tr>\n                        <td>bio</td>\n                        <td><textarea name=\"bio\" rows=\"3\" cols=\"30\"></textarea></td>\n                    </tr>\n                    <tr>\n                        <td>password</td>\n                        <td><input type=\"password\" name=\"pass\"></td>\n                    </tr>\n                    <tr>\n                        <td>theme</td>\n                        <td>\n                            <select name=\"theme\">");
    push_str(out, themes);
    push_str(out, "</select>\n                        </td>\n                    </tr>\n                </table>\n                <input type=\"hidden\" name=\"user\" value=\"");
    push_decimal(out, id);
    push_str(out, "\">\n                <input type=\"submit\" value=\"go\">\n                ");
    assert(out@ =~= old(out)@ + update_form(themes@, id));
}

/// A theme to pick.
pub open spec fn theme_option(n: Seq<char>) -> Seq<char> {
    "\n                        <option value=\""@ + n + "\">"@ + n + "</option>\n                        "@
}

/// Writes `theme_option`.
pub fn write_theme_option(out: &mut String, n: &str)
    ensures
        final(out)@ == old(out)@ + theme_option(n@),
{
    push_str(out, "\n                        <option value=\"");
    push_str(out, n);
    push_str(out, "\">");
    push_str(out, n);
    push_str(out, "</option>\n                        ");
    assert(out@ =~= old(out)@ + theme_option(n@));
}

/// The form that changes a user's own css.
pub open spec fn css_form(vars: Seq<char>, body: Seq<char>, id: i64) -> Seq<char> {
    "\n                <table>\n                    <tr>\n                        <td>css vars</td>\n                        <td>\n                            <textarea name=\"vars\" rows=\"3\" cols=\"30\">"@ + vars + "</textarea>\n                        </td>\n                    </tr>\n                    <tr>\n                        <td>css body</td>\n                        <td>\n                            <textarea name=\"body\" rows=\"3\" cols=\"30\">"@ + body + "</textarea>\n                        </td>\n                    </tr>\n                </table>\n                <input type=\"hidden\" name=\"user\" value=\""@ + decimal(id as int) + "\">\n                <input type=\"submit\" value=\"go\">\n                "@
}

/// Writes `css_form`.
pub fn write_css_form(out: &mut String, vars: &str, body: &str, id: i64)
    ensures
        final(out)@ == old(out)@ + css_form(vars@, body@, id),
{
    push_str(out, "\n                <table>\n                    <tr>\n                        <td>css vars</td>\n                        <td>\n                            <textarea name=\"vars\" rows=\"3\" cols=\"30\">");
    push_str(out, vars);
    push_str(out, "</textarea>\n                        </td>\n                    </tr>\n                    <tr>\n                        <td>css body</td>\n                        <td>\n                            <textarea name=\"body\" rows=\"3\" cols=\"30\">");
    push_str(out, body);
    push_str(out, "</textarea>\n                        </td>\n                    </tr>\n                </table>\n                <input type=\"hidden\" name=\"user\" value=\"");
    push_decimal(out, id);
    push_str(out, "\">\n                <input type=\"submit\" value=\"go\">\n                ");
    assert(out@ =~= old(out)@ + css_form(vars@, body@, id));
}

/// The themes to pick from, in order.
pub open spec fn theme_options(ts: Seq<ThemeV>) -> Seq<char>
    decreases ts.len(),
{
    if ts.len() == 0 {
        Seq::empty()
    } else {
        theme_options(ts.drop_last()) + theme_option(ts.last().0)
    }
}

fn write_theme_options(out: &mut String, frame: &Frame)
    ensures
        final(out)@ == old(out)@ + theme_options(frame.themes@),
{
    let names = get_theme_names(&frame.themes);
    let ghost ts = frame.themes@;
    let ghost start = out@;
    let mut i: usize = 0;
    assert(names@.len() == ts.len()) by {
        assert(names@.map_values(|s: String| s@).len() == ts.map_values(|e: ThemeV| e.0).len());
    }
    while i < names.len()
        invariant
            i <= names@.len(),
            names@.len() == ts.len(),
            names@.map_values(|s: String| s@) == ts.map_values(|e: ThemeV| e.0),
            out@ == start + theme_options(ts.take(i as int)),
        decreases names@.len() - i,
    {
        assert(names@.map_values(|s: String| s@)[i as int] == ts.map_values(|e: ThemeV| e.0)[i as int]);
        write_theme_option(out, names[i].as_str());
        assert(ts.take(i + 1).drop_last() =~= ts.take(i as int));
        assert(out@ =~= start + theme_options(ts.take(i + 1)));
        i = i + 1;
    }
    assert(ts.take(ts.len() as int) =~= ts);
}

/// The form to change the user, on the user's own page.
pub open spec fn update_part(themes: Seq<ThemeV>, me: UserV, u: UserV) -> Seq<char> {
    if me.id == u.id {
        update_form(theme_options(themes), me.id)
    } else {
        Seq::empty()
    }
}

/// The form to change the user's css, filled with the newest css, on the
/// user's own page.
pub open spec fn css_part(db: DbV, me: UserV, u: UserV) -> Seq<char> {
    if me.id == u.id {
        match db.css_of(me.id) {
            Some(c) => css_form(c.vars, c.css, me.id),
            None => css_form(Seq::empty(), Seq::empty(), me.id),
        }
    } else {
        Seq::empty()
    }
}

/// The body of the page of user `u`, as `me` sees it.
pub open spec fn user_body(db: DbV, themes: Seq<ThemeV>, me: UserV, u: UserV) -> Seq<char> {
    user_main(
        escaped(u.name),
        if u.admin { "(admin)"@ } else { Seq::empty() },
        escaped(u.bio),
        update_part(themes, me, u),
        css_part(db, me, u),
    )
}

/// The title of the page of user `u`.
pub open spec fn user_title(u: UserV) -> Seq<char> {
    "~"@ + escaped(u.name)
}

/// Who asks for the page of the user named `n`, and that user; or why not.
pub open spec fn user_lookup(db: DbV, session: Option<Seq<char>>, n: Seq<char>) -> Result<(UserV, UserV), FaultV> {
    match db.signed_in(session) {
        Err(e) => Err(FaultV::Bare(e)),
        Ok(me) => match db.user_by_name(n) {
            None => Err(FaultV::Bare(ErrorV::UserNameNotFound(n))),
            Some(u) => Ok((me, u)),
        },
    }
}

/// The page of the user named `n` for the visitor with token `session`.
pub open spec fn user_view(db: DbV, frame: Frame, site_title: Seq<char>, session: Option<Seq<char>>, n: Seq<char>) -> Result<Seq<char>, FaultV> {
    match user_lookup(db, session, n) {
        Err(f) => Err(f),
        Ok((me, u)) => match page_text(db, frame.themes@, frame.base_css@, frame.script@, site_title, Some(me.id), user_title(u), user_body(db, frame.themes@, me, u)) {
            Err(e) => Err(FaultV::Bare(e)),
            Ok(p) => Ok(p),
        },
    }
}

/// Makes the page of `user_view`.
pub fn by_name(db: &Db, frame: &Frame, cfg: &Cfg, session: Option<&str>, n: &str) -> (r: Result<String, Fault>)
    requires
        db@.wf(),
    ensures
        shown(r) == user_view(db@, *frame, cfg.site_title(), opt_str(session), n@),
{
    let me = match db.me(session) {
        Ok(u) => u,
        Err(e) => return Err(Fault::Bare(e)),
    };
    let u = match db.get_user_by_name(n) {
        Ok(u) => u,
        Err(e) => return Err(Fault::Bare(e)),
    };
    let name = escape(u.name.as_str());
    let bio = escape(u.bio.as_str());
    let admin = if u.admin { "(admin)" } else { "" };
    proof { reveal_strlit(""); }
    let mut update = String::new();
    let mut css = String::new();
    if me.id == u.id {
        let mut opts = String::new();
        write_theme_options(&mut opts, frame);
        write_update_form(&mut update, opts.as_str(), me.id);
        let c = match db.get_css(me.id) {
            Ok(c) => c,
            Err(e) => return Err(Fault::Bare(e)),
        };
        match c {
            Some(c) => write_css_form(&mut css, c.vars.as_str(), c.css.as_str(), me.id),
            None => write_css_form(&mut css, "", "", me.id),
        }
    }
    assert(update@ =~= update_part(frame.themes@, me@, u@));
    assert(css@ =~= css_part(db@, me@, u@));
    let mut body = String::new();
    write_user_main(&mut body, name.as_str(), admin, bio.as_str(), update.as_str(), css.as_str());
    let mut title = String::new();
    push_str(&mut title, "~");
    push_str(&mut title, name.as_str());
    match page(db, frame, cfg, Some(me.id), title.as_str(), body.as_str()) {
        Ok(p) => Ok(p),
        Err(e) => Err(Fault::Bare(e)),
    }
}

} // verus!
