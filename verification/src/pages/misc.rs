//! The index page, the login page and the page that shows a user's record.

use vstd::prelude::*;
use crate::Cfg;
use crate::db::Db;
use crate::lines::flag_text;
use crate::model::{Error, ErrorV, DbV, opt_str};
use crate::page::{Frame, page, page_text};
use crate::pages::{Fault, FaultV, shown};
use crate::strings::{push_str, push_decimal, decimal};

verus! {

/// The body of the index page.
pub open spec fn index_main(title: Seq<char>, tag: Seq<char>) -> Seq<char> {
    "\n        <h1>"@ + title + ".</h1>\n        <p>"@ + tag + ".</p>\n        <hr>\n        "@
}

/// Writes `index_main`.
pub fn write_index_main(out: &mut String, title: &str, tag: &str)
    ensures
        final(out)@ == old(out)@ + index_main(title@, tag@),
{
    push_str(out, "\n        <h1>");
    push_str(out, title);
    push_str(out, ".</h1>\n        <p>");
    push_str(out, tag);
    push_str(out, ".</p>\n        <hr>\n        ");
    assert(out@ =~= old(out)@ + index_main(title@, tag@));
}

/// The body of the login page.
pub open spec fn login_main() -> Seq<char> {
    "\n        <h1>login.</h1>\n        <div class=\"form\">\n            <form action=\"/act/login\" method=\"post\">\n                <table>\n                    <tr>\n                        <td><span class=\"form-item\">username</span></td>\n                        <td>\n                            <span class=\"form-item\">\n                                <input type=\"text\" name=\"user\">\n                            </span>\n                        </td>\n                    </tr>\n                    <tr>\n                        <td><span class=\"form-item\">password</span></td>\n                        <td>\n                            <span class=\"form-item\">\n                                <input type=\"password\" name=\"pass\">\n                            </span>\n                        </td>\n                    </tr>\n                </table>\n                <input type=\"submit\" value=\"go\">\n            </form>\n        </div>\n        "@
}

/// Writes `login_main`.
pub fn write_login_main(out: &mut String)
    ensures
        final(out)@ == old(out)@ + login_main(),
{
    push_str(out, "\n        <h1>login.</h1>\n        <div class=\"form\">\n            <form action=\"/act/login\" method=\"post\">\n                <table>\n                    <tr>\n                        <td><span class=\"form-item\">username</span></td>\n                        <td>\n                            <span class=\"form-item\">\n                                <input type=\"text\" name=\"user\">\n                            </span>\n                        </td>\n                    </tr>\n                    <tr>\n                        <td><span class=\"form-item\">password</span></td>\n                        <td>\n                            <span class=\"form-item\">\n                                <input type=\"password\" name=\"pass\">\n                            </span>\n                        </td>\n                    </tr>\n                </table>\n                <input type=\"submit\" value=\"go\">\n            </form>\n        </div>\n        ");
    assert(out@ =~= old(out)@ + login_main());
}

/// The body of the page that shows user `id`'s record.
pub open spec fn user_record(id: i64, name: Seq<char>, hash: Seq<char>, bio: Seq<char>, admin: Seq<char>) -> Seq<char> {
    "\n        <h1>user "@ + decimal(id as int) + "</h1>\n        <table>\n            <tr>\n                <td>name</td>\n                <td>"@ + name + "</td>\n            </tr>\n            <tr>\n                <td>hash</td>\n                <td>"@ + hash + "</td>\n            </tr>\n            <tr>\n                <td>bio</td>\n                <td>"@ + bio + "</td>\n            </tr>\n            <tr>\n                <td>admin?</td>\n                <td>"@ + admin + "</td>\n            </tr>\n        </table>\n        "@
}

/// Writes `user_record`.
pub fn write_user_record(out: &mut String, id: i64, name: &str, hash: &str, bio: &str, admin: &str)
    ensures
        final(out)@ == old(out)@ + user_record(id, name@, hash@, bio@, admin@),
{
    push_str(out, "\n        <h1>user ");
    push_decimal(out, id);
    push_str(out, "</h1>\n        <table>\n            <tr>\n                <td>name</td>\n                <td>");
    push_str(out, name);
    push_str(out, "</td>\n            </tr>\n            <tr>\n                <td>hash</td>\n                <td>");
    push_str(out, hash);
    push_str(out, "</td>\n            </tr>\n            <tr>\n                <td>bio</td>\n                <td>");
    push_str(out, bio);
    push_str(out, "</td>\n            </tr>\n            <tr>\n                <td>admin?</td>\n                <td>");
    push_str(out, admin);
    push_str(out, "</td>\n            </tr>\n        </table>\n        ");
    assert(out@ =~= old(out)@ + user_record(id, name@, hash@, bio@, admin@));
}

/// The taglines the index page picks from.
pub open spec fn tags() -> Seq<Seq<char>> {
    seq!["haven for the huddled masses"@, "padded cell for autistic transexuals"@, "im whatever you want me to be baby"@, "who are you, man?"@, "what lol"@, "SHUT THE FUCK UP"@, "powered by manic psychosis"@, "powered by delusions of grandeur"@, "powered by a 2015 DELL PC"@, "powered by illumos"@, "powered by monster energy and cigarettes"@, "you didn't see shit"@, "this website is a product of your imagination"@, "you don't know me"@, "whatever hoe"@, "insane asylum"@, "we don't want your bitch ass"@, "lesbian slut heaven"@, "party doll club"@]
}

/// The tagline that byte `b` picks: `b` modulo the number of taglines.
pub fn tag_at(b: u8) -> (r: &'static str)
    ensures
        r@ == tags()[(b % 19) as int],
{
    proof {
        reveal_strlit("haven for the huddled masses");
        reveal_strlit("padded cell for autistic transexuals");
        reveal_strlit("im whatever you want me to be baby");
        reveal_strlit("who are you, man?");
        reveal_strlit("what lol");
        reveal_strlit("SHUT THE FUCK UP");
        reveal_strlit("powered by manic psychosis");
        reveal_strlit("powered by delusions of grandeur");
        reveal_strlit("powered by a 2015 DELL PC");
        reveal_strlit("powered by illumos");
        reveal_strlit("powered by monster energy and cigarettes");
        reveal_strlit("you didn't see shit");
        reveal_strlit("this website is a product of your imagination");
        reveal_strlit("you don't know me");
        reveal_strlit("whatever hoe");
        reveal_strlit("insane asylum");
        reveal_strlit("we don't want your bitch ass");
        reveal_strlit("lesbian slut heaven");
        reveal_strlit("party doll club");
    }
    match b % 19 {
        0 => "haven for the huddled masses",
        1 => "padded cell for autistic transexuals",
        2 => "im whatever you want me to be baby",
        3 => "who are you, man?",
        4 => "what lol",
        5 => "SHUT THE FUCK UP",
        6 => "powered by manic psychosis",
        7 => "powered by delusions of grandeur",
        8 => "powered by a 2015 DELL PC",
        9 => "powered by illumos",
        10 => "powered by monster energy and cigarettes",
        11 => "you didn't see shit",
        12 => "this website is a product of your imagination",
        13 => "you don't know me",
        14 => "whatever hoe",
        15 => "insane asylum",
        16 => "we don't want your bitch ass",
        17 => "lesbian slut heaven",
        _ => "party doll club",
    }
}

/// Draws a byte (`rand::random::<u8>()`).
///
/// Trusted for nothing: which byte comes is chance.
#[verifier::external_body]
fn random_byte() -> (r: u8)
{
    ::rand::random::<u8>()
}

/// A tagline picked at random.
pub fn tag() -> (r: &'static str)
    ensures
        exists|b: u8| r@ == #[trigger] tags()[(b % 19) as int],
{
    let b = random_byte();
    tag_at(b)
}

/// The index page with tagline `tag`.
pub fn index(db: &Db, frame: &Frame, cfg: &Cfg, tag: &str) -> (r: Result<String, Error>)
    requires
        db@.wf(),
    ensures
        r matches Ok(s) && Ok::<Seq<char>, ErrorV>(s@) == page_text(db@, frame.themes@, frame.base_css@, frame.script@, cfg.site_title(), None, "index"@, index_main(cfg.site_title(), tag@)),
{
    let title = cfg.title();
    let mut body = String::new();
    write_index_main(&mut body, title.as_str(), tag);
    page(db, frame, cfg, None, "index", body.as_str())
}

/// The login page.
pub fn login(db: &Db, frame: &Frame, cfg: &Cfg) -> (r: Result<String, Error>)
    requires
        db@.wf(),
    ensures
        r matches Ok(s) && Ok::<Seq<char>, ErrorV>(s@) == page_text(db@, frame.themes@, frame.base_css@, frame.script@, cfg.site_title(), None, "login"@, login_main()),
{
    let mut body = String::new();
    write_login_main(&mut body);
    page(db, frame, cfg, None, "login", body.as_str())
}

/// The title of the page that shows user `id`'s record.
pub open spec fn record_title(id: i64) -> Seq<char> {
    "user "@ + decimal(id as int)
}

/// The page that shows user `id`'s record, password hash included; where
/// there is no such user, the error page links to the login page.
pub open spec fn record_view(db: DbV, frame: Frame, site_title: Seq<char>, id: i64) -> Result<Seq<char>, FaultV> {
    match db.user(id) {
        None => Err(FaultV::Back(ErrorV::UserNotFound(id), "/login"@)),
        Some(u) => match page_text(db, frame.themes@, frame.base_css@, frame.script@, site_title, None, record_title(id), user_record(id, u.name, u.hash, u.bio, flag_text(u.admin))) {
            Err(e) => Err(FaultV::Bare(e)),
            Ok(p) => Ok(p),
        },
    }
}

/// Makes the page of `record_view`.
pub fn user(db: &Db, frame: &Frame, cfg: &Cfg, id: i64) -> (r: Result<String, Fault>)
    requires
        db@.wf(),
    ensures
        shown(r) == record_view(db@, *frame, cfg.site_title(), id),
{
    let u = match db.get_user(id) {
        Ok(u) => u,
        Err(e) => return Err(Fault::Back(e, "/login".to_owned())),
    };
    let admin = if u.admin { "true" } else { "false" };
    let mut body = String::new();
    write_user_record(&mut body, id, u.name.as_str(), u.hash.as_str(), u.bio.as_str(), admin);
    let mut title = String::new();
    push_str(&mut title, "user ");
    push_decimal(&mut title, id);
    match page(db, frame, cfg, None, title.as_str(), body.as_str()) {
        Ok(p) => Ok(p),
        Err(e) => Err(Fault::Bare(e)),
    }
}

/// The bytes of uploaded image `id`, for a signed-in visitor; where there is
/// no such image, the error page links to the index.
pub open spec fn image_view(db: DbV, session: Option<Seq<char>>, id: i64) -> Result<Seq<u8>, FaultV> {
    match db.signed_in(session) {
        Err(e) => Err(FaultV::Bare(e)),
        Ok(_) => match db.file(id) {
            None => Err(FaultV::Back(ErrorV::FileNotFound(id), "/"@)),
            Some(f) => Ok(f.bytes),
        },
    }
}

/// Gives the bytes of `image_view`.
pub fn image(db: &Db, session: Option<&str>, id: i64) -> (r: Result<Vec<u8>, Fault>)
    requires
        db@.wf(),
    ensures
        shown(r) == image_view(db@, opt_str(session), id),
{
    match db.me(session) {
        Ok(_) => {},
        Err(e) => return Err(Fault::Bare(e)),
    }
    match db.get_file(id) {
        Ok(f) => Ok(f.bytes),
        Err(e) => Err(Fault::Back(e, "/".to_owned())),
    }
}

} // verus!
