use hospital::actions::{
    hide_post, invalid_str, lock_thread, login, login_with_token, new_post_at, new_thread_at, set_theme,
    update_user,
};
use hospital::css::{css, get_theme, get_theme_names, render_sheet, Themes};
use hospital::db::{Db, Table};
use hospital::records::User;
use hospital::html::{escape, unescape};
use hospital::js::base;
use hospital::model::Error;
use hospital::page::{page, render_board_links, Frame};
use hospital::pages::admin::admin as admin_page;
use hospital::pages::board::{by_name as board_page, board_previews_ok};
use hospital::pages::misc::{image, index as index_page, login as login_page, user as record_page, tag, tag_at};
use hospital::pages::thread::by_id_at as thread_page_at;
use hospital::pages::user::by_name as user_page;
use hospital::pages::{answer_fault, Fault};
use hospital::strings::decimal_string;
use hospital::x::posts;
use hospital::{Cfg, Server, Site};

fn frame() -> Frame {
    let mut themes = Themes::new();
    themes.insert("default", "--bg: white;");
    themes.insert("dark", "--bg: black;");
    Frame { themes, base_css: "body{}".to_string(), script: "let x = 1;".to_string() }
}

fn cfg() -> Cfg {
    Cfg {
        site: Some(Site { title: "test site".to_string() }),
        server: Server { ip: "0.0.0.0".to_string(), port: 80, db: "x.db".to_string() },
    }
}

/// A forum with one user `a` (an admin, signed in with the returned
/// token), a board `g` and a thread in it.
fn forum() -> (Db, String, i64, i64, i64) {
    let mut db = Db::empty();
    let u = db.new_user("a", "pw").unwrap();
    db.new_admin(u.id).unwrap();
    let b = db.new_board("g", "general").unwrap();
    let t = new_thread_at(&mut db, None, "g", "x", "y", None, 1);
    assert!(matches!(t, Err(Fault::Bare(Error::NotLoggedIn))));
    let token = login_with_token(&mut db, "a", "pw", "tok").unwrap();
    let addr = new_thread_at(&mut db, Some(&token), "g", "first", "hello", None, 100).unwrap();
    let t = db.get_threads(b.id).unwrap()[0].id;
    assert_eq!(addr, format!("/t/{}", t));
    (db, token, u.id, b.id, t)
}

#[test]
fn escape_and_back() {
    let s = "<a href='x'>&\"/</a>";
    let e = escape(s);
    assert_eq!(e, "&lt;a href=&#x27;x&#x27;&gt;&amp;&quot;&#x2F;&lt;&#x2F;a&gt;");
    assert_eq!(unescape(&e), s);
}

#[test]
fn decimals() {
    assert_eq!(decimal_string(0), "0");
    assert_eq!(decimal_string(-42), "-42");
    assert_eq!(decimal_string(i64::MIN), "-9223372036854775808");
    assert_eq!(decimal_string(1234567), "1234567");
}

#[test]
fn themes_by_name() {
    let mut t = Themes::new();
    t.insert("a", "1");
    t.insert("b", "2");
    t.insert("a", "3");
    assert_eq!(get_theme(&t, "a"), Some("3"));
    assert_eq!(get_theme(&t, "c"), None);
    assert_eq!(get_theme_names(&t), vec!["a".to_string(), "b".to_string()]);
    assert!(t.contains("b"));
}

#[test]
fn stylesheet_of_a_user() {
    let f = frame();
    let mut db = Db::empty();
    let u = db.new_user("a", "a").unwrap();
    let anon = css(&db, &f.themes, None, "B").unwrap();
    assert_eq!(anon, render_sheet("", "", "B", ""));
    assert_eq!(anon, "\n        :root {\n            \n            \n        }\n\n        B\n        \n        ");
    db.set_theme(u.id, "dark", &f.themes).unwrap();
    db.new_css(u.id, "--fg: red;", "p{}").unwrap();
    db.new_css(u.id, "--fg: blue;", "q{}").unwrap();
    let mine = css(&db, &f.themes, Some(u.id), "B").unwrap();
    assert_eq!(mine, render_sheet("--bg: black;", "--fg: blue;", "B", "q{}"));
    assert_eq!(css(&db, &f.themes, Some(77), "B"), Err(Error::NoTheme(77)));
}

#[test]
fn page_frame() {
    let mut db = Db::empty();
    db.new_board("a", "a").unwrap();
    let h = db.new_board("h", "h").unwrap();
    db.hide_board(h.id).unwrap();
    db.new_board("c", "c").unwrap();
    let links = render_board_links(&db.get_visible_boards().unwrap());
    assert!(links.contains("/b/a"));
    assert!(links.contains("/b/c"));
    assert!(!links.contains("/b/h"));
    assert_eq!(links.matches('\\').count(), 1);
    let p = page(&db, &frame(), &cfg(), None, "T", "BODY").unwrap();
    assert!(p.contains("<title>T :: test site</title>"));
    assert!(p.contains("BODY"));
    assert!(p.contains("<script>let x = 1;</script>"));
    assert!(p.contains(&links));
}

#[test]
fn site_title() {
    let mut c = cfg();
    assert_eq!(c.title(), "test site");
    c.site = None;
    assert_eq!(c.title(), "badboy hospital");
    assert_eq!(base("a();"), "a();");
}

#[test]
fn taglines() {
    assert_eq!(tag_at(0), "haven for the huddled masses");
    assert_eq!(tag_at(18), "party doll club");
    assert_eq!(tag_at(19), "haven for the huddled masses");
    let t = tag();
    assert!((0..=255u8).any(|b| tag_at(b) == t));
}

#[test]
fn index_and_login_pages() {
    let db = Db::empty();
    let i = index_page(&db, &frame(), &cfg(), "a tag").unwrap();
    assert!(i.contains("<h1>test site.</h1>"));
    assert!(i.contains("<p>a tag.</p>"));
    let l = login_page(&db, &frame(), &cfg()).unwrap();
    assert!(l.contains("<form action=\"/act/login\" method=\"post\">"));
}

#[test]
fn login_lets_in() {
    let mut db = Db::empty();
    let u = db.new_user("a", "pw").unwrap();
    let token = login(&mut db, "a", "pw").unwrap();
    assert_eq!(token.len(), 512);
    assert_eq!(db.me(Some(&token)).unwrap(), u);
    let bad = login(&mut db, "a", "wrong");
    assert!(matches!(bad, Err(Fault::Refused(ref m, ref g)) if m == "invalid password for user a" && g == "/login"));
    assert!(invalid_str("", 4));
    assert!(invalid_str("abcde", 4));
    assert!(!invalid_str("abcd", 4));
    assert!(invalid_str("ééé", 4));
}

#[test]
fn refused_post_changes_nothing() {
    let (mut db, token, _, _, t) = forum();
    let before = db.get_posts(t).unwrap().len();
    let r = new_post_at(&mut db, Some(&token), t, "", None, 5);
    assert!(matches!(r, Err(Fault::Refused(ref m, _)) if m == "you cannot make empty posts!"));
    let long = "x".repeat(2049);
    let r = new_post_at(&mut db, Some(&token), t, &long, None, 5);
    assert!(matches!(r, Err(Fault::Refused(ref m, ref g)) if m.starts_with("invalid content") && g == &format!("/t/{}", t)));
    assert_eq!(db.get_posts(t).unwrap().len(), before);
    let empty_file: &[u8] = &[];
    let r = new_post_at(&mut db, Some(&token), t, "", Some(empty_file), 5);
    assert!(matches!(r, Err(Fault::Refused(_, _))));
    let r = new_post_at(&mut db, Some(&token), t, "hi", None, 5).unwrap();
    let p = db.get_posts(t).unwrap().pop().unwrap();
    assert_eq!(r, format!("/t/{}#{}", t, p.id));
}

#[test]
fn thread_form_checks() {
    let (mut db, token, _, _, _) = forum();
    let r = new_thread_at(&mut db, Some(&token), "", "n", "c", None, 1);
    assert!(matches!(r, Err(Fault::Refused(ref m, ref g)) if m == "board  is invalid" && g == "/"));
    let r = new_thread_at(&mut db, Some(&token), "nope", "n", "c", None, 1);
    assert!(matches!(r, Err(Fault::Back(Error::BoardNameNotFound(ref n), ref g)) if n == "nope" && g == "/b/nope"));
    let r = new_thread_at(&mut db, Some(&token), "g", "", "c", None, 1);
    assert!(matches!(r, Err(Fault::Refused(ref m, _)) if m == "invalid thread form parameters"));
}

#[test]
fn lock_button_toggles() {
    let (mut db, token, _, _, t) = forum();
    let r = lock_thread(&mut db, Some(&token), t, false).unwrap();
    assert_eq!(r, format!("/b/g#{}", t));
    assert!(db.get_thread(t).unwrap().locked());
    lock_thread(&mut db, Some(&token), t, true).unwrap();
    assert!(!db.get_thread(t).unwrap().locked());
}

#[test]
fn viewed_thread_is_read() {
    let (mut db, token, uid, _, t) = forum();
    let p = new_post_at(&mut db, Some(&token), t, ">>1 see http://a.b/c", None, 200).unwrap();
    assert!(!db.is_read(uid, t).unwrap());
    let page = thread_page_at(&mut db, &frame(), &cfg(), Some(&token), t, 300).unwrap();
    assert!(db.is_read(uid, t).unwrap());
    assert!(page.contains("<h2>first</h2>"));
    assert!(page.contains("<a href=\"http://a.b/c\">http:&#x2F;&#x2F;a.b&#x2F;c</a>"));
    assert!(page.contains(&format!("<a href=\"/t/{}#1\">&gt;&gt;1</a>", t)));
    assert!(p.starts_with(&format!("/t/{}#", t)));
    let missing = thread_page_at(&mut db, &frame(), &cfg(), Some(&token), 999, 300);
    assert!(matches!(missing, Err(Fault::Bare(Error::ThreadNotFound(999)))));
}

#[test]
fn replies_are_linked() {
    let (mut db, token, _, _, t) = forum();
    new_post_at(&mut db, Some(&token), t, "first post", None, 10).unwrap();
    let first = db.get_posts(t).unwrap()[0].id;
    new_post_at(&mut db, Some(&token), t, &format!(">>{}", first), None, 11).unwrap();
    let reply = db.get_posts(t).unwrap()[1].id;
    let page = thread_page_at(&mut db, &frame(), &cfg(), Some(&token), t, 20).unwrap();
    assert!(page.contains(&format!("<span class=\"replies\">|<a href=\"/t/{}#{}\">&gt;&gt;{}</a></span>", t, reply, reply)));
}

#[test]
fn hidden_posts_are_not_shown() {
    let (mut db, token, _, _, t) = forum();
    new_post_at(&mut db, Some(&token), t, "secret words", None, 10).unwrap();
    let p = db.get_posts(t).unwrap()[0].id;
    assert_eq!(hide_post(&mut db, Some(&token), p).unwrap(), format!("/t/{}", t));
    let page = thread_page_at(&mut db, &frame(), &cfg(), Some(&token), t, 20).unwrap();
    assert!(!page.contains("secret words"));
    let admin = admin_page(&db, &frame(), &cfg(), Some(&token)).unwrap();
    assert!(admin.contains("secret words"));
    assert!(admin.contains("<input type=\"hidden\" name=\"ty\" value=\"p\">"));
}

#[test]
fn board_page_lists_threads() {
    let (mut db, token, _, _, _) = forum();
    let long = "0123456789012345678901234567890123456789";
    new_thread_at(&mut db, Some(&token), "g", "second", long, None, 200).unwrap();
    assert!(board_previews_ok(&db, "g"));
    let page = board_page(&db, &frame(), &cfg(), Some(&token), "g").unwrap();
    let second = page.find("second").unwrap();
    let first = page.find("first").unwrap();
    assert!(second < first);
    assert!(page.contains("01234567890123456789012345678901..."));
    assert!(page.contains("(unread)"));
    assert!(page.contains("<title>/g/ :: view board :: test site</title>"));
    let missing = board_page(&db, &frame(), &cfg(), Some(&token), "zz");
    assert!(matches!(missing, Err(Fault::Back(Error::BoardNameNotFound(ref n), ref g)) if n == "zz" && g == "/"));
}

#[test]
fn previews_need_a_clean_cut() {
    let (mut db, token, _, _, _) = forum();
    let cont = format!("{}é", "x".repeat(31));
    new_thread_at(&mut db, Some(&token), "g", "cut", &cont, None, 200).unwrap();
    assert!(!board_previews_ok(&db, "g"));
}

#[test]
fn user_pages() {
    let (mut db, token, uid, _, _) = forum();
    db.update_bio(uid, "<b>hi</b>").unwrap();
    let page = user_page(&db, &frame(), &cfg(), Some(&token), "a").unwrap();
    assert!(page.contains("<h1>~a (admin)</h1>"));
    assert!(page.contains("&lt;b&gt;hi&lt;&#x2F;b&gt;"));
    assert!(page.contains("<option value=\"dark\">dark</option>"));
    let rec = record_page(&db, &frame(), &cfg(), uid).unwrap();
    assert!(rec.contains("<td>true</td>"));
    assert!(matches!(record_page(&db, &frame(), &cfg(), 99), Err(Fault::Back(Error::UserNotFound(99), ref g)) if g == "/login"));
}

#[test]
fn user_settings() {
    let (mut db, token, uid, _, _) = forum();
    let f = frame();
    let r = update_user(&mut db, &f.themes, Some(&token), "new bio", "newpass", "dark").unwrap();
    assert_eq!(r, "/u/~a");
    let u = db.get_user(uid).unwrap();
    assert_eq!(u.bio, "new bio");
    assert_eq!(u.theme, Some("dark".to_string()));
    assert!(hospital::passwd::verify("newpass", &u.hash).unwrap());
    let r = update_user(&mut db, &f.themes, Some(&token), &"b".repeat(1025), "", "");
    assert!(matches!(r, Err(Fault::Refused(ref m, _)) if m == "invalid user fields"));
    let r = set_theme(&mut db, &f.themes, Some(&token), "nope");
    assert!(matches!(r, Err(Fault::Back(Error::ThemeNotFound(ref n), ref g)) if n == "nope" && g == "/u/~a"));
}

#[test]
fn plain_text_is_unchanged() {
    assert_eq!(posts(3, "just words").unwrap(), "just words");
}

#[test]
fn fault_answers() {
    let db = Db::empty();
    let f = frame();
    let c = cfg();
    assert_eq!(answer_fault(&db, &f, &c, &Fault::Bare(Error::PostNotFound(3))), "Db::get_post(3): post not found");
    let back = answer_fault(&db, &f, &c, &Fault::Back(Error::Clock, "/b/1".to_string()));
    assert!(back.contains("<h1>error: the clock is set before 1970</h1>"));
    assert!(back.contains("<a href=\"/b/1\">go back</a>"));
    let refused = answer_fault(&db, &f, &c, &Fault::Refused("nope".to_string(), "/".to_string()));
    assert!(refused.contains("<title>error: nope :: test site</title>"));
}

#[test]
fn each_error() {
    let mut db = Db::empty();
    let f = frame();
    assert_eq!(db.me(None), Err(Error::NotLoggedIn));
    assert_eq!(db.me(Some("x")), Err(Error::NoSession));
    let u = db.new_user("a", "a").unwrap();
    assert_eq!(db.new_user("a", "b"), Err(Error::UserExists("a".to_string())));
    assert_eq!(db.get_user(99), Err(Error::UserNotFound(99)));
    assert_eq!(db.get_session(u.id), Err(Error::SessionNotFound(u.id)));
    assert_eq!(db.get_board(9), Err(Error::BoardNotFound(9)));
    assert_eq!(db.get_thread(9), Err(Error::ThreadNotFound(9)));
    assert_eq!(db.get_post(9), Err(Error::PostNotFound(9)));
    assert_eq!(db.get_file(9), Err(Error::FileNotFound(9)));
    assert_eq!(db.new_file(b"not an image").unwrap_err(), Error::NotAnImage);
    let b = db.new_board("b", "b").unwrap();
    let t = db.new_thread(b.id, u.id, "t", "t", None).unwrap();
    db.lock_thread(t.id).unwrap();
    assert_eq!(db.new_post(t.id, u.id, "x", None), Err(Error::ThreadLocked("t".to_string())));
    assert_eq!(db.set_theme(u.id, "nope", &f.themes), Err(Error::ThemeNotFound("nope".to_string())));
    assert_eq!(hospital::passwd::verify("a", "not a hash"), Err(Error::BadPassword));
    assert_eq!(Error::Full.message(), "no ids are left");
}

#[test]
fn error_texts_name_the_record() {
    assert_eq!(Error::NotLoggedIn.message(), "Db::me(): not logged in");
    assert_eq!(Error::NoSession.message(), "Db::me(): no sessions found for user");
    assert_eq!(Error::UserExists("ann".to_string()).message(), "Db::new_user(ann): user already exists!");
    assert_eq!(Error::UserNotFound(7).message(), "Db::get_user(7): user not found");
    assert_eq!(Error::UserNameNotFound("bob".to_string()).message(), "Db::get_user_by_name(bob): user not found");
    assert_eq!(Error::SessionNotFound(4).message(), "Db::get_session(4): session not found");
    assert_eq!(Error::BoardNotFound(12).message(), "Db::get_board(12): board not found");
    assert_eq!(Error::BoardNameNotFound("g".to_string()).message(), "Db::get_board_by_name(g): board not found");
    assert_eq!(Error::ThreadNotFound(-3).message(), "Db::get_thread(-3): thread not found");
    assert_eq!(Error::FileNotFound(0).message(), "Db::get_file(0): file not found");
    assert_eq!(Error::ThreadLocked("rules".to_string()).message(), "attempting to post in locked thread \"rules\"");
    assert_eq!(Error::ThemeNotFound("neon".to_string()).message(), "failed to get theme \"neon\"");
    assert_eq!(Error::NoTheme(5).message(), "Db::get_theme(5): theme not found");
}

#[test]
fn full_table() {
    let users = Table::<User>::from_rows(Vec::new(), i64::MAX).unwrap();
    let mut db = Db::from_tables(
        users,
        Table::new(),
        Table::new(),
        Table::new(),
        Table::new(),
        Table::new(),
        Table::new(),
        Table::new(),
    );
    assert_eq!(db.new_user("a", "a"), Err(Error::Full));
}

#[test]
fn record_lines() {
    let mut db = Db::empty();
    let u = db.new_user("a", "a").unwrap();
    let b = db.new_board("b", "d").unwrap();
    assert_eq!(b.line(), format!("{}|b|d|false", b.id));
    let t = db.new_thread_at(b.id, u.id, "say \"hi\"", "line\nbreak", None, 7).unwrap();
    assert_eq!(t.line(), format!("{}|\"say \\\"hi\\\"\"|\"line\\nbreak\"|false|None|{}|7|{}|false", t.id, b.id, u.id));
    let p = db.new_post_at(t.id, u.id, "x", None, 8).unwrap();
    assert_eq!(p.line(), format!("{}|\"x\"|false|None|{}|{}|8|{}", p.id, b.id, t.id, u.id));
    assert!(u.line().ends_with("|false|None"));
}

#[test]
fn tokens_are_letters() {
    let s = hospital::rand::rand_str::<64>().unwrap();
    assert_eq!(s.len(), 64);
    assert!(s.chars().all(|c| ('a'..='y').contains(&c)));
}

#[test]
fn times_are_now() {
    let mut db = Db::empty();
    let u = db.new_user("a", "a").unwrap();
    let b = db.new_board("b", "b").unwrap();
    let t = db.new_thread(b.id, u.id, "t", "t", None).unwrap();
    assert!(t.time > 1_600_000_000);
}

#[test]
fn stored_files_by_verdict() {
    let mut db = Db::empty();
    assert_eq!(db.store_file(b"abc", false), Err(Error::NotAnImage));
    let f = db.store_file(b"abc", true).unwrap();
    assert_eq!(f.id, 1);
    assert_eq!(db.get_file(1).unwrap().bytes, b"abc".to_vec());
    let g = db.store_file(b"def", true).unwrap();
    assert_eq!(g.id, 2);
}

#[test]
fn link_rewriting_by_spans() {
    let text = "see http:&#x2F;&#x2F;a.b now";
    let out = hospital::x::link_urls(text, &vec![(4, 24)]);
    assert_eq!(out, "see <a href=\"http://a.b\">http:&#x2F;&#x2F;a.b</a> now");
    let out = hospital::x::link_replies(7, "&gt;&gt;12 and &gt;&gt;3", &vec![(0, 10), (15, 24)]);
    assert_eq!(out, "<a href=\"/t/7#12\">&gt;&gt;12</a> and <a href=\"/t/7#3\">&gt;&gt;3</a>");
}

#[test]
fn same_board_name_twice() {
    let mut db = Db::empty();
    let a = db.new_board("g", "general").unwrap();
    let b = db.new_board("g", "something else").unwrap();
    assert_eq!(a, b);
    assert_eq!(db.get_boards().unwrap().len(), 1);
}

#[test]
fn each_new_session_is_new() {
    let mut db = Db::empty();
    let u = db.new_user("a", "a").unwrap();
    let s0 = db.new_session(u.id).unwrap();
    let s1 = db.new_session(u.id).unwrap();
    assert_eq!(s1.user, u.id);
    assert_ne!(s1.id, s0.id);
    assert_ne!(s1.hash, s0.hash);
    assert_eq!(db.sessions_table().rows().last().unwrap(), &s1);
    assert_eq!(db.me(Some(&s1.hash)).unwrap(), u);
}

#[test]
fn login_answers_the_new_token() {
    let mut db = Db::empty();
    db.new_user("a", "pw").unwrap();
    let t1 = login_with_token(&mut db, "a", "pw", "first").unwrap();
    let t2 = login_with_token(&mut db, "a", "pw", "second").unwrap();
    assert_eq!(t1, "first");
    assert_eq!(t2, "second");
}

#[test]
fn theme_names_are_distinct() {
    let mut t = Themes::new();
    t.insert("x", "1");
    t.insert("y", "2");
    t.insert("x", "3");
    let names = get_theme_names(&t);
    assert_eq!(names.len(), 2);
    assert_ne!(names[0], names[1]);
    for n in &names {
        assert!(get_theme(&t, n).is_some());
    }
    assert!(get_theme(&t, "z").is_none());
}

#[test]
fn image_needs_a_session() {
    let (mut db, token, _, _, _) = forum();
    let g = vec![
        0x47, 0x49, 0x46, 0x38, 0x39, 0x61, 0x01, 0x00, 0x01, 0x00, 0x80, 0x00, 0x00, 0xff, 0xff, 0xff, 0x00,
        0x00, 0x00, 0x21, 0xf9, 0x04, 0x01, 0x00, 0x00, 0x00, 0x00, 0x2c, 0x00, 0x00, 0x00, 0x00, 0x01, 0x00,
        0x01, 0x00, 0x00, 0x02, 0x02, 0x44, 0x01, 0x00, 0x3b,
    ];
    let f = db.new_file(&g).unwrap();
    assert_eq!(image(&db, Some(&token), f.id).unwrap(), g);
    assert!(matches!(image(&db, None, f.id), Err(Fault::Bare(Error::NotLoggedIn))));
    assert!(matches!(image(&db, Some(&token), 99), Err(Fault::Back(Error::FileNotFound(99), ref g)) if g == "/"));
}

#[test]
fn new_session_signs_in() {
    let mut db = Db::empty();
    let u = db.new_user("a", "a").unwrap();
    let s = db.new_session(u.id).unwrap();
    assert_eq!(db.me(Some(&s.hash)).unwrap(), u);
    assert_eq!(db.me(None), Err(Error::NotLoggedIn));
    assert_eq!(db.me(Some("no such token")), Err(Error::NoSession));
}
