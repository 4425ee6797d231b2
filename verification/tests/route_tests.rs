#![allow(non_snake_case)]

use hospital::actions::{login as act_login, unhide as act_unhide};
use hospital::css::Themes;
use hospital::db::Db;
use hospital::page::Frame;
use hospital::pages::{answer_fault, Fault};
use hospital::{Cfg, Server};

/// A fresh, empty database, kept in memory; the name names the test's
/// database.
fn O(_name: &str) -> Db {
    Db::empty()
}

fn frame() -> Frame {
    Frame { themes: Themes::new(), base_css: String::new(), script: String::new() }
}

fn cfg() -> Cfg {
    Cfg { site: None, server: Server { ip: "127.0.0.1".to_string(), port: 8080, db: "run/hospital.db".to_string() } }
}

/// What the visitor reads: nothing for a redirect, else the fault's answer.
fn text(db: &Db, r: &Result<String, Fault>) -> String {
    match r {
        Ok(_) => String::new(),
        Err(f) => answer_fault(db, &frame(), &cfg(), f),
    }
}

#[test]
fn login_user_not_found() {
    let mut db = O("login_user_not_found");
    let r = act_login(&mut db, "A", "A");
    assert!(text(&db, &r).contains("user not found"));
}

#[test]
fn login_empty_inputs() {
    let mut db = O("login_empty_inputs");
    for (user, pass) in [("", "A"), ("A", "")].into_iter() {
        let r = act_login(&mut db, user, pass);
        let t = text(&db, &r);
        println!("{}", t);
        assert!(t.contains("invalid form parameters"));
    }
}

#[test]
fn login() {
    let mut db = O("login");
    let u = db.new_user("a", "a").unwrap();
    println!("{}", u.line());

    let r = act_login(&mut db, "a", "a");
    let t = text(&db, &r);
    println!("{}", t);
    assert!(!t.contains("user not found"));
}

#[test]
fn unhide() {
    let mut db = O("unhide");

    let b = db.new_board("a", "a").unwrap();
    let u = db.new_user("a", "a").unwrap();
    let t = db.new_thread(b.id, u.id, "a", "a", None).unwrap();
    let p = db.new_post(t.id, u.id, "a", None).unwrap();
    let s = db.new_session(u.id).unwrap();

    db.new_admin(u.id).unwrap();

    let mut UH = |id: i64, ty: char, f: fn(String) -> bool| {
        let r = act_unhide(&mut db, Some(&s.hash), id, ty, None);
        let t = text(&db, &r);
        println!("{}", t);
        assert!(!t.contains("not an admin"));
        assert!(!t.contains("not logged in"));
        assert!(f(t));
    };

    /* valids */
    UH(b.id, 'b', |_| true);
    UH(t.id, 't', |_| true);
    UH(p.id, 'p', |_| true);

    /* invalids: not found */
    UH(0, 'b', |t| t.contains("not found"));
    UH(0, 't', |t| t.contains("not found"));
    UH(0, 'p', |t| t.contains("not found"));

    /* invalid type */
    UH(b.id, 'x', |t| t.contains("invalid form type"));
}
