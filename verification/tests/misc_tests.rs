use hospital::db::Db;
use hospital::html::escape;
use hospital::passwd::{hash, verify};
use hospital::rand::rand_str;
use hospital::x::posts;

#[test]
fn mk_random_str() {
    let s = rand_str::<128>().unwrap();

    assert_eq!(s.len(), 128);
}

#[test]
fn verify_a_passwd() {
    let p = "test123";
    let h = hash(p).unwrap();

    assert!(verify(p, &h).unwrap());
}

#[test]
fn x_post_regex() {
    let a1 = format!(r#"<a href="http://test.com/test">http:{s}{s}test.com{s}test</a>"#, s = "&#x2F;");

    for (x, y) in [(">>123", r#"<a href="/t/0#123">&gt;&gt;123</a>"#), ("http://test.com/test", &a1)].into_iter() {
        let r = posts(0, &escape(x)).unwrap();
        assert_eq!(&r, y);
    }
}

#[test]
fn new_user_new_user() {
    let mut db = Db::empty();
    let u = db.new_user("test", "test").unwrap();
    assert_eq!(&u.name, "test");
    assert!(verify("test", &u.hash).unwrap());
}

#[test]
fn reply_markers_take_all_their_digits() {
    let r = posts(3, "&gt;&gt;12&gt;&gt;x &gt;&gt;7 é&gt;&gt;").unwrap();
    assert_eq!(
        r,
        r#"<a href="/t/3#12">&gt;&gt;12</a>&gt;&gt;x <a href="/t/3#7">&gt;&gt;7</a> é&gt;&gt;"#
    );
}
