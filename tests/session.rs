use gmail_cleaner::session::{
    clear, read, write_cursor, CookieOp, SessionCookies, PAGE_TOKEN_COOKIE, TOKEN_COOKIE,
};

#[test]
fn write_then_read_round_trip() {
    let mut jar = SessionCookies::new();
    assert!(read(&jar).is_none());
    let op = gmail_cleaner::session::write("T", Some(3600));
    jar.apply(&op);
    let s = read(&jar).unwrap();
    assert_eq!(s.access_token, "T");
    assert!(s.pagination_cursor.is_none());
}

#[test]
fn write_overwrites_earlier_token() {
    let mut jar = SessionCookies::new();
    jar.insert(TOKEN_COOKIE, "old");
    jar.apply(&gmail_cleaner::session::write("new", None));
    assert_eq!(read(&jar).unwrap().access_token, "new");
}

#[test]
fn write_keeps_expiry_hint() {
    match gmail_cleaner::session::write("T", Some(60)) {
        CookieOp::Store { name, value, max_age } => {
            assert_eq!(name, "token");
            assert_eq!(value, "T");
            assert_eq!(max_age, Some(60));
        }
        CookieOp::Remove { .. } => panic!("expected a stored cookie"),
    }
    match gmail_cleaner::session::write("T", None) {
        CookieOp::Store { max_age, .. } => assert_eq!(max_age, None),
        CookieOp::Remove { .. } => panic!("expected a stored cookie"),
    }
}

#[test]
fn cursor_is_set_then_removed() {
    let mut jar = SessionCookies::new();
    jar.insert(TOKEN_COOKIE, "T");
    jar.apply(&write_cursor(Some("next".to_string())));
    assert_eq!(read(&jar).unwrap().pagination_cursor, Some("next".to_string()));
    jar.apply(&write_cursor(None));
    assert_eq!(read(&jar).unwrap().pagination_cursor, None);
    assert_eq!(jar.get(PAGE_TOKEN_COOKIE), None);
}

#[test]
fn clear_removes_token_and_cursor() {
    let mut jar = SessionCookies::new();
    jar.insert(TOKEN_COOKIE, "T");
    jar.insert(PAGE_TOKEN_COOKIE, "c");
    jar.insert("other", "x");
    for op in clear().iter() {
        jar.apply(op);
    }
    assert!(read(&jar).is_none());
    assert_eq!(jar.get(PAGE_TOKEN_COOKIE), None);
    assert_eq!(jar.get("other"), Some("x".to_string()));
}

#[test]
fn get_returns_latest_value() {
    let mut jar = SessionCookies::new();
    jar.insert("a", "1");
    jar.insert("b", "2");
    jar.insert("a", "3");
    assert_eq!(jar.get("a"), Some("3".to_string()));
    assert_eq!(jar.get("b"), Some("2".to_string()));
    jar.remove("a");
    assert_eq!(jar.get("a"), None);
    assert_eq!(jar.get("b"), Some("2".to_string()));
}
