use yahoo2fnu::token::{load, LoadError, SessionToken};

fn token(cookie: &str, crumb: &str) -> SessionToken {
    SessionToken { cookie: cookie.to_string(), crumb: crumb.to_string() }
}

#[test]
fn save_then_load_round_trip() {
    let t = token("B=abc123&b=3&s=qq", "ab/cd");
    let text = t.cache_text();
    assert_eq!(text, "B=abc123&b=3&s=qq\nab/cd");
    assert_eq!(load(Some(text.as_str())), Ok(t));
}

#[test]
fn load_missing_file_is_not_found() {
    assert_eq!(load(None), Err(LoadError::NotFound));
}

#[test]
fn load_empty_file_is_corrupt() {
    assert_eq!(load(Some("")), Err(LoadError::CorruptCache));
}

#[test]
fn load_one_line_is_corrupt() {
    assert_eq!(load(Some("B=only")), Err(LoadError::CorruptCache));
    assert_eq!(load(Some("B=only\n")), Err(LoadError::CorruptCache));
}

#[test]
fn load_three_lines_is_corrupt() {
    assert_eq!(load(Some("a\nb\nc")), Err(LoadError::CorruptCache));
}

#[test]
fn load_accepts_trailing_newline_and_crlf() {
    assert_eq!(load(Some("B=x\r\ncr\n")), Ok(token("B=x", "cr")));
}
