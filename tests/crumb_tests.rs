use yahoo2fnu::crumb::{find_crumb_literal, scrape_crumb};
use yahoo2fnu::errors::ErrorKind;

#[test]
fn scrape_decodes_escaped_crumb() {
    let html = "<script>root.App.main = {\"CrumbStore\":{\"crumb\":\"ab\\u002Fcd\"},\"x\":1};</script>";
    assert_eq!(scrape_crumb(html), Ok("ab/cd".to_string()));
}

#[test]
fn scrape_is_repeatable() {
    let html = "xx\"CrumbStore\":{\"crumb\":\"Zq9.x\"}yy";
    let first = scrape_crumb(html);
    let second = scrape_crumb(html);
    assert_eq!(first, second);
    assert_eq!(first, Ok("Zq9.x".to_string()));
    let bad = "no marker here";
    assert_eq!(scrape_crumb(bad), scrape_crumb(bad));
}

#[test]
fn scrape_fails_without_store_marker() {
    assert_eq!(scrape_crumb("{\"crumb\":\"abc\"}"), Err(ErrorKind::ParseCrumb));
}

#[test]
fn scrape_fails_without_crumb_key() {
    assert_eq!(scrape_crumb("\"CrumbStore\":{\"other\":\"abc\"}"), Err(ErrorKind::ParseCrumb));
}

#[test]
fn scrape_fails_without_closing_quote() {
    assert_eq!(scrape_crumb("\"CrumbStore\":{\"crumb\":\"abc"), Err(ErrorKind::ParseCrumb));
}

#[test]
fn scrape_fails_on_bad_escape() {
    assert_eq!(scrape_crumb("\"CrumbStore\":{\"crumb\":\"a\\qb\"}"), Err(ErrorKind::ParseCrumb));
}

#[test]
fn literal_keeps_quotes_and_escapes() {
    let html = "\"CrumbStore\":{\"crumb\":\"ab\\u002Fcd\"}";
    assert_eq!(find_crumb_literal(html), Some("\"ab\\u002Fcd\"".to_string()));
    assert_eq!(find_crumb_literal(""), None);
}
