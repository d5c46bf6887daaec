//! Finding the authorization crumb in the quote page.
use vstd::prelude::*;
use crate::errors::ErrorKind;
use crate::text::{chars_of, find_chars, find_from, string_of};

verus! {

/// The quoted JSON string that follows the `"crumb"` key after the
/// `"CrumbStore"` marker, quotes included; `None` when a marker or a
/// quote is missing.
pub open spec fn crumb_literal(body: Seq<char>) -> Option<Seq<char>> {
    let store = "\"CrumbStore\""@;
    let key = "\"crumb\""@;
    let quote = seq!['"'];
    match find_from(body, store, 0) {
        None => None,
        Some(i) => match find_from(body, key, i + store.len()) {
            None => None,
            Some(j) => match find_from(body, quote, j + key.len()) {
                None => None,
                Some(k) => match find_from(body, quote, k + 1) {
                    None => None,
                    Some(l) => Some(body.subrange(k, l + 1)),
                },
            },
        },
    }
}

/// What decoding `s` as one JSON string yields, if it is one.
pub uninterp spec fn json_string_of(s: Seq<char>) -> Option<Seq<char>>;

/// The crumb of a page: the decoded literal, when both steps succeed.
pub open spec fn crumb_of(body: Seq<char>) -> Option<Seq<char>> {
    match crumb_literal(body) {
        None => None,
        Some(lit) => json_string_of(lit),
    }
}

/// Relies on `serde_json::from_str::<String>`: decodes a JSON string literal.
#[verifier::external_body]
fn decode_json_string(s: &str) -> (r: Option<String>)
    ensures
        r matches Some(v) ==> json_string_of(s@) == Some(v@),
        r is None ==> json_string_of(s@) is None,
{
    serde_json::from_str::<String>(s).ok()
}

/// The quoted crumb literal in a page, before decoding.
pub fn find_crumb_literal(body: &str) -> (r: Option<String>)
    ensures
        r matches Some(v) ==> crumb_literal(body@) == Some(v@),
        r is None ==> crumb_literal(body@) is None,
{
    let b = chars_of(body);
    let store = chars_of("\"CrumbStore\"");
    let key = chars_of("\"crumb\"");
    let quote: Vec<char> = vec!['"'];
    assert(quote@ == seq!['"']);
    let i = match find_chars(b.as_slice(), store.as_slice(), 0) {
        None => return None,
        Some(i) => i,
    };
    assert(i + store@.len() <= b@.len() && b@.len() == b.len());
    let j = match find_chars(b.as_slice(), key.as_slice(), i + store.len()) {
        None => return None,
        Some(j) => j,
    };
    assert(j + key@.len() <= b@.len());
    let k = match find_chars(b.as_slice(), quote.as_slice(), j + key.len()) {
        None => return None,
        Some(k) => k,
    };
    let l = match find_chars(b.as_slice(), quote.as_slice(), k + 1) {
        None => return None,
        Some(l) => l,
    };
    let lit = string_of(&b.as_slice()[k..l + 1]);
    Some(lit)
}

/// Extracts the crumb from the quote page and decodes its JSON escapes.
pub fn scrape_crumb(body: &str) -> (r: Result<String, ErrorKind>)
    ensures
        r matches Ok(c) ==> crumb_of(body@) == Some(c@),
        r is Err ==> crumb_of(body@) is None && r == Err::<String, ErrorKind>(ErrorKind::ParseCrumb),
{
    match find_crumb_literal(body) {
        None => Err(ErrorKind::ParseCrumb),
        Some(lit) => match decode_json_string(lit.as_str()) {
            None => Err(ErrorKind::ParseCrumb),
            Some(c) => Ok(c),
        },
    }
}

/// Scraping depends on the page text alone: two pages with the same text
/// give the same crumb, or both give none.
pub proof fn lemma_scrape_deterministic(a: Seq<char>, b: Seq<char>)
    requires
        a == b,
    ensures
        crumb_of(a) == crumb_of(b),
        crumb_literal(a) == crumb_literal(b),
{
}

} // verus!
