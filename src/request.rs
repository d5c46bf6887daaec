//! Building the two provider requests and reading their responses.
use vstd::prelude::*;
use crate::crumb::{crumb_of, scrape_crumb};
use crate::errors::ErrorKind;
use crate::options::{Interval, param_of};
use crate::text::{chars_of, push_signed_decimal, push_str, signed_decimal_of, string_of};
use crate::token::SessionToken;

verus! {

/// A span of time in Unix seconds, `start <= end`.
#[derive(Debug, Clone, Copy, PartialEq, Eq, Structural)]
pub struct DateRange {
    pub start: i64,
    pub end: i64,
}

impl DateRange {
    /// The range does not run backwards.
    pub open spec fn wf(&self) -> bool {
        self.start <= self.end
    }

    /// The range from `start` to `end`; `InvalidInput` when it would run backwards.
    pub fn new(start: i64, end: i64) -> (r: Result<DateRange, ErrorKind>)
        ensures
            start <= end ==> r == Ok::<DateRange, ErrorKind>(DateRange { start, end }),
            start > end ==> r == Err::<DateRange, ErrorKind>(ErrorKind::InvalidInput),
            r matches Ok(d) ==> d.wf(),
    {
        if start <= end {
            Ok(DateRange { start, end })
        } else {
            Err(ErrorKind::InvalidInput)
        }
    }
}

/// The page whose response carries the session cookie and the crumb.
pub open spec fn quote_page_url() -> Seq<char> {
    "http://finance.yahoo.com/quote/^GSPC"@
}

/// The address of the quote page.
pub fn quote_url() -> (r: String)
    ensures
        r@ == quote_page_url(),
{
    let cs = chars_of("http://finance.yahoo.com/quote/^GSPC");
    string_of(cs.as_slice())
}

/// The download address for a symbol, before its query.
pub open spec fn download_base(symbol: Seq<char>) -> Seq<char> {
    "http://query1.finance.yahoo.com/v7/finance/download/"@ + symbol
}

/// The query of a history request, in order.
pub open spec fn history_params_of(range: DateRange, interval: Interval, crumb: Seq<char>) -> Seq<(Seq<char>, Seq<char>)> {
    seq![
        ("period1"@, signed_decimal_of(range.start as int)),
        ("period2"@, signed_decimal_of(range.end as int)),
        ("interval"@, param_of(interval)),
        ("events"@, "history"@),
        ("crumb"@, crumb),
    ]
}

fn text_of(s: &str) -> (r: String)
    ensures
        r@ == s@,
{
    let cs = chars_of(s);
    string_of(cs.as_slice())
}

fn decimal_text(n: i64) -> (r: String)
    ensures
        r@ == signed_decimal_of(n as int),
{
    let mut out: Vec<char> = Vec::new();
    push_signed_decimal(n, &mut out);
    assert(out@ =~= signed_decimal_of(n as int));
    string_of(out.as_slice())
}

/// The query parameters of the history request.
pub fn history_params(range: &DateRange, interval: Interval, crumb: &str) -> (r: Vec<(String, String)>)
    ensures
        r.deep_view() == history_params_of(*range, interval, crumb@),
{
    let mut r: Vec<(String, String)> = Vec::new();
    r.push((text_of("period1"), decimal_text(range.start)));
    r.push((text_of("period2"), decimal_text(range.end)));
    r.push((text_of("interval"), text_of(interval.param_val())));
    r.push((text_of("events"), text_of("history")));
    r.push((text_of("crumb"), text_of(crumb)));
    assert(r.deep_view() =~~= history_params_of(*range, interval, crumb@));
    r
}

/// The address that the url crate (through hyper) builds from a base and
/// query pairs, if it parses the base.
pub uninterp spec fn url_with_params_of(base: Seq<char>, params: Seq<(Seq<char>, Seq<char>)>) -> Option<Seq<char>>;

/// Relies on `hyper::Url::parse_with_params`: parses the base and appends
/// the pairs form-encoded as its query.
#[verifier::external_body]
fn url_with_params(base: &str, params: &Vec<(String, String)>) -> (r: Option<String>)
    ensures
        r matches Some(u) ==> url_with_params_of(base@, params.deep_view()) == Some(u@),
        r is None ==> url_with_params_of(base@, params.deep_view()) is None,
{
    match hyper::Url::parse_with_params(base, params.iter()) {
        Ok(u) => Some(u.into_string()),
        Err(_) => None,
    }
}

/// A download request: its address, and the cookie it carries.
#[derive(Debug, Clone, PartialEq, Eq)]
pub struct HistoryRequest {
    pub url: String,
    pub cookie: String,
}

/// The address of the history download for a symbol, range, interval and crumb.
pub open spec fn history_url_of(symbol: Seq<char>, range: DateRange, interval: Interval, crumb: Seq<char>) -> Option<Seq<char>> {
    url_with_params_of(download_base(symbol), history_params_of(range, interval, crumb))
}

/// The request for the history of `symbol`, authorized by `token`.
/// `InvalidInput` when no address can be built from the symbol.
pub fn history_request(symbol: &str, token: &SessionToken, range: &DateRange, interval: Interval) -> (r: Result<HistoryRequest, ErrorKind>)
    ensures
        match (r, history_url_of(symbol@, *range, interval, token.crumb@)) {
            (Ok(req), Some(u)) => req.url@ == u && req.cookie@ == token.cookie@,
            (Err(e), None) => e == ErrorKind::InvalidInput,
            _ => false,
        },
{
    let mut base: Vec<char> = Vec::new();
    push_str(&mut base, "http://query1.finance.yahoo.com/v7/finance/download/");
    push_str(&mut base, symbol);
    let base = string_of(base.as_slice());
    let params = history_params(range, interval, token.crumb.as_str());
    match url_with_params(base.as_str(), &params) {
        None => Err(ErrorKind::InvalidInput),
        Some(url) => Ok(HistoryRequest { url, cookie: text_of(token.cookie.as_str()) }),
    }
}

/// Whether a set-cookie entry is the session cookie.
pub open spec fn is_session_cookie(entry: Seq<char>) -> bool {
    entry.len() >= 2 && entry[0] == 'B' && entry[1] == '='
}

/// The first session cookie among the entries from index `i` on.
pub open spec fn session_cookie_from(entries: Seq<Seq<char>>, i: int) -> Option<int>
    decreases entries.len() - i,
{
    if i < 0 || i >= entries.len() {
        None
    } else if is_session_cookie(entries[i]) {
        Some(i)
    } else {
        session_cookie_from(entries, i + 1)
    }
}

/// The first set-cookie entry that starts with `B=`; `MissingCookie` when none does.
pub fn select_session_cookie(set_cookies: &Vec<String>) -> (r: Result<String, ErrorKind>)
    ensures
        match (r, session_cookie_from(set_cookies.deep_view(), 0)) {
            (Ok(c), Some(i)) => c@ == set_cookies.deep_view()[i],
            (Err(e), None) => e == ErrorKind::MissingCookie,
            _ => false,
        },
{
    let mut i: usize = 0;
    while i < set_cookies.len()
        invariant
            i <= set_cookies@.len(),
            session_cookie_from(set_cookies.deep_view(), 0) == session_cookie_from(
                set_cookies.deep_view(),
                i as int,
            ),
        decreases set_cookies@.len() - i,
    {
        let e = chars_of(set_cookies[i].as_str());
        assert(e@ == set_cookies.deep_view()[i as int]);
        if e.len() >= 2 && e[0] == 'B' && e[1] == '=' {
            return Ok(string_of(e.as_slice()));
        }
        i = i + 1;
    }
    Err(ErrorKind::MissingCookie)
}

/// What the quote page's response yields: the session, or the failure.
pub open spec fn page_session_ok(status: u16, set_cookies: Seq<Seq<char>>, body: Seq<char>) -> bool {
    status == 200 && session_cookie_from(set_cookies, 0) is Some && crumb_of(body) is Some
}

/// Why the quote page's response yields no session, checked in order:
/// the status, the cookie, the crumb.
pub open spec fn page_error(status: u16, set_cookies: Seq<Seq<char>>) -> ErrorKind {
    if status != 200 {
        ErrorKind::UnexpectedStatusCode(status)
    } else if session_cookie_from(set_cookies, 0) is None {
        ErrorKind::MissingCookie
    } else {
        ErrorKind::ParseCrumb
    }
}

/// The session carried by the quote page's response: status 200, a `B=`
/// cookie, and a crumb in the body, checked in that order.
pub fn session_from_page(status: u16, set_cookies: &Vec<String>, body: &str) -> (r: Result<SessionToken, ErrorKind>)
    ensures
        r matches Ok(t) ==> page_session_ok(status, set_cookies.deep_view(), body@)
            && t.cookie@ == set_cookies.deep_view()[session_cookie_from(set_cookies.deep_view(), 0)->0]
            && crumb_of(body@) == Some(t.crumb@),
        r matches Err(e) ==> !page_session_ok(status, set_cookies.deep_view(), body@) && e
            == page_error(status, set_cookies.deep_view()),
{
    if status != 200 {
        return Err(ErrorKind::UnexpectedStatusCode(status));
    }
    let cookie = match select_session_cookie(set_cookies) {
        Ok(c) => c,
        Err(e) => return Err(e),
    };
    match scrape_crumb(body) {
        Ok(crumb) => Ok(SessionToken { cookie, crumb }),
        Err(e) => Err(e),
    }
}

/// The body of the history response when its status is 200; otherwise
/// `UnexpectedStatusCode` with the status.
pub fn history_body(status: u16, body: String) -> (r: Result<String, ErrorKind>)
    ensures
        status == 200 ==> (r matches Ok(b) && b@ == body@),
        status != 200 ==> r == Err::<String, ErrorKind>(ErrorKind::UnexpectedStatusCode(status)),
{
    if status == 200 {
        Ok(body)
    } else {
        Err(ErrorKind::UnexpectedStatusCode(status))
    }
}

} // verus!
