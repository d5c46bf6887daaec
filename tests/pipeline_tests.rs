use yahoo2fnu::errors::{ErrorChain, ErrorKind};
use yahoo2fnu::options::{DataValue, Interval};
use yahoo2fnu::pipeline::{Action, Event, Phase, Pipeline};
use yahoo2fnu::request::{history_params, history_request, select_session_cookie, session_from_page, DateRange};
use yahoo2fnu::token::SessionToken;

fn run() -> Pipeline {
    Pipeline::new("SPY".to_string(), DataValue::Close, DateRange::new(0, 86400).unwrap(), Interval::Daily)
}

const CSV: &str = "Date,Open,High,Low,Close,Adj Close,Volume\n2020-03-05,1,2,3,123.45,5,6\n";

#[test]
fn cached_token_skips_quote_page() {
    let mut p = run();
    let a = p.step(Event::CacheRead(Some("B=abc\nab/cd".to_string())));
    match a {
        Action::FetchHistory(req) => {
            assert_eq!(req.cookie, "B=abc");
            assert_eq!(
                req.url,
                "http://query1.finance.yahoo.com/v7/finance/download/SPY?period1=0&period2=86400&interval=1d&events=history&crumb=ab%2Fcd"
            );
        },
        other => panic!("unexpected action {:?}", other),
    }
    assert_eq!(p.phase, Phase::FetchingHistory);
    let a = p.step(Event::HistoryFetched { status: 200, body: CSV.to_string() });
    assert_eq!(a, Action::WriteOutput("SPY\nSPY Close\n03/05/2020,123.45,0\n".to_string()));
    assert_eq!(p.step(Event::OutputWritten), Action::Finish);
    assert_eq!(p.phase, Phase::Done);
}

#[test]
fn refused_download_deletes_cache_and_fails() {
    let mut p = run();
    p.step(Event::CacheRead(Some("B=abc\ncr".to_string())));
    let a = p.step(Event::HistoryFetched { status: 401, body: String::new() });
    assert_eq!(a, Action::DeleteCache);
    let a = p.step(Event::CacheDeleted(None));
    assert_eq!(a, Action::Abort(ErrorChain { causes: vec![ErrorKind::UnexpectedStatusCode(401)] }));
}

#[test]
fn refused_download_reports_delete_failure_too() {
    let mut p = run();
    p.step(Event::CacheRead(Some("B=abc\ncr".to_string())));
    p.step(Event::HistoryFetched { status: 404, body: String::new() });
    let a = p.step(Event::CacheDeleted(Some("permission denied".to_string())));
    let chain = ErrorChain {
        causes: vec![ErrorKind::UnexpectedStatusCode(404), ErrorKind::Io("permission denied".to_string())],
    };
    assert_eq!(a, Action::Abort(chain.clone()));
    assert_eq!(chain.render(), "Error: unexpected response: 404: i/o error: permission denied");
    assert_eq!(p.phase, Phase::Aborted);
}

#[test]
fn missing_cache_fetches_quote_page_and_saves() {
    let mut p = run();
    let a = p.step(Event::CacheRead(None));
    assert_eq!(a, Action::FetchQuotePage("http://finance.yahoo.com/quote/^GSPC".to_string()));
    let a = p.step(Event::QuotePage {
        status: 200,
        set_cookies: vec!["A=1; path=/".to_string(), "B=xyz&b=3; path=/".to_string()],
        body: "..\"CrumbStore\":{\"crumb\":\"q\\u002Fr\"}..".to_string(),
    });
    assert_eq!(a, Action::SaveCache("B=xyz&b=3; path=/\nq/r".to_string()));
    match p.step(Event::CacheSaved) {
        Action::FetchHistory(req) => assert_eq!(req.cookie, "B=xyz&b=3; path=/"),
        other => panic!("unexpected action {:?}", other),
    }
}

#[test]
fn corrupt_cache_is_deleted_then_fails() {
    let mut p = run();
    assert_eq!(p.step(Event::CacheRead(Some("one line".to_string()))), Action::DeleteCache);
    assert_eq!(p.step(Event::CacheDeleted(None)), Action::Abort(ErrorChain::single(ErrorKind::CorruptCache)));
    let mut q = run();
    assert_eq!(q.step(Event::CacheRead(None)), Action::FetchQuotePage("http://finance.yahoo.com/quote/^GSPC".to_string()));
}

#[test]
fn quote_page_errors() {
    let no = vec!["A=1".to_string()];
    let yes = vec!["B=1".to_string()];
    assert_eq!(session_from_page(503, &yes, ""), Err(ErrorKind::UnexpectedStatusCode(503)));
    assert_eq!(session_from_page(200, &no, ""), Err(ErrorKind::MissingCookie));
    assert_eq!(session_from_page(200, &yes, "nothing"), Err(ErrorKind::ParseCrumb));
    assert_eq!(select_session_cookie(&vec!["B".to_string(), "B=2".to_string()]), Ok("B=2".to_string()));
}

#[test]
fn history_query_parameters() {
    let r = DateRange::new(-5, 1583366400).unwrap();
    let params = history_params(&r, Interval::Monthly, "c");
    let expect: Vec<(String, String)> = vec![
        ("period1".to_string(), "-5".to_string()),
        ("period2".to_string(), "1583366400".to_string()),
        ("interval".to_string(), "1mo".to_string()),
        ("events".to_string(), "history".to_string()),
        ("crumb".to_string(), "c".to_string()),
    ];
    assert_eq!(params, expect);
    assert_eq!(DateRange::new(2, 1), Err(ErrorKind::InvalidInput));
    let t = SessionToken { cookie: "B=z".to_string(), crumb: "a b".to_string() };
    let req = history_request("IBM", &t, &r, Interval::Weekly).unwrap();
    assert_eq!(
        req.url,
        "http://query1.finance.yahoo.com/v7/finance/download/IBM?period1=-5&period2=1583366400&interval=1wk&events=history&crumb=a+b"
    );
}

#[test]
fn network_failure_on_download_invalidates() {
    let mut p = run();
    p.step(Event::CacheRead(Some("B=abc\ncr".to_string())));
    assert_eq!(p.step(Event::Failed(ErrorKind::Network("reset".to_string()))), Action::DeleteCache);
    assert_eq!(p.phase, Phase::InvalidatingCache(ErrorKind::Network("reset".to_string())));
}

#[test]
fn error_messages() {
    assert_eq!(ErrorKind::ParseCrumb.message(), "unable to parse crumb");
    assert_eq!(ErrorKind::UnexpectedStatusCode(500).message(), "unexpected response: 500");
    assert_eq!(ErrorChain::single(ErrorKind::MalformedRow).render(), "Error: not enough columns");
}
