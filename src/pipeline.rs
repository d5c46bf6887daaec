//! The decisions of one run: acquire a session (cached or fresh), fetch the
//! history, write the output; invalidate the cached session when the
//! download is refused. The caller performs each action and reports what
//! happened as the next event.
use vstd::prelude::*;
use crate::errors::{ErrorChain, ErrorKind};
use crate::fnu::{fnu_text, write_fnu};
use crate::options::{DataValue, Interval};
use crate::request::{
    DateRange, HistoryRequest, history_body, history_request, history_url_of, quote_page_url, quote_url,
    session_cookie_from, session_from_page, page_session_ok, page_error,
};
use crate::token::{LoadError, SessionToken, cache_text_of, load, load_result};

verus! {

/// Where a run stands.
#[derive(Debug, Clone, PartialEq, Eq)]
pub enum Phase {
    /// Waiting for the cache file's contents.
    ReadingCache,
    /// Deleting a corrupt cache file; the run then fails.
    DeletingCorruptCache,
    /// Waiting for the quote page.
    FetchingQuotePage,
    /// Saving a fresh session before it is used.
    SavingCache(SessionToken),
    /// Waiting for the history download.
    FetchingHistory,
    /// Deleting the cached session after the download failed with this error.
    InvalidatingCache(ErrorKind),
    /// Waiting for the output to be written.
    WritingOutput,
    /// The output is written.
    Done,
    /// The run failed.
    Aborted,
}

/// What the caller reports after performing an action.
#[derive(Debug, Clone, PartialEq, Eq)]
pub enum Event {
    /// The cache file's contents, or `None` when there is no file.
    CacheRead(Option<String>),
    /// The cache file is gone (`None`), or deleting it failed with this message.
    CacheDeleted(Option<String>),
    /// The quote page's response: status, set-cookie entries, body.
    QuotePage { status: u16, set_cookies: Vec<String>, body: String },
    /// The fresh session is saved.
    CacheSaved,
    /// The history response: status and body.
    HistoryFetched { status: u16, body: String },
    /// The output file is written.
    OutputWritten,
    /// The action failed (a file or transport error).
    Failed(ErrorKind),
}

/// What the caller does next.
#[derive(Debug, Clone, PartialEq, Eq)]
pub enum Action {
    /// Read the cache file.
    ReadCache,
    /// Delete the cache file; a missing file counts as deleted.
    DeleteCache,
    /// Fetch this quote page.
    FetchQuotePage(String),
    /// Write this text to the cache file.
    SaveCache(String),
    /// Send this download request.
    FetchHistory(HistoryRequest),
    /// Write this text to the output file.
    WriteOutput(String),
    /// The run succeeded.
    Finish,
    /// The run failed with this chain.
    Abort(ErrorChain),
}

/// One run of the tool for one symbol.
#[derive(Debug)]
pub struct Pipeline {
    pub symbol: String,
    pub value: DataValue,
    pub range: DateRange,
    pub interval: Interval,
    pub phase: Phase,
}

/// The action fails the run with exactly these causes.
pub open spec fn aborts_with(a: Action, causes: Seq<ErrorKind>) -> bool {
    a matches Action::Abort(c) && c.causes@ == causes
}

impl Pipeline {
    /// A run that starts by reading the cache file (action `ReadCache`).
    pub fn new(symbol: String, value: DataValue, range: DateRange, interval: Interval) -> (r: Pipeline)
        requires
            range.wf(),
        ensures
            r.symbol == symbol,
            r.value == value,
            r.range == range,
            r.interval == interval,
            r.phase == Phase::ReadingCache,
    {
        Pipeline { symbol, value, range, interval, phase: Phase::ReadingCache }
    }

    /// The step once a session is at hand: request the history with it.
    pub open spec fn fetch_step(&self, cookie: Seq<char>, crumb: Seq<char>, phase: Phase, a: Action) -> bool {
        match history_url_of(self.symbol@, self.range, self.interval, crumb) {
            Some(u) => phase == Phase::FetchingHistory && (a matches Action::FetchHistory(req)
                && req.url@ == u && req.cookie@ == cookie),
            None => phase == Phase::Aborted && aborts_with(a, seq![ErrorKind::InvalidInput]),
        }
    }

    fn fetch_with(&self, token: &SessionToken) -> (r: (Phase, Action))
        ensures
            self.fetch_step(token.cookie@, token.crumb@, r.0, r.1),
    {
        match history_request(self.symbol.as_str(), token, &self.range, self.interval) {
            Ok(req) => (Phase::FetchingHistory, Action::FetchHistory(req)),
            Err(e) => (Phase::Aborted, Action::Abort(ErrorChain::single(e))),
        }
    }

    /// Advances the run by one event and says what to do next.
    pub fn step(&mut self, event: Event) -> (a: Action)
        ensures
            final(self).symbol == old(self).symbol,
            final(self).value == old(self).value,
            final(self).range == old(self).range,
            final(self).interval == old(self).interval,
            // Reading the cache: a valid token goes straight to the download,
            // a missing file to the quote page, a corrupt one is deleted.
            old(self).phase == Phase::ReadingCache ==> match event {
                Event::CacheRead(c) => match load_result(
                    match c {
                        Some(s) => Some(s@),
                        None => None,
                    },
                ) {
                    Ok((cookie, crumb)) => old(self).fetch_step(cookie, crumb, final(self).phase, a),
                    Err(LoadError::NotFound) => final(self).phase == Phase::FetchingQuotePage
                        && (a matches Action::FetchQuotePage(u) && u@ == quote_page_url()),
                    Err(LoadError::CorruptCache) => final(self).phase == Phase::DeletingCorruptCache
                        && a == Action::DeleteCache,
                },
                Event::Failed(e) => final(self).phase == Phase::Aborted && aborts_with(a, seq![e]),
                _ => final(self).phase == Phase::Aborted && aborts_with(a, seq![ErrorKind::InvalidInput]),
            },
            // A corrupt cache fails the run once it is deleted.
            old(self).phase == Phase::DeletingCorruptCache ==> final(self).phase == Phase::Aborted && match event {
                Event::CacheDeleted(None) => aborts_with(a, seq![ErrorKind::CorruptCache]),
                Event::CacheDeleted(Some(m)) => aborts_with(a, seq![ErrorKind::CorruptCache, ErrorKind::Io(m)]),
                Event::Failed(e) => aborts_with(a, seq![ErrorKind::CorruptCache, e]),
                _ => aborts_with(a, seq![ErrorKind::InvalidInput]),
            },
            // The quote page yields a fresh session, which is saved first.
            old(self).phase == Phase::FetchingQuotePage ==> match event {
                Event::QuotePage { status, set_cookies, body } => if page_session_ok(status, set_cookies.deep_view(), body@) {
                    final(self).phase matches Phase::SavingCache(t)
                        && t.cookie@ == set_cookies.deep_view()[session_cookie_from(set_cookies.deep_view(), 0)->0]
                        && crate::crumb::crumb_of(body@) == Some(t.crumb@)
                        && (a matches Action::SaveCache(text) && text@ == cache_text_of(t.cookie@, t.crumb@))
                } else {
                    final(self).phase == Phase::Aborted && aborts_with(
                        a,
                        seq![page_error(status, set_cookies.deep_view())],
                    )
                },
                Event::Failed(e) => final(self).phase == Phase::Aborted && aborts_with(a, seq![e]),
                _ => final(self).phase == Phase::Aborted && aborts_with(a, seq![ErrorKind::InvalidInput]),
            },
            // Once saved, the fresh session authorizes the download.
            old(self).phase matches Phase::SavingCache(t) ==> match event {
                Event::CacheSaved => old(self).fetch_step(t.cookie@, t.crumb@, final(self).phase, a),
                Event::Failed(e) => final(self).phase == Phase::Aborted && aborts_with(a, seq![e]),
                _ => final(self).phase == Phase::Aborted && aborts_with(a, seq![ErrorKind::InvalidInput]),
            },
            // A refused or failed download invalidates the cached session;
            // an accepted one is turned into the output.
            old(self).phase == Phase::FetchingHistory ==> match event {
                Event::HistoryFetched { status, body } => if status == 200 {
                    match fnu_text(body@, old(self).symbol@, old(self).value) {
                        Ok(text) => final(self).phase == Phase::WritingOutput
                            && (a matches Action::WriteOutput(w) && w@ == text),
                        Err(e) => final(self).phase == Phase::Aborted && aborts_with(a, seq![e]),
                    }
                } else {
                    final(self).phase == Phase::InvalidatingCache(ErrorKind::UnexpectedStatusCode(status))
                        && a == Action::DeleteCache
                },
                Event::Failed(e) => final(self).phase == Phase::InvalidatingCache(e) && a == Action::DeleteCache,
                _ => final(self).phase == Phase::Aborted && aborts_with(a, seq![ErrorKind::InvalidInput]),
            },
            // After invalidation the run fails, reporting both the download
            // failure and, if it happened, the failure to delete.
            old(self).phase matches Phase::InvalidatingCache(e0) ==> final(self).phase == Phase::Aborted && match event {
                Event::CacheDeleted(None) => aborts_with(a, seq![e0]),
                Event::CacheDeleted(Some(m)) => aborts_with(a, seq![e0, ErrorKind::Io(m)]),
                Event::Failed(e) => aborts_with(a, seq![e0, e]),
                _ => aborts_with(a, seq![ErrorKind::InvalidInput]),
            },
            old(self).phase == Phase::WritingOutput ==> match event {
                Event::OutputWritten => final(self).phase == Phase::Done && a == Action::Finish,
                Event::Failed(e) => final(self).phase == Phase::Aborted && aborts_with(a, seq![e]),
                _ => final(self).phase == Phase::Aborted && aborts_with(a, seq![ErrorKind::InvalidInput]),
            },
            old(self).phase == Phase::Done ==> final(self).phase == Phase::Done && a == Action::Finish,
            old(self).phase == Phase::Aborted ==> final(self).phase == Phase::Aborted && aborts_with(
                a,
                seq![ErrorKind::InvalidInput],
            ),
    {
        let mut phase = Phase::Aborted;
        std::mem::swap(&mut phase, &mut self.phase);
        let (next, action) = match phase {
            Phase::ReadingCache => match event {
                Event::CacheRead(c) => {
                    let loaded = match &c {
                        Some(s) => load(Some(s.as_str())),
                        None => load(None),
                    };
                    match loaded {
                        Ok(t) => self.fetch_with(&t),
                        Err(LoadError::NotFound) => (Phase::FetchingQuotePage, Action::FetchQuotePage(quote_url())),
                        Err(LoadError::CorruptCache) => (Phase::DeletingCorruptCache, Action::DeleteCache),
                    }
                },
                Event::Failed(e) => (Phase::Aborted, Action::Abort(ErrorChain::single(e))),
                _ => (Phase::Aborted, Action::Abort(ErrorChain::single(ErrorKind::InvalidInput))),
            },
            Phase::DeletingCorruptCache => match event {
                Event::CacheDeleted(None) => (Phase::Aborted, Action::Abort(ErrorChain::single(ErrorKind::CorruptCache))),
                Event::CacheDeleted(Some(m)) => (Phase::Aborted, Action::Abort(ErrorChain { causes: vec![ErrorKind::CorruptCache, ErrorKind::Io(m)] })),
                Event::Failed(e) => (Phase::Aborted, Action::Abort(ErrorChain { causes: vec![ErrorKind::CorruptCache, e] })),
                _ => (Phase::Aborted, Action::Abort(ErrorChain::single(ErrorKind::InvalidInput))),
            },
            Phase::FetchingQuotePage => match event {
                Event::QuotePage { status, set_cookies, body } => match session_from_page(status, &set_cookies, body.as_str()) {
                    Ok(t) => {
                        let text = t.cache_text();
                        (Phase::SavingCache(t), Action::SaveCache(text))
                    },
                    Err(e) => (Phase::Aborted, Action::Abort(ErrorChain::single(e))),
                },
                Event::Failed(e) => (Phase::Aborted, Action::Abort(ErrorChain::single(e))),
                _ => (Phase::Aborted, Action::Abort(ErrorChain::single(ErrorKind::InvalidInput))),
            },
            Phase::SavingCache(t) => match event {
                Event::CacheSaved => self.fetch_with(&t),
                Event::Failed(e) => (Phase::Aborted, Action::Abort(ErrorChain::single(e))),
                _ => (Phase::Aborted, Action::Abort(ErrorChain::single(ErrorKind::InvalidInput))),
            },
            Phase::FetchingHistory => match event {
                Event::HistoryFetched { status, body } => match history_body(status, body) {
                    Ok(csv) => match write_fnu(csv.as_str(), self.symbol.as_str(), self.value) {
                        Ok(text) => (Phase::WritingOutput, Action::WriteOutput(text)),
                        Err(e) => (Phase::Aborted, Action::Abort(ErrorChain::single(e))),
                    },
                    Err(e) => (Phase::InvalidatingCache(e), Action::DeleteCache),
                },
                Event::Failed(e) => (Phase::InvalidatingCache(e), Action::DeleteCache),
                _ => (Phase::Aborted, Action::Abort(ErrorChain::single(ErrorKind::InvalidInput))),
            },
            Phase::InvalidatingCache(e0) => match event {
                Event::CacheDeleted(None) => (Phase::Aborted, Action::Abort(ErrorChain::single(e0))),
                Event::CacheDeleted(Some(m)) => (Phase::Aborted, Action::Abort(ErrorChain { causes: vec![e0, ErrorKind::Io(m)] })),
                Event::Failed(e) => (Phase::Aborted, Action::Abort(ErrorChain { causes: vec![e0, e] })),
                _ => (Phase::Aborted, Action::Abort(ErrorChain::single(ErrorKind::InvalidInput))),
            },
            Phase::WritingOutput => match event {
                Event::OutputWritten => (Phase::Done, Action::Finish),
                Event::Failed(e) => (Phase::Aborted, Action::Abort(ErrorChain::single(e))),
                _ => (Phase::Aborted, Action::Abort(ErrorChain::single(ErrorKind::InvalidInput))),
            },
            Phase::Done => (Phase::Done, Action::Finish),
            Phase::Aborted => (Phase::Aborted, Action::Abort(ErrorChain::single(ErrorKind::InvalidInput))),
        };
        self.phase = next;
        action
    }
}

} // verus!
