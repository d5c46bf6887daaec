//! The cached session: a cookie and the crumb bound to it, kept as two lines.
use vstd::prelude::*;
use crate::text::{chars_of, lines_chars, lines_of, push_str, string_of, split_on, strip_cr,
    lemma_split_concat, lemma_split_without_sep};

verus! {

/// A session cookie and the crumb that was issued with it.
#[derive(Debug, Clone, PartialEq, Eq)]
pub struct SessionToken {
    pub cookie: String,
    pub crumb: String,
}

/// Why a cached session could not be used.
#[derive(Debug, Clone, Copy, PartialEq, Eq, Structural)]
pub enum LoadError {
    /// There is no cache file.
    NotFound,
    /// The cache file does not hold exactly two lines; it must be deleted.
    CorruptCache,
}

/// The text of the cache file for a token: the cookie, a line feed, the crumb.
pub open spec fn cache_text_of(cookie: Seq<char>, crumb: Seq<char>) -> Seq<char> {
    cookie + seq!['\n'] + crumb
}

/// What loading yields for the file's contents (`None`: no file): the two
/// lines as cookie and crumb, or the reason there is no token.
pub open spec fn load_result(contents: Option<Seq<char>>) -> Result<(Seq<char>, Seq<char>), LoadError> {
    match contents {
        None => Err(LoadError::NotFound),
        Some(c) => if lines_of(c).len() == 2 {
            Ok((lines_of(c)[0], lines_of(c)[1]))
        } else {
            Err(LoadError::CorruptCache)
        },
    }
}

impl SessionToken {
    /// The text to write to the cache file.
    pub fn cache_text(&self) -> (r: String)
        ensures
            r@ == cache_text_of(self.cookie@, self.crumb@),
    {
        let mut out: Vec<char> = Vec::new();
        push_str(&mut out, self.cookie.as_str());
        out.push('\n');
        push_str(&mut out, self.crumb.as_str());
        string_of(out.as_slice())
    }
}

/// Reads a token from the cache file's contents (`None` when there is no
/// file). On `CorruptCache` the caller deletes the file.
pub fn load(contents: Option<&str>) -> (r: Result<SessionToken, LoadError>)
    ensures
        match (r, load_result(match contents {
            Some(c) => Some(c@),
            None => None,
        })) {
            (Ok(t), Ok((cookie, crumb))) => t.cookie@ == cookie && t.crumb@ == crumb,
            (Err(e), Err(f)) => e == f,
            _ => false,
        },
{
    match contents {
        None => Err(LoadError::NotFound),
        Some(c) => {
            let cs = chars_of(c);
            let lines = lines_chars(cs.as_slice());
            if lines.len() != 2 {
                Err(LoadError::CorruptCache)
            } else {
                assert(lines[0]@ == lines.deep_view()[0]);
                assert(lines[1]@ == lines.deep_view()[1]);
                let cookie = string_of(lines[0].as_slice());
                let crumb = string_of(lines[1].as_slice());
                Ok(SessionToken { cookie, crumb })
            }
        },
    }
}

/// Saving a token and loading the file gives the token back, when both
/// fields are non-empty single lines that do not end in a carriage return.
pub proof fn lemma_save_then_load(cookie: Seq<char>, crumb: Seq<char>)
    requires
        cookie.len() > 0,
        crumb.len() > 0,
        !cookie.contains('\n'),
        !crumb.contains('\n'),
        cookie.last() != '\r',
        crumb.last() != '\r',
    ensures
        load_result(Some(cache_text_of(cookie, crumb))) == Ok::<(Seq<char>, Seq<char>), LoadError>(
            (cookie, crumb),
        ),
{
    let t = cache_text_of(cookie, crumb);
    lemma_split_concat(cookie, crumb, '\n');
    lemma_split_without_sep(cookie, '\n');
    lemma_split_without_sep(crumb, '\n');
    let p = split_on(t, '\n');
    assert(p =~= seq![cookie, crumb]);
    assert(strip_cr(cookie) == cookie);
    assert(strip_cr(crumb) == crumb);
    assert(lines_of(t) =~= seq![cookie, crumb]);
}

/// A cache file that does not hold exactly two lines is reported as
/// corrupt (and so deleted), after which loading finds no file.
pub proof fn lemma_corrupt_cache(contents: Seq<char>)
    requires
        lines_of(contents).len() != 2,
    ensures
        load_result(Some(contents)) == Err::<(Seq<char>, Seq<char>), LoadError>(LoadError::CorruptCache),
        load_result(None) == Err::<(Seq<char>, Seq<char>), LoadError>(LoadError::NotFound),
{
}

} // verus!
