//! The failures of the pipeline and the chain in which they are reported.
use vstd::prelude::*;
use crate::text::{push_decimal, push_str, string_of, decimal_of};

verus! {

/// One failure, of one of the kinds the pipeline distinguishes.
#[derive(Debug, Clone, PartialEq, Eq)]
pub enum ErrorKind {
    /// A bad command-line argument or an unparsable date.
    InvalidInput,
    /// A file-system failure, with the system's message.
    Io(String),
    /// A transport-level failure, with the transport's message.
    Network(String),
    /// A response whose status is not 200.
    UnexpectedStatusCode(u16),
    /// No set-cookie entry starts with `B=`.
    MissingCookie,
    /// The crumb could not be found in the page or decoded.
    ParseCrumb,
    /// The cached session file does not hold exactly two lines.
    CorruptCache,
    /// The data has no column with the wanted header.
    MissingColumn,
    /// A data row lacks the date or the selected field.
    MalformedRow,
    /// The current time could not be read.
    TimeComputation,
}

/// The text shown for each kind of failure, without its payload.
pub open spec fn kind_label(e: ErrorKind) -> Seq<char> {
    match e {
        ErrorKind::InvalidInput => "invalid input"@,
        ErrorKind::Io(_) => "i/o error"@,
        ErrorKind::Network(_) => "network error"@,
        ErrorKind::UnexpectedStatusCode(_) => "unexpected response"@,
        ErrorKind::MissingCookie => "failed to parse set-cookie header"@,
        ErrorKind::ParseCrumb => "unable to parse crumb"@,
        ErrorKind::CorruptCache => "wrong number of lines"@,
        ErrorKind::MissingColumn => "missing column"@,
        ErrorKind::MalformedRow => "not enough columns"@,
        ErrorKind::TimeComputation => "unable to read the time"@,
    }
}

/// How a failure is shown: its label, then its payload after `": "`.
pub open spec fn kind_message(e: ErrorKind) -> Seq<char> {
    match e {
        ErrorKind::Io(m) => kind_label(e) + ": "@ + m@,
        ErrorKind::Network(m) => kind_label(e) + ": "@ + m@,
        ErrorKind::UnexpectedStatusCode(s) => kind_label(e) + ": "@ + decimal_of(s as nat),
        _ => kind_label(e),
    }
}

impl ErrorKind {
    pub fn label(&self) -> (r: &'static str)
        ensures
            r@ == kind_label(*self),
    {
        match self {
            ErrorKind::InvalidInput => "invalid input",
            ErrorKind::Io(_) => "i/o error",
            ErrorKind::Network(_) => "network error",
            ErrorKind::UnexpectedStatusCode(_) => "unexpected response",
            ErrorKind::MissingCookie => "failed to parse set-cookie header",
            ErrorKind::ParseCrumb => "unable to parse crumb",
            ErrorKind::CorruptCache => "wrong number of lines",
            ErrorKind::MissingColumn => "missing column",
            ErrorKind::MalformedRow => "not enough columns",
            ErrorKind::TimeComputation => "unable to read the time",
        }
    }

    fn push_message(&self, out: &mut Vec<char>)
        ensures
            final(out)@ == old(out)@ + kind_message(*self),
    {
        push_str(out, self.label());
        match self {
            ErrorKind::Io(m) => {
                push_str(out, ": ");
                push_str(out, m.as_str());
            },
            ErrorKind::Network(m) => {
                push_str(out, ": ");
                push_str(out, m.as_str());
            },
            ErrorKind::UnexpectedStatusCode(s) => {
                push_str(out, ": ");
                push_decimal(*s as u64, out);
            },
            _ => {},
        }
        assert(final(out)@ =~= old(out)@ + kind_message(*self));
    }

    /// The text that shows this failure.
    pub fn message(&self) -> (r: String)
        ensures
            r@ == kind_message(*self),
    {
        let mut out: Vec<char> = Vec::new();
        self.push_message(&mut out);
        assert(out@ =~= kind_message(*self));
        string_of(out.as_slice())
    }
}

/// A failure together with the failures it led to, outermost first.
#[derive(Debug, Clone, PartialEq, Eq)]
pub struct ErrorChain {
    pub causes: Vec<ErrorKind>,
}

/// `"Error"`, then `": "` and the message of each cause in order.
pub open spec fn chain_text(causes: Seq<ErrorKind>) -> Seq<char>
    decreases causes.len(),
{
    if causes.len() == 0 {
        "Error"@
    } else {
        chain_text(causes.drop_last()) + ": "@ + kind_message(causes.last())
    }
}

impl ErrorChain {
    /// A chain of one failure.
    pub fn single(e: ErrorKind) -> (r: ErrorChain)
        ensures
            r.causes@ == seq![e],
    {
        ErrorChain { causes: vec![e] }
    }

    /// The report of the whole chain on one line.
    pub fn render(&self) -> (r: String)
        ensures
            r@ == chain_text(self.causes@),
    {
        let mut out: Vec<char> = Vec::new();
        push_str(&mut out, "Error");
        let mut i: usize = 0;
        while i < self.causes.len()
            invariant
                i <= self.causes@.len(),
                out@ == chain_text(self.causes@.take(i as int)),
            decreases self.causes@.len() - i,
        {
            push_str(&mut out, ": ");
            self.causes[i].push_message(&mut out);
            assert(self.causes@.take(i + 1).drop_last() == self.causes@.take(i as int));
            i = i + 1;
        }
        assert(self.causes@.take(i as int) == self.causes@);
        string_of(out.as_slice())
    }
}

} // verus!
