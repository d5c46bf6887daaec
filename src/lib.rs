//! Fetches a symbol's daily price history from the quote provider and turns
//! it into an FNU flat file. The provider's download needs a session cookie
//! and the crumb scraped from its quote page; both are cached between runs
//! and the cache is invalidated when a download is refused.
//!
//! Everything here is a function of plain values: reading and writing files
//! and talking to the network are left to the caller, which performs the
//! actions that a [`pipeline::Pipeline`] asks for.
use vstd::prelude::*;

pub mod text;
pub mod errors;
pub mod crumb;
pub mod token;
pub mod options;
pub mod fnu;
pub mod request;
pub mod pipeline;

verus! {

} // verus!
