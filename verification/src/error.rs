//! The error taxonomy: the two recoverable failures of a scraping run.

use vstd::prelude::*;

verus! {

/// Why a scraping run ended without listings: the HTTP fetch failed at
/// the transport layer, or a CSS selector pattern failed to compile.
/// Each variant carries the originating message unchanged.
#[derive(Debug)]
pub enum ScrapError {
    RequestError(String),
    ParseError(String),
}

} // verus!
