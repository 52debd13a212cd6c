//! Building the search URL from a query.

use vstd::prelude::*;
use crate::text::{trim, trimmed};

verus! {

/// The fixed search-URL prefix; the trimmed query is appended to it.
pub open spec fn base_url() -> Seq<char> {
    "https://www.olx.ua/uk/list/q-"@
}

/// The search URL for a query: the fixed base followed by the query with
/// its surrounding whitespace removed.  No other transformation (in
/// particular no percent-encoding and no validation) is applied.
pub fn build_url(query: &str) -> (url: String)
    ensures
        url@ == base_url() + trimmed(query@),
{
    let base: &str = "https://www.olx.ua/uk/list/q-";
    let mut url: String = base.to_owned();
    url.append(trim(query));
    url
}

} // verus!
