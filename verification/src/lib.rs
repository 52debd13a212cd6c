//! A small classifieds-listing scraper library.
//!
//! The pipeline it supports is linear: build a search URL from a query,
//! fetch the page (done by the caller), parse the returned HTML, run two
//! fixed CSS selectors over it, pair the matched title and price texts
//! positionally, and render the report lines.

pub mod dom;
pub mod error;
pub mod listing;
pub mod report;
pub mod scrape;
pub mod text;
pub mod url;
