//! The field extractor and the document-scraping step: run the two fixed
//! selectors over a fetched page and pair the results.

use vstd::prelude::*;
use crate::dom::{compile_selector, parse_document, select_texts, selected_texts, selector_ok};
use crate::error::ScrapError;
use crate::listing::{pair_listings, zip_listings, Listing};

verus! {

/// The fixed selector for listing titles: the title heading element.
pub open spec fn title_pattern() -> Seq<char> {
    "h6"@
}

/// The fixed selector for listing prices: the price paragraph, picked by
/// its `data-testid` attribute.
pub open spec fn price_pattern() -> Seq<char> {
    "p[data-testid='ad-price']"@
}

/// Compiles a selector pattern and runs it over a document: the text of
/// every matching node, in document order.  Fails with `ParseError`
/// exactly when the pattern is not valid CSS.
pub fn extract_texts(html: &str, pattern: &str) -> (r: Result<Vec<String>, ScrapError>)
    ensures
        r is Ok <==> selector_ok(pattern@),
        r is Ok ==> r->Ok_0.deep_view() == selected_texts(html@, pattern@),
        r is Err ==> r->Err_0 is ParseError,
{
    let sel = match compile_selector(pattern) {
        Ok(sel) => sel,
        Err(m) => {
            return Err(ScrapError::ParseError(m));
        },
    };
    let doc = parse_document(html);
    Ok(select_texts(&doc, &sel))
}

/// Scrapes one fetched page: compiles the two fixed selectors, runs each
/// over the parsed document, and pairs the matched texts positionally.
///
/// Succeeds exactly when both fixed patterns are valid CSS (so the
/// `ParseError` arm is dead under normal operation), and then yields the
/// i-th title paired with the i-th price, truncated to the shorter match
/// sequence.
pub fn scrap_document(html: &str) -> (r: Result<Vec<Listing>, ScrapError>)
    ensures
        r is Ok <==> selector_ok(title_pattern()) && selector_ok(price_pattern()),
        r is Ok ==> r->Ok_0.deep_view() == zip_listings(
            selected_texts(html@, title_pattern()),
            selected_texts(html@, price_pattern()),
        ),
        r is Err ==> r->Err_0 is ParseError,
{
    let title_sel = match compile_selector("h6") {
        Ok(sel) => sel,
        Err(m) => {
            return Err(ScrapError::ParseError(m));
        },
    };
    let price_sel = match compile_selector("p[data-testid='ad-price']") {
        Ok(sel) => sel,
        Err(m) => {
            return Err(ScrapError::ParseError(m));
        },
    };
    let doc = parse_document(html);
    let titles = select_texts(&doc, &title_sel);
    let prices = select_texts(&doc, &price_sel);
    Ok(pair_listings(&titles, &prices))
}

} // verus!
